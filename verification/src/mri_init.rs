//! MRIStep initialization before stepping: coupling table selection and checks,
//! derived stage data, workspace, solver and step size controller checks.
use vstd::prelude::*;
use crate::consts::{
    ARK_SUCCESS, ARK_ILL_INPUT, ARK_MEM_NULL, ARK_LINIT_FAIL, ARK_NLS_INIT_FAIL,
    ARK_ACCUMERROR_NONE, ARK_INTERP_NONE, FIRST_INIT, RESET_INIT, SUN_ADAPTCONTROLLER_NONE,
    SUN_ADAPTCONTROLLER_H, SUN_ADAPTCONTROLLER_MRI_H_TOL,
};
use crate::decimal::{Decimal, dec};
use crate::arkode::{
    ARKodeMem, ARKodeOptions, ARKodeStatus, ARKodeStepperInfo, ARKodeHAdaptMem, ARKEwtFn,
    ARKStepFn, ws_margin, vec_sizes_ok,
};
use crate::stepper::ARKStepMem;
use crate::mri::{
    ARKodeMRIStepMem, MRIMethodInfo, MRIWorkspace, MRISolvers, MRIStepCoupling,
    is_mri, mri_mem, with_mri, coupling_readable, coupling_ok,
    check_coupling_code, set_coupling_spec, stage_map_ok, stages_active, stage_map_entry,
    stage_type, inner_ws_ok, inner_alloc_result, lemma_active_before_bounds, lemma_coupling_words,
    mriStep_SetCoupling, mriStep_CheckCoupling,
    mriStepCoupling_GetStageMap, mriStepCoupling_GetStageType, mriStepInnerStepper_AllocVecs,
    mriStepInnerStepper_SupportsRTolAdaptivity, MRISTEP_EXPLICIT, MRISTEP_IMPLICIT, MRISTEP_IMEX,
    MRISTEP_MERK, MRISTEP_SR,
};
use crate::ls::{ls_initialize_spec, arkLsInitialize};

verus! {

/// Constant error weights are due: an explicit problem with fixed steps, internal
/// error weights and no error accumulation.
pub open spec fn efun_reset_due(a: ARKodeMem) -> bool {
    &&& !mri_mem(a).method.implicit_rhs
    &&& a.opts.fixedstep
    &&& !a.opts.user_efun
    &&& a.opts.AccumErrorType == ARK_ACCUMERROR_NONE
}

/// The integrator with constant (smallest real) error weights installed when due.
pub open spec fn init_efun(a: ARKodeMem) -> ARKodeMem {
    if efun_reset_due(a) {
        ARKodeMem {
            opts: ARKodeOptions { user_efun: false, efun: ARKEwtFn::SmallReal, ..a.opts },
            ..a
        }
    } else {
        a
    }
}

/// Installs constant error weights when due.
fn init_efun_phase(ark_mem: &mut ARKodeMem)
    requires
        is_mri(*old(ark_mem)),
    ensures
        *final(ark_mem) == init_efun(*old(ark_mem)),
{
    let implicit = match &ark_mem.step_mem {
        ARKStepMem::Mri(sm) => sm.method.implicit_rhs,
        _ => true,
    };
    let reset = !implicit && ark_mem.opts.fixedstep && !ark_mem.opts.user_efun
        && ark_mem.opts.AccumErrorType == ARK_ACCUMERROR_NONE;
    if reset {
        ark_mem.opts = ARKodeOptions { user_efun: false, efun: ARKEwtFn::SmallReal, ..ark_mem.opts };
    }
}

/// The step routine of a coupling table type (none for an unknown type).
pub open spec fn step_for_type(t: i32) -> Option<ARKStepFn> {
    if t == MRISTEP_EXPLICIT || t == MRISTEP_IMPLICIT || t == MRISTEP_IMEX {
        Some(ARKStepFn::MRIGARK)
    } else if t == MRISTEP_MERK {
        Some(ARKStepFn::MERK)
    } else if t == MRISTEP_SR {
        Some(ARKStepFn::MRISR)
    } else {
        None
    }
}

/// The integrator once its coupling table is accepted: the step routine of the
/// table's type is installed, the current solution is kept in place for stepping,
/// and the table's stage count and orders become the method's and the step size
/// controller's.
pub open spec fn init_attach(a: ARKodeMem) -> ARKodeMem {
    let sm = mri_mem(a);
    let c = sm.MRIC->Some_0;
    ARKodeMem {
        stepper: ARKodeStepperInfo { step: step_for_type(c.ctype)->Some_0, ..a.stepper },
        status: ARKodeStatus { ensure_ycur: true, ..a.status },
        hadapt_mem: Some(ARKodeHAdaptMem { q: c.q, p: c.p, ..a.hadapt_mem->Some_0 }),
        step_mem: ARKStepMem::Mri(
            ARKodeMRIStepMem {
                method: MRIMethodInfo { stages: c.stages, q: c.q, p: c.p, ..sm.method },
                ..sm
            },
        ),
        ..a
    }
}

/// Installs the step routine for the coupling table; `ARK_ILL_INPUT` (nothing
/// changed) for an unknown table type.
fn init_attach_phase(ark_mem: &mut ARKodeMem) -> (r: i32)
    requires
        is_mri(*old(ark_mem)),
        mri_mem(*old(ark_mem)).MRIC is Some,
        old(ark_mem).hadapt_mem is Some,
    ensures
        step_for_type(mri_mem(*old(ark_mem)).MRIC->Some_0.ctype) is None ==> r == ARK_ILL_INPUT
            && *final(ark_mem) == *old(ark_mem),
        step_for_type(mri_mem(*old(ark_mem)).MRIC->Some_0.ctype) is Some ==> r == ARK_SUCCESS
            && *final(ark_mem) == init_attach(*old(ark_mem)),
{
    let (t, stages, q, p) = match &ark_mem.step_mem {
        ARKStepMem::Mri(sm) => match &sm.MRIC {
            Some(c) => (c.ctype, c.stages, c.q, c.p),
            None => {
                return ARK_MEM_NULL;
            },
        },
        _ => {
            return ARK_MEM_NULL;
        },
    };
    let step = if t == MRISTEP_EXPLICIT || t == MRISTEP_IMPLICIT || t == MRISTEP_IMEX {
        ARKStepFn::MRIGARK
    } else if t == MRISTEP_MERK {
        ARKStepFn::MERK
    } else if t == MRISTEP_SR {
        ARKStepFn::MRISR
    } else {
        return ARK_ILL_INPUT;
    };
    let h = ark_mem.hadapt_mem.unwrap();
    ark_mem.stepper = ARKodeStepperInfo { step, ..ark_mem.stepper };
    ark_mem.status = ARKodeStatus { ensure_ycur: true, ..ark_mem.status };
    ark_mem.hadapt_mem = Some(ARKodeHAdaptMem { q, p, ..h });
    match &mut ark_mem.step_mem {
        ARKStepMem::Mri(sm) => {
            sm.method = MRIMethodInfo { stages, q, p, ..sm.method };
        },
        _ => {},
    }
    ARK_SUCCESS
}

/// Temporal error estimation is needed: adaptive steps or error accumulation.
pub open spec fn needs_embedding(a: ARKodeMem) -> bool {
    !a.opts.fixedstep || a.opts.AccumErrorType != ARK_ACCUMERROR_NONE
}

/// The stage map the coupling table gives (all zero when it has no coupling
/// matrices).
pub open spec fn expected_map(c: MRIStepCoupling) -> Seq<i32> {
    if !(c.has_W || c.has_G) {
        Seq::new(c.stages as nat, |j: int| 0i32)
    } else {
        Seq::new(c.stages as nat, |j: int| stage_map_entry(c, j) as i32)
    }
}

/// Integer words after the stage map is rebuilt: the old map's released, the new
/// map's counted.
pub open spec fn stage_map_liw(a: ARKodeMem) -> i64 {
    let sm = mri_mem(a);
    (a.liw - (if sm.stage_map.len() > 0 { sm.method.stages as int } else { 0 })
        + sm.MRIC->Some_0.stages) as i64
}

/// The number of stored stage right-hand sides after the stage map is rebuilt
/// (unchanged when the table has no coupling matrices, 0 when it gives no map).
pub open spec fn stage_map_count(c: MRIStepCoupling, old_count: i32) -> i32 {
    if !(c.has_W || c.has_G) {
        old_count
    } else if stage_map_ok(c) {
        stages_active(c) as i32
    } else {
        0
    }
}

/// The integrator after the stage map is rebuilt (the map itself is `map`), with
/// `ARK_ILL_INPUT` when the table gives no stage map.
pub open spec fn init_stage_map(a: ARKodeMem, map: Vec<i32>) -> (i32, ARKodeMem) {
    let sm = mri_mem(a);
    let c = sm.MRIC->Some_0;
    (
        if stage_map_ok(c) { ARK_SUCCESS } else { ARK_ILL_INPUT },
        ARKodeMem {
            liw: stage_map_liw(a),
            step_mem: ARKStepMem::Mri(
                ARKodeMRIStepMem {
                    stage_map: map,
                    work: MRIWorkspace {
                        nstages_active: stage_map_count(c, sm.work.nstages_active),
                        ..sm.work
                    },
                    ..sm
                },
            ),
            ..a
        },
    )
}

/// Bounds on the MRIStep counts that keep the accounting within machine limits:
/// each of these counts a family of vectors of the problem's length (up to 2^32
/// words), so 2^16 of each (2^18 fused-operation vectors) keeps every product and
/// their sum countable in the 64-bit workspace counters; the stage count is
/// already below 2^16 for any table whose square of stages fits in `i32`.
pub open spec fn mri_counts_ok(sm: ARKodeMRIStepMem) -> bool {
    &&& 0 <= sm.method.stages <= 0x1_0000
    &&& 0 <= sm.method.nforcing <= 0x1_0000
    &&& 0 <= sm.work.nfusedopvecs <= 0x4_0000
    &&& 0 <= sm.work.nstages_allocated <= 0x1_0000
    &&& 0 <= sm.work.nstages_active <= 0x1_0000
    &&& inner_ws_ok(sm.stepper)
}

/// A zero-filled map of `n` entries.
fn zeros(n: i32) -> (v: Vec<i32>)
    requires
        0 <= n,
    ensures
        v@ == Seq::new(n as nat, |j: int| 0i32),
{
    let mut v: Vec<i32> = Vec::new();
    let mut k: i32 = 0;
    while k < n
        invariant
            0 <= k <= n,
            v@ == Seq::new(k as nat, |j: int| 0i32),
        decreases n - k,
    {
        v.push(0);
        k = k + 1;
        proof {
            assert(v@ =~= Seq::new(k as nat, |j: int| 0i32));
        }
    }
    v
}

/// Rebuilds the stage map from the coupling table.
fn init_stage_map_phase(ark_mem: &mut ARKodeMem) -> (r: i32)
    requires
        is_mri(*old(ark_mem)),
        mri_mem(*old(ark_mem)).MRIC matches Some(c) && coupling_ok(c),
        mri_counts_ok(mri_mem(*old(ark_mem))),
        ws_margin(*old(ark_mem), 0x10_0000),
    ensures
        (r, *final(ark_mem)) == init_stage_map(*old(ark_mem), mri_mem(*final(ark_mem)).stage_map),
        is_mri(*final(ark_mem)),
        mri_counts_ok(mri_mem(*final(ark_mem))),
        mri_mem(*final(ark_mem)).stage_map@ == expected_map(mri_mem(*old(ark_mem)).MRIC->Some_0),
{
    let mut se = ARKStepMem::NoStepper;
    std::mem::swap(&mut se, &mut ark_mem.step_mem);
    let sm = match se {
        ARKStepMem::Mri(sm) => sm,
        other => {
            ark_mem.step_mem = other;
            return ARK_MEM_NULL;
        },
    };
    let (sm2, rc) = rebuild_stage_map(sm);
    let liw = ark_mem.liw - (if sm2.0 { sm2.1 as i64 } else { 0 }) + sm2.2 as i64;
    ark_mem.liw = liw;
    ark_mem.step_mem = ARKStepMem::Mri(sm2.3);
    rc
}

/// Rebuilds the stage map of an MRIStep memory (computed): whether an old map
/// existed, the old stage count, the table's stage count, the new memory, and the
/// code.
fn rebuild_stage_map(sm: ARKodeMRIStepMem) -> (r: ((bool, i32, i32, ARKodeMRIStepMem), i32))
    requires
        sm.MRIC matches Some(c) && coupling_ok(c),
        mri_counts_ok(sm),
    ensures
        ({
            let c = sm.MRIC->Some_0;
            let nsm = r.0.3;
            &&& r.0.0 == (sm.stage_map.len() > 0)
            &&& r.0.1 == sm.method.stages
            &&& r.0.2 == c.stages
            &&& r.1 == (if stage_map_ok(c) { ARK_SUCCESS } else { ARK_ILL_INPUT })
            &&& nsm == ARKodeMRIStepMem {
                stage_map: nsm.stage_map,
                work: MRIWorkspace {
                    nstages_active: stage_map_count(c, sm.work.nstages_active),
                    ..sm.work
                },
                ..sm
            }
            &&& nsm.stage_map@ == expected_map(c)
            &&& 0 <= stage_map_count(c, sm.work.nstages_active) <= 0x1_0000
        }),
{
    let had = sm.stage_map.len() > 0;
    let stages_old = sm.method.stages;
    let mut nsa = sm.work.nstages_active;
    let (rc, map, c_stages) = match &sm.MRIC {
        Some(c) => {
            let mut map = zeros(c.stages);
            let rc = mriStepCoupling_GetStageMap(c, &mut map, &mut nsa);
            proof {
                assert(map@ =~= expected_map(*c));
                if c.has_W || c.has_G {
                    if stage_map_ok(*c) {
                        if !(c.ctype == MRISTEP_MERK || c.ctype == MRISTEP_SR) {
                            lemma_active_before_bounds(*c, c.stages as int);
                        }
                    }
                }
                assert(nsa == stage_map_count(*c, sm.work.nstages_active));
                if c.has_W || c.has_G {
                    if stage_map_ok(*c) && !(c.ctype == MRISTEP_MERK || c.ctype == MRISTEP_SR) {
                        lemma_active_before_bounds(*c, c.stages as int);
                    }
                }
            }
            (if rc == ARK_SUCCESS { ARK_SUCCESS } else { ARK_ILL_INPUT }, map, c.stages)
        },
        None => (ARK_MEM_NULL, Vec::new(), 0),
    };
    let nsm = ARKodeMRIStepMem {
        stage_map: map,
        work: MRIWorkspace { nstages_active: nsa, ..sm.work },
        ..sm
    };
    ((had, stages_old, c_stages, nsm), rc)
}

/// The stage types the coupling table gives, for stages `0..=stages`.
pub open spec fn expected_types(c: MRIStepCoupling) -> Seq<i32> {
    Seq::new((c.stages + 1) as nat, |j: int| stage_type(c, j))
}

/// Size of the fused vector operation workspace a table needs.
pub open spec fn fused_size(c: MRIStepCoupling, nforcing: int) -> int {
    let n = 2 * c.stages + 2 + nforcing;
    if n > 3 { n } else { 3 }
}

/// The integrator after the stage types (held in `types`), the explicit and
/// implicit coefficient rows and the fused-operation workspace are set up for the
/// table: old arrays are released and new ones counted, and the fused workspace is
/// replaced only when too small.
pub open spec fn init_tables(a: ARKodeMem, types: Vec<i32>) -> ARKodeMem {
    let sm = mri_mem(a);
    ARKodeMem {
        lrw: tables_lrw(a),
        liw: tables_liw(a),
        step_mem: ARKStepMem::Mri(ARKodeMRIStepMem { stagetypes: types, work: tables_work(sm), ..sm }),
        ..a
    }
}

/// Real words after the stage tables are set up.
pub open spec fn tables_lrw(a: ARKodeMem) -> i64 {
    let sm = mri_mem(a);
    let c = sm.MRIC->Some_0;
    let s = sm.method.stages as int;
    let w = sm.work;
    let lrw1 = a.lrw - (if w.Ae_row { s } else { 0 }) + c.stages - (if w.Ai_row { s } else { 0 })
        + c.stages;
    let fused = fused_size(c, sm.method.nforcing as int);
    let rel: int = if w.cvals { w.nfusedopvecs as int } else { 0 };
    (if w.nfusedopvecs < fused { lrw1 - rel + fused } else { lrw1 }) as i64
}

/// Integer words after the stage tables are set up.
pub open spec fn tables_liw(a: ARKodeMem) -> i64 {
    let sm = mri_mem(a);
    let c = sm.MRIC->Some_0;
    let s = sm.method.stages as int;
    let w = sm.work;
    let liw1 = a.liw - (if sm.stagetypes.len() > 0 { s } else { 0 }) + (c.stages + 1);
    let fused = fused_size(c, sm.method.nforcing as int);
    let rel: int = if w.cvals { w.nfusedopvecs as int } else { 0 };
    (if w.nfusedopvecs < fused { liw1 - rel + fused } else { liw1 }) as i64
}

/// MRIStep workspace after the stage tables are set up.
pub open spec fn tables_work(sm: ARKodeMRIStepMem) -> MRIWorkspace {
    let w = sm.work;
    let fused = fused_size(sm.MRIC->Some_0, sm.method.nforcing as int);
    let grow = w.nfusedopvecs < fused;
    MRIWorkspace {
        Ae_row: true,
        Ai_row: true,
        cvals: if grow { true } else { w.cvals },
        nfusedopvecs: if grow { fused as i32 } else { w.nfusedopvecs },
        ..w
    }
}

/// Sets up the stage types, coefficient rows and fused-operation workspace.
fn init_tables_phase(ark_mem: &mut ARKodeMem)
    requires
        is_mri(*old(ark_mem)),
        mri_mem(*old(ark_mem)).MRIC matches Some(c) && coupling_ok(c) && c.stages >= 1,
        mri_counts_ok(mri_mem(*old(ark_mem))),
        ws_margin(*old(ark_mem), 0x10_0000),
    ensures
        *final(ark_mem) == init_tables(*old(ark_mem), mri_mem(*final(ark_mem)).stagetypes),
        mri_mem(*final(ark_mem)).stagetypes@ == expected_types(mri_mem(*old(ark_mem)).MRIC->Some_0),
{
    let (lrw, liw) = tables_words(ark_mem);
    let mut se = ARKStepMem::NoStepper;
    std::mem::swap(&mut se, &mut ark_mem.step_mem);
    let sm = match se {
        ARKStepMem::Mri(sm) => sm,
        other => {
            ark_mem.step_mem = other;
            return;
        },
    };
    let nsm = rebuild_tables(sm);
    ark_mem.lrw = lrw;
    ark_mem.liw = liw;
    ark_mem.step_mem = ARKStepMem::Mri(nsm);
}

/// Workspace words after the stage tables are set up (computed).
fn tables_words(a: &ARKodeMem) -> (r: (i64, i64))
    requires
        is_mri(*a),
        mri_mem(*a).MRIC matches Some(c) && coupling_ok(c),
        mri_counts_ok(mri_mem(*a)),
        ws_margin(*a, 0x10_0000),
    ensures
        r.0 == tables_lrw(*a),
        r.1 == tables_liw(*a),
{
    match &a.step_mem {
        ARKStepMem::Mri(sm) => match &sm.MRIC {
            Some(c) => {
                let s = sm.method.stages as i64;
                let w = sm.work;
                let cs = c.stages as i64;
                let liw1 = a.liw - (if sm.stagetypes.len() > 0 { s } else { 0 }) + (cs + 1);
                let lrw1 = a.lrw - (if w.Ae_row { s } else { 0 }) + cs - (if w.Ai_row { s } else { 0 })
                    + cs;
                let n = 2 * c.stages + 2 + sm.method.nforcing;
                let fused: i32 = if n > 3 { n } else { 3 };
                let rel: i64 = if w.cvals { w.nfusedopvecs as i64 } else { 0 };
                if w.nfusedopvecs < fused {
                    (lrw1 - rel + fused as i64, liw1 - rel + fused as i64)
                } else {
                    (lrw1, liw1)
                }
            },
            None => (0, 0),
        },
        _ => (0, 0),
    }
}

/// The MRIStep memory with its stage types computed and its tables set up
/// (computed).
fn rebuild_tables(sm: ARKodeMRIStepMem) -> (r: ARKodeMRIStepMem)
    requires
        sm.MRIC matches Some(c) && coupling_ok(c),
        mri_counts_ok(sm),
    ensures
        r == (ARKodeMRIStepMem { stagetypes: r.stagetypes, work: tables_work(sm), ..sm }),
        r.stagetypes@ == expected_types(sm.MRIC->Some_0),
{
    let mut types: Vec<i32> = Vec::new();
    let mut fused: i32 = 3;
    match &sm.MRIC {
        Some(c) => {
            let mut j: i32 = 0;
            while j <= c.stages
                invariant
                    coupling_ok(*c),
                    0 <= j <= c.stages + 1,
                    types@ == Seq::new(j as nat, |k: int| stage_type(*c, k)),
                decreases c.stages + 1 - j,
            {
                let t = mriStepCoupling_GetStageType(c, j);
                types.push(t);
                j = j + 1;
                proof {
                    assert(types@ =~= Seq::new(j as nat, |k: int| stage_type(*c, k)));
                }
            }
            let n = 2 * c.stages + 2 + sm.method.nforcing;
            fused = if n > 3 { n } else { 3 };
        },
        None => {},
    }
    let w = sm.work;
    let grow = w.nfusedopvecs < fused;
    let w2 = MRIWorkspace {
        Ae_row: true,
        Ai_row: true,
        cvals: if grow { true } else { w.cvals },
        nfusedopvecs: if grow { fused } else { w.nfusedopvecs },
        ..w
    };
    ARKodeMRIStepMem { stagetypes: types, work: w2, ..sm }
}

/// `n * w` words for up to `0x4_0000` vectors of at most `2^32` words (computed).
fn mul_words(n: i64, w: i64) -> (r: i64)
    requires
        0 <= n <= 0x4_0000,
        0 <= w <= 0x1_0000_0000,
    ensures
        r == n * w,
        0 <= r <= 0x4_0000 * 0x1_0000_0000,
{
    proof {
        assert(0 <= n * w <= 0x4_0000 * 0x1_0000_0000) by (nonlinear_arith)
            requires
                0 <= n <= 0x4_0000,
                0 <= w <= 0x1_0000_0000,
        ;
    }
    n * w
}

/// `k * x` for `k` in `0..=2` (computed).
fn up_to_two(k: i64, x: i64) -> (r: i64)
    requires
        0 <= k <= 2,
        0 <= x <= 0x4_0000 * 0x1_0000_0000,
    ensures
        r == k * x,
        0 <= r <= 2 * 0x4_0000 * 0x1_0000_0000,
{
    if k == 0 {
        0
    } else if k == 1 {
        x
    } else {
        x + x
    }
}

/// MRI-SR tables applied to a problem that is only explicit or only implicit keep
/// a single set of slow right-hand side vectors.
pub open spec fn unify_due(c: MRIStepCoupling, m: MRIMethodInfo) -> bool {
    c.ctype == MRISTEP_SR && (m.explicit_rhs != m.implicit_rhs)
}

/// Vector arrays (counted in vectors) released and allocated for the stage
/// right-hand sides: when more are active than allocated, the existing arrays of
/// the parts the problem has are released and new arrays of the active count
/// allocated where absent.
pub open spec fn rhs_arrays(sm: ARKodeMRIStepMem) -> (bool, bool, int, int) {
    let m = sm.method;
    let w = sm.work;
    let unify = unify_due(sm.MRIC->Some_0, m);
    let grow = w.nstages_allocated < w.nstages_active;
    let free_e = grow && w.nstages_allocated > 0 && m.explicit_rhs && w.Fse;
    let free_i = grow && w.nstages_allocated > 0 && m.implicit_rhs && !unify && w.Fsi;
    let fse1 = w.Fse && !free_e;
    let fsi1 = w.Fsi && !free_i;
    let alloc_e = grow && (m.explicit_rhs || unify) && !fse1;
    let alloc_i = grow && m.implicit_rhs && !unify && !fsi1;
    (
        fse1 || alloc_e,
        fsi1 || alloc_i,
        (if free_e { 1int } else { 0int }) + (if free_i { 1int } else { 0int }),
        (if alloc_e { 1int } else { 0int }) + (if alloc_i { 1int } else { 0int }),
    )
}

/// Number of implicit-solve vectors (stage data, predictor, correction) allocated:
/// those missing, for a problem with an implicit part.
pub open spec fn implicit_vecs_added(sm: ARKodeMRIStepMem) -> int {
    if sm.method.implicit_rhs {
        (if sm.work.sdata { 0int } else { 1int }) + (if sm.work.zpred { 0int } else { 1int }) + (
        if sm.work.zcor { 0int } else { 1int })
    } else {
        0
    }
}

/// Real words after the stage vectors are set up.
pub open spec fn vectors_lrw(a: ARKodeMem) -> int {
    let sm = mri_mem(a);
    let arr = rhs_arrays(sm);
    a.lrw - arr.2 * (sm.work.nstages_allocated * a.lrw1) + arr.3 * (sm.work.nstages_active * a.lrw1)
        + implicit_vecs_added(sm) * a.lrw1
}

/// Integer words after the stage vectors are set up.
pub open spec fn vectors_liw(a: ARKodeMem) -> int {
    let sm = mri_mem(a);
    let arr = rhs_arrays(sm);
    a.liw - arr.2 * (sm.work.nstages_allocated * a.liw1) + arr.3 * (sm.work.nstages_active * a.liw1)
        + implicit_vecs_added(sm) * a.liw1
}

/// MRIStep workspace after the stage vectors are set up.
pub open spec fn vectors_work(sm: ARKodeMRIStepMem) -> MRIWorkspace {
    let m = sm.method;
    let w = sm.work;
    let arr = rhs_arrays(sm);
    MRIWorkspace {
        Fse: arr.0,
        Fsi: arr.1,
        nstages_allocated: if w.nstages_allocated < w.nstages_active {
            w.nstages_active
        } else {
            w.nstages_allocated
        },
        sdata: if m.implicit_rhs { true } else { w.sdata },
        zpred: if m.implicit_rhs { true } else { w.zpred },
        zcor: if m.implicit_rhs { true } else { w.zcor },
        ..w
    }
}

/// MRIStep solvers after the stage vectors are set up: a purely explicit problem
/// drops its own nonlinear solver and the linear solver routines.
pub open spec fn vectors_solvers(sm: ARKodeMRIStepMem) -> MRISolvers {
    let drop_nls = sm.solvers.NLS && sm.solvers.ownNLS;
    if sm.method.implicit_rhs {
        sm.solvers
    } else {
        MRISolvers {
            NLS: if drop_nls { false } else { sm.solvers.NLS },
            ownNLS: if drop_nls { false } else { sm.solvers.ownNLS },
            linit: false,
            lsetup: false,
            lsolve: false,
            lfree: false,
            ..sm.solvers
        }
    }
}

/// The integrator after the stage vectors are set up: slow right-hand side arrays
/// (unified for MRI-SR tables on a one-sided problem), the implicit-solve vectors
/// for a problem with an implicit part; a purely explicit problem instead drops its
/// own nonlinear solver and detaches the linear solver interface.
pub open spec fn init_vectors(a: ARKodeMem) -> ARKodeMem {
    let sm = mri_mem(a);
    ARKodeMem {
        lrw: vectors_lrw(a) as i64,
        liw: vectors_liw(a) as i64,
        lmem: if sm.method.implicit_rhs { a.lmem } else { None },
        step_mem: ARKStepMem::Mri(
            ARKodeMRIStepMem {
                method: MRIMethodInfo { unify_Fs: unify_due(sm.MRIC->Some_0, sm.method), ..sm.method },
                work: vectors_work(sm),
                solvers: vectors_solvers(sm),
                ..sm
            },
        ),
        ..a
    }
}

/// Workspace words after the stage vectors are set up (computed).
fn vectors_words(a: &ARKodeMem) -> (r: (i64, i64))
    requires
        is_mri(*a),
        mri_mem(*a).MRIC is Some,
        mri_counts_ok(mri_mem(*a)),
        vec_sizes_ok(*a),
        ws_margin(*a, 0x10_0000_0000_0000),
    ensures
        r.0 == vectors_lrw(*a),
        r.1 == vectors_liw(*a),
{
    let (m, w, ctype) = match &a.step_mem {
        ARKStepMem::Mri(sm) => match &sm.MRIC {
            Some(c) => (sm.method, sm.work, c.ctype),
            None => {
                return (0, 0);
            },
        },
        _ => {
            return (0, 0);
        },
    };
    let unify = ctype == MRISTEP_SR && (m.explicit_rhs != m.implicit_rhs);
    let grow = w.nstages_allocated < w.nstages_active;
    let free_e = grow && w.nstages_allocated > 0 && m.explicit_rhs && w.Fse;
    let free_i = grow && w.nstages_allocated > 0 && m.implicit_rhs && !unify && w.Fsi;
    let fse1 = w.Fse && !free_e;
    let fsi1 = w.Fsi && !free_i;
    let alloc_e = grow && (m.explicit_rhs || unify) && !fse1;
    let alloc_i = grow && m.implicit_rhs && !unify && !fsi1;
    let kf: i64 = (if free_e { 1 } else { 0 }) + (if free_i { 1 } else { 0 });
    let ka: i64 = (if alloc_e { 1 } else { 0 }) + (if alloc_i { 1 } else { 0 });
    let vk: i64 = if m.implicit_rhs {
        (if w.sdata { 0 } else { 1 }) + (if w.zpred { 0 } else { 1 }) + (if w.zcor { 0 } else { 1 })
    } else {
        0
    };
    let na = w.nstages_allocated as i64;
    let nn = w.nstages_active as i64;
    let fr = mul_words(na, a.lrw1);
    let fi = mul_words(na, a.liw1);
    let ar = mul_words(nn, a.lrw1);
    let ai = mul_words(nn, a.liw1);
    let vr = mul_words(vk, a.lrw1);
    let vi = mul_words(vk, a.liw1);
    let lrw = a.lrw - up_to_two(kf, fr) + up_to_two(ka, ar) + vr;
    let liw = a.liw - up_to_two(kf, fi) + up_to_two(ka, ai) + vi;
    (lrw, liw)
}

/// MRIStep settings after the stage vectors are set up (computed).
fn vectors_parts(sm: &ARKodeMRIStepMem) -> (r: (MRIMethodInfo, MRIWorkspace, MRISolvers))
    requires
        sm.MRIC is Some,
    ensures
        r.0 == (MRIMethodInfo { unify_Fs: unify_due(sm.MRIC->Some_0, sm.method), ..sm.method }),
        r.1 == vectors_work(*sm),
        r.2 == vectors_solvers(*sm),
{
    let m = sm.method;
    let w = sm.work;
    let solvers = sm.solvers;
    let ctype = match &sm.MRIC {
        Some(c) => c.ctype,
        None => 0,
    };
    let unify = ctype == MRISTEP_SR && (m.explicit_rhs != m.implicit_rhs);
    let grow = w.nstages_allocated < w.nstages_active;
    let free_e = grow && w.nstages_allocated > 0 && m.explicit_rhs && w.Fse;
    let free_i = grow && w.nstages_allocated > 0 && m.implicit_rhs && !unify && w.Fsi;
    let fse1 = w.Fse && !free_e;
    let fsi1 = w.Fsi && !free_i;
    let alloc_e = grow && (m.explicit_rhs || unify) && !fse1;
    let alloc_i = grow && m.implicit_rhs && !unify && !fsi1;
    let drop_nls = solvers.NLS && solvers.ownNLS;
    let m2 = MRIMethodInfo { unify_Fs: unify, ..m };
    let w2 = MRIWorkspace {
        Fse: fse1 || alloc_e,
        Fsi: fsi1 || alloc_i,
        nstages_allocated: if grow { w.nstages_active } else { w.nstages_allocated },
        sdata: if m.implicit_rhs { true } else { w.sdata },
        zpred: if m.implicit_rhs { true } else { w.zpred },
        zcor: if m.implicit_rhs { true } else { w.zcor },
        ..w
    };
    let s2 = if m.implicit_rhs {
        solvers
    } else {
        MRISolvers {
            NLS: if drop_nls { false } else { solvers.NLS },
            ownNLS: if drop_nls { false } else { solvers.ownNLS },
            linit: false,
            lsetup: false,
            lsolve: false,
            lfree: false,
            ..solvers
        }
    };
    (m2, w2, s2)
}

/// Sets up the stage vectors.
fn init_vectors_phase(ark_mem: &mut ARKodeMem)
    requires
        is_mri(*old(ark_mem)),
        mri_mem(*old(ark_mem)).MRIC is Some,
        mri_counts_ok(mri_mem(*old(ark_mem))),
        vec_sizes_ok(*old(ark_mem)),
        ws_margin(*old(ark_mem), 0x10_0000_0000_0000),
    ensures
        *final(ark_mem) == init_vectors(*old(ark_mem)),
{
    let (lrw, liw) = vectors_words(ark_mem);
    let (m2, w2, s2, implicit) = match &ark_mem.step_mem {
        ARKStepMem::Mri(sm) => {
            let (m2, w2, s2) = vectors_parts(sm);
            (m2, w2, s2, sm.method.implicit_rhs)
        },
        _ => {
            return;
        },
    };
    ark_mem.lrw = lrw;
    ark_mem.liw = liw;
    if !implicit {
        ark_mem.lmem = None;
    }
    match &mut ark_mem.step_mem {
        ARKStepMem::Mri(sm) => {
            sm.method = m2;
            sm.work = w2;
            sm.solvers = s2;
        },
        _ => {},
    }
}

/// The interpolant degree limited for the method order: at most `q - 1`, and at
/// most 1 for first-order methods.
pub open spec fn limited_degree(q: i32, d: i32) -> i32 {
    if q > 1 && d > q - 1 {
        (q - 1) as i32
    } else if q == 1 && d > 1 {
        1
    } else {
        d
    }
}

/// The integrator after the inner stepper's forcing vectors are set up (one per
/// coupling matrix, of the problem size) and the interpolant degree is limited.
pub open spec fn init_inner_alloc(a: ARKodeMem) -> ARKodeMem {
    let sm = mri_mem(a);
    ARKodeMem {
        interp_degree: limited_degree(sm.method.q, a.interp_degree),
        step_mem: ARKStepMem::Mri(
            ARKodeMRIStepMem {
                stepper: inner_alloc_result(sm.stepper, sm.MRIC->Some_0.nmat, a.lrw1),
                ..sm
            },
        ),
        ..a
    }
}

/// Sets up the inner stepper's forcing vectors and limits the interpolant degree.
fn init_inner_alloc_phase(ark_mem: &mut ARKodeMem)
    requires
        is_mri(*old(ark_mem)),
        mri_mem(*old(ark_mem)).MRIC matches Some(c) && coupling_ok(c),
        inner_ws_ok(mri_mem(*old(ark_mem)).stepper),
        vec_sizes_ok(*old(ark_mem)),
    ensures
        *final(ark_mem) == init_inner_alloc(*old(ark_mem)),
{
    let n = ark_mem.lrw1;
    let d = ark_mem.interp_degree;
    let mut q: i32 = 0;
    match &mut ark_mem.step_mem {
        ARKStepMem::Mri(sm) => {
            q = sm.method.q;
            let nmat = match &sm.MRIC {
                Some(c) => c.nmat,
                None => 0,
            };
            let mut st = sm.stepper;
            mriStepInnerStepper_AllocVecs(&mut st, nmat, n);
            sm.stepper = st;
        },
        _ => {},
    }
    let d2 = if q > 1 && d > q - 1 {
        q - 1
    } else if q == 1 && d > 1 {
        1
    } else {
        d
    };
    ark_mem.interp_degree = d2;
}

/// A nontrivial predictor without interpolation.
pub open spec fn predictor_unusable(a: ARKodeMem) -> bool {
    a.interp_type == ARK_INTERP_NONE && mri_mem(a).method.predictor != 0
}

/// The type of the attached step size controller (`SUN_ADAPTCONTROLLER_NONE`
/// without one).
pub open spec fn adapt_type(a: ARKodeMem) -> i32 {
    match a.hadapt_mem {
        Some(h) => match h.hcontroller {
            Some(c) => c.ctype,
            None => SUN_ADAPTCONTROLLER_NONE,
        },
        None => SUN_ADAPTCONTROLLER_NONE,
    }
}

/// The step size checks that end MRIStep initialization: fixed steps need a
/// user-given step; adaptive steps need an H or MRI-H-TOL controller and an
/// embedded table; an MRI-H-TOL controller needs an inner stepper supporting
/// tolerance adaptivity and starts with an inner relative tolerance factor of 1.
pub open spec fn adapt_checks(a: ARKodeMem) -> (i32, ARKodeMem) {
    let at = adapt_type(a);
    let sm = mri_mem(a);
    let st = sm.stepper;
    if a.opts.fixedstep && !a.opts.hin_set {
        (ARK_ILL_INPUT, a)
    } else if !a.opts.fixedstep && at != SUN_ADAPTCONTROLLER_MRI_H_TOL && at != SUN_ADAPTCONTROLLER_H {
        (ARK_ILL_INPUT, a)
    } else if !a.opts.fixedstep && sm.MRIC->Some_0.p <= 0 {
        (ARK_ILL_INPUT, a)
    } else if at == SUN_ADAPTCONTROLLER_MRI_H_TOL && !(st.geterror && st.reseterror && st.setrtol) {
        (ARK_ILL_INPUT, a)
    } else if at == SUN_ADAPTCONTROLLER_MRI_H_TOL {
        (
            ARK_SUCCESS,
            with_mri(
                a,
                ARKodeMRIStepMem {
                    method: MRIMethodInfo {
                        inner_rtol_factor: Decimal { mantissa: 1, exponent: 0i32 },
                        ..sm.method
                    },
                    ..sm
                },
            ),
        )
    } else {
        (ARK_SUCCESS, a)
    }
}

/// Adaptive stepping with a usable controller reads the coupling table.
pub open spec fn adapt_reads_table(a: ARKodeMem) -> bool {
    !a.opts.fixedstep && (adapt_type(a) == SUN_ADAPTCONTROLLER_MRI_H_TOL || adapt_type(a)
        == SUN_ADAPTCONTROLLER_H)
}

/// Checks the step size settings against the method and controller.
fn init_adapt_phase(ark_mem: &mut ARKodeMem) -> (r: i32)
    requires
        is_mri(*old(ark_mem)),
        adapt_reads_table(*old(ark_mem)) ==> mri_mem(*old(ark_mem)).MRIC is Some,
    ensures
        (r, *final(ark_mem)) == adapt_checks(*old(ark_mem)),
{
    let at = match ark_mem.hadapt_mem {
        Some(h) => match h.hcontroller {
            Some(c) => c.ctype,
            None => SUN_ADAPTCONTROLLER_NONE,
        },
        None => SUN_ADAPTCONTROLLER_NONE,
    };
    let (st, p) = match &ark_mem.step_mem {
        ARKStepMem::Mri(sm) => (
            sm.stepper,
            match &sm.MRIC {
                Some(c) => c.p,
                None => 0,
            },
        ),
        _ => {
            return ARK_MEM_NULL;
        },
    };
    if ark_mem.opts.fixedstep {
        if !ark_mem.opts.hin_set {
            return ARK_ILL_INPUT;
        }
    } else {
        if at != SUN_ADAPTCONTROLLER_MRI_H_TOL && at != SUN_ADAPTCONTROLLER_H {
            return ARK_ILL_INPUT;
        }
        if p <= 0 {
            return ARK_ILL_INPUT;
        }
    }
    if at == SUN_ADAPTCONTROLLER_MRI_H_TOL {
        if !mriStepInnerStepper_SupportsRTolAdaptivity(&st) {
            return ARK_ILL_INPUT;
        }
        match &mut ark_mem.step_mem {
            ARKStepMem::Mri(sm) => {
                sm.method = MRIMethodInfo { inner_rtol_factor: dec(1, 0), ..sm.method };
            },
            _ => {},
        }
    }
    ARK_SUCCESS
}

/// The first part of a first initialization: constant error weights when due, the
/// coupling table set (the default `table` when none is set yet) and checked, the
/// step routine attached, and an embedding required for error estimation.
pub open spec fn init_head_spec(a: ARKodeMem, table: Option<MRIStepCoupling>) -> (i32, ARKodeMem) {
    let a1 = init_efun(a);
    let sc = set_coupling_spec(a1, table);
    let a2 = sc.1;
    if sc.0 != ARK_SUCCESS {
        (ARK_ILL_INPUT, a2)
    } else {
        let c = mri_mem(a2).MRIC->Some_0;
        if check_coupling_code(a2.opts.fixedstep, mri_mem(a2).method, c) != ARK_SUCCESS {
            (ARK_ILL_INPUT, a2)
        } else if step_for_type(c.ctype) is None {
            (ARK_ILL_INPUT, a2)
        } else {
            let a3 = init_attach(a2);
            if needs_embedding(a3) && mri_mem(a3).method.p <= 0 {
                (ARK_ILL_INPUT, a3)
            } else {
                (ARK_SUCCESS, a3)
            }
        }
    }
}

/// The second part of a first initialization: the stage map and tables rebuilt
/// (held at the end in `map` and `types`), stage vectors and inner forcing set up,
/// the interpolant degree limited, and a usable predictor required.
pub open spec fn init_tail_spec(a: ARKodeMem, map: Vec<i32>, types: Vec<i32>) -> (i32, ARKodeMem) {
    let sm4 = init_stage_map(a, map);
    if sm4.0 != ARK_SUCCESS {
        (ARK_ILL_INPUT, sm4.1)
    } else {
        let a6 = init_inner_alloc(init_vectors(init_tables(sm4.1, types)));
        if predictor_unusable(a6) {
            (ARK_ILL_INPUT, a6)
        } else {
            (ARK_SUCCESS, a6)
        }
    }
}

/// The result of a first initialization.
pub open spec fn first_init_spec(a: ARKodeMem, table: Option<MRIStepCoupling>, map: Vec<i32>, types: Vec<i32>) -> (i32, ARKodeMem) {
    let h = init_head_spec(a, table);
    if h.0 != ARK_SUCCESS {
        h
    } else {
        init_tail_spec(h.1, map, types)
    }
}

/// The coupling table a first initialization uses.
pub open spec fn used_table(a: ARKodeMem, table: Option<MRIStepCoupling>) -> MRIStepCoupling {
    mri_mem(set_coupling_spec(init_efun(a), table).1).MRIC->Some_0
}

/// What the integrator must satisfy for a first initialization.
pub open spec fn first_init_ok(a: ARKodeMem, table: Option<MRIStepCoupling>) -> bool {
    &&& is_mri(a)
    &&& a.hadapt_mem is Some
    &&& (mri_mem(a).MRIC matches Some(c) ==> coupling_readable(c))
    &&& (mri_mem(a).MRIC is None && table is Some ==> coupling_readable(table->Some_0))
    &&& mri_counts_ok(mri_mem(a))
    &&& vec_sizes_ok(a)
    &&& ws_margin(a, 0x80_0000_0000_0000)
}

/// What the integrator must satisfy for the second part of a first
/// initialization.
pub open spec fn init_tail_ok(a: ARKodeMem) -> bool {
    &&& is_mri(a)
    &&& mri_mem(a).MRIC matches Some(c) && coupling_ok(c) && c.stages >= 1
    &&& mri_counts_ok(mri_mem(a))
    &&& vec_sizes_ok(a)
    &&& ws_margin(a, 0x20_0000_0000_0000)
}

/// The coupling part of a first initialization: constant error weights when due,
/// the coupling table set and checked.
pub open spec fn init_coupling_spec(a: ARKodeMem, table: Option<MRIStepCoupling>) -> (i32, ARKodeMem) {
    let a1 = init_efun(a);
    let sc = set_coupling_spec(a1, table);
    let a2 = sc.1;
    if sc.0 != ARK_SUCCESS {
        (ARK_ILL_INPUT, a2)
    } else if check_coupling_code(a2.opts.fixedstep, mri_mem(a2).method, mri_mem(a2).MRIC->Some_0)
        != ARK_SUCCESS {
        (ARK_ILL_INPUT, a2)
    } else {
        (ARK_SUCCESS, a2)
    }
}

/// Sets and checks the coupling table.
fn first_init_coupling(ark_mem: &mut ARKodeMem, table: Option<MRIStepCoupling>) -> (r: i32)
    requires
        first_init_ok(*old(ark_mem), table),
    ensures
        (r, *final(ark_mem)) == init_coupling_spec(*old(ark_mem), table),
        is_mri(*final(ark_mem)),
        final(ark_mem).hadapt_mem is Some,
        r == ARK_SUCCESS ==> mri_mem(*final(ark_mem)).MRIC == Some(used_table(*old(ark_mem), table)),
        r == ARK_SUCCESS ==> coupling_ok(used_table(*old(ark_mem), table)),
        r == ARK_SUCCESS ==> used_table(*old(ark_mem), table).stages >= 1,
        mri_counts_ok(mri_mem(*final(ark_mem))),
        vec_sizes_ok(*final(ark_mem)),
        ws_margin(*final(ark_mem), 0x40_0000_0000_0000),
{
    init_efun_phase(ark_mem);
    proof {
        if table is Some && mri_mem(*ark_mem).MRIC is None {
            lemma_coupling_words(table->Some_0);
        }
    }
    let rc = mriStep_SetCoupling(ark_mem, table);
    if rc != ARK_SUCCESS {
        return ARK_ILL_INPUT;
    }
    let rc = mriStep_CheckCoupling(ark_mem);
    if rc != ARK_SUCCESS {
        return ARK_ILL_INPUT;
    }
    ARK_SUCCESS
}

/// The first part of a first initialization.
fn first_init_head(ark_mem: &mut ARKodeMem, table: Option<MRIStepCoupling>) -> (r: i32)
    requires
        first_init_ok(*old(ark_mem), table),
    ensures
        (r, *final(ark_mem)) == init_head_spec(*old(ark_mem), table),
        r == ARK_SUCCESS ==> init_tail_ok(*final(ark_mem)),
        r == ARK_SUCCESS ==> mri_mem(*final(ark_mem)).MRIC == Some(used_table(*old(ark_mem), table)),
{
    let rc = first_init_coupling(ark_mem, table);
    if rc != ARK_SUCCESS {
        return ARK_ILL_INPUT;
    }
    let rc = init_attach_phase(ark_mem);
    if rc != ARK_SUCCESS {
        return ARK_ILL_INPUT;
    }
    let p = match &ark_mem.step_mem {
        ARKStepMem::Mri(sm) => sm.method.p,
        _ => 0,
    };
    if (!ark_mem.opts.fixedstep || ark_mem.opts.AccumErrorType != ARK_ACCUMERROR_NONE) && p <= 0 {
        return ARK_ILL_INPUT;
    }
    ARK_SUCCESS
}

/// The second part of a first initialization.
fn first_init_tail(ark_mem: &mut ARKodeMem) -> (r: i32)
    requires
        init_tail_ok(*old(ark_mem)),
    ensures
        (r, *final(ark_mem)) == init_tail_spec(
            *old(ark_mem),
            mri_mem(*final(ark_mem)).stage_map,
            mri_mem(*final(ark_mem)).stagetypes,
        ),
        mri_mem(*final(ark_mem)).stage_map@ == expected_map(mri_mem(*old(ark_mem)).MRIC->Some_0),
        stage_map_ok(mri_mem(*old(ark_mem)).MRIC->Some_0) ==> mri_mem(*final(ark_mem)).stagetypes@
            == expected_types(mri_mem(*old(ark_mem)).MRIC->Some_0),
{
    let rc = init_stage_map_phase(ark_mem);
    if rc != ARK_SUCCESS {
        return ARK_ILL_INPUT;
    }
    init_tables_phase(ark_mem);
    init_vectors_phase(ark_mem);
    init_inner_alloc_phase(ark_mem);
    let unusable = match &ark_mem.step_mem {
        ARKStepMem::Mri(sm) => ark_mem.interp_type == ARK_INTERP_NONE && sm.method.predictor != 0,
        _ => false,
    };
    if unusable {
        return ARK_ILL_INPUT;
    }
    ARK_SUCCESS
}

/// Performs the checks and setup of a first initialization.
fn first_init(ark_mem: &mut ARKodeMem, table: Option<MRIStepCoupling>) -> (r: i32)
    requires
        first_init_ok(*old(ark_mem), table),
    ensures
        (r, *final(ark_mem)) == first_init_spec(
            *old(ark_mem),
            table,
            mri_mem(*final(ark_mem)).stage_map,
            mri_mem(*final(ark_mem)).stagetypes,
        ),
        is_mri(*final(ark_mem)),
        r == ARK_SUCCESS ==> mri_mem(*final(ark_mem)).MRIC is Some,
        init_head_spec(*old(ark_mem), table).0 == ARK_SUCCESS ==> mri_mem(*final(ark_mem)).stage_map@
            == expected_map(used_table(*old(ark_mem), table)),
        init_head_spec(*old(ark_mem), table).0 == ARK_SUCCESS && stage_map_ok(
            used_table(*old(ark_mem), table),
        ) ==> mri_mem(*final(ark_mem)).stagetypes@ == expected_types(used_table(*old(ark_mem), table)),
{
    let rc = first_init_head(ark_mem, table);
    if rc != ARK_SUCCESS {
        return rc;
    }
    first_init_tail(ark_mem)
}

/// The solver and step size part of an initialization: the linear solver
/// interface's initialization (`ARK_LINIT_FAIL` when it fails), then the nonlinear
/// solver's, whose result is `nls_flag` (`ARK_NLS_INIT_FAIL`), then the step size
/// checks.
pub open spec fn solver_init_spec(a: ARKodeMem, nls_flag: i32) -> (i32, ARKodeMem) {
    let li = if mri_mem(a).solvers.linit { ls_initialize_spec(a) } else { (0i32, a) };
    if li.0 != 0 {
        (ARK_LINIT_FAIL, li.1)
    } else if mri_mem(li.1).solvers.NLS && nls_flag != ARK_SUCCESS {
        (ARK_NLS_INIT_FAIL, li.1)
    } else {
        adapt_checks(li.1)
    }
}

/// Initializes the algebraic solvers and checks the step size settings.
fn solver_init(ark_mem: &mut ARKodeMem, nls_flag: i32) -> (r: i32)
    requires
        is_mri(*old(ark_mem)),
        adapt_reads_table(*old(ark_mem)) ==> mri_mem(*old(ark_mem)).MRIC is Some,
    ensures
        (r, *final(ark_mem)) == solver_init_spec(*old(ark_mem), nls_flag),
        mri_mem(*final(ark_mem)).stage_map == mri_mem(*old(ark_mem)).stage_map,
        mri_mem(*final(ark_mem)).stagetypes == mri_mem(*old(ark_mem)).stagetypes,
{
    let linit = match &ark_mem.step_mem {
        ARKStepMem::Mri(sm) => sm.solvers.linit,
        _ => false,
    };
    if linit {
        let rl = arkLsInitialize(ark_mem);
        if rl != 0 {
            return ARK_LINIT_FAIL;
        }
    }
    let nls = match &ark_mem.step_mem {
        ARKStepMem::Mri(sm) => sm.solvers.NLS,
        _ => false,
    };
    if nls && nls_flag != ARK_SUCCESS {
        return ARK_NLS_INIT_FAIL;
    }
    init_adapt_phase(ark_mem)
}

/// The result of an MRIStep initialization: nothing for a reset; a first
/// initialization performs its checks and setup; then (also for a resize) the
/// solvers are initialized and the step size settings checked.  `map` and `types`
/// are the stage map and types held at the end.
pub open spec fn mri_init_spec(a: ARKodeMem, init_type: i32, table: Option<MRIStepCoupling>, nls_flag: i32, map: Vec<i32>, types: Vec<i32>) -> (i32, ARKodeMem) {
    if init_type == RESET_INIT {
        (ARK_SUCCESS, a)
    } else {
        let f = if init_type == FIRST_INIT {
            first_init_spec(a, table, map, types)
        } else {
            (ARK_SUCCESS, a)
        };
        if f.0 != ARK_SUCCESS {
            f
        } else {
            solver_init_spec(f.1, nls_flag)
        }
    }
}

/// What an MRIStep initialization needs: for a first initialization the sizes and
/// tables within limits; otherwise a table to read when adaptive stepping with a
/// usable controller reads it.
pub open spec fn mri_init_ok(a: ARKodeMem, init_type: i32, table: Option<MRIStepCoupling>) -> bool {
    &&& is_mri(a)
    &&& init_type == FIRST_INIT ==> first_init_ok(a, table)
    &&& init_type != FIRST_INIT && init_type != RESET_INIT && adapt_reads_table(a) ==> mri_mem(
        a,
    ).MRIC is Some
}

/// Prepares MRIStep for stepping.  `table` is the default coupling table built for
/// the method order and problem type (used when no table is set yet; `None` when it
/// could not be built) and `nls_flag` is the nonlinear solver's initialization
/// result.  The stage map and stage types rebuilt by a first initialization are
/// those the table gives.
pub fn mriStep_Init_inner(ark_mem: &mut ARKodeMem, init_type: i32, table: Option<MRIStepCoupling>, nls_flag: i32) -> (r: i32)
    requires
        mri_init_ok(*old(ark_mem), init_type, table),
    ensures
        (r, *final(ark_mem)) == mri_init_spec(
            *old(ark_mem),
            init_type,
            table,
            nls_flag,
            mri_mem(*final(ark_mem)).stage_map,
            mri_mem(*final(ark_mem)).stagetypes,
        ),
        init_type == FIRST_INIT && init_head_spec(*old(ark_mem), table).0 == ARK_SUCCESS ==> mri_mem(
            *final(ark_mem),
        ).stage_map@ == expected_map(used_table(*old(ark_mem), table)),
        init_type == FIRST_INIT && init_head_spec(*old(ark_mem), table).0 == ARK_SUCCESS
            && stage_map_ok(used_table(*old(ark_mem), table)) ==> mri_mem(*final(ark_mem)).stagetypes@
            == expected_types(used_table(*old(ark_mem), table)),
{
    if init_type == RESET_INIT {
        return ARK_SUCCESS;
    }
    if init_type == FIRST_INIT {
        let rc = first_init(ark_mem, table);
        if rc != ARK_SUCCESS {
            return rc;
        }
    }
    solver_init(ark_mem, nls_flag)
}

/// Prepares MRIStep for stepping (`ARK_MEM_NULL` when the stepper is not MRIStep);
/// see `mriStep_Init_inner`.
pub fn mriStep_Init(ark_mem: &mut ARKodeMem, init_type: i32, table: Option<MRIStepCoupling>, nls_flag: i32) -> (r: i32)
    requires
        is_mri(*old(ark_mem)) ==> mri_init_ok(*old(ark_mem), init_type, table),
    ensures
        !is_mri(*old(ark_mem)) ==> r == ARK_MEM_NULL && *final(ark_mem) == *old(ark_mem),
        is_mri(*old(ark_mem)) ==> (r, *final(ark_mem)) == mri_init_spec(
            *old(ark_mem),
            init_type,
            table,
            nls_flag,
            mri_mem(*final(ark_mem)).stage_map,
            mri_mem(*final(ark_mem)).stagetypes,
        ),
{
    match &ark_mem.step_mem {
        ARKStepMem::Mri(_) => {},
        _ => {
            return ARK_MEM_NULL;
        },
    }
    mriStep_Init_inner(ark_mem, init_type, table, nls_flag)
}

} // verus!

//! What MRIStep's first initialization allocates, its release gives back.
use vstd::prelude::*;
use crate::consts::{ARK_SUCCESS, FIRST_INIT};
use crate::arkode::ARKodeMem;
use crate::mri::{
    ARKodeMRIStepMem, MRIStepCoupling, mri_mem, coupling_lrw, coupling_liw, coupling_ok,
    coupling_release, mri_vec_count, mri_released, mri_free_result, set_coupling_spec,
    with_coupling, stage_map_ok, stages_active, lemma_active_before_bounds, lemma_coupling_words,
};
use crate::mri_init::{
    first_init_ok, init_efun, init_head_spec, init_tail_spec, first_init_spec, mri_init_spec,
    used_table, expected_map, expected_types, init_stage_map, init_tables, init_vectors,
    init_inner_alloc, solver_init_spec, rhs_arrays, implicit_vecs_added,
    vectors_lrw, vectors_liw, mri_counts_ok,
};

verus! {

/// An MRIStep memory that holds no coupling table, stage map or types, coefficient
/// rows or stage vectors yet, and whose linear solver interface is not attached.
pub open spec fn mri_unset(sm: ARKodeMRIStepMem) -> bool {
    &&& sm.MRIC is None
    &&& sm.stage_map@.len() == 0
    &&& sm.stagetypes@.len() == 0
    &&& !sm.work.Ae_row && !sm.work.Ai_row
    &&& !sm.work.Fse && !sm.work.Fsi && sm.work.nstages_allocated == 0
    &&& !sm.work.sdata && !sm.work.zpred && !sm.work.zcor
    &&& !sm.solvers.lfree
}

/// Words of the fused-operation workspace MRIStep holds.
pub open spec fn fused_words(sm: ARKodeMRIStepMem) -> int {
    if sm.work.cvals { sm.work.nfusedopvecs as int } else { 0 }
}

/// The MRIStep memory holds table `c` with its stage count, and no stage arrays or
/// vectors yet; sizes are within the initialization's limits.
spec fn table_only(a: ARKodeMem, c: MRIStepCoupling) -> bool {
    let sm = mri_mem(a);
    &&& a.step_mem is Mri
    &&& sm.MRIC == Some(c)
    &&& coupling_ok(c) && c.stages >= 1 && stage_map_ok(c)
    &&& sm.method.stages == c.stages
    &&& sm.stage_map@.len() == 0 && sm.stagetypes@.len() == 0
    &&& !sm.work.Ae_row && !sm.work.Ai_row
    &&& !sm.work.Fse && !sm.work.Fsi && sm.work.nstages_allocated == 0
    &&& !sm.work.sdata && !sm.work.zpred && !sm.work.zcor
    &&& mri_counts_ok(sm)
    &&& 0 <= a.lrw1 <= 0x1_0000_0000 && 0 <= a.liw1 <= 0x1_0000_0000
    &&& i64::MIN + 0x40_0000_0000_0000 <= a.lrw <= i64::MAX - 0x40_0000_0000_0000
    &&& i64::MIN + 0x40_0000_0000_0000 <= a.liw <= i64::MAX - 0x40_0000_0000_0000
}

/// The first part of a successful first initialization installs the table and
/// its workspace and allocates nothing else.
proof fn lemma_head_installs_table(a: ARKodeMem, table: Option<MRIStepCoupling>)
    requires
        first_init_ok(a, table),
        mri_unset(mri_mem(a)),
        init_head_spec(a, table).0 == ARK_SUCCESS,
    ensures
        ({
            let a3 = init_head_spec(a, table).1;
            let c = used_table(a, table);
            &&& a3.lrw == a.lrw + coupling_lrw(c)
            &&& a3.liw == a.liw + coupling_liw(c)
            &&& a3.lrw1 == a.lrw1 && a3.liw1 == a.liw1
            &&& mri_mem(a3).work == mri_mem(a).work
            &&& mri_mem(a3).solvers == mri_mem(a).solvers
            &&& mri_mem(a3).MRIC == Some(c)
            &&& coupling_ok(c) && c.stages >= 1
            &&& mri_mem(a3).method.stages == c.stages
            &&& mri_mem(a3).stage_map == mri_mem(a).stage_map
            &&& mri_mem(a3).stagetypes == mri_mem(a).stagetypes
            &&& mri_counts_ok(mri_mem(a3))
        }),
{
    let c = used_table(a, table);
    let a1 = init_efun(a);
    assert(mri_mem(a1) == mri_mem(a));
    assert(set_coupling_spec(a1, table).1 == with_coupling(a1, c));
    lemma_coupling_words(c);
}

/// Building the stage map and tables for a table without stage arrays allocates
/// the map, the types and the coefficient rows, and may replace the fused
/// workspace.
proof fn lemma_tables_ledger(a3: ARKodeMem, c: MRIStepCoupling, map: Vec<i32>, types: Vec<i32>)
    requires
        table_only(a3, c),
        map@ == expected_map(c),
        types@ == expected_types(c),
    ensures
        ({
            let a5 = init_tables(init_stage_map(a3, map).1, types);
            let sm5 = mri_mem(a5);
            &&& a5.lrw - fused_words(sm5) == a3.lrw + 2 * c.stages - fused_words(mri_mem(a3))
            &&& a5.liw - fused_words(sm5) == a3.liw + c.stages + (c.stages + 1) - fused_words(
                mri_mem(a3),
            )
            &&& a5.lrw1 == a3.lrw1 && a5.liw1 == a3.liw1
            &&& sm5.MRIC == Some(c) && sm5.method == mri_mem(a3).method
            &&& sm5.solvers == mri_mem(a3).solvers
            &&& sm5.stage_map == map && sm5.stagetypes == types
            &&& sm5.work.Ae_row && sm5.work.Ai_row
            &&& !sm5.work.Fse && !sm5.work.Fsi && sm5.work.nstages_allocated == 0
            &&& !sm5.work.sdata && !sm5.work.zpred && !sm5.work.zcor
            &&& sm5.work.nstages_active == stages_active(c)
            &&& 0 <= fused_words(sm5) <= 0x4_0000
        }),
{
    lemma_active_before_bounds(c, c.stages as int);
}

/// Setting up the stage vectors of a memory without any adds exactly the vectors
/// its release counts.
proof fn lemma_vectors_ledger(a5: ARKodeMem)
    requires
        a5.step_mem is Mri,
        mri_mem(a5).MRIC is Some,
        ({
            let w = mri_mem(a5).work;
            &&& !w.Fse && !w.Fsi && w.nstages_allocated == 0
            &&& !w.sdata && !w.zpred && !w.zcor
            &&& 0 <= w.nstages_active <= 0x1_0000
        }),
        0 <= a5.lrw1 <= 0x1_0000_0000 && 0 <= a5.liw1 <= 0x1_0000_0000,
    ensures
        ({
            let sm5 = mri_mem(a5);
            let a6 = init_vectors(a5);
            let n = mri_vec_count(mri_mem(a6).work);
            &&& 0 <= n <= 2 * 0x1_0000 + 3
            &&& vectors_lrw(a5) == a5.lrw + n * a5.lrw1
            &&& vectors_liw(a5) == a5.liw + n * a5.liw1
            &&& mri_mem(a6).work.nstages_allocated == sm5.work.nstages_active
        }),
{
    let sm5 = mri_mem(a5);
    let a6 = init_vectors(a5);
    let w6 = mri_mem(a6).work;
    let arr = rhs_arrays(sm5);
    let iv = implicit_vecs_added(sm5);
    let nact = sm5.work.nstages_active as int;
    let na = sm5.work.nstages_allocated as int;
    let l1 = a5.lrw1 as int;
    let i1 = a5.liw1 as int;
    let a2v = arr.2;
    let a3v = arr.3;
    assert(a2v == 0);
    assert(w6.Fse == arr.0 && w6.Fsi == arr.1);
    let nv = (if arr.0 { nact } else { 0 }) + (if arr.1 { nact } else { 0 });
    if arr.0 && arr.1 {
        assert(a3v == 2);
    } else if arr.0 || arr.1 {
        assert(a3v == 1);
    } else {
        assert(a3v == 0);
    }
    assert(a3v * nact == nv) by (nonlinear_arith)
        requires
            nv == (if a3v == 2 { 2 * nact } else if a3v == 1 { nact } else { 0 }),
            0 <= a3v <= 2,
    ;
    assert(mri_vec_count(w6) == nv + iv);
    assert(a2v * (na * l1) == 0 && a2v * (na * i1) == 0) by (nonlinear_arith)
        requires
            na == 0,
    ;
    assert(a3v * (nact * l1) + iv * l1 == (nv + iv) * l1 && a3v * (nact * i1) + iv * i1 == (nv
        + iv) * i1) by (nonlinear_arith)
        requires
            a3v * nact == nv,
    ;
}

/// The second part of a first initialization, for a memory holding only its
/// table: what it adds to the workspace is the stage map and types, the
/// coefficient rows, any change of the fused workspace and the stage vectors.
proof fn lemma_tail_ledger(a3: ARKodeMem, c: MRIStepCoupling, map: Vec<i32>, types: Vec<i32>)
    requires
        table_only(a3, c),
        !mri_mem(a3).solvers.lfree,
        map@ == expected_map(c),
        types@ == expected_types(c),
    ensures
        ({
            let a7 = init_inner_alloc(init_vectors(init_tables(init_stage_map(a3, map).1, types)));
            let sm7 = mri_mem(a7);
            let n = mri_vec_count(sm7.work);
            &&& 0 <= n * a3.lrw1 <= (2 * 0x1_0000 + 3) * 0x1_0000_0000
            &&& 0 <= n * a3.liw1 <= (2 * 0x1_0000 + 3) * 0x1_0000_0000
            &&& a7.lrw - fused_words(sm7) - n * a3.lrw1 == a3.lrw + 2 * c.stages - fused_words(
                mri_mem(a3),
            )
            &&& a7.liw - fused_words(sm7) - n * a3.liw1 == a3.liw + c.stages + (c.stages + 1)
                - fused_words(mri_mem(a3))
            &&& a7.lrw1 == a3.lrw1 && a7.liw1 == a3.liw1
            &&& sm7.MRIC == Some(c) && sm7.method.stages == c.stages
            &&& sm7.stage_map == map && sm7.stagetypes == types
            &&& !sm7.solvers.lfree
        }),
{
    lemma_tables_ledger(a3, c, map, types);
    let a5 = init_tables(init_stage_map(a3, map).1, types);
    lemma_active_before_bounds(c, c.stages as int);
    lemma_vectors_ledger(a5);
    let a6 = init_vectors(a5);
    let n = mri_vec_count(mri_mem(a6).work);
    assert(0 <= n * a3.lrw1 <= (2 * 0x1_0000 + 3) * 0x1_0000_0000) by (nonlinear_arith)
        requires
            0 <= n <= 2 * 0x1_0000 + 3,
            0 <= a3.lrw1 <= 0x1_0000_0000,
    ;
    assert(0 <= n * a3.liw1 <= (2 * 0x1_0000 + 3) * 0x1_0000_0000) by (nonlinear_arith)
        requires
            0 <= n <= 2 * 0x1_0000 + 3,
            0 <= a3.liw1 <= 0x1_0000_0000,
    ;
    assert(a6.lrw == a5.lrw + n * a3.lrw1);
    assert(a6.liw == a5.liw + n * a3.liw1);
}

/// Initializing the solvers and checking the step size settings changes no
/// workspace and none of what MRIStep's release reads.
proof fn lemma_solver_init_keeps(a7: ARKodeMem, nls_flag: i32)
    requires
        a7.step_mem is Mri,
    ensures
        ({
            let b = solver_init_spec(a7, nls_flag).1;
            let sm7 = mri_mem(a7);
            let smb = mri_mem(b);
            &&& b.lrw == a7.lrw && b.liw == a7.liw && b.lrw1 == a7.lrw1 && b.liw1 == a7.liw1
            &&& smb.MRIC == sm7.MRIC && smb.work == sm7.work && smb.method.stages == sm7.method.stages
            &&& smb.stage_map == sm7.stage_map && smb.stagetypes == sm7.stagetypes
            &&& smb.solvers.lfree == sm7.solvers.lfree
        }),
{
}

/// Releasing MRIStep after a successful first initialization returns the
/// workspace to what releasing it before the initialization would: the coupling
/// table, stage map and types, coefficient rows, fused-operation workspace and
/// stage vectors the initialization allocates are all released again.  Stated for
/// an MRIStep memory without a table or stage arrays and without a linear solver
/// interface; `map` and `types` are the stage map and types the initialization
/// builds.
pub proof fn lemma_mri_init_then_free(
    a: ARKodeMem,
    table: Option<MRIStepCoupling>,
    nls_flag: i32,
    map: Vec<i32>,
    types: Vec<i32>,
)
    requires
        first_init_ok(a, table),
        mri_unset(mri_mem(a)),
        mri_init_spec(a, FIRST_INIT, table, nls_flag, map, types).0 == ARK_SUCCESS,
        map@ == expected_map(used_table(a, table)),
        types@ == expected_types(used_table(a, table)),
    ensures
        ({
            let b = mri_init_spec(a, FIRST_INIT, table, nls_flag, map, types).1;
            &&& mri_free_result(b).lrw == mri_free_result(a).lrw
            &&& mri_free_result(b).liw == mri_free_result(a).liw
        }),
{
    let c = used_table(a, table);
    assert(first_init_spec(a, table, map, types).0 == ARK_SUCCESS);
    assert(init_head_spec(a, table).0 == ARK_SUCCESS);
    lemma_head_installs_table(a, table);
    let a3 = init_head_spec(a, table).1;
    assert(init_tail_spec(a3, map, types).0 == ARK_SUCCESS);
    assert(stage_map_ok(c));
    assert(table_only(a3, c));
    lemma_tail_ledger(a3, c, map, types);
    let a7 = init_inner_alloc(init_vectors(init_tables(init_stage_map(a3, map).1, types)));
    assert(init_tail_spec(a3, map, types).1 == a7);
    let b = mri_init_spec(a, FIRST_INIT, table, nls_flag, map, types).1;
    assert(b == solver_init_spec(a7, nls_flag).1);
    lemma_solver_init_keeps(a7, nls_flag);
    let smb = mri_mem(b);
    let n = mri_vec_count(smb.work);
    assert(0 <= fused_words(mri_mem(a3)) <= 0x4_0000);
    assert(smb.stage_map@.len() == c.stages);
    assert(smb.stagetypes@.len() == c.stages + 1);
    assert(coupling_release(smb) == (
        coupling_lrw(c) + 2 * c.stages,
        coupling_liw(c) + (c.stages + 1) + c.stages,
    ));
    assert(mri_released(b) == (
        coupling_lrw(c) + 2 * c.stages + n * a.lrw1 + fused_words(smb),
        coupling_liw(c) + (c.stages + 1) + c.stages + n * a.liw1 + fused_words(smb),
    ));
    let n0 = mri_vec_count(mri_mem(a).work);
    assert(n0 == 0);
    assert(n0 * a.lrw1 == 0 && n0 * a.liw1 == 0) by (nonlinear_arith)
        requires
            n0 == 0,
    ;
    assert(mri_released(a) == (fused_words(mri_mem(a)), fused_words(mri_mem(a))));
}

} // verus!

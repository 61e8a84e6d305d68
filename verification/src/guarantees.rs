//! What the library's decisions guarantee, stated over all inputs: stage plans,
//! coupling table checks and defaults, the linear solver's setup, and the orders
//! of the SSP methods.
use vstd::prelude::*;
use crate::consts::{ARK_SUCCESS, ARK_ILL_INPUT, ARK_INVALID_TABLE, SUNLINEARSOLVER_MATRIX_EMBEDDED};
use crate::arkode::ARKodeMem;
use crate::mri::{
    MRIMethodInfo, MRIStepCoupling, ARKODE_MRI_NONE, MRISTAGE_ERK_FAST, MRISTAGE_ERK_NOFAST,
    MRISTAGE_DIRK_NOFAST, MRISTAGE_DIRK_FAST, MRISTAGE_STIFF_ACC, MRISTEP_EXPLICIT, MRISTEP_IMPLICIT,
    MRISTEP_IMEX, MRISTEP_MERK, MRISTEP_SR, is_mri, mri_mem, check_coupling_code, merk_groups_ok,
    no_dirk_fast, default_table_id, table_order, table_embedding, table_problem, stage_type,
    coupling_ok, MRISTAGE_FIRST,
};
use crate::mri_stage::{
    group_lowest, group_lowest_from,
    MRIStageRoutine, MRIPostHook, stage_plan, merk_stage_plan, sr_stage_plan,
};
use crate::ls::{
    ARKLsMem, setup_jbad, solver_matrix_code, new_lmem, SUNLinearSolver, SUNMatrix,
    ls_initialize_spec, lmem_reachable, dq_unavailable, mass_mismatch, ls_init_matrix, checked_mass,
};
use crate::lsrk::{
    is_lsrk, lsrk_mem, ssp_result, ssp_code, sts_result, sts_code, is_ssp_method, is_sts_method,
    ARKODE_LSRK_SSP_S_2, ARKODE_LSRK_SSP_S_3, ARKODE_LSRK_SSP_10_4, ARKODE_LSRK_RKC_2,
    ARKODE_LSRK_RKL_2, num_ssp_stages_result, dom_eig_update_result,
};
use crate::arkode::ARKStepFn;
use crate::consts::{
    ARK_MEM_NULL, ARKLS_ILL_INPUT, ARKLS_SUCCESS, ARK_FAIL_BAD_J, ARK_FAIL_OTHER,
    SUNLINEARSOLVER_DIRECT, SUNLINEARSOLVER_ITERATIVE, SUNLINEARSOLVER_MATRIX_ITERATIVE,
};

verus! {

/// An internal MRI-GARK stage restarts the inner stepper from its solution
/// whenever that solution did not come out of the inner stepper itself: after
/// every stage without fast evolution or with an implicit solve (whether or not a
/// postprocessing function is set), and after an explicit fast stage only when
/// postprocessing changed its solution; a stiffly accurate stage computes nothing,
/// so it neither restarts nor postprocesses.  Postprocessing is always followed by
/// a restart.
pub proof fn lemma_gark_stage_restart(
    stagetypes: Seq<i32>,
    stage_map: Seq<i32>,
    is: int,
    do_embedding: bool,
    has_postprocess: bool,
    has_pre_rhs: bool,
    explicit_rhs: bool,
    implicit_rhs: bool,
    deduce_rhs: bool,
)
    ensures
        ({
            let p = stage_plan(
                stagetypes,
                stage_map,
                is,
                do_embedding,
                has_postprocess,
                has_pre_rhs,
                explicit_rhs,
                implicit_rhs,
                deduce_rhs,
            );
            let t = stagetypes[is];
            &&& (t == MRISTAGE_ERK_NOFAST || t == MRISTAGE_DIRK_NOFAST || t == MRISTAGE_DIRK_FAST)
                ==> p.reset_inner
            &&& t == MRISTAGE_ERK_FAST ==> (p.reset_inner <==> has_postprocess)
            &&& t == MRISTAGE_STIFF_ACC ==> !p.reset_inner && !p.postprocess && p.routine
                == MRIStageRoutine::Nothing
            &&& p.postprocess ==> p.reset_inner
            &&& p.postprocess <==> (has_postprocess && t != MRISTAGE_STIFF_ACC)
        }),
{
}

/// The routine of an MRI-GARK stage follows its type: the fast problem is evolved
/// exactly for the explicit and implicit fast stages, an implicit solve is made
/// exactly for the implicit stages, and only the four computing stage types have
/// a routine.
pub proof fn lemma_gark_stage_routine(t: i32)
    ensures
        ({
            let r = crate::mri_stage::stage_routine(t);
            let fast = r == MRIStageRoutine::ErkFast || r == MRIStageRoutine::DirkFast;
            let implicit = r == MRIStageRoutine::DirkNoFast || r == MRIStageRoutine::DirkFast;
            &&& fast <==> (t == MRISTAGE_ERK_FAST || t == MRISTAGE_DIRK_FAST)
            &&& implicit <==> (t == MRISTAGE_DIRK_NOFAST || t == MRISTAGE_DIRK_FAST)
            &&& (r == MRIStageRoutine::Nothing) <==> !(t == MRISTAGE_ERK_FAST || t
                == MRISTAGE_ERK_NOFAST || t == MRISTAGE_DIRK_NOFAST || t == MRISTAGE_DIRK_FAST)
        }),
{
}

/// The slow right-hand sides of an MRI-GARK stage: none are evaluated for a stage
/// left out of the stage map, nor (without an embedding) before a stiffly
/// accurate stage; otherwise the explicit one is evaluated when the problem has
/// one, and the implicit one is either evaluated or deduced from the implicit
/// solve (deduced only for an implicit stage without fast evolution, when asked
/// for), never both; the user's pre-RHS function runs only before an evaluation.
pub proof fn lemma_gark_stage_rhs(
    stagetypes: Seq<i32>,
    stage_map: Seq<i32>,
    is: int,
    do_embedding: bool,
    has_postprocess: bool,
    has_pre_rhs: bool,
    explicit_rhs: bool,
    implicit_rhs: bool,
    deduce_rhs: bool,
)
    ensures
        ({
            let p = stage_plan(
                stagetypes,
                stage_map,
                is,
                do_embedding,
                has_postprocess,
                has_pre_rhs,
                explicit_rhs,
                implicit_rhs,
                deduce_rhs,
            );
            &&& stage_map[is] == -1 ==> !p.calc_fslow
            &&& !do_embedding && stagetypes[is + 1] == MRISTAGE_STIFF_ACC ==> !p.calc_fslow
            &&& stage_map[is] != -1 && (do_embedding || stagetypes[is + 1] != MRISTAGE_STIFF_ACC)
                ==> p.calc_fslow
            &&& p.eval_explicit <==> (p.calc_fslow && explicit_rhs)
            &&& (p.eval_implicit || p.deduce_implicit) <==> (p.calc_fslow && implicit_rhs)
            &&& !(p.eval_implicit && p.deduce_implicit)
            &&& p.deduce_implicit ==> deduce_rhs && stagetypes[is] == MRISTAGE_DIRK_NOFAST
            &&& p.pre_rhs <==> (has_pre_rhs && (p.eval_explicit || p.eval_implicit))
        }),
{
}

/// Each entry of a MERK stage group is at most one of the embedding and the
/// solution; neither evaluates the slow right-hand side, every other stage does;
/// only the embedding is kept for the error estimate, and it is skipped exactly
/// when no error estimate is wanted (fixed steps without error accumulation);
/// the inner stepper restarts only at the first entry of a group.
pub proof fn lemma_merk_stage_plan(
    group: Seq<Seq<i32>>,
    ngroup: int,
    stages: int,
    ig: int,
    is: int,
    fixedstep: bool,
    accum_none: bool,
    has_stage_post: bool,
    has_step_post: bool,
)
    ensures
        ({
            let p = merk_stage_plan(
                group,
                ngroup,
                stages,
                ig,
                is,
                fixedstep,
                accum_none,
                has_stage_post,
                has_step_post,
            );
            &&& !(p.embedding && p.solution)
            &&& p.calc_fslow <==> !(p.embedding || p.solution)
            &&& p.archive <==> p.embedding
            &&& p.skip <==> (p.embedding && fixedstep && accum_none)
            &&& p.embedding ==> ig == ngroup - 2 && !p.inner_dsm
            &&& p.solution ==> ig == ngroup - 1
            &&& p.reset_inner ==> is == 0
            &&& p.post == MRIPostHook::Stage ==> has_stage_post && p.calc_fslow
            &&& p.post == MRIPostHook::Step ==> has_step_post && p.solution
            &&& (p.solution && has_step_post) ==> p.post == MRIPostHook::Step
        }),
{
}

/// An MRI-SR step runs stages 1 to `stages - 1` always, and the embedding stage
/// `stages` exactly when an error estimate is wanted; every stage after the first
/// restarts from the step's initial state; an implicit problem corrects each stage
/// either by an implicit solve or by an explicit update, never both; the slow
/// right-hand sides are evaluated on internal stages only, combined for ImEx
/// problems, and the solution stage is kept for the error estimate.
pub proof fn lemma_sr_stage_plan(
    stage: int,
    stages: int,
    fixedstep: bool,
    accum_none: bool,
    implicit_rhs: bool,
    explicit_rhs: bool,
    deduce_rhs: bool,
    diag_nonzero: bool,
    has_stage_post: bool,
    has_step_post: bool,
    has_pre_rhs: bool,
)
    requires
        stages >= 2,
    ensures
        ({
            let p = sr_stage_plan(
                stage,
                stages,
                fixedstep,
                accum_none,
                implicit_rhs,
                explicit_rhs,
                deduce_rhs,
                diag_nonzero,
                has_stage_post,
                has_step_post,
                has_pre_rhs,
            );
            &&& 1 <= stage < stages ==> p.performed
            &&& stage == stages ==> (p.performed <==> !(fixedstep && accum_none))
            &&& (stage < 1 || stage > stages) ==> !p.performed
            &&& p.restart <==> stage > 1
            &&& implicit_rhs ==> (p.implicit_solve != p.explicit_update)
            &&& !implicit_rhs ==> !p.implicit_solve && !p.explicit_update
            &&& p.calc_fslow <==> (stage != stages - 1 && stage != stages)
            &&& p.combine <==> (p.calc_fslow && implicit_rhs && explicit_rhs)
            &&& p.archive <==> stage == stages - 1
            &&& !p.inner_dsm <==> stage == stages
            &&& (p.eval_implicit || p.deduce_implicit) <==> (p.calc_fslow && implicit_rhs)
        }),
{
}

/// A coupling table passes the check exactly when it fits the problem and is well
/// formed: at least one stage, a positive order, an embedding when steps adapt, a
/// type that can treat the problem's parts with the coupling matrices that type
/// needs, an explicit coupling strictly below the diagonal, an implicit coupling
/// on or below it (diagonally implicit at most), stage groups in range for a MERK
/// table, no implicit stage with fast evolution, ordered abscissae for a GARK
/// table, a first stage equal to the step's start and a last stage at its end.
/// A table that fails is refused with `ARK_ILL_INPUT` (wrong for the problem) or
/// `ARK_INVALID_TABLE`.
pub proof fn lemma_check_coupling_accepts_exactly_valid(
    fixedstep: bool,
    m: MRIMethodInfo,
    c: MRIStepCoupling,
)
    ensures
        ({
            let t = c.ctype;
            let r = check_coupling_code(fixedstep, m, c);
            &&& r == ARK_SUCCESS <==> {
                &&& c.stages >= 1 && c.q >= 1 && (fixedstep || c.p >= 1)
                &&& (m.implicit_rhs && m.explicit_rhs ==> t == MRISTEP_IMEX || t == MRISTEP_SR)
                &&& (m.explicit_rhs ==> t == MRISTEP_EXPLICIT || t == MRISTEP_IMEX || t
                    == MRISTEP_MERK || t == MRISTEP_SR)
                &&& (m.implicit_rhs ==> t == MRISTEP_IMPLICIT || t == MRISTEP_IMEX || t
                    == MRISTEP_SR)
                &&& (t == MRISTEP_IMEX || t == MRISTEP_SR ==> c.has_W && c.has_G)
                &&& (t == MRISTEP_EXPLICIT || t == MRISTEP_MERK ==> c.has_W && !c.has_G)
                &&& (t == MRISTEP_IMPLICIT ==> !c.has_W && c.has_G)
                &&& !(c.has_W && c.w_upper)
                &&& !(c.has_G && c.g_strict_upper)
                &&& (t == MRISTEP_MERK ==> merk_groups_ok(c))
                &&& no_dirk_fast(c)
                &&& (t == MRISTEP_IMPLICIT || t == MRISTEP_EXPLICIT || t == MRISTEP_IMEX
                    ==> !c.c_unsorted)
                &&& !c.first_nonzero
                &&& !c.last_off_one
            }
            &&& r == ARK_SUCCESS || r == ARK_ILL_INPUT || r == ARK_INVALID_TABLE
            &&& !(c.stages >= 1 && c.q >= 1 && (fixedstep || c.p >= 1)) ==> r == ARK_INVALID_TABLE
            &&& r == ARK_ILL_INPUT ==> !{
                &&& (m.implicit_rhs && m.explicit_rhs ==> t == MRISTEP_IMEX || t == MRISTEP_SR)
                &&& (m.explicit_rhs ==> t == MRISTEP_EXPLICIT || t == MRISTEP_IMEX || t
                    == MRISTEP_MERK || t == MRISTEP_SR)
                &&& (m.implicit_rhs ==> t == MRISTEP_IMPLICIT || t == MRISTEP_IMEX || t
                    == MRISTEP_SR)
                &&& (t == MRISTEP_IMEX || t == MRISTEP_SR ==> c.has_W && c.has_G)
                &&& (t == MRISTEP_EXPLICIT || t == MRISTEP_MERK ==> c.has_W && !c.has_G)
                &&& (t == MRISTEP_IMPLICIT ==> !c.has_W && c.has_G)
            }
            &&& c.has_G && c.g_strict_upper ==> r != ARK_SUCCESS
            &&& c.has_W && c.w_upper ==> r != ARK_SUCCESS
        }),
{
}

/// The default coupling table fits its request: for each stepping mode and problem
/// type, a table exists for orders 1 to 4 with fixed steps and 2 to 4 with
/// adaptive ones (order 5 too for explicit problems), and no other; the table has
/// the requested order, treats the problem's kind (explicit, implicit, ImEx), and
/// has an embedding when steps adapt.
pub proof fn lemma_default_table_fits(fixedstep: bool, explicit_rhs: bool, implicit_rhs: bool, q: i32)
    ensures
        ({
            let id = default_table_id(fixedstep, explicit_rhs, implicit_rhs, q);
            let lo = if fixedstep { 1int } else { 2int };
            let hi = if implicit_rhs { 4int } else { 5int };
            &&& (id != ARKODE_MRI_NONE) <==> (lo <= q <= hi)
            &&& id != ARKODE_MRI_NONE ==> table_order(id) == q
            &&& id != ARKODE_MRI_NONE ==> table_problem(id) == (if implicit_rhs && explicit_rhs {
                2int
            } else if implicit_rhs {
                1int
            } else {
                0int
            })
            &&& id != ARKODE_MRI_NONE && !fixedstep ==> table_embedding(id) > 0
        }),
{
}

/// Different orders get different default tables (for one stepping mode and
/// problem type).
pub proof fn lemma_default_tables_distinct(
    fixedstep: bool,
    explicit_rhs: bool,
    implicit_rhs: bool,
    q1: i32,
    q2: i32,
)
    requires
        q1 != q2,
        default_table_id(fixedstep, explicit_rhs, implicit_rhs, q1) != ARKODE_MRI_NONE,
    ensures
        default_table_id(fixedstep, explicit_rhs, implicit_rhs, q1) != default_table_id(
            fixedstep,
            explicit_rhs,
            implicit_rhs,
            q2,
        ),
{
    lemma_default_table_fits(fixedstep, explicit_rhs, implicit_rhs, q1);
    lemma_default_table_fits(fixedstep, explicit_rhs, implicit_rhs, q2);
}

/// Initializing the linear solver interface never enables the stepper's linear
/// solver setup, and disables it only when nothing would be set up: it stays as it
/// was whenever a matrix or a preconditioner setup is present and the solver is not
/// matrix-embedded; it is disabled for a matrix-embedded solver, or without a
/// matrix and without a preconditioner setup.
pub proof fn lemma_ls_initialize_keeps_needed_setup(a: ARKodeMem)
    requires
        lmem_reachable(a),
    ensures
        ({
            let (r, b) = ls_initialize_spec(a);
            let l = a.lmem->Some_0;
            let before = mri_mem(a).solvers.lsetup;
            let after = mri_mem(b).solvers.lsetup;
            &&& is_mri(b)
            &&& after ==> before
            &&& (l.A is Some || l.fns.pset) && l.LS.ls_type != SUNLINEARSOLVER_MATRIX_EMBEDDED
                ==> after == before
            &&& !dq_unavailable(l) && !mass_mismatch(ls_init_matrix(l), checked_mass(a)) && (l.LS.ls_type
                == SUNLINEARSOLVER_MATRIX_EMBEDDED || (l.A is None && !l.fns.pset)) ==> !after
            &&& dq_unavailable(l) ==> r == ARKLS_ILL_INPUT
            &&& !dq_unavailable(l) && !mass_mismatch(ls_init_matrix(l), checked_mass(a)) ==> r
                == l.LS.init_flag && ({
                    let k = b.lmem->Some_0.counters;
                    k.nje == 0 && k.nfeDQ == 0 && k.nstlj == 0 && k.npe == 0 && k.nli == 0 && k.nps
                        == 0 && k.ncfl == 0 && k.njtsetup == 0 && k.njtimes == 0
                })
                && b.lmem->Some_0.last_flag == l.LS.init_flag
        }),
{
}

/// The SSP methods have the documented orders: SSP(s,2) order 2, SSP(s,3) order 3,
/// SSP(10,4) order 4, each with an embedding of one order less; selecting one
/// records them in the step memory and in the adaptivity memory, so different SSP
/// methods give different orders.
pub proof fn lemma_ssp_orders(a: ARKodeMem)
    requires
        is_lsrk(a),
        a.hadapt_mem is Some,
    ensures
        lsrk_mem(ssp_result(a, ARKODE_LSRK_SSP_S_2)).q == 2,
        lsrk_mem(ssp_result(a, ARKODE_LSRK_SSP_S_2)).p == 1,
        lsrk_mem(ssp_result(a, ARKODE_LSRK_SSP_S_3)).q == 3,
        lsrk_mem(ssp_result(a, ARKODE_LSRK_SSP_S_3)).p == 2,
        lsrk_mem(ssp_result(a, ARKODE_LSRK_SSP_10_4)).q == 4,
        lsrk_mem(ssp_result(a, ARKODE_LSRK_SSP_10_4)).p == 3,
        forall|m: i32|
            #![trigger ssp_result(a, m)]
            m == ARKODE_LSRK_SSP_S_2 || m == ARKODE_LSRK_SSP_S_3 || m == ARKODE_LSRK_SSP_10_4 ==> {
                let b = ssp_result(a, m);
                &&& b.hadapt_mem is Some
                &&& b.hadapt_mem->Some_0.q == lsrk_mem(b).q
                &&& b.hadapt_mem->Some_0.p == lsrk_mem(b).p
                &&& lsrk_mem(b).p == lsrk_mem(b).q - 1
                &&& lsrk_mem(b).is_SSP
                &&& lsrk_mem(b).LSRKmethod == m
                &&& lsrk_mem(b).nfusedopvecs == 3
                &&& ssp_code(a, m) == ARK_SUCCESS
            },
        lsrk_mem(ssp_result(a, ARKODE_LSRK_SSP_S_2)).req_stages == 2,
        lsrk_mem(ssp_result(a, ARKODE_LSRK_SSP_S_3)).req_stages == 4,
        lsrk_mem(ssp_result(a, ARKODE_LSRK_SSP_10_4)).req_stages == 10,
        ssp_result(a, ARKODE_LSRK_SSP_S_2).stepper.step == ARKStepFn::SSPs2,
        ssp_result(a, ARKODE_LSRK_SSP_S_3).stepper.step == ARKStepFn::SSP43,
        ssp_result(a, ARKODE_LSRK_SSP_10_4).stepper.step == ARKStepFn::SSP104,
{
}

/// The STS methods (RKC and RKL) are second order with a second-order embedding,
/// recorded in the step and adaptivity memories, and use the five fused-operation
/// vectors of their recurrences; any method value other than the five LSRK methods
/// is refused and changes nothing, and an integrator without LSRKStep has no
/// LSRKStep memory to change.
pub proof fn lemma_sts_methods(a: ARKodeMem, m: i32)
    ensures
        is_lsrk(a) && a.hadapt_mem is Some && is_sts_method(m) ==> {
            let b = sts_result(a, m);
            &&& sts_code(a, m) == ARK_SUCCESS
            &&& lsrk_mem(b).q == 2 && lsrk_mem(b).p == 2
            &&& b.hadapt_mem->Some_0.q == 2 && b.hadapt_mem->Some_0.p == 2
            &&& !lsrk_mem(b).is_SSP && lsrk_mem(b).nfusedopvecs == 5
            &&& lsrk_mem(b).LSRKmethod == m
            &&& b.stepper.step == (if m == ARKODE_LSRK_RKC_2 { ARKStepFn::RKC } else { ARKStepFn::RKL })
        },
        is_lsrk(a) && !is_sts_method(m) && !is_ssp_method(m) ==> sts_code(a, m) == ARK_ILL_INPUT
            && sts_result(a, m) == a && ssp_code(a, m) == ARK_ILL_INPUT && ssp_result(a, m) == a,
        !is_lsrk(a) ==> sts_code(a, m) == ARK_MEM_NULL && sts_result(a, m) == a && ssp_code(a, m)
            == ARK_MEM_NULL && ssp_result(a, m) == a,
{
}

/// How the stages of a coupling table are classified: stage 0 is the step's
/// start; every other stage of a MERK or MRI-SR table evolves the fast problem
/// explicitly; in a GARK table a stage evolves the fast problem exactly when its
/// abscissa moves, is implicit exactly when its diagonal implicit coefficient is
/// nonzero, and is stiffly accurate (computes nothing) exactly when it has no
/// coefficient and no abscissa step; indices outside the table are refused.
pub proof fn lemma_stage_types(c: MRIStepCoupling, is: int)
    requires
        coupling_ok(c),
    ensures
        ({
            let t = stage_type(c, is);
            let gark = !(c.ctype == MRISTEP_SR || c.ctype == MRISTEP_MERK);
            &&& (is < 0 || is > c.stages) ==> t == ARK_INVALID_TABLE
            &&& is == 0 ==> t == MRISTAGE_FIRST
            &&& 1 <= is <= c.stages && !gark ==> t == MRISTAGE_ERK_FAST
            &&& 1 <= is <= c.stages && gark ==> {
                &&& (t == MRISTAGE_ERK_FAST || t == MRISTAGE_DIRK_FAST) <==> c.c_step@[is]
                &&& (t == MRISTAGE_DIRK_NOFAST || t == MRISTAGE_DIRK_FAST) <==> c.g_diag@[is]
                &&& t == MRISTAGE_STIFF_ACC <==> !(c.g_diag@[is] || c.g_row@[is] || c.w_row@[is]
                    || c.c_step@[is])
                &&& (t == MRISTAGE_ERK_FAST || t == MRISTAGE_ERK_NOFAST || t == MRISTAGE_DIRK_NOFAST
                    || t == MRISTAGE_DIRK_FAST || t == MRISTAGE_STIFF_ACC)
            }
        }),
{
}

/// The Jacobian data are refreshed at a linear system setup exactly in these
/// cases: the first setup, `msbj` or more steps since the last refresh, a
/// convergence failure blamed on the Jacobian while the change in gamma was
/// acceptable, or any other convergence failure.  Without these (in particular
/// after a successful solve, or a bad-Jacobian failure while gamma changed too
/// much), the data are reused.
pub proof fn lemma_setup_refresh(l: ARKLsMem, initsetup: bool, nst: i64, convfail: i32, dgamma_fail: bool)
    ensures
        initsetup ==> setup_jbad(l, initsetup, nst, convfail, dgamma_fail),
        nst >= l.counters.nstlj + l.msbj ==> setup_jbad(l, initsetup, nst, convfail, dgamma_fail),
        convfail == ARK_FAIL_OTHER ==> setup_jbad(l, initsetup, nst, convfail, dgamma_fail),
        convfail == ARK_FAIL_BAD_J && !dgamma_fail ==> setup_jbad(l, initsetup, nst, convfail, dgamma_fail),
        !initsetup && nst < l.counters.nstlj + l.msbj && convfail != ARK_FAIL_OTHER && (convfail
            != ARK_FAIL_BAD_J || dgamma_fail) ==> !setup_jbad(l, initsetup, nst, convfail, dgamma_fail),
{
}

/// The stage counts an SSP method accepts: SSP(s,2) any count from 2, SSP(s,3)
/// the perfect squares from 4 (4 runs the SSP(4,3) routine, larger squares the
/// SSP(s,3) one), SSP(10,4) only 10; a non-positive count restores the method's
/// default (2, 4, 10).  A count is recorded only when accepted; a refused count, or
/// any count for an STS method, changes nothing.
pub proof fn lemma_ssp_stage_counts(a: ARKodeMem, n: i32)
    requires
        is_lsrk(a),
    ensures
        ({
            let sm = lsrk_mem(a);
            let m = sm.LSRKmethod;
            let (r, b) = num_ssp_stages_result(a, n);
            &&& r == ARK_SUCCESS || r == ARK_ILL_INPUT
            &&& r == ARK_ILL_INPUT ==> b == a
            &&& !sm.is_SSP ==> r == ARK_ILL_INPUT
            &&& sm.is_SSP && m == ARKODE_LSRK_SSP_S_2 && n >= 2 ==> r == ARK_SUCCESS
                && lsrk_mem(b).req_stages == n && b.stepper == a.stepper
            &&& m == ARKODE_LSRK_SSP_S_2 && n == 1 ==> r == ARK_ILL_INPUT
            &&& sm.is_SSP && m == ARKODE_LSRK_SSP_S_3 && n == 4 ==> r == ARK_SUCCESS
                && lsrk_mem(b).req_stages == 4 && b.stepper.step == ARKStepFn::SSP43
            &&& sm.is_SSP && m == ARKODE_LSRK_SSP_S_3 && n == 9 ==> r == ARK_SUCCESS
                && lsrk_mem(b).req_stages == 9 && b.stepper.step == ARKStepFn::SSPs3
            &&& m == ARKODE_LSRK_SSP_S_3 && (1 <= n <= 3 || n == 5 || n == 8) ==> r == ARK_ILL_INPUT
            &&& m == ARKODE_LSRK_SSP_10_4 && n > 0 && n != 10 ==> r == ARK_ILL_INPUT
            &&& sm.is_SSP && m == ARKODE_LSRK_SSP_10_4 && n == 10 ==> r == ARK_SUCCESS
            &&& sm.is_SSP && n <= 0 && m == ARKODE_LSRK_SSP_S_2 ==> r == ARK_SUCCESS
                && lsrk_mem(b).req_stages == 2
            &&& sm.is_SSP && n <= 0 && m == ARKODE_LSRK_SSP_S_3 ==> lsrk_mem(b).req_stages == 4
            &&& sm.is_SSP && n <= 0 && m == ARKODE_LSRK_SSP_10_4 ==> lsrk_mem(b).req_stages == 10
            &&& r == ARK_SUCCESS && n > 0 ==> lsrk_mem(b).req_stages == n
        }),
{
    assert(crate::lsrk::is_square(4)) by {
        assert(2 * 2 == 4);
    }
    assert(crate::lsrk::is_square(9)) by {
        assert(3 * 3 == 9);
    }
    if n == 5 || n == 8 {
        if crate::lsrk::is_square(n as int) {
            let k = choose|k: int| 0 <= k && #[trigger] (k * k) == n;
            if k <= 2 {
                assert(k * k <= 4) by (nonlinear_arith)
                    requires
                        0 <= k <= 2,
                ;
            } else {
                assert(k * k >= 9) by (nonlinear_arith)
                    requires
                        k >= 3,
                ;
            }
        }
    }
}

/// After a step attempt the dominant eigenvalue is never both current and due
/// for an update; a rejected step leaves the eigenvalue's currency as it was and
/// asks for an update only when the eigenvalue is stale; an accepted step makes
/// the right-hand side current and, for a constant Jacobian, keeps the eigenvalue
/// current without further updates, while for a varying Jacobian the eigenvalue
/// becomes stale and an update is asked for once the update frequency's steps
/// have passed since the last estimate.
pub proof fn lemma_dom_eig_update(a: ARKodeMem, accepted: bool)
    requires
        is_lsrk(a),
    ensures
        ({
            let sm = lsrk_mem(a);
            let (r, b) = dom_eig_update_result(a, accepted);
            let nb = lsrk_mem(b);
            &&& r == ARK_SUCCESS
            &&& is_lsrk(b)
            &&& !(nb.dom_eig_update && nb.dom_eig_is_current)
            &&& !accepted ==> nb.dom_eig_is_current == sm.dom_eig_is_current && b.status == a.status
            &&& !accepted ==> (nb.dom_eig_update <==> !sm.dom_eig_is_current)
            &&& accepted ==> b.status.fn_is_current
            &&& accepted && sm.const_Jac ==> nb.dom_eig_is_current && !nb.dom_eig_update
            &&& accepted && !sm.const_Jac ==> !nb.dom_eig_is_current && (nb.dom_eig_update
                <==> a.counters.nst + 1 - sm.dom_eig_nst >= sm.dom_eig_freq)
            &&& nb.dom_eig_freq == sm.dom_eig_freq && nb.const_Jac == sm.const_Jac
        }),
{
}

/// Scanning a group row from column `il` with `acc` the lowest so far gives a value
/// no larger than `acc` and than every entry of the row's remaining run of
/// non-negative entries (up to `stages` columns), and it is `acc` or one of them.
pub proof fn lemma_group_lowest_from(row: Seq<i32>, il: int, stages: int, acc: i32)
    requires
        0 <= il,
    ensures
        group_lowest_from(row, il, stages, acc) <= acc,
        forall|l: int|
            il <= l < stages && l < row.len() && (forall|j: int| il <= j <= l ==> row[j] >= 0)
                ==> group_lowest_from(row, il, stages, acc) <= #[trigger] row[l],
        group_lowest_from(row, il, stages, acc) == acc || exists|l: int|
            il <= l < row.len() && group_lowest_from(row, il, stages, acc) == #[trigger] row[l],
    decreases stages - il,
{
    if il >= stages || il >= row.len() || row[il] < 0 {
    } else {
        let nacc = if row[il] < acc { row[il] } else { acc };
        lemma_group_lowest_from(row, il + 1, stages, nacc);
        let r = group_lowest_from(row, il, stages, acc);
        assert forall|l: int|
            il <= l < stages && l < row.len() && (forall|j: int| il <= j <= l ==> row[j] >= 0)
                implies r <= #[trigger] row[l] by {
            if l > il {
                assert(forall|j: int| il + 1 <= j <= l ==> row[j] >= 0);
            }
        }
    }
}

/// A MERK stage group uses the forcing of its lowest stage: the result is the
/// group's first entry or a later one, and no entry of the group (the run of
/// non-negative entries after the first, within `stages` columns) is lower.
pub proof fn lemma_group_lowest(row: Seq<i32>, stages: int)
    requires
        row.len() >= 1,
    ensures
        group_lowest(row, stages) <= row[0],
        forall|l: int|
            1 <= l < stages && l < row.len() && (forall|j: int| 1 <= j <= l ==> row[j] >= 0)
                ==> group_lowest(row, stages) <= #[trigger] row[l],
        exists|l: int| 0 <= l < row.len() && group_lowest(row, stages) == #[trigger] row[l],
{
    lemma_group_lowest_from(row, 1, stages, row[0]);
    let r = group_lowest(row, stages);
    if r == row[0] {
        assert(r == row[0]);
    }
}

/// Which solvers take a matrix: a direct solver and a matrix-iterative one need
/// one, a matrix-embedded solver refuses one, a plain iterative solver works with
/// or without.  A new interface treats direct and matrix-iterative solvers as
/// matrix-based (with solution scaling), iterative and matrix-embedded ones as
/// matrix-free, and all but direct ones as iterative; it approximates the Jacobian
/// by difference quotients exactly when it has a matrix, asks for a Jacobian
/// evaluation at its first setup, and starts with no statistics.
pub proof fn lemma_solver_kinds(LS: SUNLinearSolver, A: Option<SUNMatrix>, n: i64)
    ensures
        LS.ls_type == SUNLINEARSOLVER_DIRECT ==> (solver_matrix_code(LS.ls_type, A is Some)
            == ARKLS_SUCCESS <==> A is Some),
        LS.ls_type == SUNLINEARSOLVER_MATRIX_ITERATIVE ==> (solver_matrix_code(LS.ls_type, A is Some)
            == ARKLS_SUCCESS <==> A is Some),
        LS.ls_type == SUNLINEARSOLVER_MATRIX_EMBEDDED ==> (solver_matrix_code(LS.ls_type, A is Some)
            == ARKLS_SUCCESS <==> A is None),
        LS.ls_type == SUNLINEARSOLVER_ITERATIVE ==> solver_matrix_code(LS.ls_type, A is Some)
            == ARKLS_SUCCESS,
        ({
            let l = new_lmem(LS, A, n);
            let t = LS.ls_type;
            &&& l.iterative <==> t != SUNLINEARSOLVER_DIRECT
            &&& (t == SUNLINEARSOLVER_DIRECT || t == SUNLINEARSOLVER_MATRIX_ITERATIVE) ==> l.matrixbased
                && l.scalesol
            &&& (t == SUNLINEARSOLVER_ITERATIVE || t == SUNLINEARSOLVER_MATRIX_EMBEDDED)
                ==> !l.matrixbased && !l.scalesol
            &&& l.jacDQ <==> A is Some
            &&& l.jbad
            &&& l.LS == LS && l.A == A
            &&& l.counters.nje == 0 && l.counters.nli == 0 && l.counters.npe == 0
                && l.counters.nstlj == 0
            &&& !l.fns.pset && !l.fns.psolve && !l.fns.jac
        }),
{
}

} // verus!

//! Properties of the library that relate several operations.
use vstd::prelude::*;
use crate::consts::{
    ARK_INTERP_HERMITE, ARK_INTERP_LAGRANGE, ARK_INTERP_NONE, ARKLS_SUCCESS, ARK_ILL_INPUT,
};
use crate::arkode::{ARKodeMem, created_mem, ws_margin, vec_sizes_ok};
use crate::adapt::{hadapt_ctrl_ok, released_rw, released_iw};
use crate::lsrk::{
    is_lsrk, lsrk_mem, lsrk_init_result, lsrk_free_result, ssp_by_name, ssp_code, ssp_result,
    ARKODE_LSRK_SSP_S_2, ARKODE_LSRK_SSP_S_3, ARKODE_LSRK_SSP_10_4,
};
use crate::io::{
    set_defaults_result, set_interp_type_result, defaults_base, step_bounds_ok, set_min_step_result,
    set_max_step_result,
};
use crate::decimal::{Decimal, dec_order};
use vstd::arithmetic::power::lemma_pow_positive;
use crate::interp::{
    valid_degree, hermite_created, lagrange_created, interp_nvecs, interp_lrw, interp_liw, created_ws,
    interp_free_result,
};
use crate::ls::{
    SUNLinearSolver, SUNMatrix, attach_linsol_result, ls_free_result, new_lmem,
    set_linear_solver_code, lmem_nvecs,
};
use crate::mri::{
    MRIStepCoupling, MRIStepInnerStepper, is_mri, mri_mem, inner_ws_ok, inner_alloc_result,
    inner_free_result, active_before, stage_map_entry, stages_active, MRISTEP_MERK, MRISTEP_SR,
};

verus! {

/// Restoring the default optional inputs twice gives the same integrator as
/// restoring them once.
pub proof fn lemma_set_defaults_idempotent(a: ARKodeMem)
    requires
        a.hadapt_mem is Some,
        is_lsrk(a) ==> hadapt_ctrl_ok(a.hadapt_mem->Some_0) && ws_margin(a, 0x8_0000_0000),
    ensures
        set_defaults_result(set_defaults_result(a)) == set_defaults_result(a),
{
    let b = set_defaults_result(a);
    if is_lsrk(a) {
        assert(released_rw(b.hadapt_mem->Some_0) == 10);
        assert(released_iw(b.hadapt_mem->Some_0) == 1);
        assert(set_defaults_result(b) =~= b);
    } else {
        assert(set_defaults_result(b) =~= b);
    }
}

/// A new integrator already holds the default optional inputs.
pub proof fn lemma_created_holds_defaults()
    ensures
        set_defaults_result(created_mem()) == created_mem(),
{
    assert(defaults_base(created_mem()) =~= created_mem());
}

/// Selecting an interpolation module type and then no interpolation, before
/// initialization and starting without a module, returns the workspace to where
/// it was: a new module holds no vectors yet.
pub proof fn lemma_interp_type_round_trip(a: ARKodeMem, itype: i32)
    requires
        !a.status.initialized,
        a.interp is None,
        itype == ARK_INTERP_HERMITE || itype == ARK_INTERP_LAGRANGE || itype == ARK_INTERP_NONE,
        ws_margin(a, 0x20_0000_0000),
    ensures
        ({
            let b = set_interp_type_result(a, itype).1;
            set_interp_type_result(b, ARK_INTERP_NONE).1 == (ARKodeMem {
                interp_type: ARK_INTERP_NONE,
                ..a
            })
        }),
{
    let d = a.interp_degree as int;
    if valid_degree(d) && itype == ARK_INTERP_HERMITE {
        assert(interp_nvecs(hermite_created(d)) == 0);
        assert(interp_lrw(hermite_created(d)) == 2);
        assert(interp_liw(hermite_created(d)) == 5);
    }
    if valid_degree(d) && itype == ARK_INTERP_LAGRANGE {
        assert(interp_nvecs(lagrange_created(d)) == 0);
        assert(interp_lrw(lagrange_created(d)) == d + 2);
        assert(interp_liw(lagrange_created(d)) == d + 3);
    }
}

/// Attaching a linear solver to an MRIStep integrator without one, and then
/// releasing the solver interface, returns the workspace to where it was.
pub proof fn lemma_linear_solver_attach_free(a: ARKodeMem, LS: SUNLinearSolver, A: Option<SUNMatrix>)
    requires
        is_mri(a),
        a.lmem is None,
        !mri_mem(a).solvers.lfree,
        set_linear_solver_code(a, LS, A) == ARKLS_SUCCESS,
        vec_sizes_ok(a),
        ws_margin(a, 0x8_0000_0000),
    ensures
        ({
            let b = attach_linsol_result(
                ARKodeMem {
                    lrw: (a.lrw + 2 * a.lrw1) as i64,
                    liw: (a.liw + 2 * a.liw1) as i64,
                    ..a
                },
                new_lmem(LS, A, a.lrw1),
            );
            &&& ls_free_result(b).lrw == a.lrw
            &&& ls_free_result(b).liw == a.liw
            &&& ls_free_result(b).lmem is None
        }),
{
    assert(lmem_nvecs(new_lmem(LS, A, a.lrw1)) == 2);
}

/// Setting up the forcing vectors of an inner stepper that holds none, and then
/// releasing them, returns its workspace to where it was.
pub proof fn lemma_inner_forcing_alloc_free(s: MRIStepInnerStepper, count: i32, n: i64)
    requires
        inner_ws_ok(s),
        !s.forcing,
        s.nforcing_allocated == 0,
        0 < count <= 0x1_0000,
        0 <= n <= 0x1_0000_0000,
    ensures
        ({
            let t = inner_free_result(inner_alloc_result(s, count, n));
            &&& t.lrw == s.lrw
            &&& t.liw == s.liw
            &&& !t.forcing
        }),
{
    assert(0 <= count * n <= 0x1_0000 * 0x1_0000_0000) by (nonlinear_arith)
        requires
            0 < count <= 0x1_0000,
            0 <= n <= 0x1_0000_0000,
    ;
}

/// Counting active columns is monotone.
proof fn lemma_active_before_monotone(c: MRIStepCoupling, i: int, j: int)
    requires
        0 <= i <= j,
    ensures
        active_before(c, i) <= active_before(c, j),
    decreases j - i,
{
    if i < j {
        lemma_active_before_monotone(c, i, j - 1);
    }
}

/// The stage map of an MRI-GARK table numbers the active columns in order, from 0
/// to one less than the number of stored stage right-hand sides.
pub proof fn lemma_stage_map_numbering(c: MRIStepCoupling, j: int, k: int)
    requires
        !(c.ctype == MRISTEP_MERK || c.ctype == MRISTEP_SR),
        0 <= j < k < c.stages,
        c.col_active@[j],
        c.col_active@[k],
    ensures
        0 <= stage_map_entry(c, j) < stage_map_entry(c, k) < stages_active(c),
{
    lemma_active_before_monotone(c, 0, j);
    lemma_active_before_monotone(c, j + 1, k);
    lemma_active_before_monotone(c, k + 1, c.stages as int);
}

/// Releasing an interpolation module just created, Hermite or Lagrange and of any
/// valid degree, gives back exactly the workspace its creation took.
pub proof fn lemma_interp_create_free(a: ARKodeMem, lagrange: bool, degree: int)
    requires
        a.interp is None,
        valid_degree(degree),
        ws_margin(a, 16),
    ensures
        ({
            let i = if lagrange { lagrange_created(degree) } else { hermite_created(degree) };
            interp_free_result(ARKodeMem { interp: Some(i), ..created_ws(a, lagrange, degree) }) == a
        }),
{
    let i = if lagrange { lagrange_created(degree) } else { hermite_created(degree) };
    if lagrange {
        assert(interp_nvecs(i) == 0);
        assert(interp_lrw(i) == degree + 2);
        assert(interp_liw(i) == degree + 3);
    } else {
        assert(interp_nvecs(i) == 0);
        assert(interp_lrw(i) == 2);
        assert(interp_liw(i) == 5);
    }
    let b = ARKodeMem { interp: Some(i), ..created_ws(a, lagrange, degree) };
    assert(interp_nvecs(i) * b.lrw1 == 0 && interp_nvecs(i) * b.liw1 == 0) by (nonlinear_arith)
        requires
            interp_nvecs(i) == 0,
    ;
}

/// Initializing LSRKStep for the first time, before its fused-operation workspace
/// is allocated, and then releasing it returns both workspace counters to where
/// they were and leaves the integrator without a stepper.
pub proof fn lemma_lsrk_init_free(a: ARKodeMem)
    requires
        is_lsrk(a),
        !lsrk_mem(a).cvals,
        0 <= lsrk_mem(a).nfusedopvecs,
        ws_margin(a, 0x8000_0000),
    ensures
        lsrk_free_result(lsrk_init_result(a)).lrw == a.lrw,
        lsrk_free_result(lsrk_init_result(a)).liw == a.liw,
        lsrk_free_result(lsrk_init_result(a)).step_mem is NoStepper,
{
}

/// Selecting an SSP method by name agrees with selecting it by number for the
/// three SSP names, while every other name, those of the STS methods among them,
/// is refused and changes nothing.
pub proof fn lemma_ssp_by_name_matches_number(a: ARKodeMem, name: Seq<char>)
    ensures
        name == "ARKODE_LSRK_SSP_S_2"@ ==> ssp_by_name(a, name) == (
            ssp_code(a, ARKODE_LSRK_SSP_S_2),
            ssp_result(a, ARKODE_LSRK_SSP_S_2),
        ),
        name == "ARKODE_LSRK_SSP_S_3"@ ==> ssp_by_name(a, name) == (
            ssp_code(a, ARKODE_LSRK_SSP_S_3),
            ssp_result(a, ARKODE_LSRK_SSP_S_3),
        ),
        name == "ARKODE_LSRK_SSP_10_4"@ ==> ssp_by_name(a, name) == (
            ssp_code(a, ARKODE_LSRK_SSP_10_4),
            ssp_result(a, ARKODE_LSRK_SSP_10_4),
        ),
        name != "ARKODE_LSRK_SSP_S_2"@ && name != "ARKODE_LSRK_SSP_S_3"@ && name
            != "ARKODE_LSRK_SSP_10_4"@ ==> ssp_by_name(a, name) == (ARK_ILL_INPUT, a),
        name == "ARKODE_LSRK_RKC_2"@ || name == "ARKODE_LSRK_RKL_2"@ ==> ssp_by_name(a, name) == (
            ARK_ILL_INPUT,
            a,
        ),
{
    reveal_strlit("ARKODE_LSRK_SSP_S_2");
    reveal_strlit("ARKODE_LSRK_SSP_S_3");
    reveal_strlit("ARKODE_LSRK_SSP_10_4");
    reveal_strlit("ARKODE_LSRK_RKC_2");
    reveal_strlit("ARKODE_LSRK_RKL_2");
    assert("ARKODE_LSRK_SSP_S_2"@[18] != "ARKODE_LSRK_SSP_S_3"@[18]);
    assert("ARKODE_LSRK_RKC_2"@.len() == 17 && "ARKODE_LSRK_RKL_2"@.len() == 17);
    assert("ARKODE_LSRK_SSP_S_2"@.len() == 19 && "ARKODE_LSRK_SSP_S_3"@.len() == 19);
    assert("ARKODE_LSRK_SSP_10_4"@.len() == 20);
}

/// The step size bounds never cross: from consistent bounds, setting either the
/// minimum or the maximum step size leaves them consistent, whatever the value.
pub proof fn lemma_step_bounds_kept(a: ARKodeMem, h: Decimal)
    requires
        step_bounds_ok(a.opts),
    ensures
        step_bounds_ok(set_min_step_result(a, h).1.opts),
        step_bounds_ok(set_max_step_result(a, h).1.opts),
{
    let z = Decimal { mantissa: 0, exponent: 0i32 };
    let m = a.opts.hmax;
    if m.mantissa > 0 {
        let lo: int = if z.exponent <= m.exponent { z.exponent as int } else { m.exponent as int };
        let q = vstd::arithmetic::power::pow(10, (m.exponent - lo) as nat);
        lemma_pow_positive(10, (m.exponent - lo) as nat);
        assert(z.mantissa * vstd::arithmetic::power::pow(10, (z.exponent - lo) as nat) == 0);
        assert(m.mantissa * q > 0) by (nonlinear_arith)
            requires
                m.mantissa > 0,
                q > 0,
        ;
        assert(dec_order(z, m) == -1);
    }
}

/// A new integrator has consistent step size bounds (none).
pub proof fn lemma_created_step_bounds()
    ensures
        step_bounds_ok(created_mem().opts),
{
}

} // verus!

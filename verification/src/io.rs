//! Optional inputs and outputs of the integrator.
use vstd::prelude::*;
use crate::consts::{
    ARK_SUCCESS, ARK_ILL_INPUT, ARK_MEM_NULL, ARK_STEPPER_UNSUPPORTED, MXSTEP_DEFAULT, MXHNIL,
    MAXNEF, MAXNCF, MAXCONSTRFAILS, SMALL_NEF, ARK_INTERP_MAX_DEGREE, ARK_INTERP_HERMITE,
    ARK_INTERP_LAGRANGE, ARK_INTERP_NONE, ARK_ACCUMERROR_NONE,
};
use crate::arkode::{
    ARKodeMem, ARKodeHAdaptMem, ARKodeOptions, ARKodeRootMem, default_options, hadapt_reset,
    hadapt_set_defaults, options_set_defaults, ws_margin, vec_sizes_ok,
};
use crate::adapt::{hadapt_ctrl_ok, released_rw, released_iw, default_controller};
use crate::lsrk::{
    is_lsrk, lsrk_mem, lsrk_defaults, lsrkStep_SetDefaults, lsrkStep_GetNumRhsEvals,
    lsrkStep_GetEstLocalErrors,
};
use crate::stepper::ARKStepMem;
use crate::mri::{is_mri, mri_mem, with_mri, coupling_ok, ARKodeMRIStepMem, MRIMethodInfo};
use crate::mri_io::{
    mri_set_defaults_result, mri_defaults_ok, table_words, mriStep_SetDefaults, mriStep_SetOrder,
    mriStep_SetPredictorMethod, mriStep_GetNumRhsEvals, mriStep_GetEstLocalErrors,
    mriStep_SetUserData,
};
use crate::decimal::{
    Decimal, dec, dec_vs_one, dec_vs_one_exec, dec_nonpositive, dec_order, dec_order_exec,
};
use crate::interp::{
    ARKInterp, interp_ok, interp_nvecs, interp_lrw, interp_liw, valid_degree, with_degree,
    hermite_created, lagrange_created, arkInterpFree, arkInterpSetDegree, arkInterpCreate_Hermite,
    arkInterpCreate_Lagrange, lemma_interp_words,
};

verus! {

/// The integrator with its own optional inputs and adaptivity parameters at their
/// defaults (before the stepper restores its own).
pub open spec fn defaults_base(a: ARKodeMem) -> ARKodeMem {
    ARKodeMem {
        opts: default_options(a.opts.AccumErrorType),
        hadapt_mem: Some(hadapt_reset(a.hadapt_mem->Some_0)),
        ..a
    }
}

/// The integrator after `ARKodeSetDefaults`.
pub open spec fn set_defaults_result(a: ARKodeMem) -> ARKodeMem {
    if is_lsrk(a) {
        let h = a.hadapt_mem->Some_0;
        ARKodeMem {
            lrw: (a.lrw - released_rw(h) + 10) as i64,
            liw: (a.liw - released_iw(h) + 1) as i64,
            hadapt_mem: Some(
                ARKodeHAdaptMem {
                    usercontrol: None,
                    hcontroller: Some(default_controller()),
                    owncontroller: true,
                    ..hadapt_reset(h)
                },
            ),
            step_mem: ARKStepMem::Lsrk(lsrk_defaults(lsrk_mem(a))),
            ..defaults_base(a)
        }
    } else if is_mri(a) {
        mri_set_defaults_result(defaults_base(a))
    } else {
        defaults_base(a)
    }
}

/// Restores every optional input to its default: the integrator-level inputs, the
/// adaptivity parameters, and then those of the attached stepper (LSRKStep restores
/// its options; MRIStep its method options, dropping its coupling table; both
/// install the default step size controller).  Problem-defining functions and root
/// finding are left alone.
pub fn ARKodeSetDefaults(ark_mem: &mut ARKodeMem) -> (r: i32)
    requires
        old(ark_mem).hadapt_mem is Some,
        is_lsrk(*old(ark_mem)) ==> hadapt_ctrl_ok(old(ark_mem).hadapt_mem->Some_0) && ws_margin(
            *old(ark_mem),
            0x8_0000_0000,
        ),
        is_mri(*old(ark_mem)) ==> mri_defaults_ok(*old(ark_mem)),
    ensures
        r == ARK_SUCCESS,
        *final(ark_mem) == set_defaults_result(*old(ark_mem)),
        !is_lsrk(*old(ark_mem)) && !is_mri(*old(ark_mem)) ==> *final(ark_mem) == defaults_base(
            *old(ark_mem),
        ),
        is_mri(*old(ark_mem)) ==> *final(ark_mem) == mri_set_defaults_result(
            defaults_base(*old(ark_mem)),
        ),
        is_lsrk(*old(ark_mem)) ==> ({
            let h = old(ark_mem).hadapt_mem->Some_0;
            &&& final(ark_mem).lrw == old(ark_mem).lrw - released_rw(h) + 10
            &&& final(ark_mem).liw == old(ark_mem).liw - released_iw(h) + 1
            &&& *final(ark_mem) == (ARKodeMem {
                lrw: final(ark_mem).lrw,
                liw: final(ark_mem).liw,
                hadapt_mem: Some(
                    ARKodeHAdaptMem {
                        usercontrol: None,
                        hcontroller: Some(default_controller()),
                        owncontroller: true,
                        ..hadapt_reset(h)
                    },
                ),
                step_mem: ARKStepMem::Lsrk(lsrk_defaults(lsrk_mem(*old(ark_mem)))),
                ..defaults_base(*old(ark_mem))
            })
        }),
{
    let mut opts = ark_mem.opts;
    options_set_defaults(&mut opts);
    let mut h = ark_mem.hadapt_mem.unwrap();
    hadapt_set_defaults(&mut h);
    ark_mem.opts = opts;
    ark_mem.hadapt_mem = Some(h);
    match ark_mem.step_mem {
        ARKStepMem::Lsrk(_) => lsrkStep_SetDefaults(ark_mem),
        ARKStepMem::Mri(_) => mriStep_SetDefaults(ark_mem),
        _ => ARK_SUCCESS,
    }
}

/// Records the user data handed to the problem-defining functions and hands it on
/// to the stepper (MRIStep passes it to its system solver interface).  The solver
/// interfaces read it from the integrator, so nothing else changes.
pub fn ARKodeSetUserData(ark_mem: &mut ARKodeMem, user_data: Option<u64>) -> (r: i32)
    ensures
        r == ARK_SUCCESS,
        *final(ark_mem) == (ARKodeMem { user_data, ..*old(ark_mem) }),
{
    ark_mem.user_data = user_data;
    match ark_mem.step_mem {
        ARKStepMem::Mri(_) => mriStep_SetUserData(ark_mem),
        _ => ARK_SUCCESS,
    }
}

/// Initial step size to attempt: 0 restores the default (estimated at the start),
/// which only adaptive steppers can provide (`ARK_STEPPER_UNSUPPORTED`).  The
/// step size controllers start afresh, which for the controllers here changes
/// nothing the integrator holds.
pub fn ARKodeSetInitStep(ark_mem: &mut ARKodeMem, hin: Decimal) -> (r: i32)
    ensures
        !old(ark_mem).stepper.supports_adaptive && hin.mantissa == 0 ==> r
            == ARK_STEPPER_UNSUPPORTED && *final(ark_mem) == *old(ark_mem),
        old(ark_mem).stepper.supports_adaptive || hin.mantissa != 0 ==> r == ARK_SUCCESS
            && *final(ark_mem) == (ARKodeMem {
            opts: ARKodeOptions {
                hin: if hin.mantissa == 0 { Decimal { mantissa: 0, exponent: 0i32 } } else { hin },
                hin_set: hin.mantissa != 0,
                ..old(ark_mem).opts
            },
            ..*old(ark_mem)
        }),
{
    if !ark_mem.stepper.supports_adaptive && hin.mantissa == 0 {
        return ARK_STEPPER_UNSUPPORTED;
    }
    let h = if hin.mantissa == 0 { dec(0, 0) } else { hin };
    ark_mem.opts = ARKodeOptions { hin: h, hin_set: hin.mantissa != 0, ..ark_mem.opts };
    ARK_SUCCESS
}

/// The step size bounds are consistent: both non-negative (0 meaning none), and a
/// minimum never above a maximum that is set.
pub open spec fn step_bounds_ok(o: ARKodeOptions) -> bool {
    &&& o.hmin.mantissa >= 0
    &&& o.hmax.mantissa >= 0
    &&& (o.hmax.mantissa != 0 ==> dec_order(o.hmin, o.hmax) <= 0)
}

/// The code and integrator after `ARKodeSetMinStep`.
pub open spec fn set_min_step_result(a: ARKodeMem, hmin: Decimal) -> (i32, ARKodeMem) {
    if !a.stepper.supports_adaptive {
        (ARK_STEPPER_UNSUPPORTED, a)
    } else if dec_nonpositive(hmin) {
        (
            ARK_SUCCESS,
            ARKodeMem {
                opts: ARKodeOptions { hmin: Decimal { mantissa: 0, exponent: 0i32 }, ..a.opts },
                ..a
            },
        )
    } else if a.opts.hmax.mantissa != 0 && dec_order(hmin, a.opts.hmax) > 0 {
        (ARK_ILL_INPUT, a)
    } else {
        (ARK_SUCCESS, ARKodeMem { opts: ARKodeOptions { hmin, ..a.opts }, ..a })
    }
}

/// The code and integrator after `ARKodeSetMaxStep`.
pub open spec fn set_max_step_result(a: ARKodeMem, hmax: Decimal) -> (i32, ARKodeMem) {
    if !a.stepper.supports_adaptive {
        (ARK_STEPPER_UNSUPPORTED, a)
    } else if dec_nonpositive(hmax) {
        (
            ARK_SUCCESS,
            ARKodeMem {
                opts: ARKodeOptions { hmax: Decimal { mantissa: 0, exponent: 0i32 }, ..a.opts },
                ..a
            },
        )
    } else if dec_order(a.opts.hmin, hmax) > 0 {
        (ARK_ILL_INPUT, a)
    } else {
        (ARK_SUCCESS, ARKodeMem { opts: ARKodeOptions { hmax, ..a.opts }, ..a })
    }
}

/// Smallest step size allowed: a non-positive value removes the bound (0); a
/// positive one above the largest allowed step is `ARK_ILL_INPUT`.  Adaptive
/// steppers only.
pub fn ARKodeSetMinStep(ark_mem: &mut ARKodeMem, hmin: Decimal) -> (r: i32)
    ensures
        (r, *final(ark_mem)) == set_min_step_result(*old(ark_mem), hmin),
{
    if !ark_mem.stepper.supports_adaptive {
        return ARK_STEPPER_UNSUPPORTED;
    }
    if hmin.mantissa <= 0 {
        ark_mem.opts = ARKodeOptions { hmin: dec(0, 0), ..ark_mem.opts };
        return ARK_SUCCESS;
    }
    if ark_mem.opts.hmax.mantissa != 0 && dec_order_exec(hmin, ark_mem.opts.hmax) > 0 {
        return ARK_ILL_INPUT;
    }
    ark_mem.opts = ARKodeOptions { hmin, ..ark_mem.opts };
    ARK_SUCCESS
}

/// Largest step size allowed: a non-positive value removes the bound (0); a
/// positive one below the smallest allowed step is `ARK_ILL_INPUT`.  Adaptive
/// steppers only.
pub fn ARKodeSetMaxStep(ark_mem: &mut ARKodeMem, hmax: Decimal) -> (r: i32)
    ensures
        (r, *final(ark_mem)) == set_max_step_result(*old(ark_mem), hmax),
{
    if !ark_mem.stepper.supports_adaptive {
        return ARK_STEPPER_UNSUPPORTED;
    }
    if hmax.mantissa <= 0 {
        ark_mem.opts = ARKodeOptions { hmax: dec(0, 0), ..ark_mem.opts };
        return ARK_SUCCESS;
    }
    if dec_order_exec(ark_mem.opts.hmin, hmax) > 0 {
        return ARK_ILL_INPUT;
    }
    ark_mem.opts = ARKodeOptions { hmax, ..ark_mem.opts };
    ARK_SUCCESS
}

/// Maximum number of internal steps per call: 0 restores the default
/// (`MXSTEP_DEFAULT`), a negative value disables the test.
pub fn ARKodeSetMaxNumSteps(ark_mem: &mut ARKodeMem, mxsteps: i64) -> (r: i32)
    ensures
        r == ARK_SUCCESS,
        *final(ark_mem) == (ARKodeMem {
            opts: ARKodeOptions {
                mxstep: if mxsteps == 0 { MXSTEP_DEFAULT } else { mxsteps },
                ..old(ark_mem).opts
            },
            ..*old(ark_mem)
        }),
{
    let m = if mxsteps == 0 { MXSTEP_DEFAULT } else { mxsteps };
    ark_mem.opts = ARKodeOptions { mxstep: m, ..ark_mem.opts };
    ARK_SUCCESS
}

/// The interpolant degree a request sets: a negative request means the maximum.
pub open spec fn requested_degree(degree: i32) -> i32 {
    if degree < 0 { ARK_INTERP_MAX_DEGREE } else { degree }
}

/// Sets the dense-output interpolant degree.  Refused (`ARK_ILL_INPUT`) once the
/// integrator is initialized or for a degree above `ARK_INTERP_MAX_DEGREE`; a
/// negative degree selects the maximum.  The degree is recorded and applied to the
/// interpolation module if one exists.
pub fn ARKodeSetInterpolantDegree(ark_mem: &mut ARKodeMem, degree: i32) -> (r: i32)
    ensures
        old(ark_mem).status.initialized || degree > ARK_INTERP_MAX_DEGREE ==> r == ARK_ILL_INPUT
            && *final(ark_mem) == *old(ark_mem),
        !old(ark_mem).status.initialized && degree <= ARK_INTERP_MAX_DEGREE ==> {
            &&& r == ARK_SUCCESS
            &&& *final(ark_mem) == (ARKodeMem {
                interp_degree: requested_degree(degree),
                interp: match old(ark_mem).interp {
                    Some(i) => Some(with_degree(i, requested_degree(degree) as int)),
                    None => None,
                },
                ..*old(ark_mem)
            })
        },
{
    if ark_mem.status.initialized {
        return ARK_ILL_INPUT;
    }
    if degree > ARK_INTERP_MAX_DEGREE {
        return ARK_ILL_INPUT;
    }
    let d = if degree < 0 { ARK_INTERP_MAX_DEGREE } else { degree };
    ark_mem.interp_degree = d;
    arkInterpSetDegree(ark_mem, d)
}

/// The interpolation module built for a type and degree (`None` for no
/// interpolation or a degree the module refuses).
pub open spec fn created_interp(itype: i32, degree: int) -> Option<ARKInterp> {
    if itype == ARK_INTERP_NONE || !valid_degree(degree) {
        None
    } else if itype == ARK_INTERP_HERMITE {
        Some(hermite_created(degree))
    } else {
        Some(lagrange_created(degree))
    }
}

/// Real words of the fixed workspace of a module built for a type and degree.
pub open spec fn created_lrw(itype: i32, degree: int) -> int {
    if itype == ARK_INTERP_NONE || !valid_degree(degree) {
        0
    } else if itype == ARK_INTERP_HERMITE {
        2
    } else {
        degree + 2
    }
}

/// Integer words of the fixed workspace of a module built for a type and degree.
pub open spec fn created_liw(itype: i32, degree: int) -> int {
    if itype == ARK_INTERP_NONE || !valid_degree(degree) {
        0
    } else if itype == ARK_INTERP_HERMITE {
        5
    } else {
        degree + 3
    }
}

/// Real words released with the current interpolation module.
pub open spec fn interp_released_rw(a: ARKodeMem) -> int {
    match a.interp {
        Some(i) => interp_nvecs(i) * a.lrw1 + interp_lrw(i),
        None => 0,
    }
}

/// Integer words released with the current interpolation module.
pub open spec fn interp_released_iw(a: ARKodeMem) -> int {
    match a.interp {
        Some(i) => interp_nvecs(i) * a.liw1 + interp_liw(i),
        None => 0,
    }
}

/// The result of `ARKodeSetInterpolantType`.
pub open spec fn set_interp_type_result(a: ARKodeMem, itype: i32) -> (i32, ARKodeMem) {
    if (itype != ARK_INTERP_HERMITE && itype != ARK_INTERP_LAGRANGE && itype != ARK_INTERP_NONE)
        || a.status.initialized {
        (ARK_ILL_INPUT, a)
    } else {
        let d = a.interp_degree as int;
        (
            ARK_SUCCESS,
            ARKodeMem {
                lrw: (a.lrw - interp_released_rw(a) + created_lrw(itype, d)) as i64,
                liw: (a.liw - interp_released_iw(a) + created_liw(itype, d)) as i64,
                interp: created_interp(itype, d),
                interp_type: itype,
                ..a
            },
        )
    }
}

/// Selects the interpolation module type (`ARK_INTERP_HERMITE`,
/// `ARK_INTERP_LAGRANGE` or `ARK_INTERP_NONE`); any other type, or a call after
/// initialization, is `ARK_ILL_INPUT`.  The current module is released and one of
/// the requested type is created with the recorded degree.
pub fn ARKodeSetInterpolantType(ark_mem: &mut ARKodeMem, itype: i32) -> (r: i32)
    requires
        old(ark_mem).interp matches Some(i) ==> interp_ok(i),
        vec_sizes_ok(*old(ark_mem)),
        ws_margin(*old(ark_mem), 0x20_0000_0000),
    ensures
        (r, *final(ark_mem)) == set_interp_type_result(*old(ark_mem), itype),
        (itype != ARK_INTERP_HERMITE && itype != ARK_INTERP_LAGRANGE && itype != ARK_INTERP_NONE)
            || old(ark_mem).status.initialized ==> r == ARK_ILL_INPUT && *final(ark_mem)
            == *old(ark_mem),
        (itype == ARK_INTERP_HERMITE || itype == ARK_INTERP_LAGRANGE || itype == ARK_INTERP_NONE)
            && !old(ark_mem).status.initialized ==> ({
            let d = old(ark_mem).interp_degree as int;
            &&& r == ARK_SUCCESS
            &&& final(ark_mem).lrw == old(ark_mem).lrw - interp_released_rw(*old(ark_mem))
                + created_lrw(itype, d)
            &&& final(ark_mem).liw == old(ark_mem).liw - interp_released_iw(*old(ark_mem))
                + created_liw(itype, d)
            &&& *final(ark_mem) == (ARKodeMem {
                lrw: final(ark_mem).lrw,
                liw: final(ark_mem).liw,
                interp: created_interp(itype, d),
                interp_type: itype,
                ..*old(ark_mem)
            })
        }),
{
    if itype != ARK_INTERP_HERMITE && itype != ARK_INTERP_LAGRANGE && itype != ARK_INTERP_NONE {
        return ARK_ILL_INPUT;
    }
    if ark_mem.status.initialized {
        return ARK_ILL_INPUT;
    }
    proof {
        match ark_mem.interp {
            Some(i) => {
                lemma_interp_words(i, ark_mem.lrw1);
                lemma_interp_words(i, ark_mem.liw1);
            },
            None => {},
        }
    }
    arkInterpFree(ark_mem);
    let d = ark_mem.interp_degree;
    if itype == ARK_INTERP_HERMITE {
        let i = arkInterpCreate_Hermite(ark_mem, d);
        ark_mem.interp = i;
        ark_mem.interp_type = ARK_INTERP_HERMITE;
    } else if itype == ARK_INTERP_LAGRANGE {
        let i = arkInterpCreate_Lagrange(ark_mem, d);
        ark_mem.interp = i;
        ark_mem.interp_type = ARK_INTERP_LAGRANGE;
    } else {
        ark_mem.interp = None;
        ark_mem.interp_type = ARK_INTERP_NONE;
    }
    ARK_SUCCESS
}

/// Number of right-hand side evaluations of a partition, from the stepper: LSRKStep
/// has one partition; MRIStep counts its slow explicit (0) and implicit (1)
/// evaluations, a negative index giving their sum.  A larger index is
/// `ARK_ILL_INPUT`; a stepper without the operation `ARK_STEPPER_UNSUPPORTED`.
pub fn ARKodeGetNumRhsEvals(ark_mem: &mut ARKodeMem, partition_index: i32, num_rhs_evals: &mut i64) -> (r: i32)
    requires
        is_mri(*old(ark_mem)) ==> mri_mem(*old(ark_mem)).nfse + mri_mem(*old(ark_mem)).nfsi
            <= i64::MAX && mri_mem(*old(ark_mem)).nfse + mri_mem(*old(ark_mem)).nfsi >= i64::MIN,
    ensures
        *final(ark_mem) == *old(ark_mem),
        !is_lsrk(*old(ark_mem)) && !is_mri(*old(ark_mem)) ==> r == ARK_STEPPER_UNSUPPORTED
            && *final(num_rhs_evals) == *old(num_rhs_evals),
        is_lsrk(*old(ark_mem)) && partition_index > 0 ==> r == ARK_ILL_INPUT && *final(num_rhs_evals) == *old(num_rhs_evals),
        is_lsrk(*old(ark_mem)) && partition_index <= 0 ==> r == ARK_SUCCESS && *final(num_rhs_evals) == lsrk_mem(*old(ark_mem)).nfe,
        is_mri(*old(ark_mem)) && partition_index > 1 ==> r == ARK_ILL_INPUT && *final(num_rhs_evals) == *old(num_rhs_evals),
        is_mri(*old(ark_mem)) && partition_index <= 1 ==> r == ARK_SUCCESS && *final(num_rhs_evals) == (if partition_index == 0 {
            mri_mem(*old(ark_mem)).nfse as int
        } else if partition_index == 1 {
            mri_mem(*old(ark_mem)).nfsi as int
        } else {
            mri_mem(*old(ark_mem)).nfse + mri_mem(*old(ark_mem)).nfsi
        }),
{
    match ark_mem.step_mem {
        ARKStepMem::Lsrk(_) => lsrkStep_GetNumRhsEvals(ark_mem, partition_index, num_rhs_evals),
        ARKStepMem::Mri(_) => mriStep_GetNumRhsEvals(ark_mem, partition_index, num_rhs_evals),
        _ => ARK_STEPPER_UNSUPPORTED,
    }
}

/// Whether the local error estimate may be read, from the stepper: LSRKStep not with
/// fixed steps; MRIStep neither with fixed steps and no error accumulation nor with
/// a coupling table without embedding.  A stepper without the operation is
/// `ARK_STEPPER_UNSUPPORTED`.
pub fn ARKodeGetEstLocalErrors(ark_mem: &mut ARKodeMem) -> (r: i32)
    ensures
        *final(ark_mem) == *old(ark_mem),
        !is_lsrk(*old(ark_mem)) && !is_mri(*old(ark_mem)) ==> r == ARK_STEPPER_UNSUPPORTED,
        is_lsrk(*old(ark_mem)) ==> r == (if old(ark_mem).opts.fixedstep {
            ARK_STEPPER_UNSUPPORTED
        } else {
            ARK_SUCCESS
        }),
        is_mri(*old(ark_mem)) ==> r == (if (old(ark_mem).opts.fixedstep
            && old(ark_mem).opts.AccumErrorType == ARK_ACCUMERROR_NONE) || mri_mem(
            *old(ark_mem),
        ).method.p <= 0 {
            ARK_STEPPER_UNSUPPORTED
        } else {
            ARK_SUCCESS
        }),
{
    match ark_mem.step_mem {
        ARKStepMem::Lsrk(_) => lsrkStep_GetEstLocalErrors(ark_mem),
        ARKStepMem::Mri(_) => mriStep_GetEstLocalErrors(ark_mem),
        _ => ARK_STEPPER_UNSUPPORTED,
    }
}

/// Number of steps taken.
pub fn ARKodeGetNumSteps(ark_mem: &mut ARKodeMem, nsteps: &mut i64) -> (r: i32)
    ensures
        r == ARK_SUCCESS,
        *final(ark_mem) == *old(ark_mem),
        *final(nsteps) == old(ark_mem).counters.nst,
{
    *nsteps = ark_mem.counters.nst;
    ARK_SUCCESS
}

/// Number of steps attempted.
pub fn ARKodeGetNumStepAttempts(ark_mem: &mut ARKodeMem, nstep_attempts: &mut i64) -> (r: i32)
    ensures
        r == ARK_SUCCESS,
        *final(ark_mem) == *old(ark_mem),
        *final(nstep_attempts) == old(ark_mem).counters.nst_attempts,
{
    *nstep_attempts = ark_mem.counters.nst_attempts;
    ARK_SUCCESS
}

/// Number of error test failures.
pub fn ARKodeGetNumErrTestFails(ark_mem: &mut ARKodeMem, netfails: &mut i64) -> (r: i32)
    ensures
        r == ARK_SUCCESS,
        *final(ark_mem) == *old(ark_mem),
        *final(netfails) == old(ark_mem).counters.netf,
{
    *netfails = ark_mem.counters.netf;
    ARK_SUCCESS
}

/// Number of steps failed by the algebraic solver.
pub fn ARKodeGetNumStepSolveFails(ark_mem: &mut ARKodeMem, nncfails: &mut i64) -> (r: i32)
    ensures
        r == ARK_SUCCESS,
        *final(ark_mem) == *old(ark_mem),
        *final(nncfails) == old(ark_mem).counters.ncfn,
{
    *nncfails = ark_mem.counters.ncfn;
    ARK_SUCCESS
}

/// Number of constraint test failures.
pub fn ARKodeGetNumConstrFails(ark_mem: &mut ARKodeMem, nconstrfails: &mut i64) -> (r: i32)
    ensures
        r == ARK_SUCCESS,
        *final(ark_mem) == *old(ark_mem),
        *final(nconstrfails) == old(ark_mem).counters.nconstrfails,
{
    *nconstrfails = ark_mem.counters.nconstrfails;
    ARK_SUCCESS
}

/// Integrator workspace: real and integer words.
pub fn ARKodeGetWorkSpace(ark_mem: &mut ARKodeMem, lenrw: &mut i64, leniw: &mut i64) -> (r: i32)
    ensures
        r == ARK_SUCCESS,
        *final(ark_mem) == *old(ark_mem),
        *final(lenrw) == old(ark_mem).lrw,
        *final(leniw) == old(ark_mem).liw,
{
    *leniw = ark_mem.liw;
    *lenrw = ark_mem.lrw;
    ARK_SUCCESS
}

/// Number of root function evaluations; `ARK_MEM_NULL` without root finding.
pub fn ARKodeGetNumGEvals(ark_mem: &mut ARKodeMem, ngevals: &mut i64) -> (r: i32)
    ensures
        *final(ark_mem) == *old(ark_mem),
        old(ark_mem).root_mem is None ==> r == ARK_MEM_NULL && *final(ngevals) == *old(ngevals),
        old(ark_mem).root_mem is Some ==> r == ARK_SUCCESS && *final(ngevals) == old(ark_mem).root_mem->Some_0.nge,
{
    match &ark_mem.root_mem {
        None => ARK_MEM_NULL,
        Some(rm) => {
            *ngevals = rm.nge;
            ARK_SUCCESS
        },
    }
}

/// Copies the root indicators of the last root found into the first `nrtfn`
/// entries of `rootsfound`; `ARK_MEM_NULL` without root finding.
pub fn ARKodeGetRootInfo(ark_mem: &mut ARKodeMem, rootsfound: &mut Vec<i32>) -> (r: i32)
    requires
        old(ark_mem).root_mem matches Some(rm) ==> 0 <= rm.nrtfn <= rm.iroots.len() && rm.nrtfn
            <= old(rootsfound).len(),
    ensures
        *final(ark_mem) == *old(ark_mem),
        old(ark_mem).root_mem is None ==> r == ARK_MEM_NULL && *final(rootsfound) == *old(rootsfound),
        old(ark_mem).root_mem matches Some(rm) ==> {
            &&& r == ARK_SUCCESS
            &&& final(rootsfound)@ == rm.iroots@.subrange(0, rm.nrtfn as int) + old(rootsfound)@.subrange(rm.nrtfn as int, old(rootsfound)@.len() as int)
        },
{
    match &ark_mem.root_mem {
        None => ARK_MEM_NULL,
        Some(rm) => {
            let n = rm.nrtfn as usize;
            let mut i: usize = 0;
            while i < n
                invariant
                    n == rm.nrtfn,
                    0 <= i <= n,
                    n <= rm.iroots.len(),
                    rootsfound.len() == old(rootsfound).len(),
                    n <= rootsfound.len(),
                    forall|k: int| 0 <= k < i ==> rootsfound@[k] == rm.iroots@[k],
                    forall|k: int| i <= k < rootsfound.len() ==> rootsfound@[k] == old(rootsfound)@[k],
                decreases n - i,
            {
                rootsfound.set(i, rm.iroots[i]);
                i = i + 1;
            }
            proof {
                assert(rootsfound@ =~= rm.iroots@.subrange(0, rm.nrtfn as int) + old(rootsfound)@.subrange(rm.nrtfn as int, old(rootsfound)@.len() as int));
            }
            ARK_SUCCESS
        },
    }
}

/// Turns compensated summation on or off (no stepper of this library keeps its
/// own setting).
pub fn ARKodeSetUseCompensatedSums(ark_mem: &mut ARKodeMem, onoff: bool) -> (r: i32)
    ensures
        r == ARK_SUCCESS,
        *final(ark_mem) == (ARKodeMem {
            opts: ARKodeOptions { use_compensated_sums: onoff, ..old(ark_mem).opts },
            ..*old(ark_mem)
        }),
{
    ark_mem.opts = ARKodeOptions { use_compensated_sums: onoff, ..ark_mem.opts };
    ARK_SUCCESS
}

/// Restarts the accumulated temporal error estimate (its value and start time are
/// real quantities kept outside this model); `ARK_STEPPER_UNSUPPORTED` for steppers
/// without temporal adaptivity.
pub fn ARKodeResetAccumulatedError(ark_mem: &mut ARKodeMem) -> (r: i32)
    ensures
        *final(ark_mem) == *old(ark_mem),
        r == (if old(ark_mem).stepper.supports_adaptive {
            ARK_SUCCESS
        } else {
            ARK_STEPPER_UNSUPPORTED
        }),
{
    if !ark_mem.stepper.supports_adaptive {
        return ARK_STEPPER_UNSUPPORTED;
    }
    ARK_SUCCESS
}

/// Selects the accumulated temporal error estimation type, after restarting the
/// estimate; refused like the restart.
pub fn ARKodeSetAccumulatedErrorType(ark_mem: &mut ARKodeMem, accum_type: i32) -> (r: i32)
    ensures
        !old(ark_mem).stepper.supports_adaptive ==> r == ARK_STEPPER_UNSUPPORTED && *final(ark_mem) == *old(ark_mem),
        old(ark_mem).stepper.supports_adaptive ==> r == ARK_SUCCESS && *final(ark_mem) == (
        ARKodeMem {
            opts: ARKodeOptions { AccumErrorType: accum_type, ..old(ark_mem).opts },
            ..*old(ark_mem)
        }),
{
    let retval = ARKodeResetAccumulatedError(ark_mem);
    if retval != ARK_SUCCESS {
        return retval;
    }
    ark_mem.opts = ARKodeOptions { AccumErrorType: accum_type, ..ark_mem.opts };
    ARK_SUCCESS
}

/// Sets the method order through the stepper.  MRIStep stores it (a non-positive
/// order restores 3) and drops its coupling table, with its workspace, so that one
/// of the new order is chosen at initialization; a stepper without the operation
/// is `ARK_STEPPER_UNSUPPORTED`.
pub fn ARKodeSetOrder(ark_mem: &mut ARKodeMem, ord: i32) -> (r: i32)
    requires
        is_mri(*old(ark_mem)) ==> (mri_mem(*old(ark_mem)).MRIC matches Some(c) ==> coupling_ok(c))
            && ws_margin(*old(ark_mem), 0x10_0000_0000),
    ensures
        !is_mri(*old(ark_mem)) ==> r == ARK_STEPPER_UNSUPPORTED && *final(ark_mem) == *old(ark_mem),
        is_mri(*old(ark_mem)) ==> {
            let sm = mri_mem(*old(ark_mem));
            let tw = table_words(sm);
            &&& r == ARK_SUCCESS
            &&& *final(ark_mem) == (ARKodeMem {
                lrw: (old(ark_mem).lrw - tw.0) as i64,
                liw: (old(ark_mem).liw - tw.1) as i64,
                step_mem: ARKStepMem::Mri(
                    ARKodeMRIStepMem {
                        method: MRIMethodInfo {
                            q: if ord <= 0 { 3 } else { ord },
                            stages: 0,
                            p: 0,
                            ..sm.method
                        },
                        MRIC: None,
                        ..sm
                    },
                ),
                ..*old(ark_mem)
            })
        },
{
    match ark_mem.step_mem {
        ARKStepMem::Mri(_) => mriStep_SetOrder(ark_mem, ord),
        _ => ARK_STEPPER_UNSUPPORTED,
    }
}

/// Selects the implicit stage predictor: `ARK_STEPPER_UNSUPPORTED` for steppers
/// without an algebraic solver, `ARK_ILL_INPUT` for a nontrivial predictor without
/// interpolation, and otherwise handed to the stepper: MRIStep stores it; a
/// stepper without the operation is `ARK_STEPPER_UNSUPPORTED`.
pub fn ARKodeSetPredictorMethod(ark_mem: &mut ARKodeMem, pred_method: i32) -> (r: i32)
    ensures
        !old(ark_mem).stepper.supports_implicit ==> r == ARK_STEPPER_UNSUPPORTED && *final(ark_mem) == *old(ark_mem),
        old(ark_mem).stepper.supports_implicit && old(ark_mem).interp_type == ARK_INTERP_NONE
            && pred_method != 0 ==> r == ARK_ILL_INPUT && *final(ark_mem) == *old(ark_mem),
        old(ark_mem).stepper.supports_implicit && !(old(ark_mem).interp_type == ARK_INTERP_NONE
            && pred_method != 0) && !is_mri(*old(ark_mem)) ==> r == ARK_STEPPER_UNSUPPORTED
            && *final(ark_mem) == *old(ark_mem),
        old(ark_mem).stepper.supports_implicit && !(old(ark_mem).interp_type == ARK_INTERP_NONE
            && pred_method != 0) && is_mri(*old(ark_mem)) ==> r == ARK_SUCCESS && *final(ark_mem)
            == with_mri(
            *old(ark_mem),
            ARKodeMRIStepMem {
                method: MRIMethodInfo { predictor: pred_method, ..mri_mem(*old(ark_mem)).method },
                ..mri_mem(*old(ark_mem))
            },
        ),
{
    if !ark_mem.stepper.supports_implicit {
        return ARK_STEPPER_UNSUPPORTED;
    }
    if ark_mem.interp_type == ARK_INTERP_NONE && pred_method != 0 {
        return ARK_ILL_INPUT;
    }
    match ark_mem.step_mem {
        ARKStepMem::Mri(_) => mriStep_SetPredictorMethod(ark_mem, pred_method),
        _ => ARK_STEPPER_UNSUPPORTED,
    }
}

/// Maximum number of error test failures per step (a non-positive value restores
/// `MAXNEF`); adaptive steppers only.
pub fn ARKodeSetMaxErrTestFails(ark_mem: &mut ARKodeMem, maxnef: i32) -> (r: i32)
    ensures
        !old(ark_mem).stepper.supports_adaptive ==> r == ARK_STEPPER_UNSUPPORTED && *final(ark_mem) == *old(ark_mem),
        old(ark_mem).stepper.supports_adaptive ==> r == ARK_SUCCESS && *final(ark_mem) == (
        ARKodeMem {
            opts: ARKodeOptions {
                maxnef: if maxnef <= 0 { MAXNEF } else { maxnef },
                ..old(ark_mem).opts
            },
            ..*old(ark_mem)
        }),
{
    if !ark_mem.stepper.supports_adaptive {
        return ARK_STEPPER_UNSUPPORTED;
    }
    let m = if maxnef <= 0 { MAXNEF } else { maxnef };
    ark_mem.opts = ARKodeOptions { maxnef: m, ..ark_mem.opts };
    ARK_SUCCESS
}

/// Maximum number of `t + h == t` warnings (0 restores the default of 10);
/// adaptive steppers only.
pub fn ARKodeSetMaxHnilWarns(ark_mem: &mut ARKodeMem, mxhnil: i32) -> (r: i32)
    ensures
        !old(ark_mem).stepper.supports_adaptive ==> r == ARK_STEPPER_UNSUPPORTED && *final(ark_mem) == *old(ark_mem),
        old(ark_mem).stepper.supports_adaptive ==> r == ARK_SUCCESS && *final(ark_mem) == (
        ARKodeMem {
            opts: ARKodeOptions {
                mxhnil: if mxhnil == 0 { MXHNIL } else { mxhnil },
                ..old(ark_mem).opts
            },
            ..*old(ark_mem)
        }),
{
    if !ark_mem.stepper.supports_adaptive {
        return ARK_STEPPER_UNSUPPORTED;
    }
    let m = if mxhnil == 0 { 10 } else { mxhnil };
    ark_mem.opts = ARKodeOptions { mxhnil: m, ..ark_mem.opts };
    ARK_SUCCESS
}

/// Whether output at the stop time is interpolated (rather than copied).
pub fn ARKodeSetInterpolateStopTime(ark_mem: &mut ARKodeMem, interp: bool) -> (r: i32)
    ensures
        r == ARK_SUCCESS,
        *final(ark_mem) == (ARKodeMem {
            opts: ARKodeOptions { tstopinterp: interp, ..old(ark_mem).opts },
            ..*old(ark_mem)
        }),
{
    ark_mem.opts = ARKodeOptions { tstopinterp: interp, ..ark_mem.opts };
    ARK_SUCCESS
}

/// Maximum number of constraint failures per step (a non-positive value restores
/// `MAXCONSTRFAILS`); adaptive steppers only.
pub fn ARKodeSetMaxNumConstrFails(ark_mem: &mut ARKodeMem, maxfails: i32) -> (r: i32)
    ensures
        !old(ark_mem).stepper.supports_adaptive ==> r == ARK_STEPPER_UNSUPPORTED && *final(ark_mem) == *old(ark_mem),
        old(ark_mem).stepper.supports_adaptive ==> r == ARK_SUCCESS && *final(ark_mem) == (
        ARKodeMem {
            opts: ARKodeOptions {
                maxconstrfails: if maxfails <= 0 { MAXCONSTRFAILS } else { maxfails },
                ..old(ark_mem).opts
            },
            ..*old(ark_mem)
        }),
{
    if !ark_mem.stepper.supports_adaptive {
        return ARK_STEPPER_UNSUPPORTED;
    }
    let m = if maxfails <= 0 { MAXCONSTRFAILS } else { maxfails };
    ark_mem.opts = ARKodeOptions { maxconstrfails: m, ..ark_mem.opts };
    ARK_SUCCESS
}

/// Adjustment of the method order used by the step size controller; adaptive
/// steppers only.
pub fn ARKodeSetAdaptivityAdjustment(ark_mem: &mut ARKodeMem, adjust: i32) -> (r: i32)
    requires
        old(ark_mem).stepper.supports_adaptive ==> old(ark_mem).hadapt_mem is Some,
    ensures
        !old(ark_mem).stepper.supports_adaptive ==> r == ARK_STEPPER_UNSUPPORTED && *final(ark_mem) == *old(ark_mem),
        old(ark_mem).stepper.supports_adaptive ==> r == ARK_SUCCESS && *final(ark_mem) == (
        ARKodeMem {
            hadapt_mem: Some(ARKodeHAdaptMem { adjust, ..old(ark_mem).hadapt_mem->Some_0 }),
            ..*old(ark_mem)
        }),
{
    if !ark_mem.stepper.supports_adaptive {
        return ARK_STEPPER_UNSUPPORTED;
    }
    let h = ark_mem.hadapt_mem.unwrap();
    ark_mem.hadapt_mem = Some(ARKodeHAdaptMem { adjust, ..h });
    ARK_SUCCESS
}

/// Number of error test failures before the failure growth bound applies (a
/// non-positive value restores `SMALL_NEF`); adaptive steppers only.
pub fn ARKodeSetSmallNumEFails(ark_mem: &mut ARKodeMem, small_nef: i32) -> (r: i32)
    requires
        old(ark_mem).stepper.supports_adaptive ==> old(ark_mem).hadapt_mem is Some,
    ensures
        !old(ark_mem).stepper.supports_adaptive ==> r == ARK_STEPPER_UNSUPPORTED && *final(ark_mem) == *old(ark_mem),
        old(ark_mem).stepper.supports_adaptive ==> r == ARK_SUCCESS && *final(ark_mem) == (
        ARKodeMem {
            hadapt_mem: Some(
                ARKodeHAdaptMem {
                    small_nef: if small_nef <= 0 { SMALL_NEF } else { small_nef },
                    ..old(ark_mem).hadapt_mem->Some_0
                },
            ),
            ..*old(ark_mem)
        }),
{
    if !ark_mem.stepper.supports_adaptive {
        return ARK_STEPPER_UNSUPPORTED;
    }
    let h = ark_mem.hadapt_mem.unwrap();
    let n = if small_nef <= 0 { SMALL_NEF } else { small_nef };
    ark_mem.hadapt_mem = Some(ARKodeHAdaptMem { small_nef: n, ..h });
    ARK_SUCCESS
}

/// Maximum number of algebraic solver convergence failures per step (a
/// non-positive value restores `MAXNCF`); steppers with an algebraic solver only.
pub fn ARKodeSetMaxConvFails(ark_mem: &mut ARKodeMem, maxncf: i32) -> (r: i32)
    ensures
        !old(ark_mem).stepper.supports_implicit ==> r == ARK_STEPPER_UNSUPPORTED && *final(ark_mem) == *old(ark_mem),
        old(ark_mem).stepper.supports_implicit ==> r == ARK_SUCCESS && *final(ark_mem) == (
        ARKodeMem {
            opts: ARKodeOptions {
                maxncf: if maxncf <= 0 { MAXNCF } else { maxncf },
                ..old(ark_mem).opts
            },
            ..*old(ark_mem)
        }),
{
    if !ark_mem.stepper.supports_implicit {
        return ARK_STEPPER_UNSUPPORTED;
    }
    let m = if maxncf <= 0 { MAXNCF } else { maxncf };
    ark_mem.opts = ARKodeOptions { maxncf: m, ..ark_mem.opts };
    ARK_SUCCESS
}

/// Enables the stop time.  Once integration has started, a stop time that lies
/// behind the current time in the direction of integration (`tstop_behind`, the
/// sign test on the real-valued times, made by the caller who holds them) is
/// `ARK_ILL_INPUT`; before the first step it is checked when stepping begins.
pub fn ARKodeSetStopTime(ark_mem: &mut ARKodeMem, tstop_behind: bool) -> (r: i32)
    ensures
        old(ark_mem).counters.nst > 0 && tstop_behind ==> r == ARK_ILL_INPUT && *final(ark_mem)
            == *old(ark_mem),
        !(old(ark_mem).counters.nst > 0 && tstop_behind) ==> r == ARK_SUCCESS && *final(ark_mem)
            == (ARKodeMem {
            opts: ARKodeOptions { tstopset: true, ..old(ark_mem).opts },
            ..*old(ark_mem)
        }),
{
    if ark_mem.counters.nst > 0 && tstop_behind {
        return ARK_ILL_INPUT;
    }
    ark_mem.opts = ARKodeOptions { tstopset: true, ..ark_mem.opts };
    ARK_SUCCESS
}

/// Disables the stop time.
pub fn ARKodeClearStopTime(ark_mem: &mut ARKodeMem) -> (r: i32)
    ensures
        r == ARK_SUCCESS,
        *final(ark_mem) == (ARKodeMem {
            opts: ARKodeOptions { tstopset: false, ..old(ark_mem).opts },
            ..*old(ark_mem)
        }),
{
    ark_mem.opts = ARKodeOptions { tstopset: false, ..ark_mem.opts };
    ARK_SUCCESS
}

/// Disables the warning about root functions that are identically zero at the
/// initial time; `ARK_MEM_NULL` without root finding.
pub fn ARKodeSetNoInactiveRootWarn(ark_mem: &mut ARKodeMem) -> (r: i32)
    ensures
        old(ark_mem).root_mem is None ==> r == ARK_MEM_NULL && *final(ark_mem) == *old(ark_mem),
        old(ark_mem).root_mem is Some ==> r == ARK_SUCCESS && *final(ark_mem) == (ARKodeMem {
            root_mem: Some(ARKodeRootMem { mxgnull: 0, ..old(ark_mem).root_mem->Some_0 }),
            ..*old(ark_mem)
        }),
{
    match &mut ark_mem.root_mem {
        None => ARK_MEM_NULL,
        Some(rm) => {
            rm.mxgnull = 0;
            ARK_SUCCESS
        },
    }
}

/// Largest magnitude among constraint entries (0 for none).
pub open spec fn max_abs(s: Seq<i32>) -> int
    decreases s.len(),
{
    if s.len() == 0 {
        0
    } else {
        let m = max_abs(s.drop_last());
        let a = if s.last() < 0 { -(s.last() as int) } else { s.last() as int };
        if a > m { a } else { m }
    }
}

/// Constraint entries are `-2, -1, 0, 1, 2` (`< 0`, `<= 0`, none, `>= 0`, `> 0`); the
/// vector is accepted when its largest magnitude is 1 or 2.
pub open spec fn constraints_ok(s: Seq<i32>) -> bool {
    1 <= max_abs(s) <= 2
}

/// Largest magnitude among the entries (computed).
fn max_norm(c: &Vec<i32>) -> (m: i64)
    ensures
        m == max_abs(c@),
        0 <= m <= 0x8000_0000,
{
    let mut m: i64 = 0;
    let mut i: usize = 0;
    while i < c.len()
        invariant
            0 <= i <= c.len(),
            m == max_abs(c@.subrange(0, i as int)),
            0 <= m <= 0x8000_0000,
        decreases c.len() - i,
    {
        proof {
            assert(c@.subrange(0, i as int + 1).drop_last() =~= c@.subrange(0, i as int));
        }
        let v = c[i] as i64;
        let a = if v < 0 { -v } else { v };
        if a > m {
            m = a;
        }
        i = i + 1;
    }
    proof {
        assert(c@.subrange(0, c.len() as int) =~= c@);
    }
    m
}

/// Activates (`Some`) or removes (`None`) inequality constraints on the solution.
/// Steppers without temporal adaptivity refuse constraints
/// (`ARK_STEPPER_UNSUPPORTED`); a vector whose largest magnitude is not 1 or 2 is
/// `ARK_ILL_INPUT`.  The internal constraint vector enters (or leaves) the
/// workspace accounting as one vector of the problem size.
pub fn ARKodeSetConstraints(ark_mem: &mut ARKodeMem, constraints: Option<&Vec<i32>>) -> (r: i32)
    requires
        vec_sizes_ok(*old(ark_mem)),
        ws_margin(*old(ark_mem), 0x1_0000_0000),
    ensures
        !old(ark_mem).stepper.supports_adaptive && constraints is Some ==> r
            == ARK_STEPPER_UNSUPPORTED && *final(ark_mem) == *old(ark_mem),
        constraints is None && old(ark_mem).constraints is None ==> r == ARK_SUCCESS && *final(
            ark_mem) == *old(ark_mem),
        constraints is None && old(ark_mem).constraints is Some ==> r == ARK_SUCCESS && *final(
            ark_mem) == (ARKodeMem {
            lrw: (old(ark_mem).lrw - old(ark_mem).lrw1) as i64,
            liw: (old(ark_mem).liw - old(ark_mem).liw1) as i64,
            constraints: None,
            ..*old(ark_mem)
        }),
        old(ark_mem).stepper.supports_adaptive && constraints is Some && !constraints_ok(
            constraints->Some_0@) ==> r == ARK_ILL_INPUT && *final(ark_mem) == *old(ark_mem),
        old(ark_mem).stepper.supports_adaptive && constraints is Some && constraints_ok(
            constraints->Some_0@) ==> {
            let grow: int = if old(ark_mem).constraints is None { 1 } else { 0 };
            &&& r == ARK_SUCCESS
            &&& final(ark_mem).constraints is Some
            &&& final(ark_mem).constraints->Some_0@ == constraints->Some_0@
            &&& final(ark_mem).lrw == old(ark_mem).lrw + grow * old(ark_mem).lrw1
            &&& final(ark_mem).liw == old(ark_mem).liw + grow * old(ark_mem).liw1
            &&& *final(ark_mem) == (ARKodeMem {
                lrw: final(ark_mem).lrw,
                liw: final(ark_mem).liw,
                constraints: final(ark_mem).constraints,
                ..*old(ark_mem)
            })
        },
{
    if !ark_mem.stepper.supports_adaptive && constraints.is_some() {
        return ARK_STEPPER_UNSUPPORTED;
    }
    match constraints {
        None => {
            if ark_mem.constraints.is_some() {
                let lrw = ark_mem.lrw - ark_mem.lrw1;
                let liw = ark_mem.liw - ark_mem.liw1;
                ark_mem.lrw = lrw;
                ark_mem.liw = liw;
                ark_mem.constraints = None;
            }
            ARK_SUCCESS
        },
        Some(c) => {
            let temptest = max_norm(c);
            if temptest > 2 || temptest < 1 {
                return ARK_ILL_INPUT;
            }
            if ark_mem.constraints.is_none() {
                let lrw = ark_mem.lrw + ark_mem.lrw1;
                let liw = ark_mem.liw + ark_mem.liw1;
                ark_mem.lrw = lrw;
                ark_mem.liw = liw;
            }
            let copy = c.clone();
            proof {
                assert forall|k: int| 0 <= k < c.len() implies copy@[k] == c@[k] by {
                    assert(cloned::<i32>(c[k], copy[k]));
                }
                assert(copy@ =~= c@);
            }
            ark_mem.constraints = Some(copy);
            ARK_SUCCESS
        },
    }
}

/// The integrator with its adaptivity memory replaced.
pub open spec fn with_hadapt(a: ARKodeMem, h: ARKodeHAdaptMem) -> ARKodeMem {
    ARKodeMem { hadapt_mem: Some(h), ..a }
}

/// The adaptivity memory, for steppers that adapt the step (its setters start
/// here; `ARK_STEPPER_UNSUPPORTED` otherwise).
fn adapt_params(ark_mem: &ARKodeMem) -> (r: Result<ARKodeHAdaptMem, i32>)
    requires
        ark_mem.stepper.supports_adaptive ==> ark_mem.hadapt_mem is Some,
    ensures
        !ark_mem.stepper.supports_adaptive ==> r == Err::<ARKodeHAdaptMem, i32>(ARK_STEPPER_UNSUPPORTED),
        ark_mem.stepper.supports_adaptive ==> r == Ok::<ARKodeHAdaptMem, i32>(ark_mem.hadapt_mem->Some_0),
{
    if !ark_mem.stepper.supports_adaptive {
        return Err(ARK_STEPPER_UNSUPPORTED);
    }
    match ark_mem.hadapt_mem {
        Some(h) => Ok(h),
        None => Err(ARK_STEPPER_UNSUPPORTED),
    }
}

/// Sets the explicit stability safety factor; non-positive values restore the
/// default 0.5.
pub fn ARKodeSetCFLFraction(ark_mem: &mut ARKodeMem, cfl_frac: Decimal) -> (r: i32)
    requires
        old(ark_mem).stepper.supports_adaptive ==> old(ark_mem).hadapt_mem is Some,
    ensures
        !old(ark_mem).stepper.supports_adaptive ==> r == ARK_STEPPER_UNSUPPORTED && *final(ark_mem) == *old(ark_mem),
        old(ark_mem).stepper.supports_adaptive ==> {
            let h = old(ark_mem).hadapt_mem->Some_0;
            &&& r == ARK_SUCCESS
            &&& *final(ark_mem) == with_hadapt(*old(ark_mem), ARKodeHAdaptMem {
                cfl: if dec_nonpositive(cfl_frac) { hadapt_reset(h).cfl } else { cfl_frac },
                ..h
            })
        },
{
    let h = match adapt_params(ark_mem) {
        Err(e) => return e,
        Ok(h) => h,
    };
    let v = if cfl_frac.mantissa <= 0 { dec(5, -1) } else { cfl_frac };
    ark_mem.hadapt_mem = Some(ARKodeHAdaptMem { cfl: v, ..h });
    ARK_SUCCESS
}

/// Sets the step adaptivity safety factor: above 1 is refused (`ARK_ILL_INPUT`),
/// non-positive values restore the default 0.9.
pub fn ARKodeSetSafetyFactor(ark_mem: &mut ARKodeMem, safety: Decimal) -> (r: i32)
    requires
        old(ark_mem).stepper.supports_adaptive ==> old(ark_mem).hadapt_mem is Some,
    ensures
        !old(ark_mem).stepper.supports_adaptive ==> r == ARK_STEPPER_UNSUPPORTED && *final(ark_mem) == *old(ark_mem),
        old(ark_mem).stepper.supports_adaptive && dec_vs_one(safety) > 0 ==> r == ARK_ILL_INPUT && *final(ark_mem) == *old(ark_mem),
        old(ark_mem).stepper.supports_adaptive && dec_vs_one(safety) <= 0 ==> {
            let h = old(ark_mem).hadapt_mem->Some_0;
            &&& r == ARK_SUCCESS
            &&& *final(ark_mem) == with_hadapt(*old(ark_mem), ARKodeHAdaptMem {
                safety: if dec_nonpositive(safety) { hadapt_reset(h).safety } else { safety },
                ..h
            })
        },
{
    let h = match adapt_params(ark_mem) {
        Err(e) => return e,
        Ok(h) => h,
    };
    if dec_vs_one_exec(safety) > 0 {
        return ARK_ILL_INPUT;
    }
    let v = if safety.mantissa <= 0 { dec(9, -1) } else { safety };
    ark_mem.hadapt_mem = Some(ARKodeHAdaptMem { safety: v, ..h });
    ARK_SUCCESS
}

/// Sets the maximum step growth factor; values not above 1 restore the default
/// 20.
pub fn ARKodeSetMaxGrowth(ark_mem: &mut ARKodeMem, mx_growth: Decimal) -> (r: i32)
    requires
        old(ark_mem).stepper.supports_adaptive ==> old(ark_mem).hadapt_mem is Some,
    ensures
        !old(ark_mem).stepper.supports_adaptive ==> r == ARK_STEPPER_UNSUPPORTED && *final(ark_mem) == *old(ark_mem),
        old(ark_mem).stepper.supports_adaptive ==> {
            let h = old(ark_mem).hadapt_mem->Some_0;
            &&& r == ARK_SUCCESS
            &&& *final(ark_mem) == with_hadapt(*old(ark_mem), ARKodeHAdaptMem {
                growth: if dec_vs_one(mx_growth) <= 0 { hadapt_reset(h).growth } else { mx_growth },
                ..h
            })
        },
{
    let h = match adapt_params(ark_mem) {
        Err(e) => return e,
        Ok(h) => h,
    };
    let v = if dec_vs_one_exec(mx_growth) <= 0 { dec(20, 0) } else { mx_growth };
    ark_mem.hadapt_mem = Some(ARKodeHAdaptMem { growth: v, ..h });
    ARK_SUCCESS
}

/// Sets the minimum step reduction factor; values outside (0, 1) restore the
/// default 0.1.
pub fn ARKodeSetMinReduction(ark_mem: &mut ARKodeMem, eta_min: Decimal) -> (r: i32)
    requires
        old(ark_mem).stepper.supports_adaptive ==> old(ark_mem).hadapt_mem is Some,
    ensures
        !old(ark_mem).stepper.supports_adaptive ==> r == ARK_STEPPER_UNSUPPORTED && *final(ark_mem) == *old(ark_mem),
        old(ark_mem).stepper.supports_adaptive ==> {
            let h = old(ark_mem).hadapt_mem->Some_0;
            &&& r == ARK_SUCCESS
            &&& *final(ark_mem) == with_hadapt(*old(ark_mem), ARKodeHAdaptMem {
                etamin: if dec_vs_one(eta_min) >= 0 || dec_nonpositive(eta_min) {
                    hadapt_reset(h).etamin
                } else {
                    eta_min
                },
                ..h
            })
        },
{
    let h = match adapt_params(ark_mem) {
        Err(e) => return e,
        Ok(h) => h,
    };
    let v = if dec_vs_one_exec(eta_min) >= 0 || eta_min.mantissa <= 0 { dec(1, -1) } else { eta_min };
    ark_mem.hadapt_mem = Some(ARKodeHAdaptMem { etamin: v, ..h });
    ARK_SUCCESS
}

/// Sets the maximum growth factor of the first step; values not above 1 restore
/// the default 10000.
pub fn ARKodeSetMaxFirstGrowth(ark_mem: &mut ARKodeMem, etamx1: Decimal) -> (r: i32)
    requires
        old(ark_mem).stepper.supports_adaptive ==> old(ark_mem).hadapt_mem is Some,
    ensures
        !old(ark_mem).stepper.supports_adaptive ==> r == ARK_STEPPER_UNSUPPORTED && *final(ark_mem) == *old(ark_mem),
        old(ark_mem).stepper.supports_adaptive ==> {
            let h = old(ark_mem).hadapt_mem->Some_0;
            &&& r == ARK_SUCCESS
            &&& *final(ark_mem) == with_hadapt(*old(ark_mem), ARKodeHAdaptMem {
                etamx1: if dec_vs_one(etamx1) <= 0 { hadapt_reset(h).etamx1 } else { etamx1 },
                ..h
            })
        },
{
    let h = match adapt_params(ark_mem) {
        Err(e) => return e,
        Ok(h) => h,
    };
    let v = if dec_vs_one_exec(etamx1) <= 0 { dec(10000, 0) } else { etamx1 };
    ark_mem.hadapt_mem = Some(ARKodeHAdaptMem { etamx1: v, ..h });
    ARK_SUCCESS
}

/// Sets the step reduction factor after multiple error test failures; values
/// outside (0, 1] restore the default 0.3.
pub fn ARKodeSetMaxEFailGrowth(ark_mem: &mut ARKodeMem, etamxf: Decimal) -> (r: i32)
    requires
        old(ark_mem).stepper.supports_adaptive ==> old(ark_mem).hadapt_mem is Some,
    ensures
        !old(ark_mem).stepper.supports_adaptive ==> r == ARK_STEPPER_UNSUPPORTED && *final(ark_mem) == *old(ark_mem),
        old(ark_mem).stepper.supports_adaptive ==> {
            let h = old(ark_mem).hadapt_mem->Some_0;
            &&& r == ARK_SUCCESS
            &&& *final(ark_mem) == with_hadapt(*old(ark_mem), ARKodeHAdaptMem {
                etamxf: if dec_nonpositive(etamxf) || dec_vs_one(etamxf) > 0 {
                    hadapt_reset(h).etamxf
                } else {
                    etamxf
                },
                ..h
            })
        },
{
    let h = match adapt_params(ark_mem) {
        Err(e) => return e,
        Ok(h) => h,
    };
    let v = if etamxf.mantissa <= 0 || dec_vs_one_exec(etamxf) > 0 { dec(3, -1) } else { etamxf };
    ark_mem.hadapt_mem = Some(ARKodeHAdaptMem { etamxf: v, ..h });
    ARK_SUCCESS
}

/// Sets the step reduction factor after a nonlinear solver convergence failure;
/// values outside (0, 1] restore the default 0.25.
pub fn ARKodeSetMaxCFailGrowth(ark_mem: &mut ARKodeMem, etacf: Decimal) -> (r: i32)
    requires
        old(ark_mem).stepper.supports_adaptive ==> old(ark_mem).hadapt_mem is Some,
    ensures
        !old(ark_mem).stepper.supports_adaptive ==> r == ARK_STEPPER_UNSUPPORTED && *final(ark_mem) == *old(ark_mem),
        old(ark_mem).stepper.supports_adaptive ==> {
            let h = old(ark_mem).hadapt_mem->Some_0;
            &&& r == ARK_SUCCESS
            &&& *final(ark_mem) == with_hadapt(*old(ark_mem), ARKodeHAdaptMem {
                etacf: if dec_nonpositive(etacf) || dec_vs_one(etacf) > 0 {
                    hadapt_reset(h).etacf
                } else {
                    etacf
                },
                ..h
            })
        },
{
    let h = match adapt_params(ark_mem) {
        Err(e) => return e,
        Ok(h) => h,
    };
    let v = if etacf.mantissa <= 0 || dec_vs_one_exec(etacf) > 0 { dec(25, -2) } else { etacf };
    ark_mem.hadapt_mem = Some(ARKodeHAdaptMem { etacf: v, ..h });
    ARK_SUCCESS
}

/// Sets the interval of step growth factors that leave the step unchanged: taken
/// when `lb <= 1 <= ub`, otherwise the defaults 1 and 1.5 are restored.
pub fn ARKodeSetFixedStepBounds(ark_mem: &mut ARKodeMem, lb: Decimal, ub: Decimal) -> (r: i32)
    requires
        old(ark_mem).stepper.supports_adaptive ==> old(ark_mem).hadapt_mem is Some,
    ensures
        !old(ark_mem).stepper.supports_adaptive ==> r == ARK_STEPPER_UNSUPPORTED && *final(ark_mem) == *old(ark_mem),
        old(ark_mem).stepper.supports_adaptive ==> {
            let h = old(ark_mem).hadapt_mem->Some_0;
            let ok = dec_vs_one(lb) <= 0 && dec_vs_one(ub) >= 0;
            &&& r == ARK_SUCCESS
            &&& *final(ark_mem) == with_hadapt(*old(ark_mem), ARKodeHAdaptMem {
                lbound: if ok { lb } else { hadapt_reset(h).lbound },
                ubound: if ok { ub } else { hadapt_reset(h).ubound },
                ..h
            })
        },
{
    let h = match adapt_params(ark_mem) {
        Err(e) => return e,
        Ok(h) => h,
    };
    let (l, u) = if dec_vs_one_exec(lb) <= 0 && dec_vs_one_exec(ub) >= 0 {
        (lb, ub)
    } else {
        (dec(1, 0), dec(15, -1))
    };
    ark_mem.hadapt_mem = Some(ARKodeHAdaptMem { lbound: l, ubound: u, ..h });
    ARK_SUCCESS
}

} // verus!

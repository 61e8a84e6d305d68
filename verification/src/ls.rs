//! ARKLS: the interface between time steppers and linear solvers for the Newton
//! systems and for mass-matrix systems: attaching solvers, options, statistics,
//! initialization and release.
use vstd::prelude::*;
use crate::consts::{
    ARK_SUCCESS, ARK_MEM_NULL, ARK_STEPPER_UNSUPPORTED, ARKLS_SUCCESS, ARKLS_MEM_NULL,
    ARKLS_LMEM_NULL, ARKLS_ILL_INPUT, ARKLS_MEM_FAIL, ARKLS_MASSMEM_NULL,
    ARKLS_JACFUNC_UNRECVR, ARKLS_JACFUNC_RECVR, ARKLS_MASSFUNC_UNRECVR, ARKLS_MASSFUNC_RECVR,
    ARKLS_SUNMAT_FAIL, ARKLS_SUNLS_FAIL, ARKLS_MSBJ, SUNLINEARSOLVER_DIRECT,
    SUNLINEARSOLVER_ITERATIVE, SUNLINEARSOLVER_MATRIX_EMBEDDED, SUNMATRIX_DENSE, SUNMATRIX_BAND,
    ARK_FAIL_BAD_J, ARK_FAIL_OTHER,
};
use crate::arkode::{ARKodeMem, ARKodeStepperInfo, ws_margin, vec_sizes_ok};
use crate::stepper::ARKStepMem;
use crate::mri::{is_mri, mri_mem, ARKodeMRIStepMem, MRISolvers};
use vstd::string::StringExecFns;
use crate::decimal::{Decimal, dec, dec_nonpositive};

verus! {

/// A linear solver object: its type, the workspace it reports, and the result its
/// initialize operation gives.
#[derive(Clone, Copy, PartialEq, Eq, Debug)]
pub struct SUNLinearSolver {
    pub ls_type: i32,
    pub lenrw: i64,
    pub leniw: i64,
    pub init_flag: i32,
}

/// A matrix object: its identifier and the workspace it reports.
#[derive(Clone, Copy, PartialEq, Eq, Debug)]
pub struct SUNMatrix {
    pub id: i32,
    pub lenrw: i64,
    pub leniw: i64,
}

/// The right-hand side function of the difference-quotient Jacobian-vector product.
#[derive(Clone, Copy, PartialEq, Eq, Debug)]
pub enum ARKRhsSource {
    /// the time stepper's implicit right-hand side
    StepperImplicit,
    /// a function supplied by the user
    User,
}

/// Statistics of the system linear solver interface.
#[derive(Clone, Copy, PartialEq, Eq, Debug)]
pub struct ARKLsCounters {
    pub nje: i64,
    pub nfeDQ: i64,
    pub nstlj: i64,
    pub npe: i64,
    pub nli: i64,
    pub nps: i64,
    pub ncfl: i64,
    pub njtsetup: i64,
    pub njtimes: i64,
}

/// Which user-supplied routines the system linear solver interface holds.
#[derive(Clone, Copy, PartialEq, Eq, Debug)]
pub struct ARKLsUserFns {
    pub jac: bool,
    pub pset: bool,
    pub psolve: bool,
    pub jtsetup: bool,
    pub jtimes: bool,
    pub linsys: bool,
    pub Jt_f: Option<ARKRhsSource>,
}

/// System linear solver interface memory.
#[derive(Clone, Copy, PartialEq, Eq, Debug)]
pub struct ARKLsMem {
    pub iterative: bool,
    pub matrixbased: bool,
    pub jacDQ: bool,
    pub jbad: bool,
    pub scalesol: bool,
    pub jtimesDQ: bool,
    pub user_linsys: bool,
    pub LS: SUNLinearSolver,
    pub A: Option<SUNMatrix>,
    pub savedJ: Option<SUNMatrix>,
    /// the work vectors `ytemp` and `x` are allocated
    pub ytemp: bool,
    pub x: bool,
    /// length of the work vectors
    pub vec_len: i64,
    pub msbj: i64,
    /// linear convergence tolerance factor
    pub eplifac: Decimal,
    pub counters: ARKLsCounters,
    pub fns: ARKLsUserFns,
    pub last_flag: i32,
}

/// Statistics of the mass-matrix linear solver interface.
#[derive(Clone, Copy, PartialEq, Eq, Debug)]
pub struct ARKLsMassCounters {
    pub nmsetups: i64,
    pub nmsolves: i64,
    pub nmtsetup: i64,
    pub nmtimes: i64,
    pub nmvsetup: i64,
    pub npe: i64,
    pub nli: i64,
    pub nps: i64,
    pub ncfl: i64,
}

/// Mass-matrix linear solver interface memory.
#[derive(Clone, Copy, PartialEq, Eq, Debug)]
pub struct ARKLsMassMem {
    pub iterative: bool,
    pub matrixbased: bool,
    /// a user mass-matrix routine is attached
    pub mass: bool,
    pub M: Option<SUNMatrix>,
    pub M_lu: Option<SUNMatrix>,
    pub time_dependent: bool,
    /// linear convergence tolerance factor
    pub eplifac: Decimal,
    pub counters: ARKLsMassCounters,
    pub LS: SUNLinearSolver,
    /// the work vector `x` is allocated
    pub x: bool,
    pub pset: bool,
    pub psolve: bool,
    pub mtsetup: bool,
    pub mtimes: bool,
    pub last_flag: i32,
}

/// All statistics zero.
pub open spec fn zero_counters() -> ARKLsCounters {
    ARKLsCounters {
        nje: 0,
        nfeDQ: 0,
        nstlj: 0,
        npe: 0,
        nli: 0,
        nps: 0,
        ncfl: 0,
        njtsetup: 0,
        njtimes: 0,
    }
}

/// All mass-matrix statistics zero.
pub open spec fn zero_mass_counters() -> ARKLsMassCounters {
    ARKLsMassCounters {
        nmsetups: 0,
        nmsolves: 0,
        nmtsetup: 0,
        nmtimes: 0,
        nmvsetup: 0,
        npe: 0,
        nli: 0,
        nps: 0,
        ncfl: 0,
    }
}

/// Resets the statistics of the system linear solver interface.
pub fn arkLsInitializeCounters(arkls_mem: &mut ARKLsMem) -> (r: i32)
    ensures
        r == 0,
        *final(arkls_mem) == (ARKLsMem { counters: zero_counters(), ..*old(arkls_mem) }),
{
    arkls_mem.counters = ARKLsCounters {
        nje: 0,
        nfeDQ: 0,
        nstlj: 0,
        npe: 0,
        nli: 0,
        nps: 0,
        ncfl: 0,
        njtsetup: 0,
        njtimes: 0,
    };
    0
}

/// Resets the statistics of the mass-matrix linear solver interface.
pub fn arkLsInitializeMassCounters(arkls_mem: &mut ARKLsMassMem) -> (r: i32)
    ensures
        r == 0,
        *final(arkls_mem) == (ARKLsMassMem { counters: zero_mass_counters(), ..*old(arkls_mem) }),
{
    arkls_mem.counters = ARKLsMassCounters {
        nmsetups: 0,
        nmsolves: 0,
        nmtsetup: 0,
        nmtimes: 0,
        nmvsetup: 0,
        npe: 0,
        nli: 0,
        nps: 0,
        ncfl: 0,
    };
    0
}

/// The time stepper provides the system linear solver attach/access operations
/// (MRIStep does).
pub open spec fn ls_ops(a: ARKodeMem) -> bool {
    is_mri(a)
}

/// The system linear solver interface can be reached: the stepper provides the
/// access operation and an interface is attached.
pub open spec fn lmem_reachable(a: ARKodeMem) -> bool {
    ls_ops(a) && a.lmem is Some
}

/// The code with which the optional-input routines of the system solver interface
/// start: steppers without an algebraic solver are `ARK_STEPPER_UNSUPPORTED`, an
/// interface that cannot be reached `ARKLS_LMEM_NULL`.
pub open spec fn ls_access_code(a: ARKodeMem) -> i32 {
    if !a.stepper.supports_implicit {
        ARK_STEPPER_UNSUPPORTED
    } else if !lmem_reachable(a) {
        ARKLS_LMEM_NULL
    } else {
        ARKLS_SUCCESS
    }
}

/// The integrator with its system solver interface memory replaced.
pub open spec fn with_lmem(a: ARKodeMem, l: ARKLsMem) -> ARKodeMem {
    ARKodeMem { lmem: Some(l), ..a }
}

/// The system solver interface memory, when it can be reached.
fn arkLs_AccessLMem(ark_mem: &ARKodeMem) -> (r: Option<ARKLsMem>)
    ensures
        lmem_reachable(*ark_mem) ==> r == ark_mem.lmem,
        !lmem_reachable(*ark_mem) ==> r is None,
{
    match ark_mem.step_mem {
        ARKStepMem::Mri(_) => ark_mem.lmem,
        _ => None,
    }
}

/// Maximum number of steps between Jacobian or preconditioner evaluations (a
/// non-positive value restores `ARKLS_MSBJ`).
pub fn ARKodeSetJacEvalFrequency(ark_mem: &mut ARKodeMem, msbj: i64) -> (r: i32)
    ensures
        r == ls_access_code(*old(ark_mem)),
        r != ARKLS_SUCCESS ==> *final(ark_mem) == *old(ark_mem),
        r == ARKLS_SUCCESS ==> *final(ark_mem) == with_lmem(
            *old(ark_mem),
            ARKLsMem {
                msbj: if msbj <= 0 { ARKLS_MSBJ } else { msbj },
                ..old(ark_mem).lmem->Some_0
            },
        ),
{
    if !ark_mem.stepper.supports_implicit {
        return ARK_STEPPER_UNSUPPORTED;
    }
    let l = match arkLs_AccessLMem(ark_mem) {
        None => {
            return ARKLS_LMEM_NULL;
        },
        Some(l) => l,
    };
    let m = if msbj <= 0 { ARKLS_MSBJ } else { msbj };
    ark_mem.lmem = Some(ARKLsMem { msbj: m, ..l });
    ARKLS_SUCCESS
}

/// Turns scaling of the linear solution for changes in gamma on or off; only
/// matrix-based solvers scale (`ARKLS_ILL_INPUT` otherwise).
pub fn ARKodeSetLinearSolutionScaling(ark_mem: &mut ARKodeMem, onoff: bool) -> (r: i32)
    ensures
        ls_access_code(*old(ark_mem)) != ARKLS_SUCCESS ==> r == ls_access_code(*old(ark_mem))
            && *final(ark_mem) == *old(ark_mem),
        ls_access_code(*old(ark_mem)) == ARKLS_SUCCESS && !old(ark_mem).lmem->Some_0.matrixbased
            ==> r == ARKLS_ILL_INPUT && *final(ark_mem) == *old(ark_mem),
        ls_access_code(*old(ark_mem)) == ARKLS_SUCCESS && old(ark_mem).lmem->Some_0.matrixbased
            ==> r == ARKLS_SUCCESS && *final(ark_mem) == with_lmem(
            *old(ark_mem),
            ARKLsMem { scalesol: onoff, ..old(ark_mem).lmem->Some_0 },
        ),
{
    if !ark_mem.stepper.supports_implicit {
        return ARK_STEPPER_UNSUPPORTED;
    }
    let l = match arkLs_AccessLMem(ark_mem) {
        None => {
            return ARKLS_LMEM_NULL;
        },
        Some(l) => l,
    };
    if !l.matrixbased {
        return ARKLS_ILL_INPUT;
    }
    ark_mem.lmem = Some(ARKLsMem { scalesol: onoff, ..l });
    ARKLS_SUCCESS
}

/// Sets the factor between the nonlinear and the linear solver tolerances;
/// non-positive values restore the default 0.05.
pub fn ARKodeSetEpsLin(ark_mem: &mut ARKodeMem, eplifac: Decimal) -> (r: i32)
    ensures
        r == ls_access_code(*old(ark_mem)),
        r != ARKLS_SUCCESS ==> *final(ark_mem) == *old(ark_mem),
        r == ARKLS_SUCCESS ==> *final(ark_mem) == with_lmem(
            *old(ark_mem),
            ARKLsMem {
                eplifac: if dec_nonpositive(eplifac) { Decimal { mantissa: 5, exponent: -2i32 } } else { eplifac },
                ..old(ark_mem).lmem->Some_0
            },
        ),
{
    if !ark_mem.stepper.supports_implicit {
        return ARK_STEPPER_UNSUPPORTED;
    }
    let l = match arkLs_AccessLMem(ark_mem) {
        None => {
            return ARKLS_LMEM_NULL;
        },
        Some(l) => l,
    };
    let v = if eplifac.mantissa <= 0 { dec(5, -2) } else { eplifac };
    ark_mem.lmem = Some(ARKLsMem { eplifac: v, ..l });
    ARKLS_SUCCESS
}

/// Attaches a user Jacobian routine (`jac`) or selects the internal difference
/// quotient; a user routine needs a matrix (`ARKLS_ILL_INPUT`).  Either way the
/// internal linear system routine is selected.
pub fn ARKodeSetJacFn(ark_mem: &mut ARKodeMem, jac: bool) -> (r: i32)
    ensures
        ls_access_code(*old(ark_mem)) != ARKLS_SUCCESS ==> r == ls_access_code(*old(ark_mem))
            && *final(ark_mem) == *old(ark_mem),
        ls_access_code(*old(ark_mem)) == ARKLS_SUCCESS && jac && old(ark_mem).lmem->Some_0.A is None
            ==> r == ARKLS_ILL_INPUT && *final(ark_mem) == *old(ark_mem),
        ls_access_code(*old(ark_mem)) == ARKLS_SUCCESS && !(jac && old(ark_mem).lmem->Some_0.A is None)
            ==> {
            let l = old(ark_mem).lmem->Some_0;
            &&& r == ARKLS_SUCCESS
            &&& *final(ark_mem) == with_lmem(
                *old(ark_mem),
                ARKLsMem {
                    jacDQ: !jac,
                    user_linsys: false,
                    fns: ARKLsUserFns { jac, linsys: false, ..l.fns },
                    ..l
                },
            )
        },
{
    if !ark_mem.stepper.supports_implicit {
        return ARK_STEPPER_UNSUPPORTED;
    }
    let l = match arkLs_AccessLMem(ark_mem) {
        None => {
            return ARKLS_LMEM_NULL;
        },
        Some(l) => l,
    };
    if jac && l.A.is_none() {
        return ARKLS_ILL_INPUT;
    }
    ark_mem.lmem = Some(
        ARKLsMem {
            jacDQ: !jac,
            user_linsys: false,
            fns: ARKLsUserFns { jac, linsys: false, ..l.fns },
            ..l
        },
    );
    ARKLS_SUCCESS
}

/// Attaches (or removes) user preconditioner setup and solve routines; only
/// iterative solvers take them (`ARKLS_ILL_INPUT`).
pub fn ARKodeSetPreconditioner(ark_mem: &mut ARKodeMem, psetup: bool, psolve: bool) -> (r: i32)
    ensures
        ls_access_code(*old(ark_mem)) != ARKLS_SUCCESS ==> r == ls_access_code(*old(ark_mem))
            && *final(ark_mem) == *old(ark_mem),
        ls_access_code(*old(ark_mem)) == ARKLS_SUCCESS && !old(ark_mem).lmem->Some_0.iterative ==> r
            == ARKLS_ILL_INPUT && *final(ark_mem) == *old(ark_mem),
        ls_access_code(*old(ark_mem)) == ARKLS_SUCCESS && old(ark_mem).lmem->Some_0.iterative ==> r
            == ARKLS_SUCCESS && *final(ark_mem) == with_lmem(
            *old(ark_mem),
            ARKLsMem {
                fns: ARKLsUserFns { pset: psetup, psolve, ..old(ark_mem).lmem->Some_0.fns },
                ..old(ark_mem).lmem->Some_0
            },
        ),
{
    if !ark_mem.stepper.supports_implicit {
        return ARK_STEPPER_UNSUPPORTED;
    }
    let l = match arkLs_AccessLMem(ark_mem) {
        None => {
            return ARKLS_LMEM_NULL;
        },
        Some(l) => l,
    };
    if !l.iterative {
        return ARKLS_ILL_INPUT;
    }
    ark_mem.lmem = Some(ARKLsMem { fns: ARKLsUserFns { pset: psetup, psolve, ..l.fns }, ..l });
    ARKLS_SUCCESS
}

/// Attaches user Jacobian-vector product routines (`jtimes`, with an optional setup
/// `jtsetup`), or without `jtimes` selects the internal difference quotient on the
/// stepper's implicit right-hand side (`ARKLS_ILL_INPUT`, leaving the interface
/// without one, when the stepper has none).  Only iterative solvers take them.
pub fn ARKodeSetJacTimes(ark_mem: &mut ARKodeMem, jtsetup: bool, jtimes: bool) -> (r: i32)
    ensures
        ls_access_code(*old(ark_mem)) != ARKLS_SUCCESS ==> r == ls_access_code(*old(ark_mem))
            && *final(ark_mem) == *old(ark_mem),
        ls_access_code(*old(ark_mem)) == ARKLS_SUCCESS && !old(ark_mem).lmem->Some_0.iterative ==> r
            == ARKLS_ILL_INPUT && *final(ark_mem) == *old(ark_mem),
        ls_access_code(*old(ark_mem)) == ARKLS_SUCCESS && old(ark_mem).lmem->Some_0.iterative && jtimes
            ==> {
            let l = old(ark_mem).lmem->Some_0;
            &&& r == ARKLS_SUCCESS
            &&& *final(ark_mem) == with_lmem(
                *old(ark_mem),
                ARKLsMem { jtimesDQ: false, fns: ARKLsUserFns { jtsetup, jtimes: true, ..l.fns }, ..l },
            )
        },
        ls_access_code(*old(ark_mem)) == ARKLS_SUCCESS && old(ark_mem).lmem->Some_0.iterative && !jtimes
            ==> {
            let l = old(ark_mem).lmem->Some_0;
            let f = implicit_rhs_of(*old(ark_mem));
            &&& r == (if f is Some { ARKLS_SUCCESS } else { ARKLS_ILL_INPUT })
            &&& *final(ark_mem) == with_lmem(
                *old(ark_mem),
                ARKLsMem {
                    jtimesDQ: true,
                    fns: ARKLsUserFns { jtsetup: false, jtimes: false, Jt_f: f, ..l.fns },
                    ..l
                },
            )
        },
{
    if !ark_mem.stepper.supports_implicit {
        return ARK_STEPPER_UNSUPPORTED;
    }
    let l = match arkLs_AccessLMem(ark_mem) {
        None => {
            return ARKLS_LMEM_NULL;
        },
        Some(l) => l,
    };
    if !l.iterative {
        return ARKLS_ILL_INPUT;
    }
    if jtimes {
        ark_mem.lmem = Some(
            ARKLsMem { jtimesDQ: false, fns: ARKLsUserFns { jtsetup, jtimes: true, ..l.fns }, ..l },
        );
        return ARKLS_SUCCESS;
    }
    let f = crate::mri::mriStep_GetImplicitRHS(ark_mem);
    ark_mem.lmem = Some(
        ARKLsMem {
            jtimesDQ: true,
            fns: ARKLsUserFns { jtsetup: false, jtimes: false, Jt_f: f, ..l.fns },
            ..l
        },
    );
    if f.is_none() {
        return ARKLS_ILL_INPUT;
    }
    ARKLS_SUCCESS
}

/// Attaches a user linear system routine (`linsys`) or selects the internal one; a
/// user routine needs a matrix (`ARKLS_ILL_INPUT`).
pub fn ARKodeSetLinSysFn(ark_mem: &mut ARKodeMem, linsys: bool) -> (r: i32)
    ensures
        ls_access_code(*old(ark_mem)) != ARKLS_SUCCESS ==> r == ls_access_code(*old(ark_mem))
            && *final(ark_mem) == *old(ark_mem),
        ls_access_code(*old(ark_mem)) == ARKLS_SUCCESS && linsys && old(ark_mem).lmem->Some_0.A is None
            ==> r == ARKLS_ILL_INPUT && *final(ark_mem) == *old(ark_mem),
        ls_access_code(*old(ark_mem)) == ARKLS_SUCCESS && !(linsys && old(ark_mem).lmem->Some_0.A is None)
            ==> r == ARKLS_SUCCESS && *final(ark_mem) == with_lmem(
            *old(ark_mem),
            ARKLsMem {
                user_linsys: linsys,
                fns: ARKLsUserFns { linsys, ..old(ark_mem).lmem->Some_0.fns },
                ..old(ark_mem).lmem->Some_0
            },
        ),
{
    if !ark_mem.stepper.supports_implicit {
        return ARK_STEPPER_UNSUPPORTED;
    }
    let l = match arkLs_AccessLMem(ark_mem) {
        None => {
            return ARKLS_LMEM_NULL;
        },
        Some(l) => l,
    };
    if linsys && l.A.is_none() {
        return ARKLS_ILL_INPUT;
    }
    ark_mem.lmem = Some(
        ARKLsMem { user_linsys: linsys, fns: ARKLsUserFns { linsys, ..l.fns }, ..l },
    );
    ARKLS_SUCCESS
}

/// The implicit right-hand side the time stepper offers: MRIStep's slow implicit
/// function when its problem has one.
pub open spec fn implicit_rhs_of(a: ARKodeMem) -> Option<ARKRhsSource> {
    if is_mri(a) && mri_mem(a).method.implicit_rhs {
        Some(ARKRhsSource::StepperImplicit)
    } else {
        None
    }
}

/// Selects the right-hand side of the difference-quotient Jacobian-vector product:
/// a user function (`jtimesRhsFn`) or the stepper's implicit right-hand side.
/// `ARKLS_ILL_INPUT` when the difference quotient is not in use, or when the
/// stepper has no implicit right-hand side (the interface is then left without
/// one).
pub fn ARKodeSetJacTimesRhsFn(ark_mem: &mut ARKodeMem, jtimesRhsFn: bool) -> (r: i32)
    ensures
        ls_access_code(*old(ark_mem)) != ARKLS_SUCCESS ==> r == ls_access_code(*old(ark_mem))
            && *final(ark_mem) == *old(ark_mem),
        ls_access_code(*old(ark_mem)) == ARKLS_SUCCESS && !old(ark_mem).lmem->Some_0.jtimesDQ
            ==> r == ARKLS_ILL_INPUT && *final(ark_mem) == *old(ark_mem),
        ls_access_code(*old(ark_mem)) == ARKLS_SUCCESS && old(ark_mem).lmem->Some_0.jtimesDQ ==> {
            let l = old(ark_mem).lmem->Some_0;
            let f = if jtimesRhsFn { Some(ARKRhsSource::User) } else { implicit_rhs_of(*old(ark_mem)) };
            &&& r == (if f is Some { ARKLS_SUCCESS } else { ARKLS_ILL_INPUT })
            &&& *final(ark_mem) == with_lmem(
                *old(ark_mem),
                ARKLsMem { fns: ARKLsUserFns { Jt_f: f, ..l.fns }, ..l },
            )
        },
{
    if !ark_mem.stepper.supports_implicit {
        return ARK_STEPPER_UNSUPPORTED;
    }
    let l = match arkLs_AccessLMem(ark_mem) {
        None => {
            return ARKLS_LMEM_NULL;
        },
        Some(l) => l,
    };
    if !l.jtimesDQ {
        return ARKLS_ILL_INPUT;
    }
    let f = if jtimesRhsFn {
        Some(ARKRhsSource::User)
    } else {
        crate::mri::mriStep_GetImplicitRHS(ark_mem)
    };
    ark_mem.lmem = Some(ARKLsMem { fns: ARKLsUserFns { Jt_f: f, ..l.fns }, ..l });
    if f.is_none() {
        return ARKLS_ILL_INPUT;
    }
    ARKLS_SUCCESS
}

/// The saved Jacobian (a copy); `None` for steppers without an algebraic solver.
pub fn ARKodeGetJac(ark_mem: &mut ARKodeMem, J: &mut Option<SUNMatrix>) -> (r: i32)
    ensures
        *final(ark_mem) == *old(ark_mem),
        !old(ark_mem).stepper.supports_implicit ==> r == ARK_SUCCESS && *final(J) is None,
        old(ark_mem).stepper.supports_implicit && !lmem_reachable(*old(ark_mem)) ==> r
            == ARKLS_LMEM_NULL && *final(J) == *old(J),
        old(ark_mem).stepper.supports_implicit && lmem_reachable(*old(ark_mem)) ==> r
            == ARKLS_SUCCESS && *final(J) == old(ark_mem).lmem->Some_0.savedJ,
{
    if !ark_mem.stepper.supports_implicit {
        *J = None;
        return ARK_SUCCESS;
    }
    match arkLs_AccessLMem(ark_mem) {
        None => ARKLS_LMEM_NULL,
        Some(l) => {
            *J = l.savedJ;
            ARKLS_SUCCESS
        },
    }
}

/// Step count at the last Jacobian evaluation; 0 for steppers without an
/// algebraic solver.
pub fn ARKodeGetJacNumSteps(ark_mem: &mut ARKodeMem, nst_J: &mut i64) -> (r: i32)
    ensures
        *final(ark_mem) == *old(ark_mem),
        !old(ark_mem).stepper.supports_implicit ==> r == ARK_SUCCESS && *final(nst_J) == 0,
        old(ark_mem).stepper.supports_implicit && !lmem_reachable(*old(ark_mem)) ==> r
            == ARKLS_LMEM_NULL && *final(nst_J) == *old(nst_J),
        old(ark_mem).stepper.supports_implicit && lmem_reachable(*old(ark_mem)) ==> r
            == ARKLS_SUCCESS && *final(nst_J) == old(ark_mem).lmem->Some_0.counters.nstlj,
{
    if !ark_mem.stepper.supports_implicit {
        *nst_J = 0;
        return ARK_SUCCESS;
    }
    match arkLs_AccessLMem(ark_mem) {
        None => ARKLS_LMEM_NULL,
        Some(l) => {
            *nst_J = l.counters.nstlj;
            ARKLS_SUCCESS
        },
    }
}

/// Workspace reported by an object is within limits.
pub open spec fn words_ok(w: i64) -> bool {
    0 <= w <= 0x1_0000_0000
}

/// The workspace an interface and its objects report is within limits.
pub open spec fn lmem_sizes_ok(l: ARKLsMem) -> bool {
    &&& words_ok(l.vec_len)
    &&& words_ok(l.LS.lenrw) && words_ok(l.LS.leniw)
    &&& (l.savedJ matches Some(m) ==> words_ok(m.lenrw) && words_ok(m.leniw))
}

/// Real words of the system solver interface: fixed words, its two work vectors,
/// the saved Jacobian and the linear solver.
pub open spec fn lin_lenrw(l: ARKLsMem) -> int {
    3 + 2 * l.vec_len + (match l.savedJ {
        Some(m) => m.lenrw as int,
        None => 0,
    }) + l.LS.lenrw
}

/// Integer words of the system solver interface.
pub open spec fn lin_leniw(l: ARKLsMem) -> int {
    30 + 2 + (match l.savedJ {
        Some(m) => m.leniw as int,
        None => 0,
    }) + l.LS.leniw
}

/// Workspace of the system linear solver interface; zero for steppers without an
/// algebraic solver.
pub fn ARKodeGetLinWorkSpace(ark_mem: &mut ARKodeMem, lenrw: &mut i64, leniw: &mut i64) -> (r: i32)
    requires
        old(ark_mem).lmem matches Some(l) ==> lmem_sizes_ok(l),
    ensures
        *final(ark_mem) == *old(ark_mem),
        !old(ark_mem).stepper.supports_implicit ==> r == ARK_SUCCESS && *final(lenrw) == 0
            && *final(leniw) == 0,
        old(ark_mem).stepper.supports_implicit && !lmem_reachable(*old(ark_mem)) ==> r
            == ARKLS_LMEM_NULL && *final(lenrw) == *old(lenrw) && *final(leniw) == *old(leniw),
        old(ark_mem).stepper.supports_implicit && lmem_reachable(*old(ark_mem)) ==> r
            == ARKLS_SUCCESS && *final(lenrw) == lin_lenrw(old(ark_mem).lmem->Some_0) && *final(
            leniw) == lin_leniw(old(ark_mem).lmem->Some_0),
{
    if !ark_mem.stepper.supports_implicit {
        *lenrw = 0;
        *leniw = 0;
        return ARK_SUCCESS;
    }
    match arkLs_AccessLMem(ark_mem) {
        None => ARKLS_LMEM_NULL,
        Some(l) => {
            let mut rw: i64 = 3 + 2 * l.vec_len;
            let mut iw: i64 = 30 + 2;
            match l.savedJ {
                Some(m) => {
                    rw = rw + m.lenrw;
                    iw = iw + m.leniw;
                },
                None => {},
            }
            rw = rw + l.LS.lenrw;
            iw = iw + l.LS.leniw;
            *lenrw = rw;
            *leniw = iw;
            ARKLS_SUCCESS
        },
    }
}

/// Last flag returned by the system linear solver interface; 0 for steppers
/// without an algebraic solver.
pub fn ARKodeGetLastLinFlag(ark_mem: &mut ARKodeMem, flag: &mut i64) -> (r: i32)
    ensures
        *final(ark_mem) == *old(ark_mem),
        !old(ark_mem).stepper.supports_implicit ==> r == ARK_SUCCESS && *final(flag) == 0,
        old(ark_mem).stepper.supports_implicit && !lmem_reachable(*old(ark_mem)) ==> r
            == ARKLS_LMEM_NULL && *final(flag) == *old(flag),
        old(ark_mem).stepper.supports_implicit && lmem_reachable(*old(ark_mem)) ==> r
            == ARKLS_SUCCESS && *final(flag) == old(ark_mem).lmem->Some_0.last_flag,
{
    if !ark_mem.stepper.supports_implicit {
        *flag = 0;
        return ARK_SUCCESS;
    }
    match arkLs_AccessLMem(ark_mem) {
        None => ARKLS_LMEM_NULL,
        Some(l) => {
            *flag = l.last_flag as i64;
            ARKLS_SUCCESS
        },
    }
}

/// Updates the user data of the system solver interface: the interface keeps no
/// copy of the pointer, so nothing changes.
pub fn arkLSSetUserData(ark_mem: &mut ARKodeMem) -> (r: i32)
    ensures
        r == ARKLS_SUCCESS,
        *final(ark_mem) == *old(ark_mem),
{
    ARKLS_SUCCESS
}

/// Updates the user data of the mass-matrix solver interface: the interface keeps
/// no copy of the pointer, so nothing changes.
pub fn arkLSSetMassUserData(ark_mem: &mut ARKodeMem) -> (r: i32)
    ensures
        r == ARKLS_SUCCESS,
        *final(ark_mem) == *old(ark_mem),
{
    ARKLS_SUCCESS
}

/// Number of work vectors the system solver interface holds.
pub open spec fn lmem_nvecs(l: ARKLsMem) -> int {
    (if l.ytemp { 1int } else { 0int }) + (if l.x { 1int } else { 0int })
}

/// The integrator after the system solver interface is released: its work vectors
/// leave the accounting and the interface is detached; nothing happens when it
/// cannot be reached.
pub open spec fn ls_free_result(a: ARKodeMem) -> ARKodeMem {
    if lmem_reachable(a) {
        let l = a.lmem->Some_0;
        ARKodeMem {
            lrw: (a.lrw - lmem_nvecs(l) * a.lrw1) as i64,
            liw: (a.liw - lmem_nvecs(l) * a.liw1) as i64,
            lmem: None,
            ..a
        }
    } else {
        a
    }
}

/// Releasing the system solver interface changes the accounting by at most two
/// vectors.
pub proof fn lemma_ls_free_bounds(a: ARKodeMem)
    requires
        vec_sizes_ok(a),
        ws_margin(a, 0x4_0000_0000),
    ensures
        a.lrw - 0x2_0000_0000 <= ls_free_result(a).lrw <= a.lrw,
        a.liw - 0x2_0000_0000 <= ls_free_result(a).liw <= a.liw,
{
    if lmem_reachable(a) {
        let l = a.lmem->Some_0;
        let k = lmem_nvecs(l);
        assert(0 <= k * a.lrw1 <= 0x2_0000_0000) by (nonlinear_arith)
            requires
                0 <= k <= 2,
                0 <= a.lrw1 <= 0x1_0000_0000,
        ;
        assert(0 <= k * a.liw1 <= 0x2_0000_0000) by (nonlinear_arith)
            requires
                0 <= k <= 2,
                0 <= a.liw1 <= 0x1_0000_0000,
        ;
    }
}

/// `k * w` for `k` in `0..=2` (computed).
fn small_words(k: i64, w: i64) -> (r: i64)
    requires
        0 <= k <= 2,
        0 <= w <= 0x1_0000_0000,
    ensures
        r == k * w,
        0 <= r <= 0x2_0000_0000,
{
    if k == 0 {
        0
    } else if k == 1 {
        w
    } else {
        w + w
    }
}

/// Releases the system solver interface.
pub fn arkLsFree(ark_mem: &mut ARKodeMem) -> (r: i32)
    requires
        vec_sizes_ok(*old(ark_mem)),
        ws_margin(*old(ark_mem), 0x4_0000_0000),
    ensures
        r == ARKLS_SUCCESS,
        *final(ark_mem) == ls_free_result(*old(ark_mem)),
{
    match arkLs_AccessLMem(ark_mem) {
        None => ARKLS_SUCCESS,
        Some(l) => {
            let k: i64 = (if l.ytemp { 1 } else { 0 }) + (if l.x { 1 } else { 0 });
            let lrw = ark_mem.lrw - small_words(k, ark_mem.lrw1);
            let liw = ark_mem.liw - small_words(k, ark_mem.liw1);
            ark_mem.lrw = lrw;
            ark_mem.liw = liw;
            ark_mem.lmem = None;
            ARKLS_SUCCESS
        },
    }
}

/// MRIStep after a system solver interface is attached: any interface it had is
/// released first, then the interface routines are installed and the linear solver
/// counters reset.
pub open spec fn attach_linsol_result(a: ARKodeMem, l: ARKLsMem) -> ARKodeMem {
    let sm = mri_mem(a);
    let a1 = if sm.solvers.lfree { ls_free_result(a) } else { a };
    ARKodeMem {
        lmem: Some(l),
        step_mem: ARKStepMem::Mri(
            ARKodeMRIStepMem {
                solvers: MRISolvers {
                    linit: true,
                    lsetup: true,
                    lsolve: true,
                    lfree: true,
                    nsetups: 0,
                    nstlp: 0,
                    ..sm.solvers
                },
                ..sm
            },
        ),
        ..a1
    }
}

/// Attaches a system solver interface to MRIStep (`ARK_MEM_NULL` for another
/// stepper).
pub fn mriStep_AttachLinsol(ark_mem: &mut ARKodeMem, lmem: ARKLsMem) -> (r: i32)
    requires
        vec_sizes_ok(*old(ark_mem)),
        ws_margin(*old(ark_mem), 0x4_0000_0000),
    ensures
        !is_mri(*old(ark_mem)) ==> r == ARK_MEM_NULL && *final(ark_mem) == *old(ark_mem),
        is_mri(*old(ark_mem)) ==> r == ARK_SUCCESS && *final(ark_mem) == attach_linsol_result(
            *old(ark_mem),
            lmem,
        ),
{
    let lfree = match &ark_mem.step_mem {
        ARKStepMem::Mri(sm) => sm.solvers.lfree,
        _ => {
            return ARK_MEM_NULL;
        },
    };
    if lfree {
        arkLsFree(ark_mem);
    }
    match &mut ark_mem.step_mem {
        ARKStepMem::Mri(sm) => {
            sm.solvers = MRISolvers {
                linit: true,
                lsetup: true,
                lsolve: true,
                lfree: true,
                nsetups: 0,
                nstlp: 0,
                ..sm.solvers
            };
        },
        _ => {},
    }
    ark_mem.lmem = Some(lmem);
    ARK_SUCCESS
}

/// Solver kind flags: any solver but a direct one iterates; all but the
/// matrix-free iterative and matrix-embedded ones use a matrix.
pub open spec fn ls_iterative(t: i32) -> bool {
    t != SUNLINEARSOLVER_DIRECT
}

pub open spec fn ls_matrixbased(t: i32) -> bool {
    t != SUNLINEARSOLVER_ITERATIVE && t != SUNLINEARSOLVER_MATRIX_EMBEDDED
}

/// The solver and matrix fit together: a matrix-embedded solver takes no matrix,
/// matrix-based solvers need one.
pub open spec fn solver_matrix_code(t: i32, has_matrix: bool) -> i32 {
    if t == SUNLINEARSOLVER_MATRIX_EMBEDDED && has_matrix {
        ARKLS_ILL_INPUT
    } else if ls_iterative(t) && ls_matrixbased(t) && !has_matrix {
        ARKLS_ILL_INPUT
    } else if !ls_iterative(t) && !has_matrix {
        ARKLS_ILL_INPUT
    } else {
        ARKLS_SUCCESS
    }
}

/// A new system solver interface: difference-quotient Jacobian (when there is a
/// matrix) and Jacobian-vector products on the stepper's implicit right-hand side,
/// solution scaling for matrix-based solvers, default evaluation frequency, zero
/// statistics, and two work vectors of length `n`.
pub open spec fn new_lmem(LS: SUNLinearSolver, A: Option<SUNMatrix>, n: i64) -> ARKLsMem {
    ARKLsMem {
        iterative: ls_iterative(LS.ls_type),
        matrixbased: ls_matrixbased(LS.ls_type),
        jacDQ: A is Some,
        jbad: true,
        scalesol: ls_matrixbased(LS.ls_type),
        jtimesDQ: true,
        user_linsys: false,
        LS,
        A,
        savedJ: None,
        ytemp: true,
        x: true,
        vec_len: n,
        msbj: ARKLS_MSBJ,
        eplifac: Decimal { mantissa: 5, exponent: -2i32 },
        counters: zero_counters(),
        fns: ARKLsUserFns {
            jac: false,
            pset: false,
            psolve: false,
            jtsetup: false,
            jtimes: false,
            linsys: false,
            Jt_f: Some(ARKRhsSource::StepperImplicit),
        },
        last_flag: ARKLS_SUCCESS,
    }
}

/// The code `ARKodeSetLinearSolver` returns.
pub open spec fn set_linear_solver_code(a: ARKodeMem, LS: SUNLinearSolver, A: Option<SUNMatrix>) -> i32 {
    if !a.stepper.supports_implicit {
        ARK_STEPPER_UNSUPPORTED
    } else if solver_matrix_code(LS.ls_type, A is Some) != ARKLS_SUCCESS {
        ARKLS_ILL_INPUT
    } else if !ls_ops(a) {
        ARKLS_ILL_INPUT
    } else if implicit_rhs_of(a) is None {
        ARKLS_ILL_INPUT
    } else {
        ARKLS_SUCCESS
    }
}

/// Attaches a linear solver (and matrix, for matrix-based solvers) for the Newton
/// systems of the stepper.  Refused for steppers without an algebraic solver, for a
/// solver and matrix that do not fit, and when the stepper lacks the attach
/// operations or an implicit right-hand side.  On success a new interface (two
/// work vectors of the problem size join the accounting) replaces the previous one.
pub fn ARKodeSetLinearSolver(ark_mem: &mut ARKodeMem, LS: SUNLinearSolver, A: Option<SUNMatrix>) -> (r: i32)
    requires
        vec_sizes_ok(*old(ark_mem)),
        ws_margin(*old(ark_mem), 0x8_0000_0000),
    ensures
        r == set_linear_solver_code(*old(ark_mem), LS, A),
        r != ARKLS_SUCCESS ==> *final(ark_mem) == *old(ark_mem),
        r == ARKLS_SUCCESS ==> *final(ark_mem) == attach_linsol_result(
            ARKodeMem {
                lrw: (old(ark_mem).lrw + 2 * old(ark_mem).lrw1) as i64,
                liw: (old(ark_mem).liw + 2 * old(ark_mem).liw1) as i64,
                ..*old(ark_mem)
            },
            new_lmem(LS, A, old(ark_mem).lrw1),
        ),
{
    if !ark_mem.stepper.supports_implicit {
        return ARK_STEPPER_UNSUPPORTED;
    }
    let t = LS.ls_type;
    let iterative = t != SUNLINEARSOLVER_DIRECT;
    let matrixbased = t != SUNLINEARSOLVER_ITERATIVE && t != SUNLINEARSOLVER_MATRIX_EMBEDDED;
    if t == SUNLINEARSOLVER_MATRIX_EMBEDDED && A.is_some() {
        return ARKLS_ILL_INPUT;
    }
    if iterative {
        if matrixbased && A.is_none() {
            return ARKLS_ILL_INPUT;
        }
    } else if A.is_none() {
        return ARKLS_ILL_INPUT;
    }
    match ark_mem.step_mem {
        ARKStepMem::Mri(_) => {},
        _ => {
            return ARKLS_ILL_INPUT;
        },
    }
    let Jt_f = crate::mri::mriStep_GetImplicitRHS(ark_mem);
    if Jt_f.is_none() {
        return ARKLS_ILL_INPUT;
    }
    let mut l = ARKLsMem {
        iterative,
        matrixbased,
        jacDQ: A.is_some(),
        jbad: true,
        scalesol: false,
        jtimesDQ: true,
        user_linsys: false,
        LS,
        A,
        savedJ: None,
        ytemp: false,
        x: false,
        vec_len: ark_mem.lrw1,
        msbj: ARKLS_MSBJ,
        eplifac: dec(5, -2),
        counters: ARKLsCounters {
            nje: 0,
            nfeDQ: 0,
            nstlj: 0,
            npe: 0,
            nli: 0,
            nps: 0,
            ncfl: 0,
            njtsetup: 0,
            njtimes: 0,
        },
        fns: ARKLsUserFns {
            jac: false,
            pset: false,
            psolve: false,
            jtsetup: false,
            jtimes: false,
            linsys: false,
            Jt_f,
        },
        last_flag: ARKLS_SUCCESS,
    };
    arkLsInitializeCounters(&mut l);
    let lrw = ark_mem.lrw + ark_mem.lrw1 + ark_mem.lrw1;
    let liw = ark_mem.liw + ark_mem.liw1 + ark_mem.liw1;
    ark_mem.lrw = lrw;
    ark_mem.liw = liw;
    l.ytemp = true;
    l.x = true;
    l.scalesol = matrixbased;
    mriStep_AttachLinsol(ark_mem, l)
}

/// The internal difference-quotient Jacobian cannot fill the matrix: it needs a
/// dense or band matrix.
pub open spec fn dq_unavailable(l: ARKLsMem) -> bool {
    l.A matches Some(m) && !l.user_linsys && l.jacDQ && !(m.id == SUNMATRIX_DENSE || m.id
        == SUNMATRIX_BAND)
}

/// The interface after its matrix routines are settled: with a matrix and the
/// internal linear system, the internal linear system (and, for the difference
/// quotient, the internal Jacobian) is selected and a saved Jacobian of the matrix's
/// kind created if missing; without a matrix, no Jacobian or linear system routine
/// is used.
pub open spec fn ls_init_matrix(l: ARKLsMem) -> ARKLsMem {
    match l.A {
        Some(m) => if !l.user_linsys {
            ARKLsMem {
                fns: ARKLsUserFns { linsys: false, jac: if l.jacDQ { false } else { l.fns.jac }, ..l.fns },
                savedJ: if l.savedJ is None { Some(m) } else { l.savedJ },
                ..l
            }
        } else {
            l
        },
        None => ARKLsMem {
            jacDQ: false,
            user_linsys: false,
            fns: ARKLsUserFns { jac: false, linsys: false, ..l.fns },
            ..l
        },
    }
}

/// The system and mass-matrix solvers do not fit together: one has a matrix and
/// the other not, their matrices are of different kinds, or only one is
/// matrix-embedded.
pub open spec fn mass_mismatch(l: ARKLsMem, mm: Option<ARKLsMassMem>) -> bool {
    match mm {
        Some(m) => {
            ||| (l.A is Some) != (m.M is Some)
            ||| (l.A matches Some(a) && m.M matches Some(mmat) && a.id != mmat.id)
            ||| (l.LS.ls_type == SUNLINEARSOLVER_MATRIX_EMBEDDED) != (m.LS.ls_type
                == SUNLINEARSOLVER_MATRIX_EMBEDDED)
        },
        None => false,
    }
}

/// The mass-matrix interface the system interface is checked against: the one
/// attached to a stepper that provides mass-matrix operations.
pub open spec fn checked_mass(a: ARKodeMem) -> Option<ARKLsMassMem> {
    if a.stepper.massops { a.mass_mem } else { None }
}

/// The interface after a successful initialization: statistics reset, the internal
/// Jacobian-vector product selected when in use, solution scaling off for a
/// matrix-embedded solver, and the linear solver's own initialization result as
/// last flag.
pub open spec fn ls_init_done(l: ARKLsMem) -> ARKLsMem {
    ARKLsMem {
        counters: zero_counters(),
        fns: if l.jtimesDQ { ARKLsUserFns { jtsetup: false, jtimes: false, ..l.fns } } else { l.fns },
        scalesol: if l.LS.ls_type == SUNLINEARSOLVER_MATRIX_EMBEDDED { false } else { l.scalesol },
        last_flag: l.LS.init_flag,
        ..l
    }
}

/// The linear solver setup is not needed: no matrix and no preconditioner setup, or
/// a matrix-embedded solver.
pub open spec fn lsetup_unneeded(l: ARKLsMem) -> bool {
    (l.A is None && !l.fns.pset) || l.LS.ls_type == SUNLINEARSOLVER_MATRIX_EMBEDDED
}

/// MRIStep memory with the linear solver setup disabled.
pub open spec fn without_lsetup(sm: ARKodeMRIStepMem) -> ARKodeMRIStepMem {
    ARKodeMRIStepMem { solvers: MRISolvers { lsetup: false, ..sm.solvers }, ..sm }
}

/// The result of `arkLsInitialize`.
pub open spec fn ls_initialize_spec(a: ARKodeMem) -> (i32, ARKodeMem) {
    if !lmem_reachable(a) {
        (ARKLS_LMEM_NULL, a)
    } else {
        let l = a.lmem->Some_0;
        if dq_unavailable(l) {
            (
                ARKLS_ILL_INPUT,
                with_lmem(
                    a,
                    ARKLsMem {
                        fns: ARKLsUserFns { linsys: false, ..l.fns },
                        last_flag: ARKLS_ILL_INPUT,
                        ..l
                    },
                ),
            )
        } else {
            let l1 = ls_init_matrix(l);
            if mass_mismatch(l1, checked_mass(a)) {
                (ARKLS_ILL_INPUT, with_lmem(a, ARKLsMem { last_flag: ARKLS_ILL_INPUT, ..l1 }))
            } else {
                let sm = mri_mem(a);
                (
                    l1.LS.init_flag,
                    ARKodeMem {
                        lmem: Some(ls_init_done(l1)),
                        step_mem: ARKStepMem::Mri(
                            if lsetup_unneeded(l1) { without_lsetup(sm) } else { sm },
                        ),
                        ..a
                    },
                )
            }
        }
    }
}

/// Initializes the system solver interface before stepping (`ARKLS_LMEM_NULL` when
/// it cannot be reached).  `ARKLS_ILL_INPUT` when the difference-quotient Jacobian
/// cannot fill the matrix or the system and mass solvers do not fit (the flag is
/// recorded); otherwise statistics are reset, an unneeded setup is disabled, and the
/// linear solver's initialization result is recorded and returned.
pub fn arkLsInitialize(ark_mem: &mut ARKodeMem) -> (r: i32)
    ensures
        (r, *final(ark_mem)) == ls_initialize_spec(*old(ark_mem)),
{
    let l = match arkLs_AccessLMem(ark_mem) {
        None => {
            return ARKLS_LMEM_NULL;
        },
        Some(l) => l,
    };
    let mm = if ark_mem.stepper.massops { ark_mem.mass_mem } else { None };
    let l1 = match ls_settle_matrix(l) {
        Err(lf) => {
            ark_mem.lmem = Some(lf);
            return ARKLS_ILL_INPUT;
        },
        Ok(l1) => l1,
    };
    if mass_mismatch_exec(&l1, mm) {
        ark_mem.lmem = Some(ARKLsMem { last_flag: ARKLS_ILL_INPUT, ..l1 });
        return ARKLS_ILL_INPUT;
    }
    if (l1.A.is_none() && !l1.fns.pset) || l1.LS.ls_type == SUNLINEARSOLVER_MATRIX_EMBEDDED {
        crate::mri::mriStep_DisableLSetup(ark_mem);
    }
    let l2 = ls_finish_init(l1);
    ark_mem.lmem = Some(l2);
    l2.last_flag
}

/// Settles the matrix routines of the interface (computed); `Err` carries the
/// interface with the failure recorded when the difference-quotient Jacobian cannot
/// fill the matrix.
fn ls_settle_matrix(l: ARKLsMem) -> (r: Result<ARKLsMem, ARKLsMem>)
    ensures
        dq_unavailable(l) ==> r == Err::<ARKLsMem, ARKLsMem>(
            ARKLsMem { fns: ARKLsUserFns { linsys: false, ..l.fns }, last_flag: ARKLS_ILL_INPUT, ..l },
        ),
        !dq_unavailable(l) ==> r == Ok::<ARKLsMem, ARKLsMem>(ls_init_matrix(l)),
{
    let mut l1 = l;
    match l.A {
        Some(m) => {
            if !l.user_linsys {
                l1.fns = ARKLsUserFns { linsys: false, ..l1.fns };
                if l.jacDQ {
                    if m.id == SUNMATRIX_DENSE || m.id == SUNMATRIX_BAND {
                        l1.fns = ARKLsUserFns { jac: false, ..l1.fns };
                    } else {
                        l1.last_flag = ARKLS_ILL_INPUT;
                        return Err(l1);
                    }
                }
                if l1.savedJ.is_none() {
                    l1.savedJ = Some(m);
                }
            }
        },
        None => {
            l1.jacDQ = false;
            l1.user_linsys = false;
            l1.fns = ARKLsUserFns { jac: false, linsys: false, ..l1.fns };
        },
    }
    Ok(l1)
}

/// Whether the system and mass-matrix solvers do not fit together (computed).
fn mass_mismatch_exec(l: &ARKLsMem, mm: Option<ARKLsMassMem>) -> (b: bool)
    ensures
        b == mass_mismatch(*l, mm),
{
    match mm {
        None => false,
        Some(m) => {
            let emb_l = l.LS.ls_type == SUNLINEARSOLVER_MATRIX_EMBEDDED;
            let emb_m = m.LS.ls_type == SUNLINEARSOLVER_MATRIX_EMBEDDED;
            if l.A.is_some() != m.M.is_some() {
                return true;
            }
            let ids_differ = match (l.A, m.M) {
                (Some(a), Some(mmat)) => a.id != mmat.id,
                _ => false,
            };
            ids_differ || emb_l != emb_m
        },
    }
}

/// Completes a successful initialization of the interface (computed).
fn ls_finish_init(l: ARKLsMem) -> (r: ARKLsMem)
    ensures
        r == ls_init_done(l),
{
    let mut l1 = l;
    arkLsInitializeCounters(&mut l1);
    if l1.jtimesDQ {
        l1.fns = ARKLsUserFns { jtsetup: false, jtimes: false, ..l1.fns };
    }
    if l1.LS.ls_type == SUNLINEARSOLVER_MATRIX_EMBEDDED {
        l1.scalesol = false;
    }
    l1.last_flag = l1.LS.init_flag;
    l1
}

/// The mass-matrix solver interface can be reached: the stepper provides the
/// mass-matrix access operation and an interface is attached.
pub open spec fn massmem_reachable(a: ARKodeMem) -> bool {
    a.stepper.massops && a.mass_mem is Some
}

/// The code with which the optional-input routines of the mass-matrix interface
/// start: steppers without mass matrices are `ARK_STEPPER_UNSUPPORTED`, an interface
/// that cannot be reached `ARKLS_MASSMEM_NULL`.
pub open spec fn mass_access_code(a: ARKodeMem) -> i32 {
    if !a.stepper.supports_massmatrix {
        ARK_STEPPER_UNSUPPORTED
    } else if !massmem_reachable(a) {
        ARKLS_MASSMEM_NULL
    } else {
        ARKLS_SUCCESS
    }
}

/// The integrator with its mass-matrix interface memory replaced.
pub open spec fn with_massmem(a: ARKodeMem, m: ARKLsMassMem) -> ARKodeMem {
    ARKodeMem { mass_mem: Some(m), ..a }
}

/// The mass-matrix interface memory, when it can be reached.
fn arkLs_AccessMassMem(ark_mem: &ARKodeMem) -> (r: Option<ARKLsMassMem>)
    ensures
        massmem_reachable(*ark_mem) ==> r == ark_mem.mass_mem,
        !massmem_reachable(*ark_mem) ==> r is None,
{
    if ark_mem.stepper.massops {
        ark_mem.mass_mem
    } else {
        None
    }
}

/// The integrator after the mass-matrix interface is released: its work vector
/// leaves the accounting and the interface is detached; nothing happens when it
/// cannot be reached.
pub open spec fn mass_free_result(a: ARKodeMem) -> ARKodeMem {
    if massmem_reachable(a) {
        let m = a.mass_mem->Some_0;
        let k: int = if m.x { 1 } else { 0 };
        ARKodeMem {
            lrw: (a.lrw - k * a.lrw1) as i64,
            liw: (a.liw - k * a.liw1) as i64,
            mass_mem: None,
            ..a
        }
    } else {
        a
    }
}

/// Releases the mass-matrix solver interface.
pub fn arkLsMassFree(ark_mem: &mut ARKodeMem) -> (r: i32)
    requires
        vec_sizes_ok(*old(ark_mem)),
        ws_margin(*old(ark_mem), 0x4_0000_0000),
    ensures
        r == ARKLS_SUCCESS,
        *final(ark_mem) == mass_free_result(*old(ark_mem)),
{
    match arkLs_AccessMassMem(ark_mem) {
        None => ARKLS_SUCCESS,
        Some(m) => {
            let k: i64 = if m.x { 1 } else { 0 };
            let lrw = ark_mem.lrw - small_words(k, ark_mem.lrw1);
            let liw = ark_mem.liw - small_words(k, ark_mem.liw1);
            ark_mem.lrw = lrw;
            ark_mem.liw = liw;
            ark_mem.mass_mem = None;
            ARKLS_SUCCESS
        },
    }
}

/// A new mass-matrix interface: a factorization copy of the matrix for direct
/// solvers, zero statistics, one work vector.
pub open spec fn new_massmem(LS: SUNLinearSolver, M: Option<SUNMatrix>, time_dep: bool) -> ARKLsMassMem {
    ARKLsMassMem {
        iterative: ls_iterative(LS.ls_type),
        matrixbased: ls_matrixbased(LS.ls_type),
        mass: false,
        M,
        M_lu: if M is Some && !ls_iterative(LS.ls_type) { M } else { None },
        time_dependent: time_dep,
        eplifac: Decimal { mantissa: 5, exponent: -2i32 },
        counters: zero_mass_counters(),
        LS,
        x: true,
        pset: false,
        psolve: false,
        mtsetup: false,
        mtimes: false,
        last_flag: ARKLS_SUCCESS,
    }
}

/// The code `ARKodeSetMassLinearSolver` returns.
pub open spec fn set_mass_solver_code(a: ARKodeMem, LS: SUNLinearSolver, M: Option<SUNMatrix>) -> i32 {
    if !a.stepper.supports_massmatrix {
        ARK_STEPPER_UNSUPPORTED
    } else if solver_matrix_code(LS.ls_type, M is Some) != ARKLS_SUCCESS {
        ARKLS_ILL_INPUT
    } else if !a.stepper.massops {
        ARKLS_ILL_INPUT
    } else {
        ARKLS_SUCCESS
    }
}

/// Attaches a linear solver (and mass matrix, for matrix-based solvers) for the
/// mass-matrix systems.  Refused for steppers without mass matrices, for a solver
/// and matrix that do not fit, and when the stepper lacks the attach operations.
/// On success the new interface (one work vector joins the accounting) replaces any
/// previous one, which is released, and the stepper calls its setup.
pub fn ARKodeSetMassLinearSolver(ark_mem: &mut ARKodeMem, LS: SUNLinearSolver, M: Option<SUNMatrix>, time_dep: bool) -> (r: i32)
    requires
        vec_sizes_ok(*old(ark_mem)),
        ws_margin(*old(ark_mem), 0x8_0000_0000),
    ensures
        r == set_mass_solver_code(*old(ark_mem), LS, M),
        r != ARKLS_SUCCESS ==> *final(ark_mem) == *old(ark_mem),
        r == ARKLS_SUCCESS ==> {
            let a1 = mass_free_result(
                ARKodeMem {
                    lrw: (old(ark_mem).lrw + old(ark_mem).lrw1) as i64,
                    liw: (old(ark_mem).liw + old(ark_mem).liw1) as i64,
                    ..*old(ark_mem)
                },
            );
            *final(ark_mem) == ARKodeMem {
                mass_mem: Some(new_massmem(LS, M, time_dep)),
                stepper: ARKodeStepperInfo { msetup: true, ..a1.stepper },
                ..a1
            }
        },
{
    if !ark_mem.stepper.supports_massmatrix {
        return ARK_STEPPER_UNSUPPORTED;
    }
    let t = LS.ls_type;
    let iterative = t != SUNLINEARSOLVER_DIRECT;
    let matrixbased = t != SUNLINEARSOLVER_ITERATIVE && t != SUNLINEARSOLVER_MATRIX_EMBEDDED;
    if t == SUNLINEARSOLVER_MATRIX_EMBEDDED && M.is_some() {
        return ARKLS_ILL_INPUT;
    }
    if iterative {
        if matrixbased && M.is_none() {
            return ARKLS_ILL_INPUT;
        }
    } else if M.is_none() {
        return ARKLS_ILL_INPUT;
    }
    if !ark_mem.stepper.massops {
        return ARKLS_ILL_INPUT;
    }
    let M_lu = if M.is_some() && !iterative { M } else { None };
    let mut m = ARKLsMassMem {
        iterative,
        matrixbased,
        mass: false,
        M,
        M_lu,
        time_dependent: time_dep,
        eplifac: dec(5, -2),
        counters: ARKLsMassCounters {
            nmsetups: 0,
            nmsolves: 0,
            nmtsetup: 0,
            nmtimes: 0,
            nmvsetup: 0,
            npe: 0,
            nli: 0,
            nps: 0,
            ncfl: 0,
        },
        LS,
        x: false,
        pset: false,
        psolve: false,
        mtsetup: false,
        mtimes: false,
        last_flag: ARKLS_SUCCESS,
    };
    arkLsInitializeMassCounters(&mut m);
    let lrw = ark_mem.lrw + ark_mem.lrw1;
    let liw = ark_mem.liw + ark_mem.liw1;
    ark_mem.lrw = lrw;
    ark_mem.liw = liw;
    m.x = true;
    arkLsMassFree(ark_mem);
    ark_mem.mass_mem = Some(m);
    ark_mem.stepper = ARKodeStepperInfo { msetup: true, ..ark_mem.stepper };
    ARKLS_SUCCESS
}

/// Attaches a user mass-matrix routine (`mass`); `ARKLS_ILL_INPUT` when none is
/// given or the interface has no matrix.
pub fn ARKodeSetMassFn(ark_mem: &mut ARKodeMem, mass: bool) -> (r: i32)
    ensures
        mass_access_code(*old(ark_mem)) != ARKLS_SUCCESS ==> r == mass_access_code(*old(ark_mem))
            && *final(ark_mem) == *old(ark_mem),
        mass_access_code(*old(ark_mem)) == ARKLS_SUCCESS && (!mass || old(
            ark_mem).mass_mem->Some_0.M is None) ==> r == ARKLS_ILL_INPUT && *final(ark_mem)
            == *old(ark_mem),
        mass_access_code(*old(ark_mem)) == ARKLS_SUCCESS && mass && old(
            ark_mem).mass_mem->Some_0.M is Some ==> r == ARKLS_SUCCESS && *final(ark_mem)
            == with_massmem(*old(ark_mem), ARKLsMassMem { mass: true, ..old(ark_mem).mass_mem->Some_0 }),
{
    if !ark_mem.stepper.supports_massmatrix {
        return ARK_STEPPER_UNSUPPORTED;
    }
    let m = match arkLs_AccessMassMem(ark_mem) {
        None => {
            return ARKLS_MASSMEM_NULL;
        },
        Some(m) => m,
    };
    if !mass {
        return ARKLS_ILL_INPUT;
    }
    if m.M.is_none() {
        return ARKLS_ILL_INPUT;
    }
    ark_mem.mass_mem = Some(ARKLsMassMem { mass: true, ..m });
    ARKLS_SUCCESS
}

/// Attaches (or removes) user preconditioner setup and solve routines for the
/// mass-matrix systems; only iterative solvers take them (`ARKLS_ILL_INPUT`).
pub fn ARKodeSetMassPreconditioner(ark_mem: &mut ARKodeMem, psetup: bool, psolve: bool) -> (r: i32)
    ensures
        mass_access_code(*old(ark_mem)) != ARKLS_SUCCESS ==> r == mass_access_code(*old(ark_mem))
            && *final(ark_mem) == *old(ark_mem),
        mass_access_code(*old(ark_mem)) == ARKLS_SUCCESS && !old(ark_mem).mass_mem->Some_0.iterative
            ==> r == ARKLS_ILL_INPUT && *final(ark_mem) == *old(ark_mem),
        mass_access_code(*old(ark_mem)) == ARKLS_SUCCESS && old(ark_mem).mass_mem->Some_0.iterative
            ==> r == ARKLS_SUCCESS && *final(ark_mem) == with_massmem(
            *old(ark_mem),
            ARKLsMassMem { pset: psetup, psolve, ..old(ark_mem).mass_mem->Some_0 },
        ),
{
    if !ark_mem.stepper.supports_massmatrix {
        return ARK_STEPPER_UNSUPPORTED;
    }
    let m = match arkLs_AccessMassMem(ark_mem) {
        None => {
            return ARKLS_MASSMEM_NULL;
        },
        Some(m) => m,
    };
    if !m.iterative {
        return ARKLS_ILL_INPUT;
    }
    ark_mem.mass_mem = Some(ARKLsMassMem { pset: psetup, psolve, ..m });
    ARKLS_SUCCESS
}

/// Sets the factor between the nonlinear and the mass-matrix linear solver
/// tolerances; non-positive values restore the default 0.05.
pub fn ARKodeSetMassEpsLin(ark_mem: &mut ARKodeMem, eplifac: Decimal) -> (r: i32)
    ensures
        r == mass_access_code(*old(ark_mem)),
        r != ARKLS_SUCCESS ==> *final(ark_mem) == *old(ark_mem),
        r == ARKLS_SUCCESS ==> *final(ark_mem) == with_massmem(
            *old(ark_mem),
            ARKLsMassMem {
                eplifac: if dec_nonpositive(eplifac) { Decimal { mantissa: 5, exponent: -2i32 } } else { eplifac },
                ..old(ark_mem).mass_mem->Some_0
            },
        ),
{
    if !ark_mem.stepper.supports_massmatrix {
        return ARK_STEPPER_UNSUPPORTED;
    }
    let m = match arkLs_AccessMassMem(ark_mem) {
        None => {
            return ARKLS_MASSMEM_NULL;
        },
        Some(m) => m,
    };
    let v = if eplifac.mantissa <= 0 { dec(5, -2) } else { eplifac };
    ark_mem.mass_mem = Some(ARKLsMassMem { eplifac: v, ..m });
    ARKLS_SUCCESS
}

/// Attaches user mass-matrix-vector product routines (a product routine `mtimes` is
/// required, setup optional); only iterative solvers take them.
pub fn ARKodeSetMassTimes(ark_mem: &mut ARKodeMem, mtsetup: bool, mtimes: bool) -> (r: i32)
    ensures
        mass_access_code(*old(ark_mem)) != ARKLS_SUCCESS ==> r == mass_access_code(*old(ark_mem))
            && *final(ark_mem) == *old(ark_mem),
        mass_access_code(*old(ark_mem)) == ARKLS_SUCCESS && (!mtimes || !old(
            ark_mem).mass_mem->Some_0.iterative) ==> r == ARKLS_ILL_INPUT && *final(ark_mem)
            == *old(ark_mem),
        mass_access_code(*old(ark_mem)) == ARKLS_SUCCESS && mtimes && old(
            ark_mem).mass_mem->Some_0.iterative ==> r == ARKLS_SUCCESS && *final(ark_mem)
            == with_massmem(
            *old(ark_mem),
            ARKLsMassMem { mtsetup, mtimes, ..old(ark_mem).mass_mem->Some_0 },
        ),
{
    if !ark_mem.stepper.supports_massmatrix {
        return ARK_STEPPER_UNSUPPORTED;
    }
    let m = match arkLs_AccessMassMem(ark_mem) {
        None => {
            return ARKLS_MASSMEM_NULL;
        },
        Some(m) => m,
    };
    if !mtimes {
        return ARKLS_ILL_INPUT;
    }
    if !m.iterative {
        return ARKLS_ILL_INPUT;
    }
    ark_mem.mass_mem = Some(ARKLsMassMem { mtsetup, mtimes, ..m });
    ARKLS_SUCCESS
}

/// The workspace a mass-matrix interface and its objects report is within limits.
pub open spec fn massmem_sizes_ok(m: ARKLsMassMem) -> bool {
    &&& words_ok(m.LS.lenrw) && words_ok(m.LS.leniw)
    &&& (m.M_lu matches Some(f) ==> words_ok(f.lenrw) && words_ok(f.leniw))
}

/// Real words of the mass-matrix interface: fixed words, its work vector of the
/// problem size `n`, the factorization copy (direct solvers) and the linear solver.
pub open spec fn mass_lenrw(m: ARKLsMassMem, n: i64) -> int {
    2 + n + (if !m.iterative && m.M_lu is Some { m.M_lu->Some_0.lenrw as int } else { 0 })
        + m.LS.lenrw
}

/// Integer words of the mass-matrix interface.
pub open spec fn mass_leniw(m: ARKLsMassMem) -> int {
    23 + 1 + (if !m.iterative && m.M_lu is Some { m.M_lu->Some_0.leniw as int } else { 0 })
        + m.LS.leniw
}

/// Workspace of the mass-matrix interface; zero for steppers without mass
/// matrices.
pub fn ARKodeGetMassWorkSpace(ark_mem: &mut ARKodeMem, lenrw: &mut i64, leniw: &mut i64) -> (r: i32)
    requires
        old(ark_mem).mass_mem matches Some(m) ==> massmem_sizes_ok(m),
        vec_sizes_ok(*old(ark_mem)),
    ensures
        *final(ark_mem) == *old(ark_mem),
        !old(ark_mem).stepper.supports_massmatrix ==> r == ARK_SUCCESS && *final(lenrw) == 0
            && *final(leniw) == 0,
        old(ark_mem).stepper.supports_massmatrix && !massmem_reachable(*old(ark_mem)) ==> r
            == ARKLS_MASSMEM_NULL && *final(lenrw) == *old(lenrw) && *final(leniw) == *old(leniw),
        old(ark_mem).stepper.supports_massmatrix && massmem_reachable(*old(ark_mem)) ==> r
            == ARKLS_SUCCESS && *final(lenrw) == mass_lenrw(old(ark_mem).mass_mem->Some_0, old(ark_mem).lrw1)
            && *final(leniw) == mass_leniw(old(ark_mem).mass_mem->Some_0),
{
    if !ark_mem.stepper.supports_massmatrix {
        *lenrw = 0;
        *leniw = 0;
        return ARK_SUCCESS;
    }
    match arkLs_AccessMassMem(ark_mem) {
        None => ARKLS_MASSMEM_NULL,
        Some(m) => {
            let mut rw: i64 = 2 + ark_mem.lrw1;
            let mut iw: i64 = 23 + 1;
            if !m.iterative {
                match m.M_lu {
                    Some(f) => {
                        rw = rw + f.lenrw;
                        iw = iw + f.leniw;
                    },
                    None => {},
                }
            }
            rw = rw + m.LS.lenrw;
            iw = iw + m.LS.leniw;
            *lenrw = rw;
            *leniw = iw;
            ARKLS_SUCCESS
        },
    }
}

/// The current mass matrix (a copy); `None` for steppers without mass matrices.
pub fn ARKodeGetCurrentMassMatrix(ark_mem: &mut ARKodeMem, M: &mut Option<SUNMatrix>) -> (r: i32)
    ensures
        *final(ark_mem) == *old(ark_mem),
        !old(ark_mem).stepper.supports_massmatrix ==> r == ARK_SUCCESS && *final(M) is None,
        old(ark_mem).stepper.supports_massmatrix && !massmem_reachable(*old(ark_mem)) ==> r
            == ARKLS_MASSMEM_NULL && *final(M) == *old(M),
        old(ark_mem).stepper.supports_massmatrix && massmem_reachable(*old(ark_mem)) ==> r
            == ARKLS_SUCCESS && *final(M) == old(ark_mem).mass_mem->Some_0.M,
{
    if !ark_mem.stepper.supports_massmatrix {
        *M = None;
        return ARK_SUCCESS;
    }
    match arkLs_AccessMassMem(ark_mem) {
        None => ARKLS_MASSMEM_NULL,
        Some(m) => {
            *M = m.M;
            ARKLS_SUCCESS
        },
    }
}

/// Last flag returned by the mass-matrix interface; 0 for steppers without mass
/// matrices.
pub fn ARKodeGetLastMassFlag(ark_mem: &mut ARKodeMem, flag: &mut i64) -> (r: i32)
    ensures
        *final(ark_mem) == *old(ark_mem),
        !old(ark_mem).stepper.supports_massmatrix ==> r == ARK_SUCCESS && *final(flag) == 0,
        old(ark_mem).stepper.supports_massmatrix && !massmem_reachable(*old(ark_mem)) ==> r
            == ARKLS_MASSMEM_NULL && *final(flag) == *old(flag),
        old(ark_mem).stepper.supports_massmatrix && massmem_reachable(*old(ark_mem)) ==> r
            == ARKLS_SUCCESS && *final(flag) == old(ark_mem).mass_mem->Some_0.last_flag,
{
    if !ark_mem.stepper.supports_massmatrix {
        *flag = 0;
        return ARK_SUCCESS;
    }
    match arkLs_AccessMassMem(ark_mem) {
        None => ARKLS_MASSMEM_NULL,
        Some(m) => {
            *flag = m.last_flag as i64;
            ARKLS_SUCCESS
        },
    }
}

/// Records a mass-matrix-vector product `z = M v`.  It is computed by the user's
/// product routine when attached, else by the matrix; `flag` is what that
/// computation returned: it is the result, and a successful (0) product is
/// counted.  Without either, `-1`; `ARKLS_MASSMEM_NULL` when the interface cannot be
/// reached.
pub fn arkLsMTimes(ark_mem: &mut ARKodeMem, flag: i32) -> (r: i32)
    requires
        old(ark_mem).mass_mem matches Some(m) ==> m.counters.nmtimes < i64::MAX,
    ensures
        !massmem_reachable(*old(ark_mem)) ==> r == ARKLS_MASSMEM_NULL && *final(ark_mem) == *old(ark_mem),
        massmem_reachable(*old(ark_mem)) ==> {
            let m = old(ark_mem).mass_mem->Some_0;
            if m.mtimes || m.M is Some {
                &&& r == flag
                &&& *final(ark_mem) == (if flag == 0 {
                    with_massmem(
                        *old(ark_mem),
                        ARKLsMassMem {
                            counters: ARKLsMassCounters { nmtimes: (m.counters.nmtimes + 1) as i64, ..m.counters },
                            ..m
                        },
                    )
                } else {
                    *old(ark_mem)
                })
            } else {
                r == -1 && *final(ark_mem) == *old(ark_mem)
            }
        },
{
    let m = match arkLs_AccessMassMem(ark_mem) {
        None => {
            return ARKLS_MASSMEM_NULL;
        },
        Some(m) => m,
    };
    if m.mtimes || m.M.is_some() {
        if flag == 0 {
            ark_mem.mass_mem = Some(
                ARKLsMassMem {
                    counters: ARKLsMassCounters { nmtimes: m.counters.nmtimes + 1, ..m.counters },
                    ..m
                },
            );
        }
        return flag;
    }
    -1
}

/// The stepper's mass-matrix setup is not needed: no matrix and no preconditioner
/// or product setup, or a matrix-embedded solver.
pub open spec fn msetup_unneeded(m: ARKLsMassMem) -> bool {
    (m.M is None && !m.pset && !m.mtsetup) || m.LS.ls_type == SUNLINEARSOLVER_MATRIX_EMBEDDED
}

/// Initializes the mass-matrix interface before stepping (`ARKLS_MASSMEM_NULL` when
/// it cannot be reached): statistics are reset; a matrix needs a user mass-matrix
/// routine, and without a matrix a product routine is needed unless the solver is
/// matrix-embedded (`ARKLS_ILL_INPUT`, recorded as last flag).  Otherwise an
/// unneeded setup is disabled and the linear solver's initialization result is
/// recorded and returned.
pub fn arkLsMassInitialize(ark_mem: &mut ARKodeMem) -> (r: i32)
    ensures
        !massmem_reachable(*old(ark_mem)) ==> r == ARKLS_MASSMEM_NULL && *final(ark_mem) == *old(ark_mem),
        massmem_reachable(*old(ark_mem)) ==> {
            let m = old(ark_mem).mass_mem->Some_0;
            let m0 = ARKLsMassMem { counters: zero_mass_counters(), ..m };
            let bad = (m.M is Some && !m.mass) || (m.M is None && !m.mtimes && m.LS.ls_type
                != SUNLINEARSOLVER_MATRIX_EMBEDDED);
            if bad {
                r == ARKLS_ILL_INPUT && *final(ark_mem) == with_massmem(
                    *old(ark_mem),
                    ARKLsMassMem { last_flag: ARKLS_ILL_INPUT, ..m0 },
                )
            } else {
                &&& r == m.LS.init_flag
                &&& *final(ark_mem) == ARKodeMem {
                    mass_mem: Some(ARKLsMassMem { last_flag: m.LS.init_flag, ..m0 }),
                    stepper: if msetup_unneeded(m) {
                        ARKodeStepperInfo { msetup: false, ..old(ark_mem).stepper }
                    } else {
                        old(ark_mem).stepper
                    },
                    ..*old(ark_mem)
                }
            }
        },
{
    let m = match arkLs_AccessMassMem(ark_mem) {
        None => {
            return ARKLS_MASSMEM_NULL;
        },
        Some(m) => m,
    };
    let (r, m1) = mass_init_checks(m);
    if r != ARKLS_SUCCESS {
        ark_mem.mass_mem = Some(m1);
        return r;
    }
    let unneeded = (m.M.is_none() && !m.pset && !m.mtsetup) || m.LS.ls_type
        == SUNLINEARSOLVER_MATRIX_EMBEDDED;
    let stepper = if unneeded {
        ARKodeStepperInfo { msetup: false, ..ark_mem.stepper }
    } else {
        ark_mem.stepper
    };
    let m2 = ARKLsMassMem { last_flag: m.LS.init_flag, ..m1 };
    ark_mem.stepper = stepper;
    ark_mem.mass_mem = Some(m2);
    m2.last_flag
}

/// Resets the statistics of a mass-matrix interface and checks its routines
/// (computed): `ARKLS_ILL_INPUT`, recorded as last flag, when a matrix lacks its
/// user routine or a matrix-free non-embedded solver lacks a product routine.
fn mass_init_checks(m: ARKLsMassMem) -> (r: (i32, ARKLsMassMem))
    ensures
        ({
            let m0 = ARKLsMassMem { counters: zero_mass_counters(), ..m };
            let bad = (m.M is Some && !m.mass) || (m.M is None && !m.mtimes && m.LS.ls_type
                != SUNLINEARSOLVER_MATRIX_EMBEDDED);
            if bad {
                r == (ARKLS_ILL_INPUT, ARKLsMassMem { last_flag: ARKLS_ILL_INPUT, ..m0 })
            } else {
                r == (ARKLS_SUCCESS, m0)
            }
        }),
{
    let mut m0 = m;
    arkLsInitializeMassCounters(&mut m0);
    if m.M.is_some() && !m.mass {
        return (ARKLS_ILL_INPUT, ARKLsMassMem { last_flag: ARKLS_ILL_INPUT, ..m0 });
    }
    if m.M.is_none() && !m.mtimes && m.LS.ls_type != SUNLINEARSOLVER_MATRIX_EMBEDDED {
        return (ARKLS_ILL_INPUT, ARKLsMassMem { last_flag: ARKLS_ILL_INPUT, ..m0 });
    }
    (ARKLS_SUCCESS, m0)
}

/// The name of an ARKLS return code (its low 32 bits); `NONE` for any other value.
pub open spec fn lin_flag_name(flag: i32) -> Seq<char> {
    if flag == ARKLS_SUCCESS {
        "ARKLS_SUCCESS"@
    } else if flag == ARKLS_MEM_NULL {
        "ARKLS_MEM_NULL"@
    } else if flag == ARKLS_LMEM_NULL {
        "ARKLS_LMEM_NULL"@
    } else if flag == ARKLS_ILL_INPUT {
        "ARKLS_ILL_INPUT"@
    } else if flag == ARKLS_MEM_FAIL {
        "ARKLS_MEM_FAIL"@
    } else if flag == ARKLS_MASSMEM_NULL {
        "ARKLS_MASSMEM_NULL"@
    } else if flag == ARKLS_JACFUNC_UNRECVR {
        "ARKLS_JACFUNC_UNRECVR"@
    } else if flag == ARKLS_JACFUNC_RECVR {
        "ARKLS_JACFUNC_RECVR"@
    } else if flag == ARKLS_MASSFUNC_UNRECVR {
        "ARKLS_MASSFUNC_UNRECVR"@
    } else if flag == ARKLS_MASSFUNC_RECVR {
        "ARKLS_MASSFUNC_RECVR"@
    } else if flag == ARKLS_SUNMAT_FAIL {
        "ARKLS_SUNMAT_FAIL"@
    } else if flag == ARKLS_SUNLS_FAIL {
        "ARKLS_SUNLS_FAIL"@
    } else {
        "NONE"@
    }
}

/// The name of an ARKLS return code.
pub fn ARKodeGetLinReturnFlagName(flag: i64) -> (name: String)
    ensures
        name@ == lin_flag_name(flag as i32),
{
    let f = flag as i32;
    let s: &str = if f == ARKLS_SUCCESS {
        "ARKLS_SUCCESS"
    } else if f == ARKLS_MEM_NULL {
        "ARKLS_MEM_NULL"
    } else if f == ARKLS_LMEM_NULL {
        "ARKLS_LMEM_NULL"
    } else if f == ARKLS_ILL_INPUT {
        "ARKLS_ILL_INPUT"
    } else if f == ARKLS_MEM_FAIL {
        "ARKLS_MEM_FAIL"
    } else if f == ARKLS_MASSMEM_NULL {
        "ARKLS_MASSMEM_NULL"
    } else if f == ARKLS_JACFUNC_UNRECVR {
        "ARKLS_JACFUNC_UNRECVR"
    } else if f == ARKLS_JACFUNC_RECVR {
        "ARKLS_JACFUNC_RECVR"
    } else if f == ARKLS_MASSFUNC_UNRECVR {
        "ARKLS_MASSFUNC_UNRECVR"
    } else if f == ARKLS_MASSFUNC_RECVR {
        "ARKLS_MASSFUNC_RECVR"
    } else if f == ARKLS_SUNMAT_FAIL {
        "ARKLS_SUNMAT_FAIL"
    } else if f == ARKLS_SUNLS_FAIL {
        "ARKLS_SUNLS_FAIL"
    } else {
        "NONE"
    };
    String::from_str(s)
}

/// Whether the Jacobian (or preconditioner) data must be refreshed at a linear
/// system setup: at the first setup, once `msbj` steps have passed since the last
/// update, after a convergence failure blamed on a bad Jacobian while the change
/// in gamma was acceptable, or after any other convergence failure.
pub open spec fn setup_jbad(l: ARKLsMem, initsetup: bool, nst: i64, convfail: i32, dgamma_fail: bool) -> bool {
    ||| initsetup
    ||| nst >= l.counters.nstlj + l.msbj
    ||| (convfail == ARK_FAIL_BAD_J && !dgamma_fail)
    ||| convfail == ARK_FAIL_OTHER
}

/// Decides, at a linear system setup, whether the Jacobian data are refreshed,
/// and records the decision in the interface.  `dgamma_fail` is the stepper's
/// test on the relative change of gamma (a real-valued comparison).
pub fn arkLsSetupDecision(
    l: &mut ARKLsMem,
    initsetup: bool,
    nst: i64,
    convfail: i32,
    dgamma_fail: bool,
) -> (jbad: bool)
    ensures
        jbad == setup_jbad(*old(l), initsetup, nst, convfail, dgamma_fail),
        *final(l) == (ARKLsMem { jbad, ..*old(l) }),
{
    let due = (nst as i128) >= (l.counters.nstlj as i128) + (l.msbj as i128);
    let jbad = initsetup || due || (convfail == ARK_FAIL_BAD_J && !dgamma_fail)
        || convfail == ARK_FAIL_OTHER;
    l.jbad = jbad;
    jbad
}

/// Bookkeeping after the system matrix was set up: when the Jacobian was
/// evaluated (`jcur`), one more evaluation is counted at step `nst`.
pub fn arkLsSetupAfterLinSys(l: &mut ARKLsMem, nst: i64, jcur: bool)
    requires
        jcur ==> old(l).counters.nje < i64::MAX,
    ensures
        !jcur ==> *final(l) == *old(l),
        jcur ==> *final(l) == (ARKLsMem {
            counters: ARKLsCounters { nje: (old(l).counters.nje + 1) as i64, nstlj: nst, ..old(l).counters },
            ..*old(l)
        }),
{
    if jcur {
        l.counters = ARKLsCounters { nje: l.counters.nje + 1, nstlj: nst, ..l.counters };
    }
}

/// Bookkeeping after a matrix-free setup: when the preconditioner data were
/// refreshed (`jcur`), one more preconditioner evaluation is counted at step
/// `nst`; the returned flag reports an update whenever one was suggested.
pub fn arkLsSetupAfterPSetup(l: &mut ARKLsMem, nst: i64, jcur: bool) -> (jcur_out: bool)
    requires
        jcur ==> old(l).counters.npe < i64::MAX,
    ensures
        jcur_out == (jcur || old(l).jbad),
        !jcur ==> *final(l) == *old(l),
        jcur ==> *final(l) == (ARKLsMem {
            counters: ARKLsCounters { npe: (old(l).counters.npe + 1) as i64, nstlj: nst, ..old(l).counters },
            ..*old(l)
        }),
{
    if jcur {
        l.counters = ARKLsCounters { npe: l.counters.npe + 1, nstlj: nst, ..l.counters };
    }
    jcur || l.jbad
}

} // verus!


//! The contents of the statistics and parameter reports: which lines a report has,
//! in order, with the integer values the integrator holds.  Real-valued
//! quantities (times, step sizes, spectral radii) are named by their line and
//! supplied by whoever formats the report.
use vstd::prelude::*;
use crate::arkode::{ARKodeMem, ARKodeHAdaptMem, SUNAdaptController, ARKUserControl};
use crate::consts::{ARK_MEM_NULL, ARK_ILL_INPUT, ARK_SUCCESS, ARK_SS, ARK_WF};
use crate::decimal::Decimal;
use crate::interp::ARKInterp;
use crate::lsrk::{
    ARKodeLSRKStepMem, is_lsrk, lsrk_mem, lsrkStep_AccessStepMem, ARKODE_LSRK_RKC_2,
    ARKODE_LSRK_RKL_2, ARKODE_LSRK_SSP_S_2, ARKODE_LSRK_SSP_S_3, ARKODE_LSRK_SSP_10_4,
};
use crate::stepper::ARKStepMem;
use crate::mri::{ARKodeMRIStepMem, is_mri, mri_mem};
use crate::ls::ARKLsMem;

verus! {

/// One line of a statistics report.
#[derive(Clone, Copy, PartialEq, Eq, Debug)]
pub enum Stat {
    CurrentTime,
    Steps(i64),
    StepAttempts(i64),
    StabilityLimitedSteps(i64),
    AccuracyLimitedSteps(i64),
    ErrTestFails(i64),
    NlsStepFails(i64),
    ConstrFails(i64),
    InitialStepSize,
    LastStepSize,
    CurrentStepSize,
    RootFnEvals(i64),
    RhsEvals(i64),
    StagesUsed(i64),
    DomEigUpdates(i64),
    DeeRhsEvals(i64),
    DeeIters(i64),
    MaxStagesUsed(i64),
    MaxStagesAllowed(i64),
    MaxSpectralRadius,
    MinSpectralRadius,
    ExplicitSlowRhsEvals(i64),
    ImplicitSlowRhsEvals(i64),
    InnerStepperFails(i64),
    NlsIters(i64),
    NlsFails(i64),
    /// nonlinear iterations and steps, whose ratio is printed
    NlsItersPerStep(i64, i64),
    LsSetups(i64),
    JacEvals(i64),
    LsRhsEvals(i64),
    PrecSetupEvals(i64),
    PrecSolves(i64),
    LsIters(i64),
    LsFails(i64),
    JacTimesSetups(i64),
    JacTimesEvals(i64),
    /// linear iterations, Jacobian and preconditioner evaluations, each over the
    /// nonlinear iterations: the ratio is printed
    LsItersPerNlsIter(i64, i64),
    JacEvalsPerNlsIter(i64, i64),
    PrecEvalsPerNlsIter(i64, i64),
}

/// The statistics lines of LSRKStep: right-hand side evaluations, then for SSP
/// methods the stage count, for STS methods the dominant eigenvalue statistics
/// (those of the estimator only when one is attached), the stage counts and the
/// spectral radius range.
pub open spec fn lsrk_stats(sm: ARKodeLSRKStepMem) -> Seq<Stat> {
    seq![Stat::RhsEvals(sm.nfe)] + if sm.is_SSP {
        seq![Stat::StagesUsed(sm.req_stages as i64)]
    } else {
        seq![Stat::DomEigUpdates(sm.dom_eig_num_evals)] + (if sm.DEE is Some {
            seq![Stat::DeeRhsEvals(sm.nfeDQ), Stat::DeeIters(sm.num_dee_iters)]
        } else {
            Seq::empty()
        }) + seq![
            Stat::MaxStagesUsed(sm.stage_max as i64),
            Stat::MaxStagesAllowed(sm.stage_max_limit as i64),
            Stat::MaxSpectralRadius,
            Stat::MinSpectralRadius,
        ]
    }
}

/// The statistics lines of LSRKStep (computed from its memory).
fn lsrk_stat_lines(sm: &ARKodeLSRKStepMem) -> (v: Vec<Stat>)
    ensures
        v@ == lsrk_stats(*sm),
{
    let mut v: Vec<Stat> = Vec::new();
    v.push(Stat::RhsEvals(sm.nfe));
    if sm.is_SSP {
        v.push(Stat::StagesUsed(sm.req_stages as i64));
    } else {
        v.push(Stat::DomEigUpdates(sm.dom_eig_num_evals));
        if sm.DEE.is_some() {
            v.push(Stat::DeeRhsEvals(sm.nfeDQ));
            v.push(Stat::DeeIters(sm.num_dee_iters));
        }
        v.push(Stat::MaxStagesUsed(sm.stage_max as i64));
        v.push(Stat::MaxStagesAllowed(sm.stage_max_limit as i64));
        v.push(Stat::MaxSpectralRadius);
        v.push(Stat::MinSpectralRadius);
    }
    proof {
        assert(v@ =~= lsrk_stats(*sm));
    }
    v
}

/// The statistics lines of LSRKStep, in print order; `ARK_MEM_NULL` for another
/// stepper.
pub fn lsrkStep_PrintAllStats(ark_mem: &ARKodeMem) -> (r: Result<Vec<Stat>, i32>)
    ensures
        !is_lsrk(*ark_mem) ==> r == Err::<Vec<Stat>, i32>(ARK_MEM_NULL),
        is_lsrk(*ark_mem) ==> r is Ok && r->Ok_0@ == lsrk_stats(lsrk_mem(*ark_mem)),
{
    match lsrkStep_AccessStepMem(ark_mem) {
        None => Err(ARK_MEM_NULL),
        Some(sm) => Ok(lsrk_stat_lines(&sm)),
    }
}

/// The statistics lines of MRIStep: slow right-hand side evaluations, failed inner
/// integrations, the nonlinear solver's iterations and failures (per step once a
/// step is taken), linear solver setups, and, with a system solver interface
/// attached, its counters (per nonlinear iteration once there is one).
pub open spec fn mri_stats(sm: ARKodeMRIStepMem, nst: i64, lmem: Option<ARKLsMem>) -> Seq<Stat> {
    seq![
        Stat::ExplicitSlowRhsEvals(sm.nfse),
        Stat::ImplicitSlowRhsEvals(sm.nfsi),
        Stat::InnerStepperFails(sm.inner_fails),
        Stat::NlsIters(sm.nls_iters),
        Stat::NlsFails(sm.nls_fails),
    ] + (if nst > 0 {
        seq![Stat::NlsItersPerStep(sm.nls_iters, nst)]
    } else {
        Seq::empty()
    }) + seq![Stat::LsSetups(sm.solvers.nsetups)] + match lmem {
        None => Seq::empty(),
        Some(l) => seq![
            Stat::JacEvals(l.counters.nje),
            Stat::LsRhsEvals(l.counters.nfeDQ),
            Stat::PrecSetupEvals(l.counters.npe),
            Stat::PrecSolves(l.counters.nps),
            Stat::LsIters(l.counters.nli),
            Stat::LsFails(l.counters.ncfl),
            Stat::JacTimesSetups(l.counters.njtsetup),
            Stat::JacTimesEvals(l.counters.njtimes),
        ] + if sm.nls_iters > 0 {
            seq![
                Stat::LsItersPerNlsIter(l.counters.nli, sm.nls_iters),
                Stat::JacEvalsPerNlsIter(l.counters.nje, sm.nls_iters),
                Stat::PrecEvalsPerNlsIter(l.counters.npe, sm.nls_iters),
            ]
        } else {
            Seq::empty()
        },
    }
}

/// The statistics lines of MRIStep (computed from its memory).
fn mri_stat_lines(sm: &ARKodeMRIStepMem, nst: i64, lmem: &Option<ARKLsMem>) -> (v: Vec<Stat>)
    ensures
        v@ == mri_stats(*sm, nst, *lmem),
{
    let mut v: Vec<Stat> = Vec::new();
    v.push(Stat::ExplicitSlowRhsEvals(sm.nfse));
    v.push(Stat::ImplicitSlowRhsEvals(sm.nfsi));
    v.push(Stat::InnerStepperFails(sm.inner_fails));
    v.push(Stat::NlsIters(sm.nls_iters));
    v.push(Stat::NlsFails(sm.nls_fails));
    if nst > 0 {
        v.push(Stat::NlsItersPerStep(sm.nls_iters, nst));
    }
    v.push(Stat::LsSetups(sm.solvers.nsetups));
    match lmem {
        None => {},
        Some(l) => {
            v.push(Stat::JacEvals(l.counters.nje));
            v.push(Stat::LsRhsEvals(l.counters.nfeDQ));
            v.push(Stat::PrecSetupEvals(l.counters.npe));
            v.push(Stat::PrecSolves(l.counters.nps));
            v.push(Stat::LsIters(l.counters.nli));
            v.push(Stat::LsFails(l.counters.ncfl));
            v.push(Stat::JacTimesSetups(l.counters.njtsetup));
            v.push(Stat::JacTimesEvals(l.counters.njtimes));
            if sm.nls_iters > 0 {
                v.push(Stat::LsItersPerNlsIter(l.counters.nli, sm.nls_iters));
                v.push(Stat::JacEvalsPerNlsIter(l.counters.nje, sm.nls_iters));
                v.push(Stat::PrecEvalsPerNlsIter(l.counters.npe, sm.nls_iters));
            }
        },
    }
    proof {
        assert(v@ =~= mri_stats(*sm, nst, *lmem));
    }
    v
}

/// The statistics lines of MRIStep, in print order; `ARK_MEM_NULL` for another
/// stepper.
pub fn mriStep_PrintAllStats(ark_mem: &ARKodeMem) -> (r: Result<Vec<Stat>, i32>)
    ensures
        !is_mri(*ark_mem) ==> r == Err::<Vec<Stat>, i32>(ARK_MEM_NULL),
        is_mri(*ark_mem) ==> r is Ok && r->Ok_0@ == mri_stats(
            mri_mem(*ark_mem),
            ark_mem.counters.nst,
            ark_mem.lmem,
        ),
{
    match &ark_mem.step_mem {
        ARKStepMem::Mri(sm) => Ok(mri_stat_lines(sm, ark_mem.counters.nst, &ark_mem.lmem)),
        _ => Err(ARK_MEM_NULL),
    }
}

/// The integrator-level statistics lines: time, step counts, step limits from
/// the adaptivity memory, failure counts, step sizes, and root function
/// evaluations when root finding is active.
pub open spec fn arkode_stats(a: ARKodeMem) -> Seq<Stat> {
    let h = a.hadapt_mem->Some_0;
    seq![
        Stat::CurrentTime,
        Stat::Steps(a.counters.nst),
        Stat::StepAttempts(a.counters.nst_attempts),
        Stat::StabilityLimitedSteps(h.nst_exp),
        Stat::AccuracyLimitedSteps(h.nst_acc),
        Stat::ErrTestFails(a.counters.netf),
        Stat::NlsStepFails(a.counters.ncfn),
        Stat::ConstrFails(a.counters.nconstrfails),
        Stat::InitialStepSize,
        Stat::LastStepSize,
        Stat::CurrentStepSize,
    ] + match a.root_mem {
        Some(rm) => seq![Stat::RootFnEvals(rm.nge)],
        None => Seq::empty(),
    }
}

/// The statistics lines of the integrator, in print order: its own lines, then
/// those of its stepper (LSRKStep or MRIStep).
pub fn ARKodePrintAllStats(ark_mem: &ARKodeMem) -> (r: Vec<Stat>)
    requires
        ark_mem.hadapt_mem is Some,
    ensures
        r@ == arkode_stats(*ark_mem) + if is_lsrk(*ark_mem) {
            lsrk_stats(lsrk_mem(*ark_mem))
        } else if is_mri(*ark_mem) {
            mri_stats(mri_mem(*ark_mem), ark_mem.counters.nst, ark_mem.lmem)
        } else {
            Seq::empty()
        },
{
    let h = match ark_mem.hadapt_mem {
        Some(h) => h,
        None => {
            return Vec::new();
        },
    };
    let mut v: Vec<Stat> = Vec::new();
    v.push(Stat::CurrentTime);
    v.push(Stat::Steps(ark_mem.counters.nst));
    v.push(Stat::StepAttempts(ark_mem.counters.nst_attempts));
    v.push(Stat::StabilityLimitedSteps(h.nst_exp));
    v.push(Stat::AccuracyLimitedSteps(h.nst_acc));
    v.push(Stat::ErrTestFails(ark_mem.counters.netf));
    v.push(Stat::NlsStepFails(ark_mem.counters.ncfn));
    v.push(Stat::ConstrFails(ark_mem.counters.nconstrfails));
    v.push(Stat::InitialStepSize);
    v.push(Stat::LastStepSize);
    v.push(Stat::CurrentStepSize);
    match &ark_mem.root_mem {
        Some(rm) => v.push(Stat::RootFnEvals(rm.nge)),
        None => {},
    }
    proof {
        assert(v@ =~= arkode_stats(*ark_mem));
    }
    match &ark_mem.step_mem {
        ARKStepMem::Lsrk(sm) => {
            let mut s = lsrk_stat_lines(sm);
            v.append(&mut s);
        },
        ARKStepMem::Mri(sm) => {
            let mut s = mri_stat_lines(sm, ark_mem.counters.nst, &ark_mem.lmem);
            v.append(&mut s);
        },
        _ => {},
    }
    v
}

/// One line of the LSRKStep parameter report.
#[derive(Clone, Copy, PartialEq, Eq, Debug)]
pub enum LsrkParam {
    /// the heading naming the method
    Method(i32),
    MethodOrder(i32),
    EmbeddingOrder(i32),
    StagesUsed(i32),
    MaxStagesAllowed(i32),
    DeeRhsEvals(i64),
    CurrentSpectralRadius,
    DomEigSafety(Decimal),
    DomEigFrequency(i64),
    InitWarmups(i32),
    Warmups(i32),
    ConstJacobian(bool),
}

/// A method LSRKStep can report.
pub open spec fn known_lsrk_method(m: i32) -> bool {
    m == ARKODE_LSRK_RKC_2 || m == ARKODE_LSRK_RKL_2 || m == ARKODE_LSRK_SSP_S_2
        || m == ARKODE_LSRK_SSP_S_3 || m == ARKODE_LSRK_SSP_10_4
}

/// The parameter lines of LSRKStep: the method and its orders, then for SSP
/// methods the stage count, for STS methods the stage limit, the estimator's
/// right-hand side evaluations (when attached), the spectral radius and the
/// dominant eigenvalue settings.
pub open spec fn lsrk_params(sm: ARKodeLSRKStepMem) -> Seq<LsrkParam> {
    seq![
        LsrkParam::Method(sm.LSRKmethod),
        LsrkParam::MethodOrder(sm.q),
        LsrkParam::EmbeddingOrder(sm.p),
    ] + if sm.is_SSP {
        seq![LsrkParam::StagesUsed(sm.req_stages)]
    } else {
        seq![LsrkParam::MaxStagesAllowed(sm.stage_max_limit)] + (if sm.DEE is Some {
            seq![LsrkParam::DeeRhsEvals(sm.nfeDQ)]
        } else {
            Seq::empty()
        }) + seq![
            LsrkParam::CurrentSpectralRadius,
            LsrkParam::DomEigSafety(sm.dom_eig_safety),
            LsrkParam::DomEigFrequency(sm.dom_eig_freq),
            LsrkParam::InitWarmups(sm.num_init_warmups),
            LsrkParam::Warmups(sm.num_warmups),
            LsrkParam::ConstJacobian(sm.const_Jac),
        ]
    }
}

/// The parameter lines of LSRKStep, in print order; `ARK_MEM_NULL` for another
/// stepper, `ARK_ILL_INPUT` for a method it does not know.
pub fn lsrkStep_WriteParameters(ark_mem: &ARKodeMem) -> (r: Result<Vec<LsrkParam>, i32>)
    ensures
        !is_lsrk(*ark_mem) ==> r == Err::<Vec<LsrkParam>, i32>(ARK_MEM_NULL),
        is_lsrk(*ark_mem) && !known_lsrk_method(lsrk_mem(*ark_mem).LSRKmethod) ==> r == Err::<
            Vec<LsrkParam>,
            i32,
        >(ARK_ILL_INPUT),
        is_lsrk(*ark_mem) && known_lsrk_method(lsrk_mem(*ark_mem).LSRKmethod) ==> r is Ok
            && r->Ok_0@ == lsrk_params(lsrk_mem(*ark_mem)),
{
    let sm = match lsrkStep_AccessStepMem(ark_mem) {
        None => {
            return Err(ARK_MEM_NULL);
        },
        Some(sm) => sm,
    };
    let m = sm.LSRKmethod;
    if !(m == ARKODE_LSRK_RKC_2 || m == ARKODE_LSRK_RKL_2 || m == ARKODE_LSRK_SSP_S_2 || m
        == ARKODE_LSRK_SSP_S_3 || m == ARKODE_LSRK_SSP_10_4) {
        return Err(ARK_ILL_INPUT);
    }
    let mut v: Vec<LsrkParam> = Vec::new();
    v.push(LsrkParam::Method(m));
    v.push(LsrkParam::MethodOrder(sm.q));
    v.push(LsrkParam::EmbeddingOrder(sm.p));
    if sm.is_SSP {
        v.push(LsrkParam::StagesUsed(sm.req_stages));
    } else {
        v.push(LsrkParam::MaxStagesAllowed(sm.stage_max_limit));
        if sm.DEE.is_some() {
            v.push(LsrkParam::DeeRhsEvals(sm.nfeDQ));
        }
        v.push(LsrkParam::CurrentSpectralRadius);
        v.push(LsrkParam::DomEigSafety(sm.dom_eig_safety));
        v.push(LsrkParam::DomEigFrequency(sm.dom_eig_freq));
        v.push(LsrkParam::InitWarmups(sm.num_init_warmups));
        v.push(LsrkParam::Warmups(sm.num_warmups));
        v.push(LsrkParam::ConstJacobian(sm.const_Jac));
    }
    proof {
        assert(v@ =~= lsrk_params(sm));
    }
    Ok(v)
}

/// One line of the interpolation module report.
#[derive(Clone, Copy, PartialEq, Eq, Debug)]
pub enum InterpLine {
    HermiteDegree(i32),
    HermiteTold,
    HermiteTnew,
    HermiteStep,
    LagrangeNmax(i32),
    LagrangeNhist(i32),
    /// the `nmax` history times
    LagrangeTimes(i32),
    /// the `nmax` history vectors
    LagrangeVectors(i32),
}

/// The report lines of an interpolation module: none without one; for Hermite the
/// degree, the interval ends and step; for Lagrange the history sizes, then the
/// history times and vectors when allocated.
pub open spec fn interp_lines(interp: Option<ARKInterp>) -> Seq<InterpLine> {
    match interp {
        None => Seq::empty(),
        Some(ARKInterp::Hermite(hc)) => seq![
            InterpLine::HermiteDegree(hc.degree),
            InterpLine::HermiteTold,
            InterpLine::HermiteTnew,
            InterpLine::HermiteStep,
        ],
        Some(ARKInterp::Lagrange(lc)) => seq![
            InterpLine::LagrangeNmax(lc.nmax),
            InterpLine::LagrangeNhist(lc.nhist),
        ] + (if lc.thist { seq![InterpLine::LagrangeTimes(lc.nmax)] } else { Seq::empty() }) + (
        if lc.yhist {
            seq![InterpLine::LagrangeVectors(lc.nmax)]
        } else {
            Seq::empty()
        }),
    }
}

/// The report lines of an interpolation module, in print order.
pub fn arkInterpPrintMem(interp: Option<&ARKInterp>) -> (r: Vec<InterpLine>)
    ensures
        r@ == interp_lines(match interp {
            Some(i) => Some(*i),
            None => None,
        }),
{
    let mut v: Vec<InterpLine> = Vec::new();
    match interp {
        None => {},
        Some(ARKInterp::Hermite(hc)) => {
            v.push(InterpLine::HermiteDegree(hc.degree));
            v.push(InterpLine::HermiteTold);
            v.push(InterpLine::HermiteTnew);
            v.push(InterpLine::HermiteStep);
        },
        Some(ARKInterp::Lagrange(lc)) => {
            v.push(InterpLine::LagrangeNmax(lc.nmax));
            v.push(InterpLine::LagrangeNhist(lc.nhist));
            if lc.thist {
                v.push(InterpLine::LagrangeTimes(lc.nmax));
            }
            if lc.yhist {
                v.push(InterpLine::LagrangeVectors(lc.nmax));
            }
        },
    }
    proof {
        assert(v@ =~= interp_lines(
            match interp {
                Some(i) => Some(*i),
                None => None,
            },
        ));
    }
    v
}

/// One line (or, for a controller, one block) of the integrator's parameter report.
#[derive(Clone, Copy, PartialEq, Eq, Debug)]
pub enum ArkParam {
    Heading,
    MinStep(Decimal),
    MaxStep(Decimal),
    FixedStepping,
    UserErrorWeights,
    RelTol(Decimal),
    AbsTol(Decimal),
    VectorAbsTol,
    UserResidualWeights,
    ResidualAbsTol(Decimal),
    VectorResidualAbsTol,
    InitStep(Decimal),
    Blank,
    MaxFirstGrowth(Decimal),
    MaxEFailGrowth(Decimal),
    SmallNumEFails(i32),
    MaxCFailGrowth(Decimal),
    CFLFraction(Decimal),
    SafetyFactor(Decimal),
    MaxGrowth(Decimal),
    GrowthLowerBound(Decimal),
    GrowthUpperBound(Decimal),
    /// whether an explicit stability function is supplied
    ExpStab(bool),
    /// the step size controller writes its own parameters
    Controller(SUNAdaptController),
    UserController(ARKUserControl),
    MaxErrTestFails(i32),
    MaxConvFails(i32),
    /// a line of LSRKStep's own report
    Lsrk(LsrkParam),
}

/// The step size, stepping and tolerance lines of the parameter report: step
/// bounds when set, fixed stepping, the error (and, when distinct, residual)
/// weight setting, and the initial step when given.
pub open spec fn step_params(a: ARKodeMem) -> Seq<ArkParam> {
    let o = a.opts;
    (if o.hmin.mantissa != 0 {
        seq![ArkParam::MinStep(o.hmin)]
    } else {
        Seq::empty()
    }) + (if o.hmax.mantissa != 0 {
        seq![ArkParam::MaxStep(o.hmax)]
    } else {
        Seq::empty()
    }) + (if o.fixedstep {
        seq![ArkParam::FixedStepping]
    } else {
        Seq::empty()
    }) + tol_params(a) + (if o.hin.mantissa != 0 {
        seq![ArkParam::InitStep(o.hin)]
    } else {
        Seq::empty()
    })
}

/// The weight lines: user error weights, or the relative tolerance with the
/// scalar or vector absolute tolerance; then, when residual weights differ from
/// error weights, their setting.
pub open spec fn tol_params(a: ARKodeMem) -> Seq<ArkParam> {
    let o = a.opts;
    (if o.itol == ARK_WF {
        seq![ArkParam::UserErrorWeights]
    } else if o.itol == ARK_SS {
        seq![ArkParam::RelTol(o.reltol), ArkParam::AbsTol(o.Sabstol)]
    } else {
        seq![ArkParam::RelTol(o.reltol), ArkParam::VectorAbsTol]
    }) + (if a.status.rwt_is_ewt {
        Seq::empty()
    } else if o.ritol == ARK_WF {
        seq![ArkParam::UserResidualWeights]
    } else if o.ritol == ARK_SS {
        seq![ArkParam::ResidualAbsTol(o.SRabstol)]
    } else {
        seq![ArkParam::VectorResidualAbsTol]
    })
}

/// The adaptivity lines: the step change factors and bounds, the explicit
/// stability function, and the controllers, each of which writes its own block.
pub open spec fn adapt_params(h: ARKodeHAdaptMem) -> Seq<ArkParam> {
    seq![
        ArkParam::Blank,
        ArkParam::MaxFirstGrowth(h.etamx1),
        ArkParam::MaxEFailGrowth(h.etamxf),
        ArkParam::SmallNumEFails(h.small_nef),
        ArkParam::MaxCFailGrowth(h.etacf),
        ArkParam::CFLFraction(h.cfl),
        ArkParam::SafetyFactor(h.safety),
        ArkParam::MaxGrowth(h.growth),
        ArkParam::GrowthLowerBound(h.lbound),
        ArkParam::GrowthUpperBound(h.ubound),
        ArkParam::ExpStab(h.expstab),
    ] + (match h.hcontroller {
        Some(c) => seq![ArkParam::Controller(c)],
        None => Seq::empty(),
    }) + (match h.usercontrol {
        Some(u) => seq![ArkParam::UserController(u)],
        None => Seq::empty(),
    })
}

/// The integrator's own parameter lines: the heading, the step and tolerance
/// lines, the adaptivity lines, and the failure limits.
pub open spec fn arkode_params(a: ARKodeMem) -> Seq<ArkParam> {
    seq![ArkParam::Heading] + step_params(a) + adapt_params(a.hadapt_mem->Some_0) + seq![
        ArkParam::MaxErrTestFails(a.opts.maxnef),
        ArkParam::MaxConvFails(a.opts.maxncf),
    ]
}

fn tol_param_lines(a: &ARKodeMem, v: &mut Vec<ArkParam>)
    ensures
        final(v)@ == old(v)@ + tol_params(*a),
{
    let o = a.opts;
    let ghost v0 = v@;
    if o.itol == ARK_WF {
        v.push(ArkParam::UserErrorWeights);
    } else {
        v.push(ArkParam::RelTol(o.reltol));
        if o.itol == ARK_SS {
            v.push(ArkParam::AbsTol(o.Sabstol));
        } else {
            v.push(ArkParam::VectorAbsTol);
        }
    }
    if !a.status.rwt_is_ewt {
        if o.ritol == ARK_WF {
            v.push(ArkParam::UserResidualWeights);
        } else if o.ritol == ARK_SS {
            v.push(ArkParam::ResidualAbsTol(o.SRabstol));
        } else {
            v.push(ArkParam::VectorResidualAbsTol);
        }
    }
    proof {
        assert(v@ =~= v0 + tol_params(*a));
    }
}

fn step_param_lines(a: &ARKodeMem, v: &mut Vec<ArkParam>)
    ensures
        final(v)@ == old(v)@ + step_params(*a),
{
    let o = a.opts;
    let ghost v0 = v@;
    if o.hmin.mantissa != 0 {
        v.push(ArkParam::MinStep(o.hmin));
    }
    if o.hmax.mantissa != 0 {
        v.push(ArkParam::MaxStep(o.hmax));
    }
    if o.fixedstep {
        v.push(ArkParam::FixedStepping);
    }
    tol_param_lines(a, v);
    if o.hin.mantissa != 0 {
        v.push(ArkParam::InitStep(o.hin));
    }
    proof {
        assert(v@ =~= v0 + step_params(*a));
    }
}

fn adapt_param_lines(h: &ARKodeHAdaptMem, v: &mut Vec<ArkParam>)
    ensures
        final(v)@ == old(v)@ + adapt_params(*h),
{
    let ghost v0 = v@;
    v.push(ArkParam::Blank);
    v.push(ArkParam::MaxFirstGrowth(h.etamx1));
    v.push(ArkParam::MaxEFailGrowth(h.etamxf));
    v.push(ArkParam::SmallNumEFails(h.small_nef));
    v.push(ArkParam::MaxCFailGrowth(h.etacf));
    v.push(ArkParam::CFLFraction(h.cfl));
    v.push(ArkParam::SafetyFactor(h.safety));
    v.push(ArkParam::MaxGrowth(h.growth));
    v.push(ArkParam::GrowthLowerBound(h.lbound));
    v.push(ArkParam::GrowthUpperBound(h.ubound));
    v.push(ArkParam::ExpStab(h.expstab));
    match h.hcontroller {
        Some(c) => v.push(ArkParam::Controller(c)),
        None => {},
    }
    match h.usercontrol {
        Some(u) => v.push(ArkParam::UserController(u)),
        None => {},
    }
    proof {
        assert(v@ =~= v0 + adapt_params(*h));
    }
}

/// The integrator's own parameter lines (computed).
fn arkode_param_lines(a: &ARKodeMem) -> (v: Vec<ArkParam>)
    requires
        a.hadapt_mem is Some,
    ensures
        v@ == arkode_params(*a),
{
    let h = a.hadapt_mem.unwrap();
    let mut v: Vec<ArkParam> = Vec::new();
    v.push(ArkParam::Heading);
    step_param_lines(a, &mut v);
    adapt_param_lines(&h, &mut v);
    v.push(ArkParam::MaxErrTestFails(a.opts.maxnef));
    v.push(ArkParam::MaxConvFails(a.opts.maxncf));
    proof {
        assert(v@ =~= arkode_params(*a));
    }
    v
}

/// LSRKStep's report lines as lines of the integrator's report.
pub open spec fn as_ark_params(s: Seq<LsrkParam>) -> Seq<ArkParam> {
    s.map_values(|p: LsrkParam| ArkParam::Lsrk(p))
}

/// The code and lines of the integrator's parameter report: its own lines, then
/// LSRKStep's (whose refusal of a method it does not know is the code, after the
/// integrator's lines).  For MRIStep only the integrator's lines are listed: its
/// own report routine is not among this library's operations.
pub fn ARKodeWriteParameters(ark_mem: &ARKodeMem) -> (r: (i32, Vec<ArkParam>))
    requires
        ark_mem.hadapt_mem is Some,
    ensures
        !is_lsrk(*ark_mem) ==> r.0 == ARK_SUCCESS && r.1@ == arkode_params(*ark_mem),
        is_lsrk(*ark_mem) && !known_lsrk_method(lsrk_mem(*ark_mem).LSRKmethod) ==> r.0
            == ARK_ILL_INPUT && r.1@ == arkode_params(*ark_mem),
        is_lsrk(*ark_mem) && known_lsrk_method(lsrk_mem(*ark_mem).LSRKmethod) ==> r.0 == ARK_SUCCESS
            && r.1@ == arkode_params(*ark_mem) + as_ark_params(lsrk_params(lsrk_mem(*ark_mem))),
{
    let mut v = arkode_param_lines(ark_mem);
    match &ark_mem.step_mem {
        ARKStepMem::Lsrk(_) => {
            match lsrkStep_WriteParameters(ark_mem) {
                Err(e) => (e, v),
                Ok(lines) => {
                    let ghost start = v@;
                    let mut i: usize = 0;
                    while i < lines.len()
                        invariant
                            0 <= i <= lines.len(),
                            v@ == start + as_ark_params(lines@.subrange(0, i as int)),
                        decreases lines.len() - i,
                    {
                        v.push(ArkParam::Lsrk(lines[i]));
                        proof {
                            assert(lines@.subrange(0, i + 1) =~= lines@.subrange(0, i as int).push(
                                lines@[i as int],
                            ));
                            assert(as_ark_params(lines@.subrange(0, i + 1)) =~= as_ark_params(
                                lines@.subrange(0, i as int),
                            ).push(ArkParam::Lsrk(lines@[i as int])));
                        }
                        i = i + 1;
                    }
                    proof {
                        assert(lines@.subrange(0, lines@.len() as int) =~= lines@);
                    }
                    (ARK_SUCCESS, v)
                },
            }
        },
        _ => (ARK_SUCCESS, v),
    }
}

} // verus!

//! The integrator memory structure and its creation.
use vstd::prelude::*;
use crate::consts::{
    ARK_SS, MXSTEP_DEFAULT, MXHNIL, MAXNEF, MAXNCF, MAXCONSTRFAILS, SMALL_NEF, PQ, ADJUST,
    ARK_ADAPT_LRW, ARK_ADAPT_LIW, ARK_INTERP_HERMITE, ARK_INTERP_MAX_DEGREE, FIRST_INIT,
    ARK_ACCUMERROR_NONE,
};
use crate::decimal::dec_zero;
use crate::decimal::{Decimal, dec};

verus! {

/// Time step adaptivity controller (a SUNAdaptController object): its type, which
/// built-in method it is (`ARK_ADAPT_*`, or -1 for another controller), the gains
/// it was given (`None`: its own defaults), and the workspace it reports.
#[derive(Clone, Copy, PartialEq, Eq, Debug)]
pub struct SUNAdaptController {
    pub ctype: i32,
    pub method: i32,
    pub gains: Option<(Decimal, Decimal, Decimal)>,
    pub lenrw: i64,
    pub leniw: i64,
}

/// Wrapper controller around a user-supplied adaptivity function: the workspace it reports.
#[derive(Clone, Copy, PartialEq, Eq, Debug)]
pub struct ARKUserControl {
    pub lenrw: i64,
    pub leniw: i64,
}

/// Time step adaptivity memory.
#[derive(Clone, Copy)]
pub struct ARKodeHAdaptMem {
    pub etamx1: Decimal,
    pub etamxf: Decimal,
    pub etamin: Decimal,
    pub small_nef: i32,
    pub etacf: Decimal,
    pub cfl: Decimal,
    pub safety: Decimal,
    pub growth: Decimal,
    pub lbound: Decimal,
    pub ubound: Decimal,
    pub expstab: bool,
    pub pq: i32,
    pub p: i32,
    pub q: i32,
    pub adjust: i32,
    pub hcontroller: Option<SUNAdaptController>,
    pub owncontroller: bool,
    pub usercontrol: Option<ARKUserControl>,
    pub nst_acc: i64,
    pub nst_exp: i64,
}

/// Root-finding memory: number of root functions, the roots found, and counters.
pub struct ARKodeRootMem {
    pub nrtfn: i32,
    pub iroots: Vec<i32>,
    pub nge: i64,
    pub mxgnull: i32,
}

/// Which error weight function is in use.
#[derive(Clone, Copy, PartialEq, Eq, Debug)]
pub enum ARKEwtFn {
    /// the internal scalar/vector tolerance weights
    Internal,
    /// constant weights of the smallest real value
    SmallReal,
    /// a user-supplied weight function
    User,
}

/// The step routine installed by the time stepper module.
#[derive(Clone, Copy, PartialEq, Eq, Debug)]
pub enum ARKStepFn {
    NoStep,
    RKC,
    RKL,
    SSPs2,
    SSPs3,
    SSP43,
    SSP104,
    MRIGARK,
    MERK,
    MRISR,
}

/// Integrator-level optional inputs.
#[derive(Clone, Copy, PartialEq, Eq, Debug)]
pub struct ARKodeOptions {
    pub use_compensated_sums: bool,
    pub fixedstep: bool,
    pub reltol: Decimal,
    pub itol: i32,
    pub ritol: i32,
    pub Sabstol: Decimal,
    pub atolmin0: bool,
    pub SRabstol: Decimal,
    pub Ratolmin0: bool,
    pub user_efun: bool,
    pub efun: ARKEwtFn,
    pub user_rfun: bool,
    pub mxstep: i64,
    pub mxhnil: i32,
    pub maxnef: i32,
    pub maxncf: i32,
    pub maxconstrfails: i32,
    pub preallocated: bool,
    /* step size bounds and initial step: zero for none (a maximum of zero is no
       bound) */
    pub hin: Decimal,
    pub hmin: Decimal,
    pub hmax: Decimal,
    pub hin_set: bool,
    pub tstopset: bool,
    pub tstopinterp: bool,
    pub AccumErrorType: i32,
}

/// Integrator statistics.
#[derive(Clone, Copy, PartialEq, Eq, Debug)]
pub struct ARKodeCounters {
    pub nst: i64,
    pub nst_attempts: i64,
    pub netf: i64,
    pub ncfn: i64,
    pub nconstrfails: i64,
}

/// Integrator status flags.
#[derive(Clone, Copy, PartialEq, Eq, Debug)]
pub struct ARKodeStatus {
    pub initsetup: bool,
    pub initialized: bool,
    pub init_type: i32,
    pub firststage: bool,
    pub rwt_is_ewt: bool,
    pub call_fullrhs: bool,
    pub ensure_ycur: bool,
    pub fn_is_current: bool,
    pub MallocDone: bool,
}

/// What the attached time stepper module supports, and its step routine.
#[derive(Clone, Copy, PartialEq, Eq, Debug)]
pub struct ARKodeStepperInfo {
    pub supports_adaptive: bool,
    pub supports_implicit: bool,
    pub supports_massmatrix: bool,
    /// the module provides the mass-matrix solver attach/access operations
    pub massops: bool,
    /// the module calls the mass-matrix solver setup
    pub msetup: bool,
    pub step: ARKStepFn,
}

/// The integrator memory: the integer, flag and configuration state of one ARKODE
/// integrator.
pub struct ARKodeMem {
    /* workspace accounting (real and integer words; per-vector sizes) */
    pub lrw: i64,
    pub liw: i64,
    pub lrw1: i64,
    pub liw1: i64,
    pub opts: ARKodeOptions,
    pub counters: ARKodeCounters,
    pub status: ARKodeStatus,
    pub hadapt_mem: Option<ARKodeHAdaptMem>,
    /* interpolation */
    pub interp: Option<crate::interp::ARKInterp>,
    pub interp_type: i32,
    pub interp_degree: i32,
    /* root finding */
    pub root_mem: Option<ARKodeRootMem>,
    /* inequality constraints (one entry per solution component) */
    pub constraints: Option<Vec<i32>>,
    /* time stepper module */
    pub stepper: ARKodeStepperInfo,
    pub step_mem: crate::stepper::ARKStepMem,
    /* linear solver interfaces */
    pub lmem: Option<crate::ls::ARKLsMem>,
    pub mass_mem: Option<crate::ls::ARKLsMassMem>,
    /* the user data handed to the problem-defining functions (an identifier of
       the caller's data; none at creation) */
    pub user_data: Option<u64>,
}

/// The adaptivity memory with its parameters at their defaults; controllers and
/// counters are kept.
pub open spec fn hadapt_reset(h: ARKodeHAdaptMem) -> ARKodeHAdaptMem {
    ARKodeHAdaptMem {
        etamx1: Decimal { mantissa: 10000, exponent: 0i32 },
        etamxf: Decimal { mantissa: 3, exponent: -1i32 },
        etamin: Decimal { mantissa: 1, exponent: -1i32 },
        small_nef: SMALL_NEF,
        etacf: Decimal { mantissa: 25, exponent: -2i32 },
        cfl: Decimal { mantissa: 5, exponent: -1i32 },
        safety: Decimal { mantissa: 9, exponent: -1i32 },
        growth: Decimal { mantissa: 20, exponent: 0i32 },
        lbound: Decimal { mantissa: 1, exponent: 0i32 },
        ubound: Decimal { mantissa: 15, exponent: -1i32 },
        expstab: false,
        pq: PQ,
        p: 0,
        q: 0,
        adjust: ADJUST,
        ..h
    }
}

/// The integrator-level optional inputs at their defaults; the accumulated-error
/// type is not one of them and is given.
pub open spec fn default_options(accum: i32) -> ARKodeOptions {
    ARKodeOptions {
        use_compensated_sums: false,
        fixedstep: false,
        reltol: Decimal { mantissa: 1, exponent: -4i32 },
        itol: ARK_SS,
        ritol: ARK_SS,
        Sabstol: Decimal { mantissa: 1, exponent: -9i32 },
        atolmin0: false,
        SRabstol: Decimal { mantissa: 1, exponent: -9i32 },
        Ratolmin0: false,
        user_efun: false,
        efun: ARKEwtFn::Internal,
        user_rfun: false,
        mxstep: MXSTEP_DEFAULT,
        mxhnil: MXHNIL,
        maxnef: MAXNEF,
        maxncf: MAXNCF,
        maxconstrfails: MAXCONSTRFAILS,
        preallocated: false,
        hin: Decimal { mantissa: 0, exponent: 0i32 },
        hmin: Decimal { mantissa: 0, exponent: 0i32 },
        hmax: Decimal { mantissa: 0, exponent: 0i32 },
        hin_set: false,
        tstopset: false,
        tstopinterp: false,
        AccumErrorType: accum,
    }
}

/// Writes the default adaptivity parameters into `h`, leaving controllers and
/// counters unchanged.
pub fn hadapt_set_defaults(h: &mut ARKodeHAdaptMem)
    ensures
        *final(h) == hadapt_reset(*old(h)),
{
    h.etamx1 = dec(10000, 0);
    h.etamxf = dec(3, -1);
    h.etamin = dec(1, -1);
    h.small_nef = SMALL_NEF;
    h.etacf = dec(25, -2);
    h.cfl = dec(5, -1);
    h.safety = dec(9, -1);
    h.growth = dec(20, 0);
    h.lbound = dec(1, 0);
    h.ubound = dec(15, -1);
    h.expstab = false;
    h.pq = PQ;
    h.p = 0;
    h.q = 0;
    h.adjust = ADJUST;
}

/// Writes the default integrator-level optional inputs into `o`, keeping its
/// accumulated-error type.
pub fn options_set_defaults(o: &mut ARKodeOptions)
    ensures
        *final(o) == default_options(old(o).AccumErrorType),
{
    *o = ARKodeOptions {
        use_compensated_sums: false,
        fixedstep: false,
        reltol: dec(1, -4),
        itol: ARK_SS,
        ritol: ARK_SS,
        Sabstol: dec(1, -9),
        atolmin0: false,
        SRabstol: dec(1, -9),
        Ratolmin0: false,
        user_efun: false,
        efun: ARKEwtFn::Internal,
        user_rfun: false,
        mxstep: MXSTEP_DEFAULT,
        mxhnil: MXHNIL,
        maxnef: MAXNEF,
        maxncf: MAXNCF,
        maxconstrfails: MAXCONSTRFAILS,
        preallocated: false,
        hin: dec(0, 0),
        hmin: dec(0, 0),
        hmax: dec(0, 0),
        hin_set: false,
        tstopset: false,
        tstopinterp: false,
        AccumErrorType: o.AccumErrorType,
    };
}

/// Room for `m` more (or fewer) workspace words in both counters.
pub open spec fn ws_margin(a: ARKodeMem, m: int) -> bool {
    &&& i64::MIN + m <= a.lrw <= i64::MAX - m
    &&& i64::MIN + m <= a.liw <= i64::MAX - m
}

/// Per-vector workspace sizes are within machine limits.
pub open spec fn vec_sizes_ok(a: ARKodeMem) -> bool {
    &&& 0 <= a.lrw1 <= 0x1_0000_0000
    &&& 0 <= a.liw1 <= 0x1_0000_0000
}

/// The adaptivity memory of a new integrator: default parameters, no controller,
/// no steps counted.
pub open spec fn created_hadapt() -> ARKodeHAdaptMem {
    hadapt_reset(
        ARKodeHAdaptMem {
            etamx1: Decimal { mantissa: 0, exponent: 0i32 },
            etamxf: Decimal { mantissa: 0, exponent: 0i32 },
            etamin: Decimal { mantissa: 0, exponent: 0i32 },
            small_nef: 0,
            etacf: Decimal { mantissa: 0, exponent: 0i32 },
            cfl: Decimal { mantissa: 0, exponent: 0i32 },
            safety: Decimal { mantissa: 0, exponent: 0i32 },
            growth: Decimal { mantissa: 0, exponent: 0i32 },
            lbound: Decimal { mantissa: 0, exponent: 0i32 },
            ubound: Decimal { mantissa: 0, exponent: 0i32 },
            expstab: false,
            pq: 0,
            p: 0,
            q: 0,
            adjust: 0,
            hcontroller: None,
            owncontroller: false,
            usercontrol: None,
            nst_acc: 0,
            nst_exp: 0,
        },
    )
}

/// The memory of a new integrator: its fixed workspace (18 real and 53 integer
/// words, plus the adaptivity structure), default options, Hermite interpolation of
/// maximal degree requested but not yet created, status ready for a first
/// initialization, and no stepper, root finding, constraints or linear solvers.
pub open spec fn created_mem() -> ARKodeMem {
    ARKodeMem {
        lrw: (18 + ARK_ADAPT_LRW) as i64,
        liw: (53 + ARK_ADAPT_LIW) as i64,
        lrw1: 0,
        liw1: 0,
        opts: default_options(ARK_ACCUMERROR_NONE),
        counters: ARKodeCounters { nst: 0, nst_attempts: 0, netf: 0, ncfn: 0, nconstrfails: 0 },
        status: ARKodeStatus {
            initsetup: true,
            initialized: false,
            init_type: FIRST_INIT,
            firststage: true,
            rwt_is_ewt: true,
            call_fullrhs: false,
            ensure_ycur: false,
            fn_is_current: false,
            MallocDone: false,
        },
        hadapt_mem: Some(created_hadapt()),
        interp: None,
        interp_type: ARK_INTERP_HERMITE,
        interp_degree: ARK_INTERP_MAX_DEGREE,
        root_mem: None,
        constraints: None,
        stepper: ARKodeStepperInfo {
            supports_adaptive: false,
            supports_implicit: false,
            supports_massmatrix: false,
            massops: false,
            msetup: false,
            step: ARKStepFn::NoStep,
        },
        step_mem: crate::stepper::ARKStepMem::NoStepper,
        lmem: None,
        mass_mem: None,
        user_data: None,
    }
}

/// Creates the memory of a new integrator and sets its optional inputs to their
/// defaults.
pub fn arkCreate() -> (a: ARKodeMem)
    ensures
        a == created_mem(),
{
    let z = dec_zero();
    let h = ARKodeHAdaptMem {
        etamx1: z,
        etamxf: z,
        etamin: z,
        small_nef: 0,
        etacf: z,
        cfl: z,
        safety: z,
        growth: z,
        lbound: z,
        ubound: z,
        expstab: false,
        pq: 0,
        p: 0,
        q: 0,
        adjust: 0,
        hcontroller: None,
        owncontroller: false,
        usercontrol: None,
        nst_acc: 0,
        nst_exp: 0,
    };
    let o = ARKodeOptions {
        use_compensated_sums: false,
        fixedstep: false,
        reltol: z,
        itol: 0,
        ritol: 0,
        Sabstol: z,
        atolmin0: false,
        SRabstol: z,
        Ratolmin0: false,
        user_efun: false,
        efun: ARKEwtFn::Internal,
        user_rfun: false,
        mxstep: 0,
        mxhnil: 0,
        maxnef: 0,
        maxncf: 0,
        maxconstrfails: 0,
        preallocated: false,
        hin: z,
        hmin: z,
        hmax: z,
        hin_set: false,
        tstopset: false,
        tstopinterp: false,
        AccumErrorType: ARK_ACCUMERROR_NONE,
    };
    let mut a = ARKodeMem {
        lrw: 18 + ARK_ADAPT_LRW,
        liw: 53 + ARK_ADAPT_LIW,
        lrw1: 0,
        liw1: 0,
        opts: o,
        counters: ARKodeCounters { nst: 0, nst_attempts: 0, netf: 0, ncfn: 0, nconstrfails: 0 },
        status: ARKodeStatus {
            initsetup: true,
            initialized: false,
            init_type: FIRST_INIT,
            firststage: true,
            rwt_is_ewt: true,
            call_fullrhs: false,
            ensure_ycur: false,
            fn_is_current: false,
            MallocDone: false,
        },
        hadapt_mem: Some(h),
        interp: None,
        interp_type: ARK_INTERP_HERMITE,
        interp_degree: ARK_INTERP_MAX_DEGREE,
        root_mem: None,
        constraints: None,
        stepper: ARKodeStepperInfo {
            supports_adaptive: false,
            supports_implicit: false,
            supports_massmatrix: false,
            massops: false,
            msetup: false,
            step: ARKStepFn::NoStep,
        },
        step_mem: crate::stepper::ARKStepMem::NoStepper,
        lmem: None,
        mass_mem: None,
        user_data: None,
    };
    crate::io::ARKodeSetDefaults(&mut a);
    a
}

} // verus!

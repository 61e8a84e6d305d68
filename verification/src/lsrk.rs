//! LSRKStep: low-storage Runge--Kutta time stepper (super-time-stepping RKC/RKL and
//! strong-stability-preserving methods): method selection, options, statistics and
//! the setup performed before stepping.
use vstd::prelude::*;
use crate::decimal::{Decimal, dec, dec_vs_one, dec_vs_one_exec};
use crate::arkode::{ARKodeMem, ARKodeHAdaptMem, ARKodeStepperInfo, ARKodeStatus, ARKodeOptions, ARKEwtFn, ARKStepFn, ws_margin};
use crate::stepper::ARKStepMem;
use crate::consts::{ARK_SUCCESS, ARK_MEM_NULL, ARK_ILL_INPUT, ARK_DEE_FAIL, ARK_DOMEIG_FAIL, ARK_STEPPER_UNSUPPORTED, RESIZE_INIT, RESET_INIT};
use crate::adapt::{arkReplaceAdaptController, hadapt_ctrl_ok, released_rw, released_iw, default_controller};

verus! {

/* LSRK method types */
pub const ARKODE_LSRK_RKC_2: i32 = 0;
pub const ARKODE_LSRK_RKL_2: i32 = 1;
pub const ARKODE_LSRK_SSP_S_2: i32 = 2;
pub const ARKODE_LSRK_SSP_S_3: i32 = 3;
pub const ARKODE_LSRK_SSP_10_4: i32 = 4;

/* LSRK defaults */
pub const STAGE_MAX_LIMIT_DEFAULT: i32 = 200;
pub const DOM_EIG_FREQ_DEFAULT: i64 = 25;
pub const DOM_EIG_NUM_WARMUPS_DEFAULT: i32 = 0;
pub const DOM_EIG_NUM_INIT_WARMUPS_DEFAULT: i32 = -1;

/// Dominant eigenvalue estimator object: its preprocessing iteration count and the
/// return codes its setup operations give.
#[derive(Clone, Copy, PartialEq, Eq, Debug)]
pub struct SUNDomEigEstimator {
    pub num_preprocess_iters: i32,
    pub initialize_flag: i32,
    pub set_iters_flag: i32,
}

/// LSRKStep memory.
#[derive(Clone, Copy, PartialEq, Eq, Debug)]
pub struct ARKodeLSRKStepMem {
    pub fe: bool,
    pub dom_eig_fn: bool,
    pub q: i32,
    pub p: i32,
    pub istage: i32,
    pub req_stages: i32,
    pub LSRKmethod: i32,
    pub nfe: i64,
    pub nfeDQ: i64,
    pub dom_eig_num_evals: i64,
    pub stage_max: i32,
    pub stage_max_limit: i32,
    pub dom_eig_nst: i64,
    pub step_nst: i64,
    pub num_dee_iters: i64,
    pub dom_eig_safety: Decimal,
    pub dom_eig_freq: i64,
    pub num_init_warmups: i32,
    pub num_warmups: i32,
    pub DEE: Option<SUNDomEigEstimator>,
    pub dom_eig_update: bool,
    pub const_Jac: bool,
    pub dom_eig_is_current: bool,
    pub is_SSP: bool,
    pub init_warmup: bool,
    pub cvals: bool,
    pub nfusedopvecs: i32,
}

/// The integrator's stepper is LSRKStep.
pub open spec fn is_lsrk(a: ARKodeMem) -> bool {
    a.step_mem is Lsrk
}

/// The LSRKStep memory of an integrator whose stepper is LSRKStep.
pub open spec fn lsrk_mem(a: ARKodeMem) -> ARKodeLSRKStepMem {
    a.step_mem->Lsrk_0
}

/// The integrator with its LSRKStep memory replaced.
pub open spec fn with_lsrk(a: ARKodeMem, sm: ARKodeLSRKStepMem) -> ARKodeMem {
    ARKodeMem { step_mem: ARKStepMem::Lsrk(sm), ..a }
}

/// Returns (a copy of) the LSRKStep memory, or `None` when the stepper is not LSRKStep.
pub fn lsrkStep_AccessStepMem(ark_mem: &ARKodeMem) -> (r: Option<ARKodeLSRKStepMem>)
    ensures
        is_lsrk(*ark_mem) ==> r == Some(lsrk_mem(*ark_mem)),
        !is_lsrk(*ark_mem) ==> r is None,
{
    match ark_mem.step_mem {
        ARKStepMem::Lsrk(sm) => Some(sm),
        _ => None,
    }
}

/// Adaptivity memory with the method and embedding orders replaced.
pub open spec fn with_orders(h: Option<ARKodeHAdaptMem>, q: i32, p: i32) -> Option<ARKodeHAdaptMem> {
    Some(ARKodeHAdaptMem { q, p, ..h->Some_0 })
}

/// A super-time-stepping method.
pub open spec fn is_sts_method(m: i32) -> bool {
    m == ARKODE_LSRK_RKC_2 || m == ARKODE_LSRK_RKL_2
}

/// A strong-stability-preserving method.
pub open spec fn is_ssp_method(m: i32) -> bool {
    m == ARKODE_LSRK_SSP_S_2 || m == ARKODE_LSRK_SSP_S_3 || m == ARKODE_LSRK_SSP_10_4
}

/// Return code of selecting the STS method `method`.
pub open spec fn sts_code(a: ARKodeMem, method: i32) -> i32 {
    if !is_lsrk(a) {
        ARK_MEM_NULL
    } else if is_sts_method(method) || is_ssp_method(method) {
        ARK_SUCCESS
    } else {
        ARK_ILL_INPUT
    }
}

/// Integrator after selecting the STS method `method`.
pub open spec fn sts_result(a: ARKodeMem, method: i32) -> ARKodeMem {
    if !is_lsrk(a) {
        a
    } else if is_sts_method(method) {
        ARKodeMem {
            stepper: ARKodeStepperInfo {
                step: if method == ARKODE_LSRK_RKC_2 { ARKStepFn::RKC } else { ARKStepFn::RKL },
                ..a.stepper
            },
            hadapt_mem: with_orders(a.hadapt_mem, 2, 2),
            step_mem: ARKStepMem::Lsrk(
                ARKodeLSRKStepMem {
                    is_SSP: false,
                    nfusedopvecs: 5,
                    q: 2,
                    p: 2,
                    step_nst: 0,
                    LSRKmethod: method,
                    ..lsrk_mem(a)
                },
            ),
            ..a
        }
    } else if is_ssp_method(method) {
        with_lsrk(a, ARKodeLSRKStepMem { LSRKmethod: method, ..lsrk_mem(a) })
    } else {
        a
    }
}

/// Selects a super-time-stepping method (RKC or RKL, both of order 2 with a
/// second-order embedding).  Naming an SSP method reports an error yet records the
/// method and returns success; any other value is `ARK_ILL_INPUT`.
pub fn LSRKStepSetSTSMethod(ark_mem: &mut ARKodeMem, method: i32) -> (r: i32)
    requires
        is_lsrk(*old(ark_mem)) && is_sts_method(method) ==> old(ark_mem).hadapt_mem is Some,
    ensures
        r == sts_code(*old(ark_mem), method),
        *final(ark_mem) == sts_result(*old(ark_mem), method),
{
    let sm = match lsrkStep_AccessStepMem(ark_mem) {
        None => return ARK_MEM_NULL,
        Some(sm) => sm,
    };
    if method == ARKODE_LSRK_RKC_2 || method == ARKODE_LSRK_RKL_2 {
        let step = if method == ARKODE_LSRK_RKC_2 { ARKStepFn::RKC } else { ARKStepFn::RKL };
        let h = ark_mem.hadapt_mem.unwrap();
        let nsm = ARKodeLSRKStepMem {
            is_SSP: false,
            nfusedopvecs: 5,
            q: 2,
            p: 2,
            step_nst: 0,
            LSRKmethod: method,
            ..sm
        };
        ark_mem.stepper = ARKodeStepperInfo { step, ..ark_mem.stepper };
        ark_mem.hadapt_mem = Some(ARKodeHAdaptMem { q: 2, p: 2, ..h });
        ark_mem.step_mem = ARKStepMem::Lsrk(nsm);
        ARK_SUCCESS
    } else if method == ARKODE_LSRK_SSP_S_2 || method == ARKODE_LSRK_SSP_S_3 || method
        == ARKODE_LSRK_SSP_10_4 {
        ark_mem.step_mem = ARKStepMem::Lsrk(ARKodeLSRKStepMem { LSRKmethod: method, ..sm });
        ARK_SUCCESS
    } else {
        ARK_ILL_INPUT
    }
}

/// Step routine of an SSP method.
pub open spec fn ssp_step(m: i32) -> ARKStepFn {
    if m == ARKODE_LSRK_SSP_S_2 {
        ARKStepFn::SSPs2
    } else if m == ARKODE_LSRK_SSP_S_3 {
        ARKStepFn::SSP43
    } else {
        ARKStepFn::SSP104
    }
}

/// Default stage count of an SSP method.
pub open spec fn ssp_stages(m: i32) -> i32 {
    if m == ARKODE_LSRK_SSP_S_2 {
        2
    } else if m == ARKODE_LSRK_SSP_S_3 {
        4
    } else {
        10
    }
}

/// Method order of an SSP method.
pub open spec fn ssp_q(m: i32) -> i32 {
    if m == ARKODE_LSRK_SSP_S_2 {
        2
    } else if m == ARKODE_LSRK_SSP_S_3 {
        3
    } else {
        4
    }
}

/// Embedding order of an SSP method.
pub open spec fn ssp_p(m: i32) -> i32 {
    (ssp_q(m) - 1) as i32
}

/// Return code of selecting the SSP method `method`.
pub open spec fn ssp_code(a: ARKodeMem, method: i32) -> i32 {
    sts_code(a, method)
}

/// Integrator after selecting the SSP method `method`.
pub open spec fn ssp_result(a: ARKodeMem, method: i32) -> ARKodeMem {
    if !is_lsrk(a) {
        a
    } else if is_ssp_method(method) {
        ARKodeMem {
            stepper: ARKodeStepperInfo { step: ssp_step(method), ..a.stepper },
            hadapt_mem: with_orders(a.hadapt_mem, ssp_q(method), ssp_p(method)),
            step_mem: ARKStepMem::Lsrk(
                ARKodeLSRKStepMem {
                    is_SSP: true,
                    req_stages: ssp_stages(method),
                    nfusedopvecs: 3,
                    q: ssp_q(method),
                    p: ssp_p(method),
                    LSRKmethod: method,
                    ..lsrk_mem(a)
                },
            ),
            ..a
        }
    } else if is_sts_method(method) {
        with_lsrk(a, ARKodeLSRKStepMem { LSRKmethod: method, ..lsrk_mem(a) })
    } else {
        a
    }
}

/// Selects a strong-stability-preserving method: SSP(s,2) with 2 stages, SSP(s,3)
/// with 4 stages, or SSP(10,4).  Naming an STS method reports an error yet records
/// the method and returns success; any other value is `ARK_ILL_INPUT`.
pub fn LSRKStepSetSSPMethod(ark_mem: &mut ARKodeMem, method: i32) -> (r: i32)
    requires
        is_lsrk(*old(ark_mem)) && is_ssp_method(method) ==> old(ark_mem).hadapt_mem is Some,
    ensures
        r == ssp_code(*old(ark_mem), method),
        *final(ark_mem) == ssp_result(*old(ark_mem), method),
{
    let sm = match lsrkStep_AccessStepMem(ark_mem) {
        None => return ARK_MEM_NULL,
        Some(sm) => sm,
    };
    if method == ARKODE_LSRK_RKC_2 || method == ARKODE_LSRK_RKL_2 {
        ark_mem.step_mem = ARKStepMem::Lsrk(ARKodeLSRKStepMem { LSRKmethod: method, ..sm });
        return ARK_SUCCESS;
    }
    let (step, stages, q, p) = if method == ARKODE_LSRK_SSP_S_2 {
        (ARKStepFn::SSPs2, 2i32, 2i32, 1i32)
    } else if method == ARKODE_LSRK_SSP_S_3 {
        (ARKStepFn::SSP43, 4i32, 3i32, 2i32)
    } else if method == ARKODE_LSRK_SSP_10_4 {
        (ARKStepFn::SSP104, 10i32, 4i32, 3i32)
    } else {
        return ARK_ILL_INPUT;
    };
    let h = ark_mem.hadapt_mem.unwrap();
    let nsm = ARKodeLSRKStepMem {
        is_SSP: true,
        req_stages: stages,
        nfusedopvecs: 3,
        q,
        p,
        LSRKmethod: method,
        ..sm
    };
    ark_mem.stepper = ARKodeStepperInfo { step, ..ark_mem.stepper };
    ark_mem.hadapt_mem = Some(ARKodeHAdaptMem { q, p, ..h });
    ark_mem.step_mem = ARKStepMem::Lsrk(nsm);
    ARK_SUCCESS
}

/// Whether two strings are equal.
pub fn str_eq(a: &str, b: &str) -> (r: bool)
    ensures
        r == (a@ == b@),
{
    let n = a.unicode_len();
    let m = b.unicode_len();
    if n != m {
        return false;
    }
    let mut i: usize = 0;
    while i < n
        invariant
            n == a@.len(),
            m == b@.len(),
            n == m,
            i <= n,
            forall|k: int| 0 <= k < i ==> a@[k] == b@[k],
        decreases n - i,
    {
        if a.get_char(i) != b.get_char(i) {
            return false;
        }
        i = i + 1;
    }
    assert(a@ =~= b@);
    true
}

/// Selects a super-time-stepping method by name ("ARKODE_LSRK_RKC_2" or
/// "ARKODE_LSRK_RKL_2"); any other name is `ARK_ILL_INPUT`.
pub fn LSRKStepSetSTSMethodByName(ark_mem: &mut ARKodeMem, emethod: &str) -> (r: i32)
    requires
        is_lsrk(*old(ark_mem)) ==> old(ark_mem).hadapt_mem is Some,
    ensures
        emethod@ == "ARKODE_LSRK_RKC_2"@ ==> r == sts_code(*old(ark_mem), ARKODE_LSRK_RKC_2)
            && *final(ark_mem) == sts_result(*old(ark_mem), ARKODE_LSRK_RKC_2),
        emethod@ == "ARKODE_LSRK_RKL_2"@ ==> r == sts_code(*old(ark_mem), ARKODE_LSRK_RKL_2)
            && *final(ark_mem) == sts_result(*old(ark_mem), ARKODE_LSRK_RKL_2),
        emethod@ != "ARKODE_LSRK_RKC_2"@ && emethod@ != "ARKODE_LSRK_RKL_2"@ ==> r
            == ARK_ILL_INPUT && *final(ark_mem) == *old(ark_mem),
{
    proof {
        reveal_strlit("ARKODE_LSRK_RKC_2");
        reveal_strlit("ARKODE_LSRK_RKL_2");
        assert("ARKODE_LSRK_RKC_2"@[14] != "ARKODE_LSRK_RKL_2"@[14]);
    }
    if str_eq(emethod, "ARKODE_LSRK_RKC_2") {
        return LSRKStepSetSTSMethod(ark_mem, ARKODE_LSRK_RKC_2);
    }
    if str_eq(emethod, "ARKODE_LSRK_RKL_2") {
        return LSRKStepSetSTSMethod(ark_mem, ARKODE_LSRK_RKL_2);
    }
    ARK_ILL_INPUT
}

/// The code and integrator after selecting an SSP method by name: each of the
/// three SSP names selects its method as by number; any other name is refused and
/// changes nothing.
pub open spec fn ssp_by_name(a: ARKodeMem, name: Seq<char>) -> (i32, ARKodeMem) {
    if name == "ARKODE_LSRK_SSP_S_2"@ {
        (ssp_code(a, ARKODE_LSRK_SSP_S_2), ssp_result(a, ARKODE_LSRK_SSP_S_2))
    } else if name == "ARKODE_LSRK_SSP_S_3"@ {
        (ssp_code(a, ARKODE_LSRK_SSP_S_3), ssp_result(a, ARKODE_LSRK_SSP_S_3))
    } else if name == "ARKODE_LSRK_SSP_10_4"@ {
        (ssp_code(a, ARKODE_LSRK_SSP_10_4), ssp_result(a, ARKODE_LSRK_SSP_10_4))
    } else {
        (ARK_ILL_INPUT, a)
    }
}

/// Selects a strong-stability-preserving method by name ("ARKODE_LSRK_SSP_S_2",
/// "ARKODE_LSRK_SSP_S_3" or "ARKODE_LSRK_SSP_10_4"); any other name is
/// `ARK_ILL_INPUT`.
pub fn LSRKStepSetSSPMethodByName(ark_mem: &mut ARKodeMem, emethod: &str) -> (r: i32)
    requires
        is_lsrk(*old(ark_mem)) ==> old(ark_mem).hadapt_mem is Some,
    ensures
        emethod@ == "ARKODE_LSRK_SSP_S_2"@ ==> r == ssp_code(*old(ark_mem), ARKODE_LSRK_SSP_S_2)
            && *final(ark_mem) == ssp_result(*old(ark_mem), ARKODE_LSRK_SSP_S_2),
        emethod@ == "ARKODE_LSRK_SSP_S_3"@ ==> r == ssp_code(*old(ark_mem), ARKODE_LSRK_SSP_S_3)
            && *final(ark_mem) == ssp_result(*old(ark_mem), ARKODE_LSRK_SSP_S_3),
        emethod@ == "ARKODE_LSRK_SSP_10_4"@ ==> r == ssp_code(
            *old(ark_mem),
            ARKODE_LSRK_SSP_10_4,
        ) && *final(ark_mem) == ssp_result(*old(ark_mem), ARKODE_LSRK_SSP_10_4),
        emethod@ != "ARKODE_LSRK_SSP_S_2"@ && emethod@ != "ARKODE_LSRK_SSP_S_3"@ && emethod@
            != "ARKODE_LSRK_SSP_10_4"@ ==> r == ARK_ILL_INPUT && *final(ark_mem) == *old(ark_mem),
        (r, *final(ark_mem)) == ssp_by_name(*old(ark_mem), emethod@),
{
    proof {
        reveal_strlit("ARKODE_LSRK_SSP_S_2");
        reveal_strlit("ARKODE_LSRK_SSP_S_3");
        reveal_strlit("ARKODE_LSRK_SSP_10_4");
        assert("ARKODE_LSRK_SSP_S_2"@[18] != "ARKODE_LSRK_SSP_S_3"@[18]);
        assert("ARKODE_LSRK_SSP_S_2"@.len() != "ARKODE_LSRK_SSP_10_4"@.len());
        assert("ARKODE_LSRK_SSP_S_3"@.len() != "ARKODE_LSRK_SSP_10_4"@.len());
    }
    if str_eq(emethod, "ARKODE_LSRK_SSP_S_2") {
        return LSRKStepSetSSPMethod(ark_mem, ARKODE_LSRK_SSP_S_2);
    }
    if str_eq(emethod, "ARKODE_LSRK_SSP_S_3") {
        return LSRKStepSetSSPMethod(ark_mem, ARKODE_LSRK_SSP_S_3);
    }
    if str_eq(emethod, "ARKODE_LSRK_SSP_10_4") {
        return LSRKStepSetSSPMethod(ark_mem, ARKODE_LSRK_SSP_10_4);
    }
    ARK_ILL_INPUT
}

/// Sets how often the dominant eigenvalue is recomputed: after `nsteps` successful
/// steps; 0 declares the Jacobian constant (one evaluation); a negative value
/// restores the default of 25 steps with a non-constant Jacobian.
pub fn LSRKStepSetDomEigFrequency(ark_mem: &mut ARKodeMem, nsteps: i64) -> (r: i32)
    ensures
        !is_lsrk(*old(ark_mem)) ==> r == ARK_MEM_NULL && *final(ark_mem) == *old(ark_mem),
        is_lsrk(*old(ark_mem)) ==> r == ARK_SUCCESS && *final(ark_mem) == with_lsrk(
            *old(ark_mem),
            ARKodeLSRKStepMem {
                dom_eig_freq: if nsteps < 0 {
                    DOM_EIG_FREQ_DEFAULT
                } else if nsteps == 0 {
                    1
                } else {
                    nsteps
                },
                const_Jac: nsteps == 0,
                ..lsrk_mem(*old(ark_mem))
            },
        ),
{
    let sm = match lsrkStep_AccessStepMem(ark_mem) {
        None => return ARK_MEM_NULL,
        Some(sm) => sm,
    };
    let (freq, cj) = if nsteps < 0 {
        (DOM_EIG_FREQ_DEFAULT, false)
    } else if nsteps == 0 {
        (1i64, true)
    } else {
        (nsteps, false)
    };
    ark_mem.step_mem = ARKStepMem::Lsrk(ARKodeLSRKStepMem { dom_eig_freq: freq, const_Jac: cj, ..sm });
    ARK_SUCCESS
}

/// Sets the safety factor applied to the dominant eigenvalue estimate; values
/// below 1 restore the default 1.01.
pub fn LSRKStepSetDomEigSafetyFactor(ark_mem: &mut ARKodeMem, dom_eig_safety: Decimal) -> (r: i32)
    ensures
        !is_lsrk(*old(ark_mem)) ==> r == ARK_MEM_NULL && *final(ark_mem) == *old(ark_mem),
        is_lsrk(*old(ark_mem)) ==> r == ARK_SUCCESS && *final(ark_mem) == with_lsrk(
            *old(ark_mem),
            ARKodeLSRKStepMem {
                dom_eig_safety: if dec_vs_one(dom_eig_safety) < 0 {
                    Decimal { mantissa: 101, exponent: -2i32 }
                } else {
                    dom_eig_safety
                },
                ..lsrk_mem(*old(ark_mem))
            },
        ),
{
    let sm = match lsrkStep_AccessStepMem(ark_mem) {
        None => return ARK_MEM_NULL,
        Some(sm) => sm,
    };
    let s = if dec_vs_one_exec(dom_eig_safety) < 0 {
        dec(101, -2)
    } else {
        dom_eig_safety
    };
    ark_mem.step_mem = ARKStepMem::Lsrk(ARKodeLSRKStepMem { dom_eig_safety: s, ..sm });
    ARK_SUCCESS
}

/// Sets the maximum number of stages allowed; values below 2 restore the default.
pub fn LSRKStepSetMaxNumStages(ark_mem: &mut ARKodeMem, stage_max_limit: i32) -> (r: i32)
    ensures
        !is_lsrk(*old(ark_mem)) ==> r == ARK_MEM_NULL && *final(ark_mem) == *old(ark_mem),
        is_lsrk(*old(ark_mem)) ==> r == ARK_SUCCESS && *final(ark_mem) == with_lsrk(
            *old(ark_mem),
            ARKodeLSRKStepMem {
                stage_max_limit: if stage_max_limit < 2 {
                    STAGE_MAX_LIMIT_DEFAULT
                } else {
                    stage_max_limit
                },
                ..lsrk_mem(*old(ark_mem))
            },
        ),
{
    let sm = match lsrkStep_AccessStepMem(ark_mem) {
        None => return ARK_MEM_NULL,
        Some(sm) => sm,
    };
    let lim = if stage_max_limit < 2 { STAGE_MAX_LIMIT_DEFAULT } else { stage_max_limit };
    ark_mem.step_mem = ARKStepMem::Lsrk(ARKodeLSRKStepMem { stage_max_limit: lim, ..sm });
    ARK_SUCCESS
}

/// Sets the number of preprocessing iterations before the first dominant eigenvalue
/// estimate (negative: the estimator's default).
pub fn LSRKStepSetNumDomEigEstInitPreprocessIters(ark_mem: &mut ARKodeMem, num_iters: i32) -> (r: i32)
    ensures
        !is_lsrk(*old(ark_mem)) ==> r == ARK_MEM_NULL && *final(ark_mem) == *old(ark_mem),
        is_lsrk(*old(ark_mem)) ==> r == ARK_SUCCESS && *final(ark_mem) == with_lsrk(
            *old(ark_mem),
            ARKodeLSRKStepMem { num_init_warmups: num_iters, ..lsrk_mem(*old(ark_mem)) },
        ),
{
    let sm = match lsrkStep_AccessStepMem(ark_mem) {
        None => return ARK_MEM_NULL,
        Some(sm) => sm,
    };
    ark_mem.step_mem = ARKStepMem::Lsrk(ARKodeLSRKStepMem { num_init_warmups: num_iters, ..sm });
    ARK_SUCCESS
}

/// The estimator after setting its preprocessing iteration count (kept unchanged
/// when that operation fails).
pub open spec fn dee_with_iters(d: SUNDomEigEstimator, n: i32) -> SUNDomEigEstimator {
    if d.set_iters_flag == 0 {
        SUNDomEigEstimator { num_preprocess_iters: n, ..d }
    } else {
        d
    }
}

/// Sets the estimator's preprocessing iteration count (its result code tells success).
pub fn SUNDomEigEstimator_SetNumPreprocessIters(dee: &mut SUNDomEigEstimator, n: i32) -> (r: i32)
    ensures
        r == old(dee).set_iters_flag,
        *final(dee) == dee_with_iters(*old(dee), n),
{
    if dee.set_iters_flag == 0 {
        dee.num_preprocess_iters = n;
    }
    dee.set_iters_flag
}

/// Sets the number of preprocessing iterations before each estimate after the first
/// (negative: 0).  An attached estimator is then given the initial iteration count;
/// if it refuses, `ARK_DEE_FAIL` is returned (the new count is kept).
pub fn LSRKStepSetNumDomEigEstPreprocessIters(ark_mem: &mut ARKodeMem, num_iters: i32) -> (r: i32)
    ensures
        !is_lsrk(*old(ark_mem)) ==> r == ARK_MEM_NULL && *final(ark_mem) == *old(ark_mem),
        is_lsrk(*old(ark_mem)) ==> ({
            let sm = lsrk_mem(*old(ark_mem));
            let nw = if num_iters < 0 { DOM_EIG_NUM_WARMUPS_DEFAULT } else { num_iters };
            &&& r == (match sm.DEE {
                Some(d) => if d.set_iters_flag == 0 { ARK_SUCCESS } else { ARK_DEE_FAIL },
                None => ARK_SUCCESS,
            })
            &&& *final(ark_mem) == with_lsrk(
                *old(ark_mem),
                ARKodeLSRKStepMem {
                    num_warmups: nw,
                    DEE: match sm.DEE {
                        Some(d) => Some(dee_with_iters(d, sm.num_init_warmups)),
                        None => None,
                    },
                    ..sm
                },
            )
        }),
{
    let sm = match lsrkStep_AccessStepMem(ark_mem) {
        None => return ARK_MEM_NULL,
        Some(sm) => sm,
    };
    let nw = if num_iters < 0 { DOM_EIG_NUM_WARMUPS_DEFAULT } else { num_iters };
    let (dee, ret) = match sm.DEE {
        Some(d) => {
            let mut d2 = d;
            let rv = SUNDomEigEstimator_SetNumPreprocessIters(&mut d2, sm.num_init_warmups);
            (Some(d2), if rv != 0 { ARK_DEE_FAIL } else { ARK_SUCCESS })
        },
        None => (None, ARK_SUCCESS),
    };
    ark_mem.step_mem = ARKStepMem::Lsrk(ARKodeLSRKStepMem { num_warmups: nw, DEE: dee, ..sm });
    ret
}

/// `n` is a perfect square.
pub open spec fn is_square(n: int) -> bool {
    exists|k: int| 0 <= k && #[trigger] (k * k) == n
}

/// Whether `n` is a perfect square.
pub fn perfect_square(n: i32) -> (r: bool)
    requires
        n >= 0,
    ensures
        r == is_square(n as int),
{
    let mut k: i64 = 0;
    while k * k < n as i64
        invariant
            0 <= k <= 46341,
            n >= 0,
            k * k <= 46341 * 46341,
            forall|j: int| 0 <= j < k ==> #[trigger] (j * j) < n,
        decreases 46341 - k,
    {
        proof {
            assert(k * k < n);
            assert(k < 46341) by (nonlinear_arith)
                requires
                    k * k < n,
                    n <= 0x7fff_ffff,
                    0 <= k,
            ;
        }
        proof {
            assert((k + 1) * (k + 1) <= 46341 * 46341) by (nonlinear_arith)
                requires
                    k < 46341,
                    0 <= k,
            ;
        }
        k = k + 1;
    }
    let found = k * k == n as i64;
    proof {
        if !found {
            assert forall|j: int| 0 <= j implies #[trigger] (j * j) != n by {
                if j < k {
                } else {
                    assert(j * j >= k * k) by (nonlinear_arith)
                        requires
                            j >= k,
                            k >= 0,
                    ;
                }
            }
        }
    }
    found
}

/// Whether a stage count is accepted for the current SSP method (a non-positive
/// count asks for the default).
pub open spec fn ssp_stages_valid(sm: ARKodeLSRKStepMem, n: i32) -> bool {
    let m = sm.LSRKmethod;
    sm.is_SSP && is_ssp_method(m) && (n <= 0 || (m == ARKODE_LSRK_SSP_S_2 && n >= 2) || (m
        == ARKODE_LSRK_SSP_S_3 && n >= 4 && is_square(n as int)) || (m == ARKODE_LSRK_SSP_10_4
        && n == 10))
}

/// The code and integrator after `LSRKStepSetNumSSPStages`.
pub open spec fn num_ssp_stages_result(a: ARKodeMem, n: i32) -> (i32, ARKodeMem) {
    if !is_lsrk(a) {
        (ARK_MEM_NULL, a)
    } else {
        let sm = lsrk_mem(a);
        let m = sm.LSRKmethod;
        if !ssp_stages_valid(sm, n) {
            (ARK_ILL_INPUT, a)
        } else if n <= 0 {
            (ARK_SUCCESS, with_lsrk(a, ARKodeLSRKStepMem { req_stages: ssp_stages(m), ..sm }))
        } else {
            (
                ARK_SUCCESS,
                ARKodeMem {
                    stepper: if m == ARKODE_LSRK_SSP_S_3 {
                        ARKodeStepperInfo {
                            step: if n == 4 { ARKStepFn::SSP43 } else { ARKStepFn::SSPs3 },
                            ..a.stepper
                        }
                    } else {
                        a.stepper
                    },
                    step_mem: ARKStepMem::Lsrk(ARKodeLSRKStepMem { req_stages: n, ..sm }),
                    ..a
                },
            )
        }
    }
}

/// Sets the number of stages of the SSP method: only for SSP methods
/// (`ARK_ILL_INPUT` otherwise).  A non-positive value restores the method's default
/// (2, 4 or 10).  SSP(s,2) needs at least 2 stages; SSP(s,3) a perfect square of at
/// least 4 (4 uses the SSP(4,3) step routine, others the SSP(s,3) one); SSP(10,4)
/// exactly 10.
pub fn LSRKStepSetNumSSPStages(ark_mem: &mut ARKodeMem, num_of_stages: i32) -> (r: i32)
    ensures
        (r, *final(ark_mem)) == num_ssp_stages_result(*old(ark_mem), num_of_stages),
        !is_lsrk(*old(ark_mem)) ==> r == ARK_MEM_NULL && *final(ark_mem) == *old(ark_mem),
        is_lsrk(*old(ark_mem)) ==> ({
            let sm = lsrk_mem(*old(ark_mem));
            let m = sm.LSRKmethod;
            let n = num_of_stages;
            let valid = sm.is_SSP && is_ssp_method(m) && (n <= 0 || (m == ARKODE_LSRK_SSP_S_2
                && n >= 2) || (m == ARKODE_LSRK_SSP_S_3 && n >= 4 && is_square(n as int)) || (m
                == ARKODE_LSRK_SSP_10_4 && n == 10));
            &&& !valid ==> r == ARK_ILL_INPUT && *final(ark_mem) == *old(ark_mem)
            &&& valid && n <= 0 ==> r == ARK_SUCCESS && *final(ark_mem) == with_lsrk(
                *old(ark_mem),
                ARKodeLSRKStepMem { req_stages: ssp_stages(m), ..sm },
            )
            &&& valid && n > 0 ==> r == ARK_SUCCESS && *final(ark_mem) == (ARKodeMem {
                stepper: if m == ARKODE_LSRK_SSP_S_3 {
                    ARKodeStepperInfo {
                        step: if n == 4 { ARKStepFn::SSP43 } else { ARKStepFn::SSPs3 },
                        ..old(ark_mem).stepper
                    }
                } else {
                    old(ark_mem).stepper
                },
                step_mem: ARKStepMem::Lsrk(ARKodeLSRKStepMem { req_stages: n, ..sm }),
                ..*old(ark_mem)
            })
        }),
{
    let sm = match lsrkStep_AccessStepMem(ark_mem) {
        None => return ARK_MEM_NULL,
        Some(sm) => sm,
    };
    if !sm.is_SSP {
        return ARK_ILL_INPUT;
    }
    let m = sm.LSRKmethod;
    if num_of_stages <= 0 {
        let st = if m == ARKODE_LSRK_SSP_S_2 {
            2i32
        } else if m == ARKODE_LSRK_SSP_S_3 {
            4i32
        } else if m == ARKODE_LSRK_SSP_10_4 {
            10i32
        } else {
            return ARK_ILL_INPUT;
        };
        ark_mem.step_mem = ARKStepMem::Lsrk(ARKodeLSRKStepMem { req_stages: st, ..sm });
        return ARK_SUCCESS;
    }
    let mut stepper = ark_mem.stepper;
    if m == ARKODE_LSRK_SSP_S_2 {
        if num_of_stages < 2 {
            return ARK_ILL_INPUT;
        }
    } else if m == ARKODE_LSRK_SSP_S_3 {
        if num_of_stages < 4 || !perfect_square(num_of_stages) {
            return ARK_ILL_INPUT;
        }
        let step = if num_of_stages == 4 { ARKStepFn::SSP43 } else { ARKStepFn::SSPs3 };
        stepper = ARKodeStepperInfo { step, ..stepper };
    } else if m == ARKODE_LSRK_SSP_10_4 {
        if num_of_stages != 10 {
            return ARK_ILL_INPUT;
        }
    } else {
        return ARK_ILL_INPUT;
    }
    ark_mem.stepper = stepper;
    ark_mem.step_mem = ARKStepMem::Lsrk(ARKodeLSRKStepMem { req_stages: num_of_stages, ..sm });
    ARK_SUCCESS
}

/// Attaches (or, with `None`, detaches) a dominant eigenvalue estimator.
pub fn LSRKStepSetDomEigEstimator(ark_mem: &mut ARKodeMem, DEE: Option<SUNDomEigEstimator>) -> (r: i32)
    ensures
        !is_lsrk(*old(ark_mem)) ==> r == ARK_MEM_NULL && *final(ark_mem) == *old(ark_mem),
        is_lsrk(*old(ark_mem)) ==> r == ARK_SUCCESS && *final(ark_mem) == with_lsrk(
            *old(ark_mem),
            ARKodeLSRKStepMem { DEE, ..lsrk_mem(*old(ark_mem)) },
        ),
{
    let sm = match lsrkStep_AccessStepMem(ark_mem) {
        None => return ARK_MEM_NULL,
        Some(sm) => sm,
    };
    ark_mem.step_mem = ARKStepMem::Lsrk(ARKodeLSRKStepMem { DEE, ..sm });
    ARK_SUCCESS
}

/// Number of dominant eigenvalue updates.
pub fn LSRKStepGetNumDomEigUpdates(ark_mem: &mut ARKodeMem, dom_eig_num_evals: &mut i64) -> (r: i32)
    ensures
        *final(ark_mem) == *old(ark_mem),
        !is_lsrk(*old(ark_mem)) ==> r == ARK_MEM_NULL && *final(dom_eig_num_evals) == *old(dom_eig_num_evals),
        is_lsrk(*old(ark_mem)) ==> r == ARK_SUCCESS && *final(dom_eig_num_evals) == lsrk_mem(*old(ark_mem)).dom_eig_num_evals,
{
    match lsrkStep_AccessStepMem(ark_mem) {
        None => ARK_MEM_NULL,
        Some(sm) => {
            *dom_eig_num_evals = sm.dom_eig_num_evals;
            ARK_SUCCESS
        },
    }
}

/// Largest number of stages used so far.
pub fn LSRKStepGetMaxNumStages(ark_mem: &mut ARKodeMem, stage_max: &mut i32) -> (r: i32)
    ensures
        *final(ark_mem) == *old(ark_mem),
        !is_lsrk(*old(ark_mem)) ==> r == ARK_MEM_NULL && *final(stage_max) == *old(stage_max),
        is_lsrk(*old(ark_mem)) ==> r == ARK_SUCCESS && *final(stage_max) == lsrk_mem(*old(ark_mem)).stage_max,
{
    match lsrkStep_AccessStepMem(ark_mem) {
        None => ARK_MEM_NULL,
        Some(sm) => {
            *stage_max = sm.stage_max;
            ARK_SUCCESS
        },
    }
}

/// Number of right-hand side evaluations spent in difference-quotient Jacobian
/// products for the eigenvalue estimates.
pub fn LSRKStepGetNumDomEigEstRhsEvals(ark_mem: &mut ARKodeMem, nfeDQ: &mut i64) -> (r: i32)
    ensures
        *final(ark_mem) == *old(ark_mem),
        !is_lsrk(*old(ark_mem)) ==> r == ARK_MEM_NULL && *final(nfeDQ) == *old(nfeDQ),
        is_lsrk(*old(ark_mem)) ==> r == ARK_SUCCESS && *final(nfeDQ) == lsrk_mem(*old(ark_mem)).nfeDQ,
{
    match lsrkStep_AccessStepMem(ark_mem) {
        None => ARK_MEM_NULL,
        Some(sm) => {
            *nfeDQ = sm.nfeDQ;
            ARK_SUCCESS
        },
    }
}

/// Number of iterations spent in the eigenvalue estimates.
pub fn LSRKStepGetNumDomEigEstIters(ark_mem: &mut ARKodeMem, num_iters: &mut i64) -> (r: i32)
    ensures
        *final(ark_mem) == *old(ark_mem),
        !is_lsrk(*old(ark_mem)) ==> r == ARK_MEM_NULL && *final(num_iters) == *old(num_iters),
        is_lsrk(*old(ark_mem)) ==> r == ARK_SUCCESS && *final(num_iters) == lsrk_mem(*old(ark_mem)).num_dee_iters,
{
    match lsrkStep_AccessStepMem(ark_mem) {
        None => ARK_MEM_NULL,
        Some(sm) => {
            *num_iters = sm.num_dee_iters;
            ARK_SUCCESS
        },
    }
}

/// Current stage index and the number of stages (`req_stages + 1`).
pub fn lsrkStep_GetStageIndex(ark_mem: &mut ARKodeMem, stage: &mut i32, max_stages: &mut i32) -> (r: i32)
    requires
        is_lsrk(*old(ark_mem)) ==> lsrk_mem(*old(ark_mem)).req_stages < i32::MAX,
    ensures
        *final(ark_mem) == *old(ark_mem),
        !is_lsrk(*old(ark_mem)) ==> r == ARK_MEM_NULL && *final(stage) == *old(stage) && *final(max_stages) == *old(max_stages),
        is_lsrk(*old(ark_mem)) ==> r == ARK_SUCCESS && *final(stage) == lsrk_mem(*old(ark_mem)).istage && *final(max_stages) == lsrk_mem(*old(ark_mem)).req_stages + 1,
{
    match lsrkStep_AccessStepMem(ark_mem) {
        None => ARK_MEM_NULL,
        Some(sm) => {
            *stage = sm.istage;
            *max_stages = sm.req_stages + 1;
            ARK_SUCCESS
        },
    }
}

/// Number of right-hand side evaluations; LSRKStep has one partition, so a positive
/// partition index is `ARK_ILL_INPUT`.
pub fn lsrkStep_GetNumRhsEvals(ark_mem: &mut ARKodeMem, partition_index: i32, rhs_evals: &mut i64) -> (r: i32)
    ensures
        *final(ark_mem) == *old(ark_mem),
        !is_lsrk(*old(ark_mem)) ==> r == ARK_MEM_NULL && *final(rhs_evals) == *old(rhs_evals),
        is_lsrk(*old(ark_mem)) && partition_index > 0 ==> r == ARK_ILL_INPUT && *final(rhs_evals)
            == *old(rhs_evals),
        is_lsrk(*old(ark_mem)) && partition_index <= 0 ==> r == ARK_SUCCESS && *final(rhs_evals)
            == lsrk_mem(*old(ark_mem)).nfe,
{
    match lsrkStep_AccessStepMem(ark_mem) {
        None => ARK_MEM_NULL,
        Some(sm) => {
            if partition_index > 0 {
                return ARK_ILL_INPUT;
            }
            *rhs_evals = sm.nfe;
            ARK_SUCCESS
        },
    }
}

/// Whether the local error estimate may be read: `ARK_STEPPER_UNSUPPORTED` with fixed
/// steps (no estimate is computed), `ARK_SUCCESS` otherwise (the caller then copies
/// the estimate vector).
pub fn lsrkStep_GetEstLocalErrors(ark_mem: &mut ARKodeMem) -> (r: i32)
    ensures
        *final(ark_mem) == *old(ark_mem),
        !is_lsrk(*old(ark_mem)) ==> r == ARK_MEM_NULL,
        is_lsrk(*old(ark_mem)) ==> r == (if old(ark_mem).opts.fixedstep {
            ARK_STEPPER_UNSUPPORTED
        } else {
            ARK_SUCCESS
        }),
{
    match lsrkStep_AccessStepMem(ark_mem) {
        None => ARK_MEM_NULL,
        Some(_) => if ark_mem.opts.fixedstep {
            ARK_STEPPER_UNSUPPORTED
        } else {
            ARK_SUCCESS
        },
    }
}

/// The integrator once LSRKStep is released: its fused-operation workspace (when
/// allocated) leaves the accounting and the stepper is detached.
pub open spec fn lsrk_free_result(a: ARKodeMem) -> ARKodeMem {
    let rel: int = if is_lsrk(a) && lsrk_mem(a).cvals { lsrk_mem(a).nfusedopvecs as int } else { 0 };
    ARKodeMem {
        lrw: (a.lrw - rel) as i64,
        liw: (a.liw - rel) as i64,
        step_mem: ARKStepMem::NoStepper,
        ..a
    }
}

/// Releases the LSRKStep memory: the fused-operation workspace (if allocated) leaves
/// the accounting, and the integrator is left without a stepper memory.
pub fn lsrkStep_Free(ark_mem: &mut ARKodeMem)
    requires
        is_lsrk(*old(ark_mem)) ==> 0 <= lsrk_mem(*old(ark_mem)).nfusedopvecs,
        ws_margin(*old(ark_mem), 0x8000_0000),
    ensures
        *final(ark_mem) == lsrk_free_result(*old(ark_mem)),
        ({
            let rel: int = if is_lsrk(*old(ark_mem)) && lsrk_mem(*old(ark_mem)).cvals {
                lsrk_mem(*old(ark_mem)).nfusedopvecs as int
            } else {
                0
            };
            &&& final(ark_mem).lrw == old(ark_mem).lrw - rel
            &&& final(ark_mem).liw == old(ark_mem).liw - rel
            &&& *final(ark_mem) == (ARKodeMem {
                lrw: final(ark_mem).lrw,
                liw: final(ark_mem).liw,
                step_mem: ARKStepMem::NoStepper,
                ..*old(ark_mem)
            })
        }),
{
    let rel: i64 = match lsrkStep_AccessStepMem(ark_mem) {
        Some(sm) => if sm.cvals {
            sm.nfusedopvecs as i64
        } else {
            0
        },
        None => 0,
    };
    let lrw = ark_mem.lrw - rel;
    let liw = ark_mem.liw - rel;
    ark_mem.lrw = lrw;
    ark_mem.liw = liw;
    ark_mem.step_mem = ARKStepMem::NoStepper;
}

/// The code and integrator after the dominant-eigenvalue update logic runs.
pub open spec fn dom_eig_update_result(a: ARKodeMem, accepted: bool) -> (i32, ARKodeMem) {
    if !is_lsrk(a) {
        (ARK_MEM_NULL, a)
    } else {
        let sm = lsrk_mem(a);
        if accepted {
            let due = a.counters.nst + 1 >= sm.dom_eig_nst + sm.dom_eig_freq;
            (
                ARK_SUCCESS,
                ARKodeMem {
                    status: ARKodeStatus { fn_is_current: true, ..a.status },
                    step_mem: ARKStepMem::Lsrk(
                        ARKodeLSRKStepMem {
                            dom_eig_is_current: sm.const_Jac,
                            dom_eig_update: due && !sm.const_Jac,
                            ..sm
                        },
                    ),
                    ..a
                },
            )
        } else {
            (
                ARK_SUCCESS,
                with_lsrk(a, ARKodeLSRKStepMem { dom_eig_update: !sm.dom_eig_is_current, ..sm }),
            )
        }
    }
}

/// Updates the dominant-eigenvalue flags after a step attempt.  After an accepted
/// step the right-hand side is current, the eigenvalue stays current only for a
/// constant Jacobian, and an update is requested once `dom_eig_freq` steps have
/// passed since the last estimate (unless it is current); after a rejected step an
/// update is requested unless the eigenvalue is current.
pub fn lsrkStep_DomEigUpdateLogic(ark_mem: &mut ARKodeMem, accepted: bool) -> (r: i32)
    ensures
        (r, *final(ark_mem)) == dom_eig_update_result(*old(ark_mem), accepted),
        !is_lsrk(*old(ark_mem)) ==> r == ARK_MEM_NULL && *final(ark_mem) == *old(ark_mem),
        is_lsrk(*old(ark_mem)) ==> r == ARK_SUCCESS && ({
            let sm = lsrk_mem(*old(ark_mem));
            if accepted {
                let due = old(ark_mem).counters.nst + 1 >= sm.dom_eig_nst + sm.dom_eig_freq;
                *final(ark_mem) == (ARKodeMem {
                    status: ARKodeStatus { fn_is_current: true, ..old(ark_mem).status },
                    step_mem: ARKStepMem::Lsrk(
                        ARKodeLSRKStepMem {
                            dom_eig_is_current: sm.const_Jac,
                            dom_eig_update: due && !sm.const_Jac,
                            ..sm
                        },
                    ),
                    ..*old(ark_mem)
                })
            } else {
                *final(ark_mem) == with_lsrk(
                    *old(ark_mem),
                    ARKodeLSRKStepMem { dom_eig_update: !sm.dom_eig_is_current, ..sm },
                )
            }
        }),
{
    let sm = match lsrkStep_AccessStepMem(ark_mem) {
        None => return ARK_MEM_NULL,
        Some(sm) => sm,
    };
    if accepted {
        let cur = sm.const_Jac;
        let due = ark_mem.counters.nst as i128 + 1 >= sm.dom_eig_nst as i128 + sm.dom_eig_freq as i128;
        let upd = if due { !cur } else { false };
        ark_mem.status = ARKodeStatus { fn_is_current: true, ..ark_mem.status };
        ark_mem.step_mem = ARKStepMem::Lsrk(
            ARKodeLSRKStepMem { dom_eig_is_current: cur, dom_eig_update: upd, ..sm },
        );
    } else {
        ark_mem.step_mem = ARKStepMem::Lsrk(
            ARKodeLSRKStepMem { dom_eig_update: !sm.dom_eig_is_current, ..sm },
        );
    }
    ARK_SUCCESS
}

/// The LSRKStep memory with its optional inputs at their defaults.
pub open spec fn lsrk_defaults(sm: ARKodeLSRKStepMem) -> ARKodeLSRKStepMem {
    ARKodeLSRKStepMem {
        req_stages: 0,
        dom_eig_safety: Decimal { mantissa: 101, exponent: -2i32 },
        dom_eig_freq: DOM_EIG_FREQ_DEFAULT,
        const_Jac: false,
        num_init_warmups: DOM_EIG_NUM_INIT_WARMUPS_DEFAULT,
        num_warmups: DOM_EIG_NUM_WARMUPS_DEFAULT,
        ..sm
    }
}

/// Restores the LSRKStep optional inputs to their defaults (no stages requested, a
/// dominant eigenvalue safety factor of 1.01 recomputed every 25 steps, default
/// warm-ups) and installs the default step size controller.
pub fn lsrkStep_SetDefaults(ark_mem: &mut ARKodeMem) -> (r: i32)
    requires
        is_lsrk(*old(ark_mem)) ==> old(ark_mem).hadapt_mem is Some && hadapt_ctrl_ok(
            old(ark_mem).hadapt_mem->Some_0,
        ) && ws_margin(*old(ark_mem), 0x8_0000_0000),
    ensures
        !is_lsrk(*old(ark_mem)) ==> r == ARK_MEM_NULL && *final(ark_mem) == *old(ark_mem),
        is_lsrk(*old(ark_mem)) ==> ({
            let h = old(ark_mem).hadapt_mem->Some_0;
            &&& r == ARK_SUCCESS
            &&& final(ark_mem).lrw == old(ark_mem).lrw - released_rw(h) + 10
            &&& final(ark_mem).liw == old(ark_mem).liw - released_iw(h) + 1
            &&& *final(ark_mem) == (ARKodeMem {
                lrw: final(ark_mem).lrw,
                liw: final(ark_mem).liw,
                hadapt_mem: Some(
                    ARKodeHAdaptMem {
                        usercontrol: None,
                        hcontroller: Some(default_controller()),
                        owncontroller: true,
                        ..h
                    },
                ),
                step_mem: ARKStepMem::Lsrk(lsrk_defaults(lsrk_mem(*old(ark_mem)))),
                ..*old(ark_mem)
            })
        }),
        is_lsrk(*old(ark_mem)) ==> hadapt_ctrl_ok(final(ark_mem).hadapt_mem->Some_0),
{
    let sm = match lsrkStep_AccessStepMem(ark_mem) {
        None => return ARK_MEM_NULL,
        Some(sm) => sm,
    };
    let nsm = ARKodeLSRKStepMem {
        req_stages: 0,
        dom_eig_safety: dec(101, -2),
        dom_eig_freq: DOM_EIG_FREQ_DEFAULT,
        const_Jac: false,
        num_init_warmups: DOM_EIG_NUM_INIT_WARMUPS_DEFAULT,
        num_warmups: DOM_EIG_NUM_WARMUPS_DEFAULT,
        ..sm
    };
    ark_mem.step_mem = ARKStepMem::Lsrk(nsm);
    let retval = arkReplaceAdaptController(ark_mem, None, true);
    if retval != 0 {
        return retval;
    }
    ARK_SUCCESS
}

/// Initializes the dominant eigenvalue estimator: its initialize result, then the
/// preprocessing iteration count.
pub open spec fn dee_init_code(d: SUNDomEigEstimator) -> i32 {
    if d.initialize_flag != 0 || d.set_iters_flag != 0 {
        ARK_DEE_FAIL
    } else {
        ARK_SUCCESS
    }
}

/// The integrator options at a first initialization: with fixed steps and
/// internal error weights the smallest-real weights are installed.
pub open spec fn init_opts(o: ARKodeOptions) -> ARKodeOptions {
    if o.fixedstep && !o.user_efun {
        ARKodeOptions { user_efun: false, efun: ARKEwtFn::SmallReal, ..o }
    } else {
        o
    }
}

/// The integrator after a successful first initialization of LSRKStep: the
/// fused-operation workspace is counted once, an attached estimator holds the
/// initial preprocessing count, and full right-hand side evaluations are requested.
pub open spec fn lsrk_init_result(a: ARKodeMem) -> ARKodeMem {
    let sm = lsrk_mem(a);
    let add: int = if sm.cvals { 0 } else { sm.nfusedopvecs as int };
    ARKodeMem {
        lrw: (a.lrw + add) as i64,
        liw: (a.liw + add) as i64,
        opts: init_opts(a.opts),
        status: ARKodeStatus { call_fullrhs: true, ..a.status },
        step_mem: ARKStepMem::Lsrk(
            ARKodeLSRKStepMem {
                cvals: true,
                DEE: match sm.DEE {
                    Some(d) => Some(
                        SUNDomEigEstimator { num_preprocess_iters: sm.num_init_warmups, ..d },
                    ),
                    None => None,
                },
                ..sm
            },
        ),
        ..a
    }
}

/// Prepares LSRKStep for stepping (first initialization only; resize and reset
/// initializations do nothing).  With fixed steps and internal error weights the
/// smallest-real weights are installed.  STS methods need a dominant eigenvalue
/// function or estimator (`ARK_DOMEIG_FAIL`); an attached estimator is initialized
/// and given the initial preprocessing count (`ARK_DEE_FAIL` when it refuses).  The
/// fused-operation workspace is then allocated once and full right-hand side
/// evaluations are requested.
#[verifier::spinoff_prover]
#[verifier::rlimit(50)]
pub fn lsrkStep_Init(ark_mem: &mut ARKodeMem, init_type: i32) -> (r: i32)
    requires
        is_lsrk(*old(ark_mem)) ==> 0 <= lsrk_mem(*old(ark_mem)).nfusedopvecs,
        ws_margin(*old(ark_mem), 0x8000_0000),
    ensures
        !is_lsrk(*old(ark_mem)) ==> r == ARK_MEM_NULL && *final(ark_mem) == *old(ark_mem),
        is_lsrk(*old(ark_mem)) && (init_type == RESIZE_INIT || init_type == RESET_INIT) ==> r
            == ARK_SUCCESS && *final(ark_mem) == *old(ark_mem),
        is_lsrk(*old(ark_mem)) && init_type != RESIZE_INIT && init_type != RESET_INIT ==> ({
            let sm = lsrk_mem(*old(ark_mem));
            let a1 = ARKodeMem { opts: init_opts(old(ark_mem).opts), ..*old(ark_mem) };
            if !sm.is_SSP && !sm.dom_eig_fn && sm.DEE is None {
                r == ARK_DOMEIG_FAIL && *final(ark_mem) == a1
            } else if sm.DEE is Some && dee_init_code(sm.DEE->Some_0) != ARK_SUCCESS {
                r == ARK_DEE_FAIL && *final(ark_mem) == a1
            } else {
                let add: int = if sm.cvals { 0 } else { sm.nfusedopvecs as int };
                &&& r == ARK_SUCCESS
                &&& final(ark_mem).lrw == old(ark_mem).lrw + add
                &&& final(ark_mem).liw == old(ark_mem).liw + add
                &&& *final(ark_mem) == lsrk_init_result(*old(ark_mem))
            }
        }),
{
    let sm = match lsrkStep_AccessStepMem(ark_mem) {
        None => return ARK_MEM_NULL,
        Some(sm) => sm,
    };
    if init_type == RESIZE_INIT || init_type == RESET_INIT {
        return ARK_SUCCESS;
    }
    if ark_mem.opts.fixedstep && !ark_mem.opts.user_efun {
        ark_mem.opts = ARKodeOptions { user_efun: false, efun: ARKEwtFn::SmallReal, ..ark_mem.opts };
    }
    if !sm.is_SSP && !sm.dom_eig_fn && sm.DEE.is_none() {
        return ARK_DOMEIG_FAIL;
    }
    let dee = match sm.DEE {
        Some(d) => {
            if d.initialize_flag != 0 {
                return ARK_DEE_FAIL;
            }
            let mut d2 = d;
            let rv = SUNDomEigEstimator_SetNumPreprocessIters(&mut d2, sm.num_init_warmups);
            if rv != 0 {
                return ARK_DEE_FAIL;
            }
            Some(d2)
        },
        None => None,
    };
    let add: i64 = if sm.cvals { 0 } else { sm.nfusedopvecs as i64 };
    let lrw = ark_mem.lrw + add;
    let liw = ark_mem.liw + add;
    ark_mem.lrw = lrw;
    ark_mem.liw = liw;
    ark_mem.status = ARKodeStatus { call_fullrhs: true, ..ark_mem.status };
    ark_mem.step_mem = ARKStepMem::Lsrk(ARKodeLSRKStepMem { cvals: true, DEE: dee, ..sm });
    ARK_SUCCESS
}

} // verus!

//! MRIStep's own optional inputs and outputs, reached through the integrator's:
//! defaults, method order, predictor, right-hand side counts and the local error
//! estimate.
use vstd::prelude::*;
use crate::consts::{ARK_SUCCESS, ARK_ILL_INPUT, ARK_MEM_NULL, ARK_STEPPER_UNSUPPORTED, ARK_ACCUMERROR_NONE};
use crate::arkode::{ARKodeMem, ARKodeHAdaptMem, ws_margin};
use crate::adapt::{arkReplaceAdaptController, hadapt_ctrl_ok, released_rw, released_iw, default_controller};
use crate::stepper::ARKStepMem;
use crate::ls::arkLSSetUserData;
use crate::mri::{
    ARKodeMRIStepMem, MRIMethodInfo, is_mri, mri_mem, with_mri, coupling_ok, coupling_lrw,
    coupling_liw, lemma_coupling_words, MRIStepCoupling_Space,
};

verus! {

/// Real and integer words of MRIStep's coupling table (none without one).
pub open spec fn table_words(sm: ARKodeMRIStepMem) -> (int, int) {
    match sm.MRIC {
        Some(c) => (coupling_lrw(c), coupling_liw(c)),
        None => (0, 0),
    }
}

/// MRIStep memory with its optional inputs at their defaults: method order 3, no
/// embedding, trivial predictor, no stages, no current Jacobian, and no coupling
/// table (one is chosen again at initialization).
pub open spec fn mri_defaults(sm: ARKodeMRIStepMem) -> ARKodeMRIStepMem {
    ARKodeMRIStepMem {
        method: MRIMethodInfo { q: 3, p: 0, predictor: 0, stages: 0, istage: 0, jcur: false, ..sm.method },
        MRIC: None,
        ..sm
    }
}

/// The integrator after MRIStep restores its defaults: the coupling table's
/// workspace is released, and the default step size controller replaces the
/// current ones (whose workspace is released when owned).
pub open spec fn mri_set_defaults_result(a: ARKodeMem) -> ARKodeMem {
    let sm = mri_mem(a);
    let h = a.hadapt_mem->Some_0;
    let tw = table_words(sm);
    let dc = default_controller();
    ARKodeMem {
        lrw: (a.lrw - tw.0 - released_rw(h) + dc.lenrw) as i64,
        liw: (a.liw - tw.1 - released_iw(h) + dc.leniw) as i64,
        hadapt_mem: Some(
            ARKodeHAdaptMem { usercontrol: None, hcontroller: Some(dc), owncontroller: true, ..h },
        ),
        step_mem: ARKStepMem::Mri(mri_defaults(sm)),
        ..a
    }
}

/// What MRIStep's defaults need: adaptivity memory with controllers and table
/// within limits, and room in the workspace counts.
pub open spec fn mri_defaults_ok(a: ARKodeMem) -> bool {
    &&& a.hadapt_mem is Some
    &&& hadapt_ctrl_ok(a.hadapt_mem->Some_0)
    &&& (mri_mem(a).MRIC matches Some(c) ==> coupling_ok(c))
    &&& ws_margin(a, 0x10_0000_0000)
}

/// Restores MRIStep's optional inputs to their defaults, removes its coupling
/// table and installs the default step size controller; `ARK_MEM_NULL` for
/// another stepper.
pub fn mriStep_SetDefaults(ark_mem: &mut ARKodeMem) -> (r: i32)
    requires
        is_mri(*old(ark_mem)) ==> mri_defaults_ok(*old(ark_mem)),
    ensures
        !is_mri(*old(ark_mem)) ==> r == ARK_MEM_NULL && *final(ark_mem) == *old(ark_mem),
        is_mri(*old(ark_mem)) ==> r == ARK_SUCCESS && *final(ark_mem) == mri_set_defaults_result(
            *old(ark_mem),
        ),
{
    let (lw, rw) = match &ark_mem.step_mem {
        ARKStepMem::Mri(sm) => {
            match &sm.MRIC {
                Some(c) => {
                    proof {
                        lemma_coupling_words(*c);
                    }
                    MRIStepCoupling_Space(Some(c))
                },
                None => (0i64, 0i64),
            }
        },
        _ => {
            return ARK_MEM_NULL;
        },
    };
    let lrw = ark_mem.lrw - rw;
    let liw = ark_mem.liw - lw;
    ark_mem.lrw = lrw;
    ark_mem.liw = liw;
    match &mut ark_mem.step_mem {
        ARKStepMem::Mri(sm) => {
            sm.method = MRIMethodInfo {
                q: 3,
                p: 0,
                predictor: 0,
                stages: 0,
                istage: 0,
                jcur: false,
                ..sm.method
            };
            sm.MRIC = None;
        },
        _ => {},
    }
    arkReplaceAdaptController(ark_mem, None, true)
}

/// Sets the method order (a non-positive value restores 3).  The coupling table is
/// removed, with its workspace, so that one of the new order is chosen at
/// initialization; the stage count and embedding order are cleared.
/// `ARK_MEM_NULL` for another stepper.
pub fn mriStep_SetOrder(ark_mem: &mut ARKodeMem, ord: i32) -> (r: i32)
    requires
        is_mri(*old(ark_mem)) ==> (mri_mem(*old(ark_mem)).MRIC matches Some(c) ==> coupling_ok(c)),
        ws_margin(*old(ark_mem), 0x10_0000_0000),
    ensures
        !is_mri(*old(ark_mem)) ==> r == ARK_MEM_NULL && *final(ark_mem) == *old(ark_mem),
        is_mri(*old(ark_mem)) ==> {
            let sm = mri_mem(*old(ark_mem));
            let tw = table_words(sm);
            &&& r == ARK_SUCCESS
            &&& *final(ark_mem) == (ARKodeMem {
                lrw: (old(ark_mem).lrw - tw.0) as i64,
                liw: (old(ark_mem).liw - tw.1) as i64,
                step_mem: ARKStepMem::Mri(
                    ARKodeMRIStepMem {
                        method: MRIMethodInfo {
                            q: if ord <= 0 { 3 } else { ord },
                            stages: 0,
                            p: 0,
                            ..sm.method
                        },
                        MRIC: None,
                        ..sm
                    },
                ),
                ..*old(ark_mem)
            })
        },
{
    let (lw, rw) = match &ark_mem.step_mem {
        ARKStepMem::Mri(sm) => {
            match &sm.MRIC {
                Some(c) => {
                    proof {
                        lemma_coupling_words(*c);
                    }
                    MRIStepCoupling_Space(Some(c))
                },
                None => (0i64, 0i64),
            }
        },
        _ => {
            return ARK_MEM_NULL;
        },
    };
    let lrw = ark_mem.lrw - rw;
    let liw = ark_mem.liw - lw;
    ark_mem.lrw = lrw;
    ark_mem.liw = liw;
    match &mut ark_mem.step_mem {
        ARKStepMem::Mri(sm) => {
            sm.method = MRIMethodInfo {
                q: if ord <= 0 { 3 } else { ord },
                stages: 0,
                p: 0,
                ..sm.method
            };
            sm.MRIC = None;
        },
        _ => {},
    }
    ARK_SUCCESS
}

/// Selects the implicit stage predictor; `ARK_MEM_NULL` for another stepper.
pub fn mriStep_SetPredictorMethod(ark_mem: &mut ARKodeMem, pred_method: i32) -> (r: i32)
    ensures
        !is_mri(*old(ark_mem)) ==> r == ARK_MEM_NULL && *final(ark_mem) == *old(ark_mem),
        is_mri(*old(ark_mem)) ==> r == ARK_SUCCESS && *final(ark_mem) == with_mri(
            *old(ark_mem),
            ARKodeMRIStepMem {
                method: MRIMethodInfo { predictor: pred_method, ..mri_mem(*old(ark_mem)).method },
                ..mri_mem(*old(ark_mem))
            },
        ),
{
    match &mut ark_mem.step_mem {
        ARKStepMem::Mri(sm) => {
            sm.method = MRIMethodInfo { predictor: pred_method, ..sm.method };
            ARK_SUCCESS
        },
        _ => ARK_MEM_NULL,
    }
}

/// Slow right-hand side evaluations: partition 0 the explicit, 1 the implicit, a
/// negative index both together; a larger index is `ARK_ILL_INPUT`.
/// `ARK_MEM_NULL` for another stepper.
pub fn mriStep_GetNumRhsEvals(ark_mem: &ARKodeMem, partition_index: i32, rhs_evals: &mut i64) -> (r: i32)
    requires
        is_mri(*ark_mem) ==> mri_mem(*ark_mem).nfse + mri_mem(*ark_mem).nfsi <= i64::MAX
            && mri_mem(*ark_mem).nfse + mri_mem(*ark_mem).nfsi >= i64::MIN,
    ensures
        !is_mri(*ark_mem) ==> r == ARK_MEM_NULL && *final(rhs_evals) == *old(rhs_evals),
        is_mri(*ark_mem) && partition_index > 1 ==> r == ARK_ILL_INPUT && *final(rhs_evals)
            == *old(rhs_evals),
        is_mri(*ark_mem) && partition_index <= 1 ==> r == ARK_SUCCESS && *final(rhs_evals) == (
        if partition_index == 0 {
            mri_mem(*ark_mem).nfse as int
        } else if partition_index == 1 {
            mri_mem(*ark_mem).nfsi as int
        } else {
            mri_mem(*ark_mem).nfse + mri_mem(*ark_mem).nfsi
        }),
{
    match &ark_mem.step_mem {
        ARKStepMem::Mri(sm) => {
            if partition_index > 1 {
                return ARK_ILL_INPUT;
            }
            *rhs_evals = if partition_index == 0 {
                sm.nfse
            } else if partition_index == 1 {
                sm.nfsi
            } else {
                sm.nfse + sm.nfsi
            };
            ARK_SUCCESS
        },
        _ => ARK_MEM_NULL,
    }
}

/// Whether MRIStep estimates its local error (and so may report it): not with
/// fixed steps and no error accumulation, nor with a table without embedding.
/// `ARK_MEM_NULL` for another stepper.
pub fn mriStep_GetEstLocalErrors(ark_mem: &ARKodeMem) -> (r: i32)
    ensures
        !is_mri(*ark_mem) ==> r == ARK_MEM_NULL,
        is_mri(*ark_mem) ==> r == (if (ark_mem.opts.fixedstep && ark_mem.opts.AccumErrorType
            == ARK_ACCUMERROR_NONE) || mri_mem(*ark_mem).method.p <= 0 {
            ARK_STEPPER_UNSUPPORTED
        } else {
            ARK_SUCCESS
        }),
{
    match &ark_mem.step_mem {
        ARKStepMem::Mri(sm) => {
            if (ark_mem.opts.fixedstep && ark_mem.opts.AccumErrorType == ARK_ACCUMERROR_NONE)
                || sm.method.p <= 0 {
                ARK_STEPPER_UNSUPPORTED
            } else {
                ARK_SUCCESS
            }
        },
        _ => ARK_MEM_NULL,
    }
}

/// Hands the integrator's user data on to MRIStep's system solver interface, when
/// one is attached (which keeps no copy, so nothing changes).  `ARK_MEM_NULL` for
/// another stepper.
pub fn mriStep_SetUserData(ark_mem: &mut ARKodeMem) -> (r: i32)
    ensures
        !is_mri(*old(ark_mem)) ==> r == ARK_MEM_NULL,
        is_mri(*old(ark_mem)) ==> r == ARK_SUCCESS,
        *final(ark_mem) == *old(ark_mem),
{
    match &ark_mem.step_mem {
        ARKStepMem::Mri(_) => {},
        _ => {
            return ARK_MEM_NULL;
        },
    }
    if ark_mem.lmem.is_some() {
        let retval = arkLSSetUserData(ark_mem);
        if retval != ARK_SUCCESS {
            return retval;
        }
    }
    ARK_SUCCESS
}

} // verus!

//! The time stepper module attached to an integrator.
use vstd::prelude::*;

verus! {

/// The memory of the attached time stepper module.
pub enum ARKStepMem {
    NoStepper,
    Lsrk(crate::lsrk::ARKodeLSRKStepMem),
    Mri(crate::mri::ARKodeMRIStepMem),
}

} // verus!

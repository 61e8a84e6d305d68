#![allow(non_snake_case)]
#![allow(non_camel_case_types)]
#![allow(non_upper_case_globals)]

pub mod consts;
pub mod decimal;
pub mod arkode;
pub mod interp;
pub mod stepper;
pub mod lsrk;
pub mod mri;
pub mod mri_init;
pub mod mri_io;
pub mod mri_stage;
pub mod ls;
pub mod io;
pub mod adapt;
pub mod report;
pub mod properties;
pub mod guarantees;
pub mod release;

//! Return codes and integer constants shared by the ARKODE modules.
use vstd::prelude::*;

verus! {

/* ARKODE return codes */
pub const ARK_SUCCESS: i32 = 0;
pub const ARK_WARNING: i32 = 99;
pub const ARK_RHSFUNC_FAIL: i32 = -8;
pub const ARK_MEM_FAIL: i32 = -20;
pub const ARK_MEM_NULL: i32 = -21;
pub const ARK_ILL_INPUT: i32 = -22;
pub const ARK_NO_MALLOC: i32 = -23;
pub const ARK_LINIT_FAIL: i32 = -5;
pub const ARK_NLS_INIT_FAIL: i32 = -29;
pub const ARK_INNERSTEP_FAIL: i32 = -34;
pub const ARK_USER_PREDICT_FAIL: i32 = -39;
pub const ARK_INTERP_FAIL: i32 = -40;
pub const ARK_INVALID_TABLE: i32 = -41;
pub const ARK_CONTROLLER_ERR: i32 = -47;
pub const ARK_STEPPER_UNSUPPORTED: i32 = -48;
pub const ARK_DOMEIG_FAIL: i32 = -49;
pub const ARK_SUNSTEPPER_ERR: i32 = -51;
pub const ARK_DEE_FAIL: i32 = -56;

/* recoverable stage failure signal */
pub const TRY_AGAIN: i32 = 5;

/* ARKLS return codes */
pub const ARKLS_SUCCESS: i32 = 0;
pub const ARKLS_MEM_NULL: i32 = -1;
pub const ARKLS_LMEM_NULL: i32 = -2;
pub const ARKLS_ILL_INPUT: i32 = -3;
pub const ARKLS_MEM_FAIL: i32 = -4;
pub const ARKLS_PMEM_NULL: i32 = -5;
pub const ARKLS_MASSMEM_NULL: i32 = -6;
pub const ARKLS_JACFUNC_UNRECVR: i32 = -7;
pub const ARKLS_JACFUNC_RECVR: i32 = -8;
pub const ARKLS_MASSFUNC_UNRECVR: i32 = -9;
pub const ARKLS_MASSFUNC_RECVR: i32 = -10;
pub const ARKLS_SUNMAT_FAIL: i32 = -11;
pub const ARKLS_SUNLS_FAIL: i32 = -12;

/* default maximum number of steps between Jacobian evaluations */
pub const ARKLS_MSBJ: i64 = 51;

/* tolerance types */
pub const ARK_SS: i32 = 0;
pub const ARK_SV: i32 = 1;
pub const ARK_WF: i32 = 2;

/* integrator defaults */
pub const MXSTEP_DEFAULT: i64 = 500;
pub const MXHNIL: i32 = 10;
pub const MAXNEF: i32 = 7;
pub const MAXNCF: i32 = 10;
pub const MAXCONSTRFAILS: i32 = 10;

/* time step adaptivity defaults */
pub const SMALL_NEF: i32 = 2;
pub const PQ: i32 = 0;
pub const ADJUST: i32 = -1;

/* workspace of the time step adaptivity structure */
pub const ARK_ADAPT_LRW: i64 = 19;
pub const ARK_ADAPT_LIW: i64 = 8;

/* interpolation modules */
pub const ARK_INTERP_MAX_DEGREE: i32 = 5;
pub const ARK_INTERP_HERMITE: i32 = 0;
pub const ARK_INTERP_LAGRANGE: i32 = 1;
pub const ARK_INTERP_NONE: i32 = -1;

/* initialization types */
pub const FIRST_INIT: i32 = 0;
pub const RESIZE_INIT: i32 = 1;
pub const RESET_INIT: i32 = 2;

/* accumulated temporal error estimation types */
pub const ARK_ACCUMERROR_NONE: i32 = 0;
pub const ARK_ACCUMERROR_MAX: i32 = 1;
pub const ARK_ACCUMERROR_SUM: i32 = 2;
pub const ARK_ACCUMERROR_AVG: i32 = 3;

/* SUNLinearSolver types */
pub const SUNLINEARSOLVER_DIRECT: i32 = 0;
pub const SUNLINEARSOLVER_ITERATIVE: i32 = 1;
pub const SUNLINEARSOLVER_MATRIX_ITERATIVE: i32 = 2;
pub const SUNLINEARSOLVER_MATRIX_EMBEDDED: i32 = 3;

/* SUNMatrix identifiers */
pub const SUNMATRIX_DENSE: i32 = 0;
pub const SUNMATRIX_BAND: i32 = 1;
pub const SUNMATRIX_SPARSE: i32 = 2;
pub const SUNMATRIX_CUSTOM: i32 = 5;

/* SUNAdaptController types */
pub const SUN_ADAPTCONTROLLER_NONE: i32 = 0;
pub const SUN_ADAPTCONTROLLER_H: i32 = 1;
pub const SUN_ADAPTCONTROLLER_MRI_H_TOL: i32 = 2;

/* output formats */
pub const SUN_OUTPUTFORMAT_TABLE: i32 = 0;
pub const SUN_OUTPUTFORMAT_CSV: i32 = 1;

/* why the nonlinear solver asks for a new linear system setup */
pub const ARK_NO_FAILURES: i32 = 0;
pub const ARK_FAIL_BAD_J: i32 = 1;
pub const ARK_FAIL_OTHER: i32 = 2;

/* built-in step size adaptivity methods */
pub const ARK_ADAPT_PID: i32 = 0;
pub const ARK_ADAPT_PI: i32 = 1;
pub const ARK_ADAPT_I: i32 = 2;
pub const ARK_ADAPT_EXP_GUS: i32 = 3;
pub const ARK_ADAPT_IMP_GUS: i32 = 4;
pub const ARK_ADAPT_IMEX_GUS: i32 = 5;

} // verus!


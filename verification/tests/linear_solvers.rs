use arkode_rs::arkode::{arkCreate, ARKodeMem};
use arkode_rs::consts::{
    ARKLS_ILL_INPUT, ARKLS_LMEM_NULL, ARKLS_MASSMEM_NULL, ARKLS_MSBJ, ARKLS_SUCCESS,
    ARK_STEPPER_UNSUPPORTED, ARK_SUCCESS, SUNLINEARSOLVER_DIRECT, SUNLINEARSOLVER_ITERATIVE,
    SUNLINEARSOLVER_MATRIX_EMBEDDED, SUNLINEARSOLVER_MATRIX_ITERATIVE, SUNMATRIX_DENSE,
    SUNMATRIX_SPARSE,
};
use arkode_rs::decimal::dec;
use arkode_rs::ls::{ARKodeSetEpsLin, ARKodeSetMassEpsLin};
use arkode_rs::ls::{
    arkLsFree, arkLsInitialize, arkLsMTimes, arkLsMassFree, arkLsMassInitialize,
    ARKRhsSource, ARKodeGetCurrentMassMatrix, ARKodeGetJac, ARKodeGetJacNumSteps,
    ARKodeGetLastLinFlag, ARKodeGetLastMassFlag, ARKodeGetLinReturnFlagName,
    ARKodeGetLinWorkSpace, ARKodeGetMassWorkSpace, ARKodeSetJacEvalFrequency, ARKodeSetJacFn,
    ARKodeSetJacTimes, ARKodeSetJacTimesRhsFn, ARKodeSetLinSysFn, ARKodeSetLinearSolutionScaling,
    ARKodeSetLinearSolver, ARKodeSetMassFn, ARKodeSetMassLinearSolver,
    ARKodeSetMassPreconditioner, ARKodeSetMassTimes, ARKodeSetPreconditioner, SUNLinearSolver,
    SUNMatrix,
};
use arkode_rs::mri::{
    ARKodeMRIStepMem, MRIMethodInfo, MRISolvers, MRIStepInnerStepper_CreateFromSUNStepper,
    MRIWorkspace,
};
use arkode_rs::stepper::ARKStepMem;
use arkode_rs::report::{mriStep_PrintAllStats, ARKodePrintAllStats, Stat};
use arkode_rs::ls::{arkLsSetupAfterLinSys, arkLsSetupAfterPSetup, arkLsSetupDecision};
use arkode_rs::consts::{ARK_FAIL_BAD_J, ARK_FAIL_OTHER, ARK_NO_FAILURES};

fn solver(ls_type: i32) -> SUNLinearSolver {
    SUNLinearSolver { ls_type, lenrw: 5, leniw: 2, init_flag: 0 }
}

fn dense() -> SUNMatrix {
    SUNMatrix { id: SUNMATRIX_DENSE, lenrw: 100, leniw: 3 }
}

/// An MRIStep integrator for a problem of ten components.
fn mri_integrator(implicit: bool) -> ARKodeMem {
    let mut a = arkCreate();
    a.stepper.supports_implicit = true;
    a.lrw1 = 10;
    a.liw1 = 1;
    a.step_mem = ARKStepMem::Mri(ARKodeMRIStepMem {
        method: MRIMethodInfo {
            explicit_rhs: !implicit,
            implicit_rhs: implicit,
            q: 2,
            p: 0,
            stages: 0,
            istage: 0,
            predictor: 0,
            nforcing: 0,
            expforcing: false,
            impforcing: false,
            fse_is_current: false,
            fsi_is_current: false,
            unify_Fs: false,
            jcur: false,
            inner_rtol_factor: dec(0, 0),
        },
        work: MRIWorkspace {
            Fse: false,
            Fsi: false,
            nstages_active: 0,
            nstages_allocated: 0,
            Ae_row: false,
            Ai_row: false,
            cvals: false,
            nfusedopvecs: 0,
            sdata: false,
            zpred: false,
            zcor: false,
        },
        solvers: MRISolvers {
            NLS: false,
            ownNLS: false,
            linit: false,
            lsetup: false,
            lsolve: false,
            lfree: false,
            nsetups: 0,
            nstlp: 0,
        },
        stepper: MRIStepInnerStepper_CreateFromSUNStepper(),
        MRIC: None,
        stage_map: vec![],
        stagetypes: vec![],
        nfse: 0,
        nfsi: 0,
        nls_iters: 0,
        nls_fails: 0,
        inner_fails: 0,
    });
    a
}

fn solvers(a: &ARKodeMem) -> MRISolvers {
    match &a.step_mem {
        ARKStepMem::Mri(s) => s.solvers,
        _ => panic!("not an MRIStep integrator"),
    }
}

/// An integrator whose stepper supports mass matrices.
fn mass_integrator() -> ARKodeMem {
    let mut a = arkCreate();
    a.stepper.supports_massmatrix = true;
    a.stepper.massops = true;
    a.lrw1 = 10;
    a.liw1 = 1;
    a
}

#[test]
fn linear_solver_refusals() {
    let mut plain = arkCreate();
    assert_eq!(ARKodeSetLinearSolver(&mut plain, solver(SUNLINEARSOLVER_DIRECT), Some(dense())), ARK_STEPPER_UNSUPPORTED);
    let mut a = mri_integrator(true);
    let before = (a.lrw, a.liw);
    /* a direct solver needs a matrix, a matrix-embedded one takes none */
    assert_eq!(ARKodeSetLinearSolver(&mut a, solver(SUNLINEARSOLVER_DIRECT), None), ARKLS_ILL_INPUT);
    assert_eq!(ARKodeSetLinearSolver(&mut a, solver(SUNLINEARSOLVER_MATRIX_EMBEDDED), Some(dense())), ARKLS_ILL_INPUT);
    assert_eq!(ARKodeSetLinearSolver(&mut a, solver(SUNLINEARSOLVER_MATRIX_ITERATIVE), None), ARKLS_ILL_INPUT);
    assert_eq!((a.lrw, a.liw), before);
    assert!(a.lmem.is_none());
    /* no implicit right-hand side */
    let mut e = mri_integrator(false);
    assert_eq!(ARKodeSetLinearSolver(&mut e, solver(SUNLINEARSOLVER_ITERATIVE), None), ARKLS_ILL_INPUT);
    /* a stepper without the attach operations */
    let mut n = arkCreate();
    n.stepper.supports_implicit = true;
    assert_eq!(ARKodeSetLinearSolver(&mut n, solver(SUNLINEARSOLVER_ITERATIVE), None), ARKLS_ILL_INPUT);
}

#[test]
fn linear_solver_attach_and_release() {
    let mut a = mri_integrator(true);
    let (lrw, liw) = (a.lrw, a.liw);
    assert_eq!(ARKodeSetLinearSolver(&mut a, solver(SUNLINEARSOLVER_DIRECT), Some(dense())), ARKLS_SUCCESS);
    assert_eq!((a.lrw, a.liw), (lrw + 20, liw + 2));
    let l = a.lmem.unwrap();
    assert!(!l.iterative && l.matrixbased && l.jacDQ && l.scalesol && l.jtimesDQ);
    assert_eq!(l.msbj, ARKLS_MSBJ);
    assert_eq!(l.fns.Jt_f, Some(ARKRhsSource::StepperImplicit));
    let s = solvers(&a);
    assert!(s.linit && s.lsetup && s.lsolve && s.lfree);
    /* attaching again replaces the interface: the accounting holds two vectors */
    assert_eq!(ARKodeSetLinearSolver(&mut a, solver(SUNLINEARSOLVER_ITERATIVE), None), ARKLS_SUCCESS);
    assert_eq!((a.lrw, a.liw), (lrw + 20, liw + 2));
    assert!(a.lmem.unwrap().iterative && !a.lmem.unwrap().matrixbased);
    assert_eq!(arkLsFree(&mut a), ARKLS_SUCCESS);
    assert_eq!((a.lrw, a.liw), (lrw, liw));
    assert!(a.lmem.is_none());
    /* releasing again changes nothing */
    assert_eq!(arkLsFree(&mut a), ARKLS_SUCCESS);
    assert_eq!((a.lrw, a.liw), (lrw, liw));
}

#[test]
fn linear_solver_optional_inputs() {
    let mut plain = arkCreate();
    assert_eq!(ARKodeSetJacEvalFrequency(&mut plain, 3), ARK_STEPPER_UNSUPPORTED);
    let mut a = mri_integrator(true);
    assert_eq!(ARKodeSetJacEvalFrequency(&mut a, 3), ARKLS_LMEM_NULL);
    ARKodeSetLinearSolver(&mut a, solver(SUNLINEARSOLVER_DIRECT), Some(dense()));
    assert_eq!(ARKodeSetJacEvalFrequency(&mut a, 7), ARKLS_SUCCESS);
    assert_eq!(a.lmem.unwrap().msbj, 7);
    assert_eq!(ARKodeSetJacEvalFrequency(&mut a, -2), ARKLS_SUCCESS);
    assert_eq!(a.lmem.unwrap().msbj, ARKLS_MSBJ);
    assert_eq!(ARKodeSetLinearSolutionScaling(&mut a, false), ARKLS_SUCCESS);
    assert!(!a.lmem.unwrap().scalesol);
    assert_eq!(ARKodeSetJacFn(&mut a, true), ARKLS_SUCCESS);
    assert!(!a.lmem.unwrap().jacDQ && a.lmem.unwrap().fns.jac);
    assert_eq!(ARKodeSetLinSysFn(&mut a, true), ARKLS_SUCCESS);
    assert!(a.lmem.unwrap().user_linsys);
    /* a direct solver takes no preconditioner or products */
    assert_eq!(ARKodeSetPreconditioner(&mut a, true, true), ARKLS_ILL_INPUT);
    assert_eq!(ARKodeSetJacTimes(&mut a, false, true), ARKLS_ILL_INPUT);
    /* a matrix-free iterative solver */
    let mut b = mri_integrator(true);
    ARKodeSetLinearSolver(&mut b, solver(SUNLINEARSOLVER_ITERATIVE), None);
    assert_eq!(ARKodeSetLinearSolutionScaling(&mut b, true), ARKLS_ILL_INPUT);
    assert_eq!(ARKodeSetJacFn(&mut b, true), ARKLS_ILL_INPUT);
    assert_eq!(ARKodeSetLinSysFn(&mut b, true), ARKLS_ILL_INPUT);
    assert_eq!(ARKodeSetPreconditioner(&mut b, true, true), ARKLS_SUCCESS);
    assert!(b.lmem.unwrap().fns.pset && b.lmem.unwrap().fns.psolve);
    assert_eq!(ARKodeSetJacTimesRhsFn(&mut b, true), ARKLS_SUCCESS);
    assert_eq!(b.lmem.unwrap().fns.Jt_f, Some(ARKRhsSource::User));
    assert_eq!(ARKodeSetJacTimes(&mut b, true, true), ARKLS_SUCCESS);
    assert!(!b.lmem.unwrap().jtimesDQ);
    /* the difference quotient is no longer in use */
    assert_eq!(ARKodeSetJacTimesRhsFn(&mut b, true), ARKLS_ILL_INPUT);
    assert_eq!(ARKodeSetJacTimes(&mut b, false, false), ARKLS_SUCCESS);
    let l = b.lmem.unwrap();
    assert!(l.jtimesDQ && !l.fns.jtimes);
    assert_eq!(l.fns.Jt_f, Some(ARKRhsSource::StepperImplicit));
}

#[test]
fn linear_solver_initialization() {
    let mut none = mri_integrator(true);
    assert_eq!(arkLsInitialize(&mut none), ARKLS_LMEM_NULL);
    let mut a = mri_integrator(true);
    let mut ls = solver(SUNLINEARSOLVER_DIRECT);
    ls.init_flag = 0;
    ARKodeSetLinearSolver(&mut a, ls, Some(dense()));
    let (mut rw, mut iw) = (0, 0);
    assert_eq!(ARKodeGetLinWorkSpace(&mut a, &mut rw, &mut iw), ARKLS_SUCCESS);
    assert_eq!((rw, iw), (3 + 20 + 5, 30 + 2 + 2));
    assert_eq!(arkLsInitialize(&mut a), ARKLS_SUCCESS);
    let l = a.lmem.unwrap();
    assert_eq!(l.savedJ, Some(dense()));
    assert!(solvers(&a).lsetup);
    /* the saved Jacobian joins the workspace */
    assert_eq!(ARKodeGetLinWorkSpace(&mut a, &mut rw, &mut iw), ARKLS_SUCCESS);
    assert_eq!((rw, iw), (128, 37));
    let mut j = None;
    assert_eq!(ARKodeGetJac(&mut a, &mut j), ARKLS_SUCCESS);
    assert_eq!(j, Some(dense()));
    let mut nst = -1;
    assert_eq!(ARKodeGetJacNumSteps(&mut a, &mut nst), ARKLS_SUCCESS);
    assert_eq!(nst, 0);
    /* the difference-quotient Jacobian cannot fill a sparse matrix */
    let mut b = mri_integrator(true);
    ARKodeSetLinearSolver(&mut b, solver(SUNLINEARSOLVER_DIRECT), Some(SUNMatrix { id: SUNMATRIX_SPARSE, lenrw: 1, leniw: 1 }));
    assert_eq!(arkLsInitialize(&mut b), ARKLS_ILL_INPUT);
    let mut flag = 0;
    assert_eq!(ARKodeGetLastLinFlag(&mut b, &mut flag), ARKLS_SUCCESS);
    assert_eq!(flag, ARKLS_ILL_INPUT as i64);
    /* a matrix-free solver without preconditioner setup needs no setup */
    let mut c = mri_integrator(true);
    let mut ls = solver(SUNLINEARSOLVER_ITERATIVE);
    ls.init_flag = -12;
    ARKodeSetLinearSolver(&mut c, ls, None);
    assert_eq!(arkLsInitialize(&mut c), -12);
    assert!(!solvers(&c).lsetup);
    assert_eq!(ARKodeGetLastLinFlag(&mut c, &mut flag), ARKLS_SUCCESS);
    assert_eq!(flag, -12);
}

#[test]
fn system_and_mass_solvers_must_fit() {
    let mut a = mri_integrator(true);
    a.stepper.supports_massmatrix = true;
    a.stepper.massops = true;
    ARKodeSetLinearSolver(&mut a, solver(SUNLINEARSOLVER_DIRECT), Some(dense()));
    ARKodeSetMassLinearSolver(&mut a, solver(SUNLINEARSOLVER_ITERATIVE), None, false);
    assert_eq!(arkLsInitialize(&mut a), ARKLS_ILL_INPUT);
    ARKodeSetMassLinearSolver(&mut a, solver(SUNLINEARSOLVER_DIRECT), Some(dense()), false);
    assert_eq!(arkLsInitialize(&mut a), ARKLS_SUCCESS);
}

#[test]
fn getters_of_steppers_without_solvers() {
    let mut plain = arkCreate();
    let (mut rw, mut iw) = (7, 7);
    assert_eq!(ARKodeGetLinWorkSpace(&mut plain, &mut rw, &mut iw), ARK_SUCCESS);
    assert_eq!((rw, iw), (0, 0));
    let mut j = Some(dense());
    assert_eq!(ARKodeGetJac(&mut plain, &mut j), ARK_SUCCESS);
    assert!(j.is_none());
    let mut flag = 9;
    assert_eq!(ARKodeGetLastLinFlag(&mut plain, &mut flag), ARK_SUCCESS);
    assert_eq!(flag, 0);
    assert_eq!(ARKodeGetLastMassFlag(&mut plain, &mut flag), ARK_SUCCESS);
    assert_eq!(ARKodeGetMassWorkSpace(&mut plain, &mut rw, &mut iw), ARK_SUCCESS);
    assert_eq!((rw, iw), (0, 0));
    let mut a = mri_integrator(true);
    flag = 9;
    assert_eq!(ARKodeGetLastLinFlag(&mut a, &mut flag), ARKLS_LMEM_NULL);
    assert_eq!(flag, 9);
}

#[test]
fn mass_solver_attach_options_and_release() {
    let mut plain = arkCreate();
    assert_eq!(ARKodeSetMassLinearSolver(&mut plain, solver(SUNLINEARSOLVER_DIRECT), Some(dense()), false), ARK_STEPPER_UNSUPPORTED);
    let mut a = mass_integrator();
    assert_eq!(ARKodeSetMassFn(&mut a, true), ARKLS_MASSMEM_NULL);
    let (lrw, liw) = (a.lrw, a.liw);
    assert_eq!(ARKodeSetMassLinearSolver(&mut a, solver(SUNLINEARSOLVER_DIRECT), None, false), ARKLS_ILL_INPUT);
    assert_eq!(ARKodeSetMassLinearSolver(&mut a, solver(SUNLINEARSOLVER_DIRECT), Some(dense()), true), ARKLS_SUCCESS);
    assert_eq!((a.lrw, a.liw), (lrw + 10, liw + 1));
    assert!(a.stepper.msetup);
    let m = a.mass_mem.unwrap();
    assert!(m.time_dependent && !m.iterative && m.M_lu == Some(dense()));
    /* a replacement releases the old interface */
    assert_eq!(ARKodeSetMassLinearSolver(&mut a, solver(SUNLINEARSOLVER_DIRECT), Some(dense()), false), ARKLS_SUCCESS);
    assert_eq!((a.lrw, a.liw), (lrw + 10, liw + 1));
    assert_eq!(ARKodeSetMassFn(&mut a, false), ARKLS_ILL_INPUT);
    assert_eq!(ARKodeSetMassFn(&mut a, true), ARKLS_SUCCESS);
    assert_eq!(ARKodeSetMassPreconditioner(&mut a, true, true), ARKLS_ILL_INPUT);
    assert_eq!(ARKodeSetMassTimes(&mut a, true, true), ARKLS_ILL_INPUT);
    let (mut rw, mut iw) = (0, 0);
    assert_eq!(ARKodeGetMassWorkSpace(&mut a, &mut rw, &mut iw), ARKLS_SUCCESS);
    assert_eq!((rw, iw), (2 + 10 + 100 + 5, 23 + 1 + 3 + 2));
    let mut mm = None;
    assert_eq!(ARKodeGetCurrentMassMatrix(&mut a, &mut mm), ARKLS_SUCCESS);
    assert_eq!(mm, Some(dense()));
    assert_eq!(arkLsMassFree(&mut a), ARKLS_SUCCESS);
    assert_eq!((a.lrw, a.liw), (lrw, liw));
    assert!(a.mass_mem.is_none());
    /* an iterative mass solver takes products */
    let mut b = mass_integrator();
    ARKodeSetMassLinearSolver(&mut b, solver(SUNLINEARSOLVER_ITERATIVE), None, false);
    assert_eq!(ARKodeSetMassTimes(&mut b, true, false), ARKLS_ILL_INPUT);
    assert_eq!(ARKodeSetMassTimes(&mut b, true, true), ARKLS_SUCCESS);
    assert_eq!(ARKodeSetMassPreconditioner(&mut b, false, true), ARKLS_SUCCESS);
    let m = b.mass_mem.unwrap();
    assert!(m.mtsetup && m.mtimes && !m.pset && m.psolve);
}

#[test]
fn mass_solver_initialization_and_products() {
    let mut a = mass_integrator();
    assert_eq!(arkLsMassInitialize(&mut a), ARKLS_MASSMEM_NULL);
    assert_eq!(arkLsMTimes(&mut a, 0), ARKLS_MASSMEM_NULL);
    ARKodeSetMassLinearSolver(&mut a, solver(SUNLINEARSOLVER_DIRECT), Some(dense()), false);
    /* a mass matrix needs its user routine */
    assert_eq!(arkLsMassInitialize(&mut a), ARKLS_ILL_INPUT);
    let mut flag = 0;
    assert_eq!(ARKodeGetLastMassFlag(&mut a, &mut flag), ARKLS_SUCCESS);
    assert_eq!(flag, ARKLS_ILL_INPUT as i64);
    ARKodeSetMassFn(&mut a, true);
    assert_eq!(arkLsMassInitialize(&mut a), ARKLS_SUCCESS);
    assert!(a.stepper.msetup);
    assert_eq!(arkLsMTimes(&mut a, 0), 0);
    assert_eq!(arkLsMTimes(&mut a, 0), 0);
    assert_eq!(arkLsMTimes(&mut a, -3), -3);
    assert_eq!(a.mass_mem.unwrap().counters.nmtimes, 2);
    /* a matrix-free iterative solver needs a product routine */
    let mut b = mass_integrator();
    ARKodeSetMassLinearSolver(&mut b, solver(SUNLINEARSOLVER_ITERATIVE), None, false);
    assert_eq!(arkLsMTimes(&mut b, 0), -1);
    assert_eq!(arkLsMassInitialize(&mut b), ARKLS_ILL_INPUT);
    ARKodeSetMassTimes(&mut b, false, true);
    assert_eq!(arkLsMassInitialize(&mut b), ARKLS_SUCCESS);
    /* no matrix, no preconditioner or product setup: the setup is not needed */
    assert!(!b.stepper.msetup);
    /* a matrix-embedded solver needs nothing */
    let mut c = mass_integrator();
    let mut ls = solver(SUNLINEARSOLVER_MATRIX_EMBEDDED);
    ls.init_flag = -12;
    ARKodeSetMassLinearSolver(&mut c, ls, None, false);
    assert_eq!(arkLsMassInitialize(&mut c), -12);
    assert!(!c.stepper.msetup);
}

#[test]
fn linear_solver_flag_names() {
    assert_eq!(ARKodeGetLinReturnFlagName(0), "ARKLS_SUCCESS");
    assert_eq!(ARKodeGetLinReturnFlagName(-1), "ARKLS_MEM_NULL");
    assert_eq!(ARKodeGetLinReturnFlagName(-2), "ARKLS_LMEM_NULL");
    assert_eq!(ARKodeGetLinReturnFlagName(-3), "ARKLS_ILL_INPUT");
    assert_eq!(ARKodeGetLinReturnFlagName(-4), "ARKLS_MEM_FAIL");
    assert_eq!(ARKodeGetLinReturnFlagName(-6), "ARKLS_MASSMEM_NULL");
    assert_eq!(ARKodeGetLinReturnFlagName(-7), "ARKLS_JACFUNC_UNRECVR");
    assert_eq!(ARKodeGetLinReturnFlagName(-8), "ARKLS_JACFUNC_RECVR");
    assert_eq!(ARKodeGetLinReturnFlagName(-9), "ARKLS_MASSFUNC_UNRECVR");
    assert_eq!(ARKodeGetLinReturnFlagName(-10), "ARKLS_MASSFUNC_RECVR");
    assert_eq!(ARKodeGetLinReturnFlagName(-11), "ARKLS_SUNMAT_FAIL");
    assert_eq!(ARKodeGetLinReturnFlagName(-12), "ARKLS_SUNLS_FAIL");
    assert_eq!(ARKodeGetLinReturnFlagName(-5), "NONE");
    assert_eq!(ARKodeGetLinReturnFlagName(17), "NONE");
    /* only the low 32 bits are read */
    assert_eq!(ARKodeGetLinReturnFlagName(0x1_FFFF_FFFD), "ARKLS_ILL_INPUT");
}

#[test]
fn linear_tolerance_factors() {
    let mut plain = arkCreate();
    assert_eq!(ARKodeSetEpsLin(&mut plain, dec(1, -1)), ARK_STEPPER_UNSUPPORTED);
    let mut a = mri_integrator(true);
    assert_eq!(ARKodeSetEpsLin(&mut a, dec(1, -1)), ARKLS_LMEM_NULL);
    ARKodeSetLinearSolver(&mut a, solver(SUNLINEARSOLVER_ITERATIVE), None);
    assert_eq!(a.lmem.unwrap().eplifac, dec(5, -2));
    assert_eq!(ARKodeSetEpsLin(&mut a, dec(1, -1)), ARKLS_SUCCESS);
    assert_eq!(a.lmem.unwrap().eplifac, dec(1, -1));
    assert_eq!(ARKodeSetEpsLin(&mut a, dec(0, 0)), ARKLS_SUCCESS);
    assert_eq!(a.lmem.unwrap().eplifac, dec(5, -2));
    let mut m = mass_integrator();
    assert_eq!(ARKodeSetMassEpsLin(&mut m, dec(1, -1)), ARKLS_MASSMEM_NULL);
    ARKodeSetMassLinearSolver(&mut m, solver(SUNLINEARSOLVER_ITERATIVE), None, false);
    assert_eq!(ARKodeSetMassEpsLin(&mut m, dec(2, -3)), ARKLS_SUCCESS);
    assert_eq!(m.mass_mem.unwrap().eplifac, dec(2, -3));
    assert_eq!(ARKodeSetMassEpsLin(&mut m, dec(-2, -3)), ARKLS_SUCCESS);
    assert_eq!(m.mass_mem.unwrap().eplifac, dec(5, -2));
}

#[test]
fn mri_statistics_lines() {
    let mut a = mri_integrator(true);
    if let ARKStepMem::Mri(s) = &mut a.step_mem {
        s.nfse = 4;
        s.nfsi = 9;
        s.inner_fails = 1;
        s.nls_iters = 0;
        s.nls_fails = 2;
        s.solvers.nsetups = 3;
    }
    /* before any step and without a solver interface */
    assert_eq!(
        mriStep_PrintAllStats(&a),
        Ok(vec![
            Stat::ExplicitSlowRhsEvals(4),
            Stat::ImplicitSlowRhsEvals(9),
            Stat::InnerStepperFails(1),
            Stat::NlsIters(0),
            Stat::NlsFails(2),
            Stat::LsSetups(3),
        ])
    );
    /* after steps, with an interface and nonlinear iterations */
    a.counters.nst = 5;
    assert_eq!(ARKodeSetLinearSolver(&mut a, solver(SUNLINEARSOLVER_DIRECT), Some(dense())), ARKLS_SUCCESS);
    if let ARKStepMem::Mri(s) = &mut a.step_mem {
        s.nls_iters = 8;
    }
    let mut l = a.lmem.unwrap();
    l.counters.nje = 2;
    l.counters.nli = 6;
    l.counters.npe = 1;
    a.lmem = Some(l);
    let lines = mriStep_PrintAllStats(&a).unwrap();
    assert_eq!(lines.len(), 18);
    assert_eq!(lines[5], Stat::NlsItersPerStep(8, 5));
    assert_eq!(lines[7], Stat::JacEvals(2));
    assert_eq!(lines[11], Stat::LsIters(6));
    assert_eq!(
        lines[15..].to_vec(),
        vec![Stat::LsItersPerNlsIter(6, 8), Stat::JacEvalsPerNlsIter(2, 8), Stat::PrecEvalsPerNlsIter(1, 8)]
    );
    /* the integrator's report ends with MRIStep's lines */
    let all = ARKodePrintAllStats(&a);
    assert_eq!(all[all.len() - 18..].to_vec(), lines);
    /* another stepper has no MRIStep lines */
    assert_eq!(mriStep_PrintAllStats(&arkCreate()), Err(arkode_rs::consts::ARK_MEM_NULL));
}

#[test]
fn jacobian_refresh_decisions() {
    let mut a = mri_integrator(true);
    assert_eq!(ARKodeSetLinearSolver(&mut a, solver(SUNLINEARSOLVER_DIRECT), Some(dense())), ARKLS_SUCCESS);
    let mut l = a.lmem.unwrap();
    l.counters.nstlj = 10;
    l.msbj = 51;
    /* the first setup always refreshes */
    assert!(arkLsSetupDecision(&mut l, true, 10, ARK_NO_FAILURES, false));
    assert!(l.jbad);
    /* not before msbj steps have passed */
    assert!(!arkLsSetupDecision(&mut l, false, 60, ARK_NO_FAILURES, false));
    assert!(!l.jbad);
    assert!(arkLsSetupDecision(&mut l, false, 61, ARK_NO_FAILURES, false));
    /* a bad-Jacobian failure refreshes unless gamma changed too much */
    assert!(arkLsSetupDecision(&mut l, false, 20, ARK_FAIL_BAD_J, false));
    assert!(!arkLsSetupDecision(&mut l, false, 20, ARK_FAIL_BAD_J, true));
    assert!(arkLsSetupDecision(&mut l, false, 20, ARK_FAIL_OTHER, true));
    /* an evaluated Jacobian is counted at the current step */
    let nje = l.counters.nje;
    arkLsSetupAfterLinSys(&mut l, 42, true);
    assert_eq!((l.counters.nje, l.counters.nstlj), (nje + 1, 42));
    arkLsSetupAfterLinSys(&mut l, 50, false);
    assert_eq!((l.counters.nje, l.counters.nstlj), (nje + 1, 42));
    /* matrix-free: a suggested update is reported even when not made */
    l.jbad = true;
    let npe = l.counters.npe;
    assert!(arkLsSetupAfterPSetup(&mut l, 43, false));
    assert_eq!(l.counters.npe, npe);
    l.jbad = false;
    assert!(!arkLsSetupAfterPSetup(&mut l, 43, false));
    assert!(arkLsSetupAfterPSetup(&mut l, 44, true));
    assert_eq!((l.counters.npe, l.counters.nstlj), (npe + 1, 44));
}


use arkode_rs::arkode::{arkCreate, ARKodeMem, ARKodeRootMem};
use arkode_rs::consts::{
    ARK_ILL_INPUT, ARK_INTERP_HERMITE, ARK_INTERP_LAGRANGE, ARK_INTERP_MAX_DEGREE, ARK_INTERP_NONE,
    ARK_MEM_NULL, ARK_STEPPER_UNSUPPORTED, ARK_SUCCESS, MAXCONSTRFAILS, MAXNCF, MAXNEF,
    MXSTEP_DEFAULT, SMALL_NEF,
};
use arkode_rs::interp::{
    arkInterpCreate_Hermite, arkInterpCreate_Lagrange, arkInterpFree, arkInterpInit, arkInterpUpdate,
    ARKInterp,
    ARKInterpContent_Lagrange,
};
use arkode_rs::io::{
    ARKodeClearStopTime, ARKodeGetEstLocalErrors, ARKodeGetNumConstrFails, ARKodeGetNumErrTestFails,
    ARKodeGetNumGEvals, ARKodeGetNumRhsEvals, ARKodeGetNumStepAttempts, ARKodeGetNumStepSolveFails,
    ARKodeGetNumSteps, ARKodeGetRootInfo, ARKodeGetWorkSpace, ARKodeResetAccumulatedError,
    ARKodeSetAccumulatedErrorType, ARKodeSetAdaptivityAdjustment, ARKodeSetConstraints,
    ARKodeSetDefaults, ARKodeSetInterpolantDegree, ARKodeSetInterpolantType,
    ARKodeSetInterpolateStopTime, ARKodeSetMaxConvFails, ARKodeSetMaxErrTestFails,
    ARKodeSetMaxHnilWarns, ARKodeSetMaxNumConstrFails, ARKodeSetMaxNumSteps,
    ARKodeSetNoInactiveRootWarn, ARKodeSetOrder, ARKodeSetPredictorMethod, ARKodeSetSmallNumEFails,
    ARKodeSetUseCompensatedSums, ARKodeSetUserData, ARKodeSetStopTime,
};

fn adaptive_integrator() -> ARKodeMem {
    let mut a = arkCreate();
    a.stepper.supports_adaptive = true;
    a.stepper.supports_implicit = true;
    a.lrw1 = 100;
    a.liw1 = 1;
    a
}

#[test]
fn max_num_steps_zero_restores_default() {
    let mut a = arkCreate();
    assert_eq!(ARKodeSetMaxNumSteps(&mut a, 7), ARK_SUCCESS);
    assert_eq!(a.opts.mxstep, 7);
    assert_eq!(ARKodeSetMaxNumSteps(&mut a, -1), ARK_SUCCESS);
    assert_eq!(a.opts.mxstep, -1);
    assert_eq!(ARKodeSetMaxNumSteps(&mut a, 0), ARK_SUCCESS);
    assert_eq!(a.opts.mxstep, MXSTEP_DEFAULT);
}

#[test]
fn adaptivity_options_need_adaptive_stepper() {
    let mut a = arkCreate();
    assert_eq!(ARKodeSetMaxErrTestFails(&mut a, 3), ARK_STEPPER_UNSUPPORTED);
    assert_eq!(ARKodeSetMaxHnilWarns(&mut a, 3), ARK_STEPPER_UNSUPPORTED);
    assert_eq!(ARKodeSetMaxNumConstrFails(&mut a, 3), ARK_STEPPER_UNSUPPORTED);
    assert_eq!(ARKodeSetAdaptivityAdjustment(&mut a, 1), ARK_STEPPER_UNSUPPORTED);
    assert_eq!(ARKodeSetSmallNumEFails(&mut a, 3), ARK_STEPPER_UNSUPPORTED);
    assert_eq!(ARKodeSetMaxConvFails(&mut a, 3), ARK_STEPPER_UNSUPPORTED);
    assert_eq!(ARKodeResetAccumulatedError(&mut a), ARK_STEPPER_UNSUPPORTED);
    assert_eq!(ARKodeSetAccumulatedErrorType(&mut a, 1), ARK_STEPPER_UNSUPPORTED);
    assert_eq!(ARKodeSetPredictorMethod(&mut a, 0), ARK_STEPPER_UNSUPPORTED);
}

#[test]
fn adaptivity_options_values_and_defaults() {
    let mut a = adaptive_integrator();
    assert_eq!(ARKodeSetMaxErrTestFails(&mut a, 3), ARK_SUCCESS);
    assert_eq!(a.opts.maxnef, 3);
    assert_eq!(ARKodeSetMaxErrTestFails(&mut a, -2), ARK_SUCCESS);
    assert_eq!(a.opts.maxnef, MAXNEF);
    assert_eq!(ARKodeSetMaxHnilWarns(&mut a, -4), ARK_SUCCESS);
    assert_eq!(a.opts.mxhnil, -4);
    assert_eq!(ARKodeSetMaxHnilWarns(&mut a, 0), ARK_SUCCESS);
    assert_eq!(a.opts.mxhnil, 10);
    assert_eq!(ARKodeSetMaxNumConstrFails(&mut a, 0), ARK_SUCCESS);
    assert_eq!(a.opts.maxconstrfails, MAXCONSTRFAILS);
    assert_eq!(ARKodeSetAdaptivityAdjustment(&mut a, 2), ARK_SUCCESS);
    assert_eq!(a.hadapt_mem.unwrap().adjust, 2);
    assert_eq!(ARKodeSetSmallNumEFails(&mut a, 5), ARK_SUCCESS);
    assert_eq!(a.hadapt_mem.unwrap().small_nef, 5);
    assert_eq!(ARKodeSetSmallNumEFails(&mut a, 0), ARK_SUCCESS);
    assert_eq!(a.hadapt_mem.unwrap().small_nef, SMALL_NEF);
    assert_eq!(ARKodeSetMaxConvFails(&mut a, 0), ARK_SUCCESS);
    assert_eq!(a.opts.maxncf, MAXNCF);
    assert_eq!(ARKodeSetAccumulatedErrorType(&mut a, 2), ARK_SUCCESS);
    assert_eq!(a.opts.AccumErrorType, 2);
}

#[test]
fn predictor_needs_interpolation() {
    let mut a = adaptive_integrator();
    a.interp_type = ARK_INTERP_NONE;
    assert_eq!(ARKodeSetPredictorMethod(&mut a, 1), ARK_ILL_INPUT);
    assert_eq!(ARKodeSetPredictorMethod(&mut a, 0), ARK_STEPPER_UNSUPPORTED);
    assert_eq!(ARKodeSetOrder(&mut a, 3), ARK_STEPPER_UNSUPPORTED);
}

#[test]
fn counters_and_workspace_getters() {
    let mut a = arkCreate();
    a.counters.nst = 11;
    a.counters.nst_attempts = 13;
    a.counters.netf = 2;
    a.counters.ncfn = 1;
    a.counters.nconstrfails = 4;
    let mut v = 0;
    assert_eq!(ARKodeGetNumSteps(&mut a, &mut v), ARK_SUCCESS);
    assert_eq!(v, 11);
    assert_eq!(ARKodeGetNumStepAttempts(&mut a, &mut v), ARK_SUCCESS);
    assert_eq!(v, 13);
    assert_eq!(ARKodeGetNumErrTestFails(&mut a, &mut v), ARK_SUCCESS);
    assert_eq!(v, 2);
    assert_eq!(ARKodeGetNumStepSolveFails(&mut a, &mut v), ARK_SUCCESS);
    assert_eq!(v, 1);
    assert_eq!(ARKodeGetNumConstrFails(&mut a, &mut v), ARK_SUCCESS);
    assert_eq!(v, 4);
    let (mut rw, mut iw) = (0, 0);
    assert_eq!(ARKodeGetWorkSpace(&mut a, &mut rw, &mut iw), ARK_SUCCESS);
    assert_eq!((rw, iw), (a.lrw, a.liw));
    assert_eq!(ARKodeGetNumRhsEvals(&mut a, 0, &mut v), ARK_STEPPER_UNSUPPORTED);
    assert_eq!(ARKodeGetEstLocalErrors(&mut a), ARK_STEPPER_UNSUPPORTED);
}

#[test]
fn root_finding_outputs() {
    let mut a = arkCreate();
    let mut n = -1;
    assert_eq!(ARKodeGetNumGEvals(&mut a, &mut n), ARK_MEM_NULL);
    assert_eq!(ARKodeSetNoInactiveRootWarn(&mut a), ARK_MEM_NULL);
    a.root_mem = Some(ARKodeRootMem { nrtfn: 2, iroots: vec![1, -1, 5], nge: 9, mxgnull: 1 });
    assert_eq!(ARKodeGetNumGEvals(&mut a, &mut n), ARK_SUCCESS);
    assert_eq!(n, 9);
    let mut found = vec![0, 0, 7];
    assert_eq!(ARKodeGetRootInfo(&mut a, &mut found), ARK_SUCCESS);
    assert_eq!(found, vec![1, -1, 7]);
    assert_eq!(ARKodeSetNoInactiveRootWarn(&mut a), ARK_SUCCESS);
    assert_eq!(a.root_mem.as_ref().unwrap().mxgnull, 0);
}

#[test]
fn interpolant_degree_rules() {
    let mut a = arkCreate();
    assert_eq!(ARKodeSetInterpolantDegree(&mut a, ARK_INTERP_MAX_DEGREE + 1), ARK_ILL_INPUT);
    assert_eq!(ARKodeSetInterpolantDegree(&mut a, 2), ARK_SUCCESS);
    assert_eq!(a.interp_degree, 2);
    assert_eq!(ARKodeSetInterpolantDegree(&mut a, -1), ARK_SUCCESS);
    assert_eq!(a.interp_degree, ARK_INTERP_MAX_DEGREE);
    a.status.initialized = true;
    assert_eq!(ARKodeSetInterpolantDegree(&mut a, 1), ARK_ILL_INPUT);
    assert_eq!(a.interp_degree, ARK_INTERP_MAX_DEGREE);
}

#[test]
fn interpolant_type_workspace() {
    let mut a = arkCreate();
    let (lrw, liw) = (a.lrw, a.liw);
    assert_eq!(ARKodeSetInterpolantType(&mut a, 7), ARK_ILL_INPUT);
    assert_eq!(ARKodeSetInterpolantDegree(&mut a, 3), ARK_SUCCESS);
    assert_eq!(ARKodeSetInterpolantType(&mut a, ARK_INTERP_LAGRANGE), ARK_SUCCESS);
    assert_eq!((a.lrw, a.liw), (lrw + 5, liw + 6));
    match a.interp {
        Some(ARKInterp::Lagrange(ARKInterpContent_Lagrange { nmax, .. })) => assert_eq!(nmax, 4),
        _ => panic!("expected a Lagrange module"),
    }
    assert_eq!(ARKodeSetInterpolantType(&mut a, ARK_INTERP_HERMITE), ARK_SUCCESS);
    assert_eq!((a.lrw, a.liw), (lrw + 2, liw + 5));
    assert_eq!(a.interp_type, ARK_INTERP_HERMITE);
    /* selecting a type and then none returns the workspace */
    assert_eq!(ARKodeSetInterpolantType(&mut a, ARK_INTERP_NONE), ARK_SUCCESS);
    assert_eq!((a.lrw, a.liw), (lrw, liw));
    assert!(a.interp.is_none());
}

#[test]
fn lagrange_release_counts_its_current_history_length() {
    let mut a = arkCreate();
    let (lrw, liw) = (a.lrw, a.liw);
    assert_eq!(ARKodeSetInterpolantDegree(&mut a, 3), ARK_SUCCESS);
    assert_eq!(ARKodeSetInterpolantType(&mut a, ARK_INTERP_LAGRANGE), ARK_SUCCESS);
    assert_eq!(ARKodeSetInterpolantDegree(&mut a, 1), ARK_SUCCESS);
    match a.interp {
        Some(ARKInterp::Lagrange(ARKInterpContent_Lagrange { nmax, .. })) => assert_eq!(nmax, 2),
        _ => panic!("expected a Lagrange module"),
    }
    assert_eq!(ARKodeSetInterpolantType(&mut a, ARK_INTERP_NONE), ARK_SUCCESS);
    assert_eq!((a.lrw, a.liw), (lrw + 2, liw + 2));
}

#[test]
fn constraints_workspace_and_checks() {
    let mut a = adaptive_integrator();
    let (lrw, liw) = (a.lrw, a.liw);
    assert_eq!(ARKodeSetConstraints(&mut a, Some(&vec![0, 3])), ARK_ILL_INPUT);
    assert_eq!(ARKodeSetConstraints(&mut a, Some(&vec![0, 0])), ARK_ILL_INPUT);
    assert_eq!(ARKodeSetConstraints(&mut a, Some(&vec![])), ARK_ILL_INPUT);
    assert_eq!(ARKodeSetConstraints(&mut a, Some(&vec![1, -2, 0])), ARK_SUCCESS);
    assert_eq!((a.lrw, a.liw), (lrw + 100, liw + 1));
    assert_eq!(a.constraints, Some(vec![1, -2, 0]));
    assert_eq!(ARKodeSetConstraints(&mut a, Some(&vec![-1, -1])), ARK_SUCCESS);
    assert_eq!((a.lrw, a.liw), (lrw + 100, liw + 1));
    assert_eq!(ARKodeSetConstraints(&mut a, None), ARK_SUCCESS);
    assert_eq!((a.lrw, a.liw), (lrw, liw));
    assert!(a.constraints.is_none());
    let mut b = arkCreate();
    assert_eq!(ARKodeSetConstraints(&mut b, Some(&vec![1])), ARK_STEPPER_UNSUPPORTED);
    assert_eq!(ARKodeSetConstraints(&mut b, None), ARK_SUCCESS);
}

#[test]
fn simple_flags() {
    let mut a = arkCreate();
    assert_eq!(ARKodeSetUseCompensatedSums(&mut a, true), ARK_SUCCESS);
    assert!(a.opts.use_compensated_sums);
    assert_eq!(ARKodeSetInterpolateStopTime(&mut a, true), ARK_SUCCESS);
    assert!(a.opts.tstopinterp);
    a.opts.tstopset = true;
    assert_eq!(ARKodeClearStopTime(&mut a), ARK_SUCCESS);
    assert!(!a.opts.tstopset);
    assert!(a.user_data.is_none());
    assert_eq!(ARKodeSetUserData(&mut a, Some(42)), ARK_SUCCESS);
    assert_eq!(a.user_data, Some(42));
    assert_eq!(ARKodeSetDefaults(&mut a), ARK_SUCCESS);
    assert_eq!(a.user_data, Some(42));
    assert_eq!(ARKodeSetUserData(&mut a, None), ARK_SUCCESS);
    assert!(a.user_data.is_none());
}

#[test]
fn set_defaults_restores_options() {
    let mut a = adaptive_integrator();
    assert_eq!(ARKodeSetMaxErrTestFails(&mut a, 3), ARK_SUCCESS);
    assert_eq!(ARKodeSetSmallNumEFails(&mut a, 9), ARK_SUCCESS);
    assert_eq!(ARKodeSetUseCompensatedSums(&mut a, true), ARK_SUCCESS);
    assert_eq!(ARKodeSetAccumulatedErrorType(&mut a, 3), ARK_SUCCESS);
    let lrw = a.lrw;
    assert_eq!(ARKodeSetDefaults(&mut a), ARK_SUCCESS);
    assert_eq!(a.opts.maxnef, MAXNEF);
    assert_eq!(a.hadapt_mem.unwrap().small_nef, SMALL_NEF);
    assert!(!a.opts.use_compensated_sums);
    /* the accumulated-error type is not an optional input reset here */
    assert_eq!(a.opts.AccumErrorType, 3);
    assert_eq!(a.lrw, lrw);
}

#[test]
fn new_integrator_holds_defaults() {
    let a = arkCreate();
    let mut b = arkCreate();
    assert_eq!(ARKodeSetDefaults(&mut b), ARK_SUCCESS);
    assert_eq!(a.opts, b.opts);
    assert_eq!((a.lrw, a.liw), (b.lrw, b.liw));
}

#[test]
fn interpolation_module_create_then_free_restores_workspace() {
    for d in 0..=ARK_INTERP_MAX_DEGREE {
        let mut a = adaptive_integrator();
        let (lrw, liw) = (a.lrw, a.liw);
        let i = arkInterpCreate_Hermite(&mut a, d);
        assert!(i.is_some());
        assert_eq!((a.lrw, a.liw), (lrw + 2, liw + 5));
        a.interp = i;
        arkInterpFree(&mut a);
        assert_eq!((a.lrw, a.liw), (lrw, liw));
        assert!(a.interp.is_none());
        let i = arkInterpCreate_Lagrange(&mut a, d);
        assert!(i.is_some());
        assert_eq!((a.lrw, a.liw), (lrw + d as i64 + 2, liw + d as i64 + 3));
        a.interp = i;
        arkInterpFree(&mut a);
        assert_eq!((a.lrw, a.liw), (lrw, liw));
        assert!(a.interp.is_none());
    }
    /* a degree out of range creates nothing and leaves the workspace alone */
    let mut a = adaptive_integrator();
    let (lrw, liw) = (a.lrw, a.liw);
    assert!(arkInterpCreate_Hermite(&mut a, ARK_INTERP_MAX_DEGREE + 1).is_none());
    assert!(arkInterpCreate_Lagrange(&mut a, -1).is_none());
    assert_eq!((a.lrw, a.liw), (lrw, liw));
}

#[test]
fn stop_time_behind_the_current_time() {
    let mut a = arkCreate();
    /* before the first step the stop time is checked when stepping begins */
    assert_eq!(ARKodeSetStopTime(&mut a, true), ARK_SUCCESS);
    assert!(a.opts.tstopset);
    assert_eq!(ARKodeClearStopTime(&mut a), ARK_SUCCESS);
    a.counters.nst = 3;
    assert_eq!(ARKodeSetStopTime(&mut a, true), ARK_ILL_INPUT);
    assert!(!a.opts.tstopset);
    assert_eq!(ARKodeSetStopTime(&mut a, false), ARK_SUCCESS);
    assert!(a.opts.tstopset);
}

#[test]
fn interpolation_module_initialization_and_update() {
    /* Hermite of degree 5: four vectors of 100 real and 1 integer words */
    let mut a = adaptive_integrator();
    a.interp = arkInterpCreate_Hermite(&mut a, 5);
    let (lrw, liw) = (a.lrw, a.liw);
    assert_eq!(arkInterpInit(&mut a), ARK_SUCCESS);
    assert_eq!((a.lrw, a.liw), (lrw + 400, liw + 4));
    assert!(a.status.call_fullrhs);
    /* a second initialization allocates nothing more */
    assert_eq!(arkInterpInit(&mut a), ARK_SUCCESS);
    assert_eq!((a.lrw, a.liw), (lrw + 400, liw + 4));
    /* an update evaluates the right-hand side when it is not current */
    a.status.fn_is_current = false;
    assert_eq!(arkInterpUpdate(&mut a, false, true), arkode_rs::consts::ARK_RHSFUNC_FAIL);
    assert!(!a.status.fn_is_current);
    assert_eq!(arkInterpUpdate(&mut a, true, true), ARK_SUCCESS);
    assert!(a.status.fn_is_current);
    /* Lagrange of degree 2: three history vectors, one entry */
    let mut b = adaptive_integrator();
    b.interp = arkInterpCreate_Lagrange(&mut b, 2);
    let (lrw, liw) = (b.lrw, b.liw);
    assert_eq!(arkInterpInit(&mut b), ARK_SUCCESS);
    assert_eq!((b.lrw, b.liw), (lrw + 300, liw + 3));
    let lc = match b.interp {
        Some(ARKInterp::Lagrange(lc)) => lc,
        _ => panic!("not a Lagrange module"),
    };
    assert_eq!((lc.nmaxalloc, lc.nhist), (3, 1));
    /* distinct times fill the history up to its length; repeated times are ignored */
    for _ in 0..4 {
        assert_eq!(arkInterpUpdate(&mut b, true, true), ARK_SUCCESS);
    }
    assert_eq!(arkInterpUpdate(&mut b, true, false), ARK_SUCCESS);
    match b.interp {
        Some(ARKInterp::Lagrange(lc)) => assert_eq!(lc.nhist, 3),
        _ => panic!("not a Lagrange module"),
    }
    /* a longer history replaces the allocated one */
    assert_eq!(arkode_rs::interp::arkInterpSetDegree(&mut b, 4), ARK_SUCCESS);
    assert_eq!(arkInterpInit(&mut b), ARK_SUCCESS);
    assert_eq!((b.lrw, b.liw), (lrw + 500, liw + 5));
}


use arkode_rs::arkode::{arkCreate, ARKStepFn, ARKodeMem};
use arkode_rs::consts::{ARK_DOMEIG_FAIL, ARK_ILL_INPUT, ARK_MEM_NULL, ARK_SUCCESS, FIRST_INIT};
use arkode_rs::decimal::dec;
use arkode_rs::io::ARKodeSetDefaults;
use arkode_rs::lsrk::{
    lsrkStep_DomEigUpdateLogic, lsrkStep_Free, lsrkStep_GetNumRhsEvals, lsrkStep_Init,
    perfect_square, ARKodeLSRKStepMem, LSRKStepGetMaxNumStages, LSRKStepSetDomEigEstimator,
    LSRKStepSetDomEigFrequency, LSRKStepSetMaxNumStages, LSRKStepSetNumSSPStages,
    LSRKStepSetSSPMethod, LSRKStepSetSSPMethodByName, LSRKStepSetSTSMethod,
    LSRKStepSetSTSMethodByName, SUNDomEigEstimator, ARKODE_LSRK_RKC_2, ARKODE_LSRK_RKL_2,
    ARKODE_LSRK_SSP_10_4, ARKODE_LSRK_SSP_S_2, ARKODE_LSRK_SSP_S_3, STAGE_MAX_LIMIT_DEFAULT,
};
use arkode_rs::stepper::ARKStepMem;

fn lsrk_step_mem() -> ARKodeLSRKStepMem {
    ARKodeLSRKStepMem {
        fe: true,
        dom_eig_fn: false,
        q: 2,
        p: 2,
        istage: 0,
        req_stages: 0,
        LSRKmethod: ARKODE_LSRK_RKC_2,
        nfe: 0,
        nfeDQ: 0,
        dom_eig_num_evals: 0,
        stage_max: 0,
        stage_max_limit: STAGE_MAX_LIMIT_DEFAULT,
        dom_eig_nst: 0,
        step_nst: 0,
        num_dee_iters: 0,
        dom_eig_safety: dec(101, -2),
        dom_eig_freq: 25,
        num_init_warmups: -1,
        num_warmups: 0,
        DEE: None,
        dom_eig_update: true,
        const_Jac: false,
        dom_eig_is_current: false,
        is_SSP: false,
        init_warmup: true,
        cvals: false,
        nfusedopvecs: 0,
    }
}

fn lsrk_integrator() -> ARKodeMem {
    let mut a = arkCreate();
    a.stepper.supports_adaptive = true;
    a.step_mem = ARKStepMem::Lsrk(lsrk_step_mem());
    a
}

fn sm(a: &ARKodeMem) -> ARKodeLSRKStepMem {
    match a.step_mem {
        ARKStepMem::Lsrk(s) => s,
        _ => panic!("not an LSRKStep integrator"),
    }
}

#[test]
fn sts_method_selection_sets_orders_and_routine() {
    let mut a = lsrk_integrator();
    assert_eq!(LSRKStepSetSTSMethod(&mut a, ARKODE_LSRK_RKL_2), ARK_SUCCESS);
    assert_eq!(a.stepper.step, ARKStepFn::RKL);
    let s = sm(&a);
    assert_eq!((s.q, s.p, s.nfusedopvecs, s.LSRKmethod), (2, 2, 5, ARKODE_LSRK_RKL_2));
    assert!(!s.is_SSP);
    let h = a.hadapt_mem.unwrap();
    assert_eq!((h.q, h.p), (2, 2));
    assert_eq!(LSRKStepSetSTSMethod(&mut a, 17), ARK_ILL_INPUT);
}

#[test]
fn sts_method_given_ssp_method_records_it() {
    let mut a = lsrk_integrator();
    assert_eq!(LSRKStepSetSTSMethod(&mut a, ARKODE_LSRK_SSP_S_3), ARK_SUCCESS);
    assert_eq!(sm(&a).LSRKmethod, ARKODE_LSRK_SSP_S_3);
    assert_eq!(a.stepper.step, ARKStepFn::NoStep);
}

#[test]
fn ssp_method_selection_sets_stages_and_orders() {
    let mut a = lsrk_integrator();
    assert_eq!(LSRKStepSetSSPMethod(&mut a, ARKODE_LSRK_SSP_10_4), ARK_SUCCESS);
    let s = sm(&a);
    assert!(s.is_SSP);
    assert_eq!((s.req_stages, s.q, s.p), (10, 4, 3));
    assert_eq!(a.stepper.step, ARKStepFn::SSP104);
    assert_eq!(LSRKStepSetSSPMethod(&mut a, ARKODE_LSRK_SSP_S_3), ARK_SUCCESS);
    assert_eq!((sm(&a).req_stages, sm(&a).q, sm(&a).p), (4, 3, 2));
    assert_eq!(a.stepper.step, ARKStepFn::SSP43);
}

#[test]
fn method_selection_by_name() {
    let mut a = lsrk_integrator();
    assert_eq!(LSRKStepSetSTSMethodByName(&mut a, "ARKODE_LSRK_RKC_2"), ARK_SUCCESS);
    assert_eq!(a.stepper.step, ARKStepFn::RKC);
    assert_eq!(LSRKStepSetSSPMethodByName(&mut a, "ARKODE_LSRK_SSP_S_2"), ARK_SUCCESS);
    assert_eq!(a.stepper.step, ARKStepFn::SSPs2);
    assert_eq!(LSRKStepSetSSPMethodByName(&mut a, "ARKODE_LSRK_SSP_S_9"), ARK_ILL_INPUT);
    assert_eq!(LSRKStepSetSTSMethodByName(&mut a, "RKC"), ARK_ILL_INPUT);
}

#[test]
fn methods_need_an_lsrk_integrator() {
    let mut a = arkCreate();
    assert_eq!(LSRKStepSetSTSMethod(&mut a, ARKODE_LSRK_RKC_2), ARK_MEM_NULL);
    assert_eq!(LSRKStepSetSSPMethod(&mut a, ARKODE_LSRK_SSP_S_2), ARK_MEM_NULL);
    assert_eq!(LSRKStepSetMaxNumStages(&mut a, 10), ARK_MEM_NULL);
}

#[test]
fn ssp_stage_counts() {
    let mut a = lsrk_integrator();
    assert_eq!(LSRKStepSetNumSSPStages(&mut a, 9), ARK_ILL_INPUT);
    assert_eq!(LSRKStepSetSSPMethod(&mut a, ARKODE_LSRK_SSP_S_3), ARK_SUCCESS);
    assert_eq!(LSRKStepSetNumSSPStages(&mut a, 8), ARK_ILL_INPUT);
    assert_eq!(LSRKStepSetNumSSPStages(&mut a, 9), ARK_SUCCESS);
    assert_eq!(sm(&a).req_stages, 9);
    assert_eq!(a.stepper.step, ARKStepFn::SSPs3);
    assert_eq!(LSRKStepSetNumSSPStages(&mut a, 4), ARK_SUCCESS);
    assert_eq!(a.stepper.step, ARKStepFn::SSP43);
    assert_eq!(LSRKStepSetNumSSPStages(&mut a, 16), ARK_SUCCESS);
    assert_eq!(LSRKStepSetNumSSPStages(&mut a, 0), ARK_SUCCESS);
    assert_eq!(sm(&a).req_stages, 4);
    assert_eq!(LSRKStepSetSSPMethod(&mut a, ARKODE_LSRK_SSP_10_4), ARK_SUCCESS);
    assert_eq!(LSRKStepSetNumSSPStages(&mut a, 11), ARK_ILL_INPUT);
    assert_eq!(LSRKStepSetNumSSPStages(&mut a, 10), ARK_SUCCESS);
    assert_eq!(LSRKStepSetSSPMethod(&mut a, ARKODE_LSRK_SSP_S_2), ARK_SUCCESS);
    assert_eq!(LSRKStepSetNumSSPStages(&mut a, 1), ARK_ILL_INPUT);
    assert_eq!(LSRKStepSetNumSSPStages(&mut a, 7), ARK_SUCCESS);
    assert_eq!(sm(&a).req_stages, 7);
}

#[test]
fn perfect_squares() {
    assert!(perfect_square(0));
    assert!(perfect_square(1));
    assert!(perfect_square(49));
    assert!(!perfect_square(50));
    assert!(perfect_square(46340 * 46340));
    assert!(!perfect_square(i32::MAX));
}

#[test]
fn dom_eig_frequency_and_stage_limits() {
    let mut a = lsrk_integrator();
    assert_eq!(LSRKStepSetDomEigFrequency(&mut a, 0), ARK_SUCCESS);
    assert_eq!((sm(&a).dom_eig_freq, sm(&a).const_Jac), (1, true));
    assert_eq!(LSRKStepSetDomEigFrequency(&mut a, 7), ARK_SUCCESS);
    assert_eq!((sm(&a).dom_eig_freq, sm(&a).const_Jac), (7, false));
    assert_eq!(LSRKStepSetDomEigFrequency(&mut a, -3), ARK_SUCCESS);
    assert_eq!(sm(&a).dom_eig_freq, 25);
    assert_eq!(LSRKStepSetMaxNumStages(&mut a, 1), ARK_SUCCESS);
    assert_eq!(sm(&a).stage_max_limit, STAGE_MAX_LIMIT_DEFAULT);
    assert_eq!(LSRKStepSetMaxNumStages(&mut a, 40), ARK_SUCCESS);
    assert_eq!(sm(&a).stage_max_limit, 40);
    let mut smax = 0;
    assert_eq!(LSRKStepGetMaxNumStages(&mut a, &mut smax), ARK_SUCCESS);
    assert_eq!(smax, 0);
}

#[test]
fn rhs_evaluations_by_partition() {
    let mut a = lsrk_integrator();
    let mut m = lsrk_step_mem();
    m.nfe = 42;
    a.step_mem = ARKStepMem::Lsrk(m);
    let mut n = -1;
    assert_eq!(lsrkStep_GetNumRhsEvals(&mut a, 1, &mut n), ARK_ILL_INPUT);
    assert_eq!(n, -1);
    assert_eq!(lsrkStep_GetNumRhsEvals(&mut a, 0, &mut n), ARK_SUCCESS);
    assert_eq!(n, 42);
}

#[test]
fn init_requires_eigenvalue_source_for_sts() {
    let mut a = lsrk_integrator();
    assert_eq!(lsrkStep_Init(&mut a, FIRST_INIT), ARK_DOMEIG_FAIL);
    let dee = SUNDomEigEstimator { num_preprocess_iters: 0, initialize_flag: 0, set_iters_flag: 0 };
    assert_eq!(LSRKStepSetDomEigEstimator(&mut a, Some(dee)), ARK_SUCCESS);
    let mut m = sm(&a);
    m.nfusedopvecs = 5;
    m.num_init_warmups = 3;
    a.step_mem = ARKStepMem::Lsrk(m);
    let lrw = a.lrw;
    assert_eq!(lsrkStep_Init(&mut a, FIRST_INIT), ARK_SUCCESS);
    assert_eq!(a.lrw, lrw + 5);
    assert!(sm(&a).cvals);
    assert_eq!(sm(&a).DEE.unwrap().num_preprocess_iters, 3);
    assert!(a.status.call_fullrhs);
    lsrkStep_Free(&mut a);
    assert_eq!(a.lrw, lrw);
    assert!(matches!(a.step_mem, ARKStepMem::NoStepper));
}

#[test]
fn dom_eig_update_after_steps() {
    let mut a = lsrk_integrator();
    let mut m = sm(&a);
    m.dom_eig_is_current = true;
    m.dom_eig_nst = 0;
    m.dom_eig_freq = 2;
    a.step_mem = ARKStepMem::Lsrk(m);
    a.counters.nst = 1;
    assert_eq!(lsrkStep_DomEigUpdateLogic(&mut a, true), ARK_SUCCESS);
    assert!(sm(&a).dom_eig_update);
    assert!(!sm(&a).dom_eig_is_current);
    assert_eq!(lsrkStep_DomEigUpdateLogic(&mut a, false), ARK_SUCCESS);
    assert!(sm(&a).dom_eig_update);
}

#[test]
fn lsrk_defaults_install_default_controller() {
    let mut a = lsrk_integrator();
    let lrw = a.lrw;
    let liw = a.liw;
    assert_eq!(LSRKStepSetDomEigFrequency(&mut a, 3), ARK_SUCCESS);
    assert_eq!(ARKodeSetDefaults(&mut a), ARK_SUCCESS);
    assert_eq!(a.lrw, lrw + 10);
    assert_eq!(a.liw, liw + 1);
    assert_eq!(sm(&a).dom_eig_freq, 25);
    let c = a.hadapt_mem.unwrap().hcontroller.unwrap();
    assert_eq!((c.lenrw, c.leniw), (10, 1));
    /* restoring the defaults again changes nothing */
    assert_eq!(ARKodeSetDefaults(&mut a), ARK_SUCCESS);
    assert_eq!(a.lrw, lrw + 10);
    assert_eq!(a.liw, liw + 1);
}

#[test]
fn ssp_selection_by_name_matches_by_number() {
    let cases = [
        ("ARKODE_LSRK_SSP_S_2", ARKODE_LSRK_SSP_S_2),
        ("ARKODE_LSRK_SSP_S_3", ARKODE_LSRK_SSP_S_3),
        ("ARKODE_LSRK_SSP_10_4", ARKODE_LSRK_SSP_10_4),
    ];
    for (name, method) in cases {
        let mut a = lsrk_integrator();
        let mut b = lsrk_integrator();
        assert_eq!(LSRKStepSetSSPMethodByName(&mut a, name), LSRKStepSetSSPMethod(&mut b, method));
        assert_eq!(a.stepper.step, b.stepper.step);
        let (x, y) = (sm(&a), sm(&b));
        assert_eq!(
            (x.LSRKmethod, x.req_stages, x.q, x.p, x.is_SSP, x.nfusedopvecs),
            (y.LSRKmethod, y.req_stages, y.q, y.p, y.is_SSP, y.nfusedopvecs)
        );
        let (ha, hb) = (a.hadapt_mem.unwrap(), b.hadapt_mem.unwrap());
        assert_eq!((ha.q, ha.p), (hb.q, hb.p));
    }
    /* an STS method's name is refused by name, and nothing changes */
    let mut a = lsrk_integrator();
    let before = sm(&a).LSRKmethod;
    assert_eq!(LSRKStepSetSSPMethodByName(&mut a, "ARKODE_LSRK_RKL_2"), ARK_ILL_INPUT);
    assert_eq!(sm(&a).LSRKmethod, before);
    assert_eq!(a.stepper.step, lsrk_integrator().stepper.step);
}

#[test]
fn first_initialization_then_release_restores_workspace() {
    let mut a = lsrk_integrator();
    assert_eq!(LSRKStepSetSSPMethod(&mut a, ARKODE_LSRK_SSP_S_3), ARK_SUCCESS);
    let (lrw, liw) = (a.lrw, a.liw);
    assert_eq!(lsrkStep_Init(&mut a, FIRST_INIT), ARK_SUCCESS);
    assert_eq!((a.lrw, a.liw), (lrw + 3, liw + 3));
    lsrkStep_Free(&mut a);
    assert_eq!((a.lrw, a.liw), (lrw, liw));
    assert!(matches!(a.step_mem, ARKStepMem::NoStepper));
}


use arkode_rs::adapt::arkSetAdaptivityMethod;
use arkode_rs::consts::{ARK_ADAPT_IMEX_GUS, ARK_ADAPT_PID};
use arkode_rs::arkode::{arkCreate, ARKodeMem};
use arkode_rs::consts::{ARK_ILL_INPUT, ARK_MEM_NULL, ARK_STEPPER_UNSUPPORTED, ARK_SUCCESS};
use arkode_rs::decimal::{dec, dec_order_exec, dec_vs_one_exec};
use arkode_rs::io::{
    ARKodeSetCFLFraction, ARKodeSetFixedStepBounds, ARKodeSetMaxCFailGrowth,
    ARKodeSetMaxEFailGrowth, ARKodeSetMaxFirstGrowth, ARKodeSetMaxGrowth, ARKodeSetMinReduction,
    ARKodeSetSafetyFactor, ARKodeSetInitStep, ARKodeSetMaxStep, ARKodeSetMinStep,
};
use arkode_rs::lsrk::{
    LSRKStepSetDomEigSafetyFactor, ARKodeLSRKStepMem, ARKODE_LSRK_RKC_2, STAGE_MAX_LIMIT_DEFAULT,
};
use arkode_rs::stepper::ARKStepMem;

fn adaptive() -> ARKodeMem {
    let mut a = arkCreate();
    a.stepper.supports_adaptive = true;
    a
}

fn hadapt(a: &ARKodeMem) -> arkode_rs::arkode::ARKodeHAdaptMem {
    a.hadapt_mem.unwrap()
}

#[test]
fn decimals_compare_with_one() {
    assert_eq!(dec_vs_one_exec(dec(1, 0)), 0);
    assert_eq!(dec_vs_one_exec(dec(1_000_000_000_000_000_000, -18)), 0);
    assert_eq!(dec_vs_one_exec(dec(999_999, -6)), -1);
    assert_eq!(dec_vs_one_exec(dec(1_000_001, -6)), 1);
    assert_eq!(dec_vs_one_exec(dec(2, 0)), 1);
    assert_eq!(dec_vs_one_exec(dec(1, 300)), 1);
    assert_eq!(dec_vs_one_exec(dec(i64::MAX, -19)), -1);
    assert_eq!(dec_vs_one_exec(dec(i64::MAX, -18)), 1);
    assert_eq!(dec_vs_one_exec(dec(0, 5)), -1);
    assert_eq!(dec_vs_one_exec(dec(-5, -1)), -1);
    assert_eq!(dec_vs_one_exec(dec(7, i32::MIN)), -1);
    /* the same number written two ways compares alike */
    assert_eq!(dec_vs_one_exec(dec(10, -1)), dec_vs_one_exec(dec(1, 0)));
    assert_eq!(dec_vs_one_exec(dec(150, -2)), dec_vs_one_exec(dec(15, -1)));
}

#[test]
fn growth_factors_fall_back_to_defaults() {
    let mut plain = arkCreate();
    assert_eq!(ARKodeSetMaxGrowth(&mut plain, dec(3, 0)), ARK_STEPPER_UNSUPPORTED);
    let mut a = adaptive();
    assert_eq!(ARKodeSetMaxGrowth(&mut a, dec(25, -1)), ARK_SUCCESS);
    assert_eq!(hadapt(&a).growth, dec(25, -1));
    assert_eq!(ARKodeSetMaxGrowth(&mut a, dec(100, -2)), ARK_SUCCESS);
    assert_eq!(hadapt(&a).growth, dec(20, 0));
    assert_eq!(ARKodeSetMaxFirstGrowth(&mut a, dec(5, -1)), ARK_SUCCESS);
    assert_eq!(hadapt(&a).etamx1, dec(10000, 0));
    assert_eq!(ARKodeSetMaxFirstGrowth(&mut a, dec(50, 0)), ARK_SUCCESS);
    assert_eq!(hadapt(&a).etamx1, dec(50, 0));
    assert_eq!(ARKodeSetMinReduction(&mut a, dec(2, -1)), ARK_SUCCESS);
    assert_eq!(hadapt(&a).etamin, dec(2, -1));
    assert_eq!(ARKodeSetMinReduction(&mut a, dec(1, 0)), ARK_SUCCESS);
    assert_eq!(hadapt(&a).etamin, dec(1, -1));
    assert_eq!(ARKodeSetMinReduction(&mut a, dec(-2, -1)), ARK_SUCCESS);
    assert_eq!(hadapt(&a).etamin, dec(1, -1));
    /* the failure reductions take (0, 1], 1 included */
    assert_eq!(ARKodeSetMaxEFailGrowth(&mut a, dec(1, 0)), ARK_SUCCESS);
    assert_eq!(hadapt(&a).etamxf, dec(1, 0));
    assert_eq!(ARKodeSetMaxEFailGrowth(&mut a, dec(11, -1)), ARK_SUCCESS);
    assert_eq!(hadapt(&a).etamxf, dec(3, -1));
    assert_eq!(ARKodeSetMaxCFailGrowth(&mut a, dec(0, 0)), ARK_SUCCESS);
    assert_eq!(hadapt(&a).etacf, dec(25, -2));
    assert_eq!(ARKodeSetMaxCFailGrowth(&mut a, dec(5, -1)), ARK_SUCCESS);
    assert_eq!(hadapt(&a).etacf, dec(5, -1));
}

#[test]
fn safety_and_stability_factors() {
    let mut a = adaptive();
    assert_eq!(ARKodeSetSafetyFactor(&mut a, dec(11, -1)), ARK_ILL_INPUT);
    assert_eq!(hadapt(&a).safety, dec(9, -1));
    assert_eq!(ARKodeSetSafetyFactor(&mut a, dec(1, 0)), ARK_SUCCESS);
    assert_eq!(hadapt(&a).safety, dec(1, 0));
    assert_eq!(ARKodeSetSafetyFactor(&mut a, dec(-1, 0)), ARK_SUCCESS);
    assert_eq!(hadapt(&a).safety, dec(9, -1));
    assert_eq!(ARKodeSetCFLFraction(&mut a, dec(3, 0)), ARK_SUCCESS);
    assert_eq!(hadapt(&a).cfl, dec(3, 0));
    assert_eq!(ARKodeSetCFLFraction(&mut a, dec(0, -3)), ARK_SUCCESS);
    assert_eq!(hadapt(&a).cfl, dec(5, -1));
}

#[test]
fn fixed_step_bounds_must_contain_one() {
    let mut a = adaptive();
    assert_eq!(ARKodeSetFixedStepBounds(&mut a, dec(9, -1), dec(2, 0)), ARK_SUCCESS);
    assert_eq!((hadapt(&a).lbound, hadapt(&a).ubound), (dec(9, -1), dec(2, 0)));
    assert_eq!(ARKodeSetFixedStepBounds(&mut a, dec(11, -1), dec(2, 0)), ARK_SUCCESS);
    assert_eq!((hadapt(&a).lbound, hadapt(&a).ubound), (dec(1, 0), dec(15, -1)));
    assert_eq!(ARKodeSetFixedStepBounds(&mut a, dec(1, 0), dec(1, 0)), ARK_SUCCESS);
    assert_eq!((hadapt(&a).lbound, hadapt(&a).ubound), (dec(1, 0), dec(1, 0)));
}

#[test]
fn dom_eig_safety_factor_at_least_one() {
    assert_eq!(LSRKStepSetDomEigSafetyFactor(&mut arkCreate(), dec(2, 0)), ARK_MEM_NULL);
    let mut a = arkCreate();
    a.step_mem = ARKStepMem::Lsrk(ARKodeLSRKStepMem {
        fe: true,
        dom_eig_fn: false,
        q: 2,
        p: 2,
        istage: 0,
        req_stages: 0,
        LSRKmethod: ARKODE_LSRK_RKC_2,
        nfe: 0,
        nfeDQ: 0,
        dom_eig_num_evals: 0,
        stage_max: 0,
        stage_max_limit: STAGE_MAX_LIMIT_DEFAULT,
        dom_eig_nst: 0,
        step_nst: 0,
        num_dee_iters: 0,
        dom_eig_safety: dec(101, -2),
        dom_eig_freq: 25,
        num_init_warmups: -1,
        num_warmups: 0,
        DEE: None,
        dom_eig_update: true,
        const_Jac: false,
        dom_eig_is_current: false,
        is_SSP: false,
        init_warmup: true,
        cvals: false,
        nfusedopvecs: 0,
    });
    let safety = |a: &ARKodeMem| match a.step_mem {
        ARKStepMem::Lsrk(s) => s.dom_eig_safety,
        _ => panic!("not an LSRKStep integrator"),
    };
    assert_eq!(LSRKStepSetDomEigSafetyFactor(&mut a, dec(12, -1)), ARK_SUCCESS);
    assert_eq!(safety(&a), dec(12, -1));
    assert_eq!(LSRKStepSetDomEigSafetyFactor(&mut a, dec(1, 0)), ARK_SUCCESS);
    assert_eq!(safety(&a), dec(1, 0));
    assert_eq!(LSRKStepSetDomEigSafetyFactor(&mut a, dec(99, -2)), ARK_SUCCESS);
    assert_eq!(safety(&a), dec(101, -2));
}

#[test]
fn decimals_compare_with_each_other() {
    assert_eq!(dec_order_exec(dec(5, -1), dec(50, -2)), 0);
    assert_eq!(dec_order_exec(dec(4, -1), dec(5, -1)), -1);
    assert_eq!(dec_order_exec(dec(1, 20), dec(i64::MAX, 0)), 1);
    assert_eq!(dec_order_exec(dec(-1, 20), dec(i64::MIN, 0)), -1);
    assert_eq!(dec_order_exec(dec(i64::MAX, -18), dec(9, 0)), 1);
    assert_eq!(dec_order_exec(dec(0, 40), dec(0, -40)), 0);
    assert_eq!(dec_order_exec(dec(3, i32::MIN), dec(1, i32::MAX)), -1);
    assert_eq!(dec_order_exec(dec(-2, 3), dec(-1999, 0)), -1);
}

#[test]
fn step_size_bounds() {
    let mut a = adaptive();
    assert_eq!(ARKodeSetMaxStep(&mut a, dec(1, 0)), ARK_SUCCESS);
    assert_eq!(a.opts.hmax, dec(1, 0));
    /* a minimum above the maximum is refused */
    assert_eq!(ARKodeSetMinStep(&mut a, dec(2, 0)), ARK_ILL_INPUT);
    assert_eq!(a.opts.hmin, dec(0, 0));
    assert_eq!(ARKodeSetMinStep(&mut a, dec(5, -1)), ARK_SUCCESS);
    assert_eq!(a.opts.hmin, dec(5, -1));
    /* a maximum below the minimum is refused; equal bounds are accepted */
    assert_eq!(ARKodeSetMaxStep(&mut a, dec(4, -1)), ARK_ILL_INPUT);
    assert_eq!(a.opts.hmax, dec(1, 0));
    assert_eq!(ARKodeSetMaxStep(&mut a, dec(50, -2)), ARK_SUCCESS);
    assert_eq!(a.opts.hmax, dec(50, -2));
    /* non-positive values remove the bounds */
    assert_eq!(ARKodeSetMaxStep(&mut a, dec(-1, 0)), ARK_SUCCESS);
    assert_eq!(a.opts.hmax, dec(0, 0));
    assert_eq!(ARKodeSetMinStep(&mut a, dec(1, 3)), ARK_SUCCESS);
    assert_eq!(ARKodeSetMinStep(&mut a, dec(0, 0)), ARK_SUCCESS);
    assert_eq!(a.opts.hmin, dec(0, 0));
    /* fixed-step steppers have no bounds */
    let mut b = arkCreate();
    assert_eq!(ARKodeSetMinStep(&mut b, dec(1, 0)), ARK_STEPPER_UNSUPPORTED);
    assert_eq!(ARKodeSetMaxStep(&mut b, dec(1, 0)), ARK_STEPPER_UNSUPPORTED);
}

#[test]
fn initial_step() {
    let mut a = adaptive();
    assert_eq!(ARKodeSetInitStep(&mut a, dec(1, -3)), ARK_SUCCESS);
    assert!(a.opts.hin_set);
    assert_eq!(a.opts.hin, dec(1, -3));
    assert_eq!(ARKodeSetInitStep(&mut a, dec(0, 7)), ARK_SUCCESS);
    assert!(!a.opts.hin_set);
    assert_eq!(a.opts.hin, dec(0, 0));
    /* without adaptivity the initial step must be given */
    let mut b = arkCreate();
    assert_eq!(ARKodeSetInitStep(&mut b, dec(0, 0)), ARK_STEPPER_UNSUPPORTED);
    assert!(!b.opts.hin_set);
    assert_eq!(ARKodeSetInitStep(&mut b, dec(-2, -2)), ARK_SUCCESS);
    assert!(b.opts.hin_set);
}

#[test]
fn step_size_bounds_never_cross() {
    let mut a = adaptive();
    let requests = [
        (true, dec(3, 0)),
        (false, dec(2, 0)),
        (false, dec(4, 0)),
        (true, dec(5, 0)),
        (true, dec(-1, 0)),
        (false, dec(25, -1)),
        (true, dec(26, -1)),
        (false, dec(0, 0)),
        (true, dec(7, 2)),
    ];
    for (max, h) in requests {
        if max {
            ARKodeSetMaxStep(&mut a, h);
        } else {
            ARKodeSetMinStep(&mut a, h);
        }
        assert!(a.opts.hmin.mantissa >= 0 && a.opts.hmax.mantissa >= 0);
        if a.opts.hmax.mantissa != 0 {
            assert!(dec_order_exec(a.opts.hmin, a.opts.hmax) <= 0);
        }
    }
    assert_eq!((a.opts.hmin, a.opts.hmax), (dec(0, 0), dec(7, 2)));
}

#[test]
fn adaptivity_method_selection() {
    let mut a = adaptive();
    let (lrw, liw) = (a.lrw, a.liw);
    /* gains are required unless the defaults are asked for */
    assert_eq!(arkSetAdaptivityMethod(&mut a, ARK_ADAPT_PID, 0, 1, None), ARK_ILL_INPUT);
    assert_eq!((a.lrw, a.liw), (lrw, liw));
    assert!(hadapt(&a).hcontroller.is_none());
    let gains = (dec(58, -2), dec(21, -2), dec(1, -1));
    assert_eq!(arkSetAdaptivityMethod(&mut a, ARK_ADAPT_PID, 0, 1, Some(gains)), ARK_SUCCESS);
    let c = hadapt(&a).hcontroller.unwrap();
    assert_eq!((c.method, c.gains, c.lenrw, c.leniw), (ARK_ADAPT_PID, Some(gains), 10, 1));
    assert!(hadapt(&a).owncontroller);
    assert_eq!(hadapt(&a).pq, 1);
    assert_eq!((a.lrw, a.liw), (lrw + 10, liw + 1));
    /* the defaults ignore given gains; the ImEx controller is smaller */
    assert_eq!(arkSetAdaptivityMethod(&mut a, ARK_ADAPT_IMEX_GUS, 1, 0, Some(gains)), ARK_SUCCESS);
    let c = hadapt(&a).hcontroller.unwrap();
    assert_eq!((c.method, c.gains), (ARK_ADAPT_IMEX_GUS, None));
    assert_eq!((a.lrw, a.liw), (lrw + 7, liw + 1));
    /* an unknown method removes the current controller and installs none */
    assert_eq!(arkSetAdaptivityMethod(&mut a, 6, 1, 0, None), ARK_ILL_INPUT);
    assert!(hadapt(&a).hcontroller.is_none() && !hadapt(&a).owncontroller);
    assert_eq!((a.lrw, a.liw), (lrw, liw));
}


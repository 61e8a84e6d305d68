use arkode_rs::arkode::arkCreate;
use arkode_rs::consts::{
    ARK_ADAPT_LIW, ARK_ADAPT_LRW, ARK_INTERP_HERMITE, ARK_INTERP_MAX_DEGREE, ARK_SS, FIRST_INIT,
    MAXNCF, MAXNEF, MXHNIL, MXSTEP_DEFAULT,
};
use arkode_rs::decimal::Decimal;

/// The real number a decimal stands for, as the nearest double.
fn as_f64(d: Decimal) -> f64 {
    let m = d.mantissa as f64;
    if d.exponent >= 0 {
        m * 10f64.powi(d.exponent)
    } else {
        m / 10f64.powi(-d.exponent)
    }
}

#[test]
fn create_sets_c_defaults() {
    let ark_mem = arkCreate();

    /* arkCreate-set fields */
    assert_eq!(ark_mem.lrw, 18 + ARK_ADAPT_LRW);
    assert_eq!(ark_mem.liw, 53 + ARK_ADAPT_LIW);
    assert!(ark_mem.hadapt_mem.is_some());
    assert!(ark_mem.interp.is_none());
    assert_eq!(ark_mem.interp_type, ARK_INTERP_HERMITE);
    assert_eq!(ark_mem.interp_degree, ARK_INTERP_MAX_DEGREE);
    assert!(ark_mem.status.rwt_is_ewt);
    assert!(ark_mem.status.initsetup);
    assert_eq!(ark_mem.status.init_type, FIRST_INIT);
    assert!(ark_mem.status.firststage);
    assert!(!ark_mem.status.initialized);

    /* ARKodeSetDefaults-set fields */
    assert_eq!(as_f64(ark_mem.opts.reltol), 1.0e-4);
    assert_eq!(as_f64(ark_mem.opts.Sabstol), 1.0e-9);
    assert_eq!(ark_mem.opts.itol, ARK_SS);
    assert_eq!(ark_mem.opts.mxstep, MXSTEP_DEFAULT);
    assert_eq!(ark_mem.opts.mxhnil, MXHNIL);
    assert_eq!(ark_mem.opts.maxnef, MAXNEF);
    assert_eq!(ark_mem.opts.maxncf, MAXNCF);
    let hm = ark_mem.hadapt_mem.as_ref().unwrap();
    assert_eq!(as_f64(hm.etamx1), 10000.0);
    assert_eq!(as_f64(hm.etamxf), 0.3);
    assert_eq!(as_f64(hm.safety), 0.9);
    assert_eq!(as_f64(hm.growth), 20.0);
    assert_eq!(hm.small_nef, 2);
}

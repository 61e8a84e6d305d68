use arkode_rs::arkode::{arkCreate, ARKodeMem, ARKodeRootMem};
use arkode_rs::consts::{ARK_ILL_INPUT, ARK_MEM_NULL};
use arkode_rs::decimal::dec;
use arkode_rs::interp::{ARKInterp, ARKInterpContent_Hermite, ARKInterpContent_Lagrange};
use arkode_rs::lsrk::{
    ARKodeLSRKStepMem, SUNDomEigEstimator, ARKODE_LSRK_RKC_2, ARKODE_LSRK_SSP_S_2,
};
use arkode_rs::report::{
    ARKodeWriteParameters, ArkParam, arkInterpPrintMem, lsrkStep_PrintAllStats, lsrkStep_WriteParameters, ARKodePrintAllStats,
    InterpLine, LsrkParam, Stat,
};
use arkode_rs::stepper::ARKStepMem;

fn lsrk_mem() -> ARKodeLSRKStepMem {
    ARKodeLSRKStepMem {
        fe: true,
        dom_eig_fn: false,
        q: 2,
        p: 2,
        istage: 0,
        req_stages: 10,
        LSRKmethod: ARKODE_LSRK_RKC_2,
        nfe: 40,
        nfeDQ: 6,
        dom_eig_num_evals: 3,
        stage_max: 12,
        stage_max_limit: 200,
        dom_eig_nst: 0,
        step_nst: 0,
        num_dee_iters: 9,
        dom_eig_safety: dec(101, -2),
        dom_eig_freq: 25,
        num_init_warmups: -1,
        num_warmups: 0,
        DEE: None,
        dom_eig_update: true,
        const_Jac: false,
        dom_eig_is_current: false,
        is_SSP: false,
        init_warmup: true,
        cvals: false,
        nfusedopvecs: 0,
    }
}

fn lsrk_integrator(sm: ARKodeLSRKStepMem) -> ARKodeMem {
    let mut a = arkCreate();
    a.step_mem = ARKStepMem::Lsrk(sm);
    a
}

#[test]
fn lsrk_statistics_lines() {
    assert_eq!(lsrkStep_PrintAllStats(&arkCreate()), Err(ARK_MEM_NULL));
    let sts = lsrk_integrator(lsrk_mem());
    assert_eq!(
        lsrkStep_PrintAllStats(&sts),
        Ok(vec![
            Stat::RhsEvals(40),
            Stat::DomEigUpdates(3),
            Stat::MaxStagesUsed(12),
            Stat::MaxStagesAllowed(200),
            Stat::MaxSpectralRadius,
            Stat::MinSpectralRadius,
        ])
    );
    let mut m = lsrk_mem();
    m.DEE = Some(SUNDomEigEstimator { num_preprocess_iters: 0, initialize_flag: 0, set_iters_flag: 0 });
    let lines = lsrkStep_PrintAllStats(&lsrk_integrator(m)).unwrap();
    assert_eq!(lines[2..4], [Stat::DeeRhsEvals(6), Stat::DeeIters(9)]);
    let mut m = lsrk_mem();
    m.is_SSP = true;
    m.LSRKmethod = ARKODE_LSRK_SSP_S_2;
    assert_eq!(lsrkStep_PrintAllStats(&lsrk_integrator(m)), Ok(vec![Stat::RhsEvals(40), Stat::StagesUsed(10)]));
}

#[test]
fn integrator_statistics_lines() {
    let mut a = arkCreate();
    a.counters.nst = 5;
    a.counters.netf = 1;
    let lines = ARKodePrintAllStats(&a);
    assert_eq!(lines.len(), 11);
    assert_eq!(lines[0], Stat::CurrentTime);
    assert_eq!(lines[1], Stat::Steps(5));
    assert_eq!(lines[5], Stat::ErrTestFails(1));
    assert_eq!(lines[10], Stat::CurrentStepSize);
    a.root_mem = Some(ARKodeRootMem { nrtfn: 1, iroots: vec![0], nge: 8, mxgnull: 1 });
    let lines = ARKodePrintAllStats(&a);
    assert_eq!(lines[11], Stat::RootFnEvals(8));
    /* the stepper's lines follow */
    let b = lsrk_integrator(lsrk_mem());
    let lines = ARKodePrintAllStats(&b);
    assert_eq!(lines.len(), 17);
    assert_eq!(lines[11], Stat::RhsEvals(40));
}

#[test]
fn lsrk_parameter_lines() {
    assert_eq!(lsrkStep_WriteParameters(&arkCreate()), Err(ARK_MEM_NULL));
    let mut m = lsrk_mem();
    m.LSRKmethod = 17;
    assert_eq!(lsrkStep_WriteParameters(&lsrk_integrator(m)), Err(ARK_ILL_INPUT));
    assert_eq!(
        lsrkStep_WriteParameters(&lsrk_integrator(lsrk_mem())),
        Ok(vec![
            LsrkParam::Method(ARKODE_LSRK_RKC_2),
            LsrkParam::MethodOrder(2),
            LsrkParam::EmbeddingOrder(2),
            LsrkParam::MaxStagesAllowed(200),
            LsrkParam::CurrentSpectralRadius,
            LsrkParam::DomEigSafety(dec(101, -2)),
            LsrkParam::DomEigFrequency(25),
            LsrkParam::InitWarmups(-1),
            LsrkParam::Warmups(0),
            LsrkParam::ConstJacobian(false),
        ])
    );
    let mut m = lsrk_mem();
    m.is_SSP = true;
    m.LSRKmethod = ARKODE_LSRK_SSP_S_2;
    let lines = lsrkStep_WriteParameters(&lsrk_integrator(m)).unwrap();
    assert_eq!(lines[3..], [LsrkParam::StagesUsed(10)]);
}

#[test]
fn interpolation_report_lines() {
    assert!(arkInterpPrintMem(None).is_empty());
    let h = ARKInterp::Hermite(ARKInterpContent_Hermite { degree: 3, fold: true, yold: true, fa: true, fb: true });
    assert_eq!(
        arkInterpPrintMem(Some(&h)),
        vec![InterpLine::HermiteDegree(3), InterpLine::HermiteTold, InterpLine::HermiteTnew, InterpLine::HermiteStep]
    );
    let l = ARKInterp::Lagrange(ARKInterpContent_Lagrange { nmax: 4, nmaxalloc: 4, nhist: 2, yhist: false, thist: true });
    assert_eq!(
        arkInterpPrintMem(Some(&l)),
        vec![InterpLine::LagrangeNmax(4), InterpLine::LagrangeNhist(2), InterpLine::LagrangeTimes(4)]
    );
}

#[test]
fn integrator_parameter_lines() {
    let mut a = arkCreate();
    let (code, lines) = ARKodeWriteParameters(&a);
    assert_eq!(code, arkode_rs::consts::ARK_SUCCESS);
    assert_eq!(lines.len(), 16);
    assert_eq!(&lines[..4], &[ArkParam::Heading, ArkParam::RelTol(dec(1, -4)), ArkParam::AbsTol(dec(1, -9)), ArkParam::Blank]);
    assert_eq!(lines[13], ArkParam::ExpStab(false));
    assert_eq!(lines[14], ArkParam::MaxErrTestFails(arkode_rs::consts::MAXNEF));
    assert_eq!(lines[15], ArkParam::MaxConvFails(arkode_rs::consts::MAXNCF));
    /* step bounds, fixed stepping, an initial step and distinct residual weights */
    a.stepper.supports_adaptive = true;
    arkode_rs::io::ARKodeSetMaxStep(&mut a, dec(2, 0));
    arkode_rs::io::ARKodeSetMinStep(&mut a, dec(1, -3));
    arkode_rs::io::ARKodeSetInitStep(&mut a, dec(5, -4));
    a.opts.fixedstep = true;
    a.status.rwt_is_ewt = false;
    let (_, lines) = ARKodeWriteParameters(&a);
    assert_eq!(
        &lines[..9],
        &[
            ArkParam::Heading,
            ArkParam::MinStep(dec(1, -3)),
            ArkParam::MaxStep(dec(2, 0)),
            ArkParam::FixedStepping,
            ArkParam::RelTol(dec(1, -4)),
            ArkParam::AbsTol(dec(1, -9)),
            ArkParam::ResidualAbsTol(dec(1, -9)),
            ArkParam::InitStep(dec(5, -4)),
            ArkParam::Blank,
        ]
    );
}

#[test]
fn integrator_parameter_lines_end_with_lsrk_lines() {
    let a = lsrk_integrator(lsrk_mem());
    let (code, lines) = ARKodeWriteParameters(&a);
    let own = lsrkStep_WriteParameters(&a).unwrap();
    assert_eq!(code, arkode_rs::consts::ARK_SUCCESS);
    let tail: Vec<ArkParam> = own.into_iter().map(ArkParam::Lsrk).collect();
    assert_eq!(lines[lines.len() - tail.len()..].to_vec(), tail);
    assert_eq!(lines[lines.len() - tail.len() - 1], ArkParam::MaxConvFails(arkode_rs::consts::MAXNCF));
}


use arkode_rs::arkode::{arkCreate, ARKEwtFn, ARKStepFn, ARKodeMem, SUNAdaptController};
use arkode_rs::consts::{
    ARK_INNERSTEP_FAIL, ARK_ILL_INPUT, ARK_INVALID_TABLE, ARK_MEM_NULL, ARK_SUCCESS, FIRST_INIT, RESET_INIT,
    SUN_ADAPTCONTROLLER_H, SUN_ADAPTCONTROLLER_MRI_H_TOL,
};
use arkode_rs::decimal::dec;
use arkode_rs::mri::{
    mriStepCoupling_GetStageMap, mriStepCoupling_GetStageType, mriStepInnerStepper_AllocVecs,
    mriStepInnerStepper_FreeVecs, mriStepInnerStepper_HasRequiredOps,
    mriStepInnerStepper_ResetAccumulatedError, mriStepInnerStepper_SupportsRTolAdaptivity,
    mriStep_CheckCoupling, mriStep_DefaultTableID, mriStep_DisableLSetup, mriStep_Free,
    mriStep_GetImplicitRHS, mriStep_SetCoupling, mriStep_SetJcur, ARKodeMRIStepMem,
    MRIStepCoupling_Alloc, MRISTEP_SR, mriStep_SetInnerForcing, mriStepInnerStepper_Evolve,
    mriStepInnerStepper_FullRhs, mriStepInnerStepper_Reset, mriStepInnerStepper_GetAccumulatedError,
    mriStepInnerStepper_SetRTol, mriStep_Reset,
    MRIMethodInfo, MRISolvers, MRIStepCoupling, MRIStepCoupling_Space,
    MRIStepInnerStepper_Create, MRIStepInnerStepper_CreateFromSUNStepper,
    MRIStepInnerStepper_Free, MRIStepInnerStepper_GetContent,
    MRIStepInnerStepper_SetAccumulatedErrorGetFn, MRIStepInnerStepper_SetAccumulatedErrorResetFn,
    MRIStepInnerStepper_SetContent, MRIStepInnerStepper_SetEvolveFn, MRIStepInnerStepper_SetRTolFn,
    MRIWorkspace, ARKODE_MERK54, ARKODE_MRI_GARK_ERK22b, ARKODE_MRI_GARK_ERK33a,
    ARKODE_MRI_GARK_FORWARD_EULER, ARKODE_MRI_GARK_IRK21a, ARKODE_MRI_NONE, ARKODE_MIS_KW3,
    ARKODE_IMEX_MRI_SR32, MRISTAGE_DIRK_FAST, MRISTAGE_DIRK_NOFAST, MRISTAGE_ERK_FAST,
    MRISTAGE_ERK_NOFAST, MRISTAGE_FIRST, MRISTAGE_STIFF_ACC, MRISTEP_EXPLICIT, MRISTEP_IMEX,
    MRISTEP_IMPLICIT, MRISTEP_MERK,
};
use arkode_rs::mri_init::{mriStep_Init, mriStep_Init_inner};
use arkode_rs::ls::ARKRhsSource;
use arkode_rs::mri_stage::{
    mriStep_GARKStagePlan, mriStep_MERKGroupLowestStage, mriStep_MERKStagePlan, mriStep_SRMaxStages,
    mriStep_SRStagePlan, mriStep_StageRoutine, MRIPostHook, MRIStagePlan, MRIStageRoutine,
    MERKStagePlan,
};
use arkode_rs::io::{
    ARKodeGetEstLocalErrors, ARKodeGetNumRhsEvals, ARKodeSetDefaults, ARKodeSetOrder,
    ARKodeSetPredictorMethod, ARKodeSetUserData,
};
use arkode_rs::consts::{ARK_ACCUMERROR_SUM, ARK_INTERP_NONE, ARK_STEPPER_UNSUPPORTED};
use arkode_rs::stepper::ARKStepMem;

/// An explicit two-stage MRI-GARK table: forward Euler (first order, no embedding).
fn forward_euler_table() -> MRIStepCoupling {
    MRIStepCoupling {
        ctype: MRISTEP_EXPLICIT,
        nmat: 1,
        stages: 2,
        q: 1,
        p: 0,
        has_c: true,
        has_W: true,
        has_G: false,
        ngroup: 0,
        group: vec![],
        w_upper: false,
        g_strict_upper: false,
        c_unsorted: false,
        first_nonzero: false,
        last_off_one: false,
        g_diag: vec![false, false, false],
        g_row: vec![false, false, false],
        w_row: vec![false, true, false],
        c_step: vec![false, true, true],
        col_active: vec![true, false],
    }
}

/// A MERK table with three stages in two groups.
fn merk_table(group: Vec<Vec<i32>>) -> MRIStepCoupling {
    MRIStepCoupling {
        ctype: MRISTEP_MERK,
        nmat: 2,
        stages: 3,
        q: 2,
        p: 1,
        has_c: true,
        has_W: true,
        has_G: false,
        ngroup: group.len() as i32,
        group,
        w_upper: false,
        g_strict_upper: false,
        c_unsorted: false,
        first_nonzero: false,
        last_off_one: false,
        g_diag: vec![false; 4],
        g_row: vec![false; 4],
        w_row: vec![true; 4],
        c_step: vec![true; 4],
        col_active: vec![true; 3],
    }
}

fn mri_step_mem(explicit: bool, implicit: bool, q: i32) -> ARKodeMRIStepMem {
    ARKodeMRIStepMem {
        method: MRIMethodInfo {
            explicit_rhs: explicit,
            implicit_rhs: implicit,
            q,
            p: 0,
            stages: 0,
            istage: 0,
            predictor: 0,
            nforcing: 0,
            expforcing: false,
            impforcing: false,
            fse_is_current: false,
            fsi_is_current: false,
            unify_Fs: false,
            jcur: false,
            inner_rtol_factor: dec(0, 0),
        },
        work: MRIWorkspace {
            Fse: false,
            Fsi: false,
            nstages_active: 0,
            nstages_allocated: 0,
            Ae_row: false,
            Ai_row: false,
            cvals: false,
            nfusedopvecs: 0,
            sdata: false,
            zpred: false,
            zcor: false,
        },
        solvers: MRISolvers {
            NLS: false,
            ownNLS: false,
            linit: false,
            lsetup: false,
            lsolve: false,
            lfree: false,
            nsetups: 0,
            nstlp: 0,
        },
        stepper: MRIStepInnerStepper_CreateFromSUNStepper(),
        MRIC: None,
        stage_map: vec![],
        stagetypes: vec![],
        nfse: 0,
        nfsi: 0,
        nls_iters: 0,
        nls_fails: 0,
        inner_fails: 0,
    }
}

fn mri_integrator(explicit: bool, implicit: bool, q: i32) -> ARKodeMem {
    let mut a = arkCreate();
    a.stepper.supports_adaptive = true;
    a.stepper.supports_implicit = true;
    a.lrw1 = 10;
    a.liw1 = 1;
    a.step_mem = ARKStepMem::Mri(mri_step_mem(explicit, implicit, q));
    a
}

fn sm(a: &ARKodeMem) -> &ARKodeMRIStepMem {
    match &a.step_mem {
        ARKStepMem::Mri(s) => s,
        _ => panic!("not an MRIStep integrator"),
    }
}

fn with_table(mut a: ARKodeMem, c: MRIStepCoupling) -> ARKodeMem {
    if let ARKStepMem::Mri(s) = &mut a.step_mem {
        s.MRIC = Some(c);
    }
    a
}

#[test]
fn inner_stepper_operations() {
    let mut s = MRIStepInnerStepper_Create();
    assert_eq!(mriStepInnerStepper_HasRequiredOps(&s), ARK_ILL_INPUT);
    assert!(!MRIStepInnerStepper_GetContent(&mut s));
    assert_eq!(MRIStepInnerStepper_SetContent(&mut s, true), ARK_SUCCESS);
    assert!(MRIStepInnerStepper_GetContent(&mut s));
    assert_eq!(MRIStepInnerStepper_SetEvolveFn(&mut s), ARK_SUCCESS);
    assert_eq!(mriStepInnerStepper_HasRequiredOps(&s), ARK_SUCCESS);
    assert!(!mriStepInnerStepper_SupportsRTolAdaptivity(&s));
    assert_eq!(MRIStepInnerStepper_SetAccumulatedErrorGetFn(&mut s), ARK_SUCCESS);
    assert_eq!(MRIStepInnerStepper_SetAccumulatedErrorResetFn(&mut s), ARK_SUCCESS);
    assert!(!mriStepInnerStepper_SupportsRTolAdaptivity(&s));
    assert_eq!(MRIStepInnerStepper_SetRTolFn(&mut s), ARK_SUCCESS);
    assert!(mriStepInnerStepper_SupportsRTolAdaptivity(&s));
    let w = MRIStepInnerStepper_CreateFromSUNStepper();
    assert!(w.content && w.evolve && w.fullrhs && w.reset && !w.geterror);
    let mut o = Some(w);
    assert_eq!(MRIStepInnerStepper_Free(&mut o), ARK_SUCCESS);
    assert!(o.is_none());
}

#[test]
fn inner_stepper_accumulated_error_reset() {
    let mut s = MRIStepInnerStepper_Create();
    assert_eq!(mriStepInnerStepper_ResetAccumulatedError(&mut s, -7), ARK_SUCCESS);
    assert_eq!(s.last_flag, ARK_SUCCESS);
    MRIStepInnerStepper_SetAccumulatedErrorGetFn(&mut s);
    MRIStepInnerStepper_SetAccumulatedErrorResetFn(&mut s);
    assert_eq!(mriStepInnerStepper_ResetAccumulatedError(&mut s, -7), -7);
    assert_eq!(s.last_flag, -7);
}

#[test]
fn inner_forcing_vectors_workspace() {
    let mut s = MRIStepInnerStepper_Create();
    assert_eq!(mriStepInnerStepper_AllocVecs(&mut s, 3, 20), ARK_SUCCESS);
    assert_eq!((s.lrw, s.liw, s.nforcing, s.nforcing_allocated), (60, 3, 3, 3));
    /* fewer forcing terms reuse the vectors */
    assert_eq!(mriStepInnerStepper_AllocVecs(&mut s, 2, 20), ARK_SUCCESS);
    assert_eq!((s.lrw, s.nforcing, s.nforcing_allocated), (60, 2, 3));
    /* more forcing terms replace them */
    assert_eq!(mriStepInnerStepper_AllocVecs(&mut s, 5, 20), ARK_SUCCESS);
    assert_eq!((s.lrw, s.liw, s.nforcing_allocated), (100, 5, 5));
    assert_eq!(mriStepInnerStepper_FreeVecs(&mut s), ARK_SUCCESS);
    assert_eq!((s.lrw, s.liw), (0, 0));
    assert!(!s.forcing);
}

#[test]
fn stage_types_of_a_gark_table() {
    let mut c = forward_euler_table();
    assert_eq!(mriStepCoupling_GetStageType(&c, 0), MRISTAGE_FIRST);
    assert_eq!(mriStepCoupling_GetStageType(&c, 1), MRISTAGE_ERK_FAST);
    assert_eq!(mriStepCoupling_GetStageType(&c, 3), ARK_INVALID_TABLE);
    assert_eq!(mriStepCoupling_GetStageType(&c, -1), ARK_INVALID_TABLE);
    c.c_step = vec![false, false, false];
    assert_eq!(mriStepCoupling_GetStageType(&c, 1), MRISTAGE_ERK_NOFAST);
    assert_eq!(mriStepCoupling_GetStageType(&c, 2), MRISTAGE_STIFF_ACC);
    c.g_diag = vec![false, true, false];
    assert_eq!(mriStepCoupling_GetStageType(&c, 1), MRISTAGE_DIRK_NOFAST);
    c.c_step = vec![false, true, false];
    assert_eq!(mriStepCoupling_GetStageType(&c, 1), MRISTAGE_DIRK_FAST);
    let m = merk_table(vec![vec![1, 2, -1], vec![3, -1, 0]]);
    assert_eq!(mriStepCoupling_GetStageType(&m, 2), MRISTAGE_ERK_FAST);
}

#[test]
fn stage_map_numbers_active_columns() {
    let mut c = forward_euler_table();
    c.stages = 4;
    c.col_active = vec![false, true, false, true];
    c.g_diag = vec![false; 5];
    c.g_row = vec![false; 5];
    c.w_row = vec![false; 5];
    c.c_step = vec![false; 5];
    let mut map = vec![9; 4];
    let mut n = 0;
    assert_eq!(mriStepCoupling_GetStageMap(&c, &mut map, &mut n), ARK_SUCCESS);
    assert_eq!(map, vec![-1, 0, -1, 1]);
    assert_eq!(n, 2);
    c.col_active = vec![false; 4];
    assert_eq!(mriStepCoupling_GetStageMap(&c, &mut map, &mut n), ARK_ILL_INPUT);
    assert_eq!(map, vec![-1, -1, -1, -1]);
    assert_eq!(n, 0);
    c.has_W = false;
    n = 5;
    assert_eq!(mriStepCoupling_GetStageMap(&c, &mut map, &mut n), ARK_ILL_INPUT);
    assert_eq!(n, 5);
    let m = merk_table(vec![vec![1, 2, -1], vec![3, -1, 0]]);
    let mut map = vec![0; 3];
    assert_eq!(mriStepCoupling_GetStageMap(&m, &mut map, &mut n), ARK_SUCCESS);
    assert_eq!(map, vec![0, 1, 2]);
    assert_eq!(n, 3);
}

#[test]
fn coupling_space() {
    let c = forward_euler_table();
    assert_eq!(MRIStepCoupling_Space(Some(&c)), (5, 8));
    let m = merk_table(vec![vec![1, 2, -1], vec![3, -1, 0]]);
    assert_eq!(MRIStepCoupling_Space(Some(&m)), (14, 27));
    assert_eq!(MRIStepCoupling_Space(None), (0, 0));
}

#[test]
fn coupling_checks_in_order() {
    let a = mri_integrator(true, false, 1);
    let mut fixed = with_table(a, forward_euler_table());
    fixed.opts.fixedstep = true;
    assert_eq!(mriStep_CheckCoupling(&fixed), ARK_SUCCESS);
    let check = |f: &dyn Fn(&mut MRIStepCoupling), fixedstep: bool| -> i32 {
        let mut c = forward_euler_table();
        f(&mut c);
        let mut a = with_table(mri_integrator(true, false, 1), c);
        a.opts.fixedstep = fixedstep;
        mriStep_CheckCoupling(&a)
    };
    assert_eq!(check(&|c| c.q = 0, true), ARK_INVALID_TABLE);
    assert_eq!(check(&|_| {}, false), ARK_INVALID_TABLE);
    assert_eq!(check(&|c| c.ctype = MRISTEP_IMPLICIT, true), ARK_ILL_INPUT);
    assert_eq!(check(&|c| c.has_G = true, true), ARK_ILL_INPUT);
    assert_eq!(check(&|c| c.w_upper = true, true), ARK_INVALID_TABLE);
    assert_eq!(check(&|c| c.g_diag = vec![false, true, false], true), ARK_INVALID_TABLE);
    assert_eq!(check(&|c| c.c_unsorted = true, true), ARK_INVALID_TABLE);
    assert_eq!(check(&|c| c.first_nonzero = true, true), ARK_INVALID_TABLE);
    assert_eq!(check(&|c| c.last_off_one = true, true), ARK_INVALID_TABLE);
    let mut no_stages = forward_euler_table();
    no_stages.stages = 0;
    no_stages.g_diag = vec![false];
    no_stages.g_row = vec![false];
    no_stages.w_row = vec![false];
    no_stages.c_step = vec![false];
    no_stages.col_active = vec![];
    let mut a = with_table(mri_integrator(true, false, 1), no_stages);
    a.opts.fixedstep = true;
    assert_eq!(mriStep_CheckCoupling(&a), ARK_INVALID_TABLE);
    /* an IMEX problem needs an IMEX or MRI-SR table */
    let mut imex = with_table(mri_integrator(true, true, 1), forward_euler_table());
    imex.opts.fixedstep = true;
    assert_eq!(mriStep_CheckCoupling(&imex), ARK_ILL_INPUT);
    let mut t = forward_euler_table();
    t.ctype = MRISTEP_IMEX;
    let mut imex = with_table(mri_integrator(true, true, 1), t);
    imex.opts.fixedstep = true;
    assert_eq!(mriStep_CheckCoupling(&imex), ARK_ILL_INPUT);
}

#[test]
fn merk_groups_cover_each_stage_once() {
    let run = |group: Vec<Vec<i32>>| -> i32 {
        let mut a = with_table(mri_integrator(true, false, 2), merk_table(group));
        a.opts.fixedstep = true;
        mriStep_CheckCoupling(&a)
    };
    assert_eq!(run(vec![vec![1, 2, -1], vec![3, -1, 0]]), ARK_SUCCESS);
    assert_eq!(run(vec![vec![1, 2, 3]]), ARK_SUCCESS);
    assert_eq!(run(vec![vec![1, 2, -1], vec![2, 3, -1]]), ARK_INVALID_TABLE);
    assert_eq!(run(vec![vec![1, 2, -1]]), ARK_INVALID_TABLE);
    assert_eq!(run(vec![vec![1, 4, 2], vec![3, -1, 0]]), ARK_INVALID_TABLE);
    assert_eq!(run(vec![vec![1, -5, 2], vec![3, -1, 0]]), ARK_INVALID_TABLE);
    /* stage 0 may appear; only stages 1..=stages are counted */
    assert_eq!(run(vec![vec![0, 1, 2], vec![3, 0, -1]]), ARK_SUCCESS);
}

#[test]
fn default_tables() {
    let mut a = mri_integrator(true, false, 1);
    a.opts.fixedstep = true;
    assert_eq!(mriStep_DefaultTableID(&a), ARKODE_MRI_GARK_FORWARD_EULER);
    let mut a = mri_integrator(true, false, 3);
    a.opts.fixedstep = true;
    assert_eq!(mriStep_DefaultTableID(&a), ARKODE_MIS_KW3);
    assert_eq!(mriStep_DefaultTableID(&mri_integrator(true, false, 1)), ARKODE_MRI_NONE);
    assert_eq!(mriStep_DefaultTableID(&mri_integrator(true, false, 2)), ARKODE_MRI_GARK_ERK22b);
    assert_eq!(mriStep_DefaultTableID(&mri_integrator(true, false, 3)), ARKODE_MRI_GARK_ERK33a);
    assert_eq!(mriStep_DefaultTableID(&mri_integrator(true, false, 5)), ARKODE_MERK54);
    assert_eq!(mriStep_DefaultTableID(&mri_integrator(false, true, 2)), ARKODE_MRI_GARK_IRK21a);
    assert_eq!(mriStep_DefaultTableID(&mri_integrator(true, true, 3)), ARKODE_IMEX_MRI_SR32);
    assert_eq!(mriStep_DefaultTableID(&mri_integrator(true, true, 5)), ARKODE_MRI_NONE);
    assert_eq!(mriStep_DefaultTableID(&arkCreate()), ARKODE_MRI_NONE);
}

#[test]
fn set_coupling_installs_default_table() {
    let mut a = mri_integrator(true, false, 1);
    a.opts.fixedstep = true;
    let (lrw, liw) = (a.lrw, a.liw);
    assert_eq!(mriStep_SetCoupling(&mut a, None), ARK_INVALID_TABLE);
    assert_eq!((a.lrw, a.liw), (lrw, liw));
    assert_eq!(mriStep_SetCoupling(&mut a, Some(forward_euler_table())), ARK_SUCCESS);
    assert_eq!((a.lrw, a.liw), (lrw + 8, liw + 5));
    assert_eq!((sm(&a).method.stages, sm(&a).method.q, sm(&a).method.p), (2, 1, 0));
    /* a table already set is kept */
    assert_eq!(mriStep_SetCoupling(&mut a, None), ARK_SUCCESS);
    assert_eq!((a.lrw, a.liw), (lrw + 8, liw + 5));
    let mut b = mri_integrator(true, false, 7);
    assert_eq!(mriStep_SetCoupling(&mut b, Some(forward_euler_table())), ARK_ILL_INPUT);
    assert!(sm(&b).MRIC.is_none());
}

#[test]
fn first_initialization_and_release() {
    let mut a = mri_integrator(true, false, 1);
    a.opts.fixedstep = true;
    a.opts.hin_set = true;
    let (lrw, liw) = (a.lrw, a.liw);
    assert_eq!(mriStep_Init(&mut a, FIRST_INIT, Some(forward_euler_table()), ARK_SUCCESS), ARK_SUCCESS);
    assert_eq!(a.opts.efun, ARKEwtFn::SmallReal);
    assert_eq!(a.stepper.step, ARKStepFn::MRIGARK);
    assert!(a.status.ensure_ycur);
    assert_eq!(a.interp_degree, 1);
    let s = sm(&a);
    assert_eq!(s.stage_map, vec![0, -1]);
    assert_eq!(s.stagetypes, vec![MRISTAGE_FIRST, MRISTAGE_ERK_FAST, MRISTAGE_ERK_FAST]);
    assert_eq!((s.work.nstages_active, s.work.nstages_allocated, s.work.nfusedopvecs), (1, 1, 6));
    assert!(s.work.Fse && !s.work.Fsi && s.work.Ae_row && s.work.Ai_row && s.work.cvals);
    assert_eq!((s.stepper.nforcing, s.stepper.lrw), (1, 10));
    /* table 8 + rows 4 + fused 6 + one stage vector 10; table 5 + map 2 + types 3 + fused 6
       + one stage vector 1 */
    assert_eq!((a.lrw, a.liw), (lrw + 28, liw + 17));
    /* a reset initialization changes nothing */
    assert_eq!(mriStep_Init(&mut a, RESET_INIT, None, ARK_SUCCESS), ARK_SUCCESS);
    assert_eq!((a.lrw, a.liw), (lrw + 28, liw + 17));
    /* releasing MRIStep returns the workspace */
    mriStep_Free(&mut a);
    assert_eq!((a.lrw, a.liw), (lrw, liw));
    assert!(matches!(a.step_mem, ARKStepMem::NoStepper));
}

#[test]
fn initialization_checks() {
    /* fixed steps need a user-given step */
    let mut a = mri_integrator(true, false, 1);
    a.opts.fixedstep = true;
    assert_eq!(mriStep_Init(&mut a, FIRST_INIT, Some(forward_euler_table()), ARK_SUCCESS), ARK_ILL_INPUT);
    /* adaptive stepping needs an embedded table */
    let mut b = mri_integrator(true, false, 2);
    let mut t = forward_euler_table();
    t.q = 2;
    assert_eq!(mriStep_Init(&mut b, FIRST_INIT, Some(t), ARK_SUCCESS), ARK_ILL_INPUT);
    /* adaptive stepping needs an H or MRI-H-TOL controller */
    let mut c = mri_integrator(true, false, 2);
    let mut t = forward_euler_table();
    t.q = 2;
    t.p = 1;
    assert_eq!(mriStep_Init(&mut c, FIRST_INIT, Some(t), ARK_SUCCESS), ARK_ILL_INPUT);
    let mut h = c.hadapt_mem.unwrap();
    h.hcontroller = Some(SUNAdaptController {
        ctype: SUN_ADAPTCONTROLLER_H,
        method: -1,
        gains: None,
        lenrw: 10,
        leniw: 1,
    });
    c.hadapt_mem = Some(h);
    assert_eq!(mriStep_Init_inner(&mut c, 1, None, ARK_SUCCESS), ARK_SUCCESS);
    /* an MRI-H-TOL controller needs an inner stepper with tolerance adaptivity */
    h.hcontroller = Some(SUNAdaptController {
        ctype: SUN_ADAPTCONTROLLER_MRI_H_TOL,
        method: -1,
        gains: None,
        lenrw: 10,
        leniw: 1,
    });
    c.hadapt_mem = Some(h);
    assert_eq!(mriStep_Init_inner(&mut c, 1, None, ARK_SUCCESS), ARK_ILL_INPUT);
    if let ARKStepMem::Mri(s) = &mut c.step_mem {
        s.stepper.geterror = true;
        s.stepper.reseterror = true;
        s.stepper.setrtol = true;
    }
    assert_eq!(mriStep_Init_inner(&mut c, 1, None, ARK_SUCCESS), ARK_SUCCESS);
    assert_eq!(sm(&c).method.inner_rtol_factor, dec(1, 0));
    /* another stepper */
    let mut d = arkCreate();
    assert_eq!(mriStep_Init(&mut d, FIRST_INIT, None, ARK_SUCCESS), ARK_MEM_NULL);
}

#[test]
fn implicit_stepper_operations() {
    let mut a = mri_integrator(false, true, 2);
    assert_eq!(mriStep_GetImplicitRHS(&a), Some(ARKRhsSource::StepperImplicit));
    assert_eq!(mriStep_GetImplicitRHS(&mri_integrator(true, false, 2)), None);
    if let ARKStepMem::Mri(s) = &mut a.step_mem {
        s.solvers.lsetup = true;
    }
    mriStep_DisableLSetup(&mut a);
    assert!(!sm(&a).solvers.lsetup);
    mriStep_SetJcur(&mut a, true);
    assert!(sm(&a).method.jcur);
}

#[test]
fn coupling_alloc_gives_zero_tables() {
    assert!(MRIStepCoupling_Alloc(0, 3, MRISTEP_EXPLICIT).is_none());
    assert!(MRIStepCoupling_Alloc(1, 0, MRISTEP_EXPLICIT).is_none());
    let e = MRIStepCoupling_Alloc(2, 3, MRISTEP_EXPLICIT).unwrap();
    assert!(e.has_c && e.has_W && !e.has_G && e.group.is_empty() && e.ngroup == 0);
    assert_eq!((e.q, e.p), (0, 0));
    assert_eq!(e.g_diag, vec![false; 4]);
    assert_eq!(e.c_step, vec![false; 4]);
    assert_eq!(e.col_active, vec![false; 3]);
    assert!(e.last_off_one && !e.first_nonzero && !e.w_upper);
    assert_eq!(MRIStepCoupling_Space(Some(&e)), (5, 3 + 2 * 4 * 3));
    let m = MRIStepCoupling_Alloc(1, 2, MRISTEP_MERK).unwrap();
    assert_eq!(m.ngroup, 2);
    assert_eq!(m.group, vec![vec![-1, -1], vec![-1, -1]]);
    assert!(m.has_W && !m.has_G);
    assert_eq!(MRIStepCoupling_Space(Some(&m)), (5 + 4, 2 + 6));
    let i = MRIStepCoupling_Alloc(1, 2, MRISTEP_IMPLICIT).unwrap();
    assert!(!i.has_W && i.has_G);
    let x = MRIStepCoupling_Alloc(1, 2, MRISTEP_IMEX).unwrap();
    assert!(x.has_W && x.has_G);
    let sr = MRIStepCoupling_Alloc(1, 2, MRISTEP_SR).unwrap();
    assert!(sr.has_W && sr.has_G);
    /* a zero table has no active stage */
    let mut map = vec![5; 3];
    let mut n = 7;
    assert_eq!(mriStepCoupling_GetStageMap(&e, &mut map, &mut n), ARK_ILL_INPUT);
    assert_eq!(map, vec![-1, -1, -1]);
}

#[test]
fn inner_forcing_flags_and_workspace() {
    assert_eq!(mriStep_SetInnerForcing(&mut arkCreate(), 2), ARK_MEM_NULL);
    let mut a = mri_integrator(true, false, 1);
    a.status.fn_is_current = true;
    let (lrw, liw) = (a.lrw, a.liw);
    assert_eq!(mriStep_SetInnerForcing(&mut a, 2), ARK_SUCCESS);
    let m = sm(&a).method;
    assert!(m.expforcing && !m.impforcing && !m.fse_is_current);
    assert_eq!(m.nforcing, 2);
    assert!(!a.status.fn_is_current);
    /* no table yet: the fused workspace waits for the stage count */
    assert_eq!((a.lrw, a.liw), (lrw, liw));
    let mut b = with_table(mri_integrator(true, false, 1), forward_euler_table());
    let (lrw, liw) = (b.lrw, b.liw);
    assert_eq!(mriStep_SetInnerForcing(&mut b, 2), ARK_SUCCESS);
    assert_eq!((b.lrw, b.liw), (lrw + 8, liw + 8));
    assert!(sm(&b).work.cvals);
    assert_eq!(sm(&b).work.nfusedopvecs, 8);
    /* room enough for one forcing term */
    assert_eq!(mriStep_SetInnerForcing(&mut b, 1), ARK_SUCCESS);
    assert_eq!(sm(&b).work.nfusedopvecs, 8);
    /* three need a larger workspace */
    assert_eq!(mriStep_SetInnerForcing(&mut b, 3), ARK_SUCCESS);
    assert_eq!(sm(&b).work.nfusedopvecs, 9);
    assert_eq!((b.lrw, b.liw), (lrw + 9, liw + 9));
    assert_eq!(mriStep_SetInnerForcing(&mut b, 0), ARK_SUCCESS);
    let m = sm(&b).method;
    assert!(!m.expforcing && !m.impforcing);
    assert_eq!(m.nforcing, 0);
    let mut c = mri_integrator(false, true, 2);
    assert_eq!(mriStep_SetInnerForcing(&mut c, 1), ARK_SUCCESS);
    assert!(!sm(&c).method.expforcing && sm(&c).method.impforcing);
}

#[test]
fn inner_stepper_operation_results() {
    let mut s = MRIStepInnerStepper_Create();
    assert_eq!(mriStepInnerStepper_Evolve(&mut s, 5), ARK_ILL_INPUT);
    assert_eq!(mriStepInnerStepper_FullRhs(&mut s, 5), ARK_ILL_INPUT);
    assert_eq!(mriStepInnerStepper_Reset(&mut s, 5), ARK_SUCCESS);
    assert_eq!(mriStepInnerStepper_GetAccumulatedError(&mut s, 5), ARK_INNERSTEP_FAIL);
    assert_eq!(mriStepInnerStepper_SetRTol(&mut s, 5), ARK_SUCCESS);
    assert_eq!(s.last_flag, 0);
    let mut w = MRIStepInnerStepper_CreateFromSUNStepper();
    assert_eq!(mriStepInnerStepper_Evolve(&mut w, -3), -3);
    assert_eq!(w.last_flag, -3);
    assert_eq!(mriStepInnerStepper_FullRhs(&mut w, 0), 0);
    assert_eq!(w.last_flag, 0);
    assert_eq!(mriStepInnerStepper_Reset(&mut w, 7), 7);
    assert_eq!(w.last_flag, 7);
}

#[test]
fn reset_reports_inner_failures() {
    assert_eq!(mriStep_Reset(&mut arkCreate(), 0), ARK_MEM_NULL);
    let mut a = mri_integrator(true, false, 2);
    assert_eq!(mriStep_Reset(&mut a, 0), ARK_SUCCESS);
    assert_eq!(mriStep_Reset(&mut a, -9), ARK_INNERSTEP_FAIL);
    assert_eq!(sm(&a).stepper.last_flag, -9);
}

fn sm_mut(a: &mut ARKodeMem) -> &mut ARKodeMRIStepMem {
    match &mut a.step_mem {
        ARKStepMem::Mri(s) => s,
        _ => panic!("not an MRIStep integrator"),
    }
}

#[test]
fn mri_order_and_predictor_through_the_integrator() {
    let mut a = with_table(mri_integrator(true, true, 1), forward_euler_table());
    a.lrw += 8;
    a.liw += 5;
    let (lrw, liw) = (a.lrw, a.liw);
    /* the predictor is stored by MRIStep */
    assert_eq!(ARKodeSetPredictorMethod(&mut a, 2), ARK_SUCCESS);
    assert_eq!(sm(&a).method.predictor, 2);
    /* without interpolation only the trivial predictor is accepted */
    a.interp_type = ARK_INTERP_NONE;
    assert_eq!(ARKodeSetPredictorMethod(&mut a, 1), ARK_ILL_INPUT);
    assert_eq!(sm(&a).method.predictor, 2);
    assert_eq!(ARKodeSetPredictorMethod(&mut a, 0), ARK_SUCCESS);
    assert_eq!(sm(&a).method.predictor, 0);
    /* a new order drops the coupling table and its workspace */
    assert_eq!(ARKodeSetOrder(&mut a, 4), ARK_SUCCESS);
    assert_eq!((sm(&a).method.q, sm(&a).method.stages, sm(&a).method.p), (4, 0, 0));
    assert!(sm(&a).MRIC.is_none());
    assert_eq!((a.lrw, a.liw), (lrw - 8, liw - 5));
    /* a non-positive order restores 3 */
    assert_eq!(ARKodeSetOrder(&mut a, -2), ARK_SUCCESS);
    assert_eq!(sm(&a).method.q, 3);
    assert_eq!((a.lrw, a.liw), (lrw - 8, liw - 5));
    /* without a stepper neither operation is provided */
    let mut b = arkCreate();
    assert_eq!(ARKodeSetOrder(&mut b, 2), ARK_STEPPER_UNSUPPORTED);
    b.stepper.supports_implicit = true;
    assert_eq!(ARKodeSetPredictorMethod(&mut b, 0), ARK_STEPPER_UNSUPPORTED);
}

#[test]
fn mri_counts_and_error_estimate_through_the_integrator() {
    let mut a = mri_integrator(true, true, 2);
    sm_mut(&mut a).nfse = 5;
    sm_mut(&mut a).nfsi = 7;
    let mut n: i64 = -1;
    assert_eq!(ARKodeGetNumRhsEvals(&mut a, 0, &mut n), ARK_SUCCESS);
    assert_eq!(n, 5);
    assert_eq!(ARKodeGetNumRhsEvals(&mut a, 1, &mut n), ARK_SUCCESS);
    assert_eq!(n, 7);
    assert_eq!(ARKodeGetNumRhsEvals(&mut a, -1, &mut n), ARK_SUCCESS);
    assert_eq!(n, 12);
    n = -1;
    assert_eq!(ARKodeGetNumRhsEvals(&mut a, 2, &mut n), ARK_ILL_INPUT);
    assert_eq!(n, -1);
    /* no embedding: no error estimate */
    assert_eq!(ARKodeGetEstLocalErrors(&mut a), ARK_STEPPER_UNSUPPORTED);
    sm_mut(&mut a).method.p = 1;
    assert_eq!(ARKodeGetEstLocalErrors(&mut a), ARK_SUCCESS);
    /* fixed steps estimate only while errors are accumulated */
    a.opts.fixedstep = true;
    assert_eq!(ARKodeGetEstLocalErrors(&mut a), ARK_STEPPER_UNSUPPORTED);
    a.opts.AccumErrorType = ARK_ACCUMERROR_SUM;
    assert_eq!(ARKodeGetEstLocalErrors(&mut a), ARK_SUCCESS);
    /* user data is recorded; MRIStep hands it on without failing */
    assert_eq!(ARKodeSetUserData(&mut a, Some(42)), ARK_SUCCESS);
    assert_eq!(a.user_data, Some(42));
    /* without a stepper the count is not provided and stays as it was */
    let mut b = arkCreate();
    assert_eq!(ARKodeGetNumRhsEvals(&mut b, 0, &mut n), ARK_STEPPER_UNSUPPORTED);
    assert_eq!(n, -1);
}

#[test]
fn mri_defaults_through_the_integrator() {
    let mut a = with_table(mri_integrator(true, false, 1), forward_euler_table());
    a.lrw += 8;
    a.liw += 5;
    let (lrw, liw) = (a.lrw, a.liw);
    sm_mut(&mut a).method.predictor = 3;
    sm_mut(&mut a).method.jcur = true;
    a.opts.fixedstep = true;
    assert_eq!(ARKodeSetDefaults(&mut a), ARK_SUCCESS);
    let s = sm(&a);
    assert_eq!((s.method.q, s.method.p, s.method.predictor, s.method.stages), (3, 0, 0, 0));
    assert!(!s.method.jcur);
    assert!(s.MRIC.is_none());
    assert!(!a.opts.fixedstep);
    /* the table leaves, the default controller (10 real, 1 integer words) comes */
    assert_eq!((a.lrw, a.liw), (lrw - 8 + 10, liw - 5 + 1));
    let h = a.hadapt_mem.as_ref().unwrap();
    assert!(h.owncontroller && h.usercontrol.is_none());
    assert_eq!(h.hcontroller.map(|c| (c.ctype, c.lenrw, c.leniw)), Some((SUN_ADAPTCONTROLLER_H, 10, 1)));
    /* restoring the defaults again changes nothing */
    let (lrw2, liw2) = (a.lrw, a.liw);
    assert_eq!(ARKodeSetDefaults(&mut a), ARK_SUCCESS);
    assert_eq!((a.lrw, a.liw), (lrw2, liw2));
}

#[test]
fn stage_routines_by_type() {
    assert_eq!(mriStep_StageRoutine(MRISTAGE_ERK_FAST), MRIStageRoutine::ErkFast);
    assert_eq!(mriStep_StageRoutine(MRISTAGE_ERK_NOFAST), MRIStageRoutine::ErkNoFast);
    assert_eq!(mriStep_StageRoutine(MRISTAGE_DIRK_NOFAST), MRIStageRoutine::DirkNoFast);
    assert_eq!(mriStep_StageRoutine(MRISTAGE_DIRK_FAST), MRIStageRoutine::DirkFast);
    assert_eq!(mriStep_StageRoutine(MRISTAGE_STIFF_ACC), MRIStageRoutine::Nothing);
}

#[test]
fn gark_stage_plans() {
    let types = vec![MRISTAGE_FIRST, MRISTAGE_ERK_FAST, MRISTAGE_DIRK_NOFAST, MRISTAGE_STIFF_ACC, MRISTAGE_ERK_FAST];
    let map = vec![0, 1, 2, -1];
    /* an explicit fast stage: no restart without postprocessing; both slow
       right-hand sides evaluated */
    let p = mriStep_GARKStagePlan(&types, &map, 1, true, false, true, true, true, true);
    assert_eq!(
        p,
        MRIStagePlan {
            routine: MRIStageRoutine::ErkFast,
            postprocess: false,
            reset_inner: false,
            calc_fslow: true,
            pre_rhs: true,
            eval_implicit: true,
            deduce_implicit: false,
            eval_explicit: true,
        }
    );
    /* with postprocessing the inner stepper restarts */
    let p = mriStep_GARKStagePlan(&types, &map, 1, true, true, false, true, true, true);
    assert!(p.postprocess && p.reset_inner && !p.pre_rhs);
    /* an implicit stage without fast evolution deduces its implicit right-hand side */
    let p = mriStep_GARKStagePlan(&types, &map, 2, true, false, true, false, true, true);
    assert_eq!(p.routine, MRIStageRoutine::DirkNoFast);
    assert!(p.reset_inner && p.calc_fslow && p.deduce_implicit && !p.eval_implicit);
    assert!(!p.pre_rhs && !p.eval_explicit);
    /* without an embedding, a stage followed by a stiffly accurate one needs no
       slow right-hand sides */
    let p = mriStep_GARKStagePlan(&types, &map, 2, false, false, true, true, true, false);
    assert!(!p.calc_fslow && !p.pre_rhs && !p.eval_implicit && !p.eval_explicit);
    /* a stiffly accurate stage computes nothing and is left out of the stage map */
    let p = mriStep_GARKStagePlan(&types, &map, 3, true, true, true, true, true, false);
    assert_eq!(p.routine, MRIStageRoutine::Nothing);
    assert!(!p.postprocess && !p.reset_inner && !p.calc_fslow);
}

#[test]
fn merk_group_lowest_stages() {
    let group = vec![vec![2, 4, -1, -1], vec![5, 3, 7, -1], vec![6, 1, 0, 2]];
    assert_eq!(mriStep_MERKGroupLowestStage(&group, 0, 4), 2);
    assert_eq!(mriStep_MERKGroupLowestStage(&group, 1, 4), 3);
    /* the scan stops after `stages` columns */
    assert_eq!(mriStep_MERKGroupLowestStage(&group, 2, 1), 6);
    assert_eq!(mriStep_MERKGroupLowestStage(&group, 2, 4), 0);
}

#[test]
fn merk_stage_plans() {
    let group = vec![vec![1, -1, -1, -1], vec![2, 3, -1, -1], vec![2, 4, -1, -1]];
    /* an internal stage: slow right-hand side and stage postprocessing */
    let p = mriStep_MERKStagePlan(&group, 3, 4, 0, 0, false, true, true, true);
    assert_eq!(
        p,
        MERKStagePlan {
            stage: 1,
            group_done: false,
            embedding: false,
            solution: false,
            skip: false,
            reset_inner: false,
            inner_dsm: true,
            post: MRIPostHook::Stage,
            calc_fslow: true,
            archive: false,
        }
    );
    /* the first entry of a later group restarts the inner stepper */
    assert!(mriStep_MERKStagePlan(&group, 3, 4, 1, 0, false, true, true, true).reset_inner);
    /* the last stage of the next-to-last group is the embedding */
    let p = mriStep_MERKStagePlan(&group, 3, 4, 1, 1, false, true, true, true);
    assert!(p.embedding && p.archive && !p.inner_dsm && !p.calc_fslow && !p.skip);
    assert_eq!(p.post, MRIPostHook::NoHook);
    /* skipped with fixed steps and no error accumulation */
    assert!(mriStep_MERKStagePlan(&group, 3, 4, 1, 1, true, true, true, true).skip);
    assert!(!mriStep_MERKStagePlan(&group, 3, 4, 1, 1, true, false, true, true).skip);
    /* the last stage of the last group is the solution */
    let p = mriStep_MERKStagePlan(&group, 3, 4, 2, 1, false, true, true, true);
    assert!(p.solution && !p.embedding && !p.calc_fslow);
    assert_eq!(p.post, MRIPostHook::Step);
    /* a negative entry ends the group */
    assert!(mriStep_MERKStagePlan(&group, 3, 4, 2, 2, false, true, false, false).group_done);
}

#[test]
fn mri_sr_stage_plans() {
    assert_eq!(mriStep_SRMaxStages(4, true, true), 4);
    assert_eq!(mriStep_SRMaxStages(4, true, false), 5);
    assert_eq!(mriStep_SRMaxStages(4, false, true), 5);
    /* an internal ImEx stage with an implicit solve whose right-hand side is deduced */
    let p = mriStep_SRStagePlan(2, 4, false, true, true, true, true, true, true, false, true);
    assert!(p.performed && p.restart && p.inner_dsm && p.implicit_solve && !p.explicit_update);
    assert!(p.calc_fslow && p.pre_rhs && !p.eval_implicit && p.deduce_implicit);
    assert!(p.eval_explicit && p.combine && !p.archive);
    assert_eq!(p.post, MRIPostHook::Stage);
    /* the first stage does not restart; a zero diagonal gives an explicit update */
    let p = mriStep_SRStagePlan(1, 4, false, true, true, false, true, false, false, false, false);
    assert!(!p.restart && p.explicit_update && !p.implicit_solve && p.eval_implicit);
    /* the solution stage is kept and gets the step hook */
    let p = mriStep_SRStagePlan(3, 4, false, true, false, true, false, false, true, true, true);
    assert!(p.solution && p.archive && !p.calc_fslow && !p.pre_rhs);
    assert_eq!(p.post, MRIPostHook::Step);
    /* the embedding runs only when an error estimate is wanted */
    let p = mriStep_SRStagePlan(4, 4, true, true, false, true, false, false, true, true, true);
    assert!(p.embedding && !p.performed && !p.inner_dsm);
    assert!(mriStep_SRStagePlan(4, 4, false, true, false, true, false, false, true, true, true).performed);
}


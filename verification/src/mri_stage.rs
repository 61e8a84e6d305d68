//! What each internal stage of an MRI-GARK step does: which stage routine runs,
//! whether the inner stepper restarts from the stage solution, and which slow
//! right-hand sides are then evaluated.  The stepping itself works on real-valued
//! vectors; these decisions depend only on the coupling table's stage types and
//! stage map and on the step's options.
use vstd::prelude::*;
use crate::mri::{
    MRISTAGE_ERK_FAST, MRISTAGE_ERK_NOFAST, MRISTAGE_DIRK_NOFAST, MRISTAGE_DIRK_FAST,
    MRISTAGE_STIFF_ACC,
};

verus! {

/// The routine that computes a stage.
#[derive(Clone, Copy, PartialEq, Eq, Debug)]
pub enum MRIStageRoutine {
    /// evolve the fast problem with explicit slow forcing
    ErkFast,
    /// an explicit slow stage without fast evolution
    ErkNoFast,
    /// an implicit slow stage without fast evolution
    DirkNoFast,
    /// an implicit slow stage with fast evolution
    DirkFast,
    /// nothing to compute: a stiffly accurate stage repeats the previous one
    Nothing,
}

/// The decisions of one internal stage.
#[derive(Clone, Copy, PartialEq, Eq, Debug)]
pub struct MRIStagePlan {
    pub routine: MRIStageRoutine,
    /// the user's stage postprocessing function is applied
    pub postprocess: bool,
    /// the inner stepper is reset to the (modified) stage solution
    pub reset_inner: bool,
    /// the slow right-hand sides are brought up to date for this stage
    pub calc_fslow: bool,
    /// the user's pre-RHS function is called first
    pub pre_rhs: bool,
    /// the implicit slow right-hand side is evaluated by a call
    pub eval_implicit: bool,
    /// the implicit slow right-hand side is deduced from the implicit solve
    pub deduce_implicit: bool,
    /// the explicit slow right-hand side is evaluated by a call
    pub eval_explicit: bool,
}

/// The stage routine of a stage type.
pub open spec fn stage_routine(t: i32) -> MRIStageRoutine {
    if t == MRISTAGE_ERK_FAST {
        MRIStageRoutine::ErkFast
    } else if t == MRISTAGE_ERK_NOFAST {
        MRIStageRoutine::ErkNoFast
    } else if t == MRISTAGE_DIRK_NOFAST {
        MRIStageRoutine::DirkNoFast
    } else if t == MRISTAGE_DIRK_FAST {
        MRIStageRoutine::DirkFast
    } else {
        MRIStageRoutine::Nothing
    }
}

/// The decisions of internal stage `is`: its routine from its type; the user's
/// postprocessing and a restart of the inner stepper for every stage that computes
/// something (an explicit fast stage restarts only after postprocessing, as the
/// inner stepper already ends at its solution); slow right-hand sides unless the
/// stage is left out of the stage map or, without an embedding, the next stage is
/// stiffly accurate.  The implicit right-hand side of an implicit stage without
/// fast evolution is deduced from the solve when so requested.
pub open spec fn stage_plan(
    stagetypes: Seq<i32>,
    stage_map: Seq<i32>,
    is: int,
    do_embedding: bool,
    has_postprocess: bool,
    has_pre_rhs: bool,
    explicit_rhs: bool,
    implicit_rhs: bool,
    deduce_rhs: bool,
) -> MRIStagePlan {
    let t = stagetypes[is];
    let calc = stage_map[is] != -1 && (do_embedding || stagetypes[is + 1] != MRISTAGE_STIFF_ACC);
    let call_implicit = implicit_rhs && (!deduce_rhs || t != MRISTAGE_DIRK_NOFAST);
    MRIStagePlan {
        routine: stage_routine(t),
        postprocess: has_postprocess && t != MRISTAGE_STIFF_ACC,
        reset_inner: t != MRISTAGE_STIFF_ACC && (t != MRISTAGE_ERK_FAST || has_postprocess),
        calc_fslow: calc,
        pre_rhs: calc && has_pre_rhs && (explicit_rhs || call_implicit),
        eval_implicit: calc && call_implicit,
        deduce_implicit: calc && implicit_rhs && deduce_rhs && t == MRISTAGE_DIRK_NOFAST,
        eval_explicit: calc && explicit_rhs,
    }
}

/// The routine of a stage type.
pub fn mriStep_StageRoutine(t: i32) -> (r: MRIStageRoutine)
    ensures
        r == stage_routine(t),
{
    if t == MRISTAGE_ERK_FAST {
        MRIStageRoutine::ErkFast
    } else if t == MRISTAGE_ERK_NOFAST {
        MRIStageRoutine::ErkNoFast
    } else if t == MRISTAGE_DIRK_NOFAST {
        MRIStageRoutine::DirkNoFast
    } else if t == MRISTAGE_DIRK_FAST {
        MRIStageRoutine::DirkFast
    } else {
        MRIStageRoutine::Nothing
    }
}

/// Decides what internal stage `is` (neither the first nor the last entry of the
/// stage types, which hold one more entry than the stages for the embedding) of an
/// MRI-GARK step does.
pub fn mriStep_GARKStagePlan(
    stagetypes: &Vec<i32>,
    stage_map: &Vec<i32>,
    is: usize,
    do_embedding: bool,
    has_postprocess: bool,
    has_pre_rhs: bool,
    explicit_rhs: bool,
    implicit_rhs: bool,
    deduce_rhs: bool,
) -> (p: MRIStagePlan)
    requires
        is + 1 < stagetypes.len(),
        is < stage_map.len(),
    ensures
        p == stage_plan(
            stagetypes@,
            stage_map@,
            is as int,
            do_embedding,
            has_postprocess,
            has_pre_rhs,
            explicit_rhs,
            implicit_rhs,
            deduce_rhs,
        ),
{
    let t = stagetypes[is];
    let calc = stage_map[is] != -1 && (do_embedding || stagetypes[is + 1] != MRISTAGE_STIFF_ACC);
    let call_implicit = implicit_rhs && (!deduce_rhs || t != MRISTAGE_DIRK_NOFAST);
    MRIStagePlan {
        routine: mriStep_StageRoutine(t),
        postprocess: has_postprocess && t != MRISTAGE_STIFF_ACC,
        reset_inner: t != MRISTAGE_STIFF_ACC && (t != MRISTAGE_ERK_FAST || has_postprocess),
        calc_fslow: calc,
        pre_rhs: calc && has_pre_rhs && (explicit_rhs || call_implicit),
        eval_implicit: calc && call_implicit,
        deduce_implicit: calc && implicit_rhs && deduce_rhs && t == MRISTAGE_DIRK_NOFAST,
        eval_explicit: calc && explicit_rhs,
    }
}

/// Which postprocessing hook of the user runs after a stage.
#[derive(Clone, Copy, PartialEq, Eq, Debug)]
pub enum MRIPostHook {
    /// the stage postprocessing function (on internal stages)
    Stage,
    /// the step postprocessing function (on the step solution)
    Step,
    NoHook,
}

/// The hook after a stage: the stage hook on every stage that is neither the
/// solution nor the embedding, else the step hook on the solution.
pub open spec fn post_hook(solution: bool, embedding: bool, has_stage_post: bool, has_step_post: bool) -> MRIPostHook {
    if has_stage_post && !solution && !embedding {
        MRIPostHook::Stage
    } else if has_step_post && solution {
        MRIPostHook::Step
    } else {
        MRIPostHook::NoHook
    }
}

fn post_hook_exec(solution: bool, embedding: bool, has_stage_post: bool, has_step_post: bool) -> (h: MRIPostHook)
    ensures
        h == post_hook(solution, embedding, has_stage_post, has_step_post),
{
    if has_stage_post && !solution && !embedding {
        MRIPostHook::Stage
    } else if has_step_post && solution {
        MRIPostHook::Step
    } else {
        MRIPostHook::NoHook
    }
}

/// The lowest stage of a MERK stage group, scanning its row from column `il` on
/// with `acc` the lowest so far; the row ends at the first negative entry or at
/// `stages` columns.
pub open spec fn group_lowest_from(row: Seq<i32>, il: int, stages: int, acc: i32) -> i32
    decreases stages - il,
{
    if il >= stages || il >= row.len() || row[il] < 0 {
        acc
    } else {
        group_lowest_from(row, il + 1, stages, if row[il] < acc { row[il] } else { acc })
    }
}

/// The lowest stage of a MERK stage group (the group's first entry and those
/// after it up to the end of the group).
pub open spec fn group_lowest(row: Seq<i32>, stages: int) -> i32 {
    group_lowest_from(row, 1, stages, row[0])
}

/// The lowest stage of group `ig`, whose inner forcing the whole group uses.
pub fn mriStep_MERKGroupLowestStage(group: &Vec<Vec<i32>>, ig: usize, stages: i32) -> (r: i32)
    requires
        ig < group.len(),
        group[ig as int].len() >= 1,
    ensures
        r == group_lowest(group[ig as int]@, stages as int),
{
    let row = &group[ig];
    let mut acc = row[0];
    let mut il: usize = 1;
    while il < row.len() && (il as i128) < (stages as i128) && row[il] >= 0
        invariant
            1 <= il <= row.len(),
            ig < group.len(),
            row@ == group[ig as int]@,
            group_lowest_from(row@, il as int, stages as int, acc) == group_lowest(
                group[ig as int]@,
                stages as int,
            ),
        decreases row.len() - il,
    {
        let ghost prev = acc;
        if row[il] < acc {
            acc = row[il];
        }
        assert(group_lowest_from(row@, il as int, stages as int, prev) == group_lowest_from(
            row@,
            il + 1,
            stages as int,
            acc,
        ));
        il = il + 1;
    }
    acc
}

/// The decisions for one entry of a MERK stage group.
#[derive(Clone, Copy, PartialEq, Eq, Debug)]
pub struct MERKStagePlan {
    /// the stage the entry names (negative: the group has ended)
    pub stage: i32,
    /// the group has ended before this entry
    pub group_done: bool,
    /// the last stage of the next-to-last group: the embedding
    pub embedding: bool,
    /// the last stage of the last group: the step solution
    pub solution: bool,
    /// the embedding is skipped: fixed steps without error accumulation
    pub skip: bool,
    /// the inner stepper restarts at the group's start (first entry of a group
    /// after the first stages)
    pub reset_inner: bool,
    /// the inner integration may report its error estimate (not for the embedding)
    pub inner_dsm: bool,
    pub post: MRIPostHook,
    /// the explicit slow right-hand side is evaluated at the stage
    pub calc_fslow: bool,
    /// the stage solution is kept as the embedding for the error estimate
    pub archive: bool,
}

/// The decisions for entry `is` of stage group `ig` of a MERK step.
pub open spec fn merk_stage_plan(
    group: Seq<Seq<i32>>,
    ngroup: int,
    stages: int,
    ig: int,
    is: int,
    fixedstep: bool,
    accum_none: bool,
    has_stage_post: bool,
    has_step_post: bool,
) -> MERKStagePlan {
    let stage = group[ig][is];
    let nextstage = if stage < stages { group[ig][is + 1] } else { -1i32 };
    let embedding = ig == ngroup - 2 && stage >= 0 && nextstage < 0;
    let solution = ig == ngroup - 1 && stage >= 0 && nextstage < 0;
    MERKStagePlan {
        stage,
        group_done: stage < 0,
        embedding,
        solution,
        skip: fixedstep && embedding && accum_none,
        reset_inner: stage > 1 && is == 0,
        inner_dsm: !embedding,
        post: post_hook(solution, embedding, has_stage_post, has_step_post),
        calc_fslow: !solution && !embedding,
        archive: embedding,
    }
}

/// Decides what entry `is` of stage group `ig` of a MERK step does.  A stage
/// below `stages` has a next entry in its row.
pub fn mriStep_MERKStagePlan(
    group: &Vec<Vec<i32>>,
    ngroup: i32,
    stages: i32,
    ig: usize,
    is: usize,
    fixedstep: bool,
    accum_none: bool,
    has_stage_post: bool,
    has_step_post: bool,
) -> (p: MERKStagePlan)
    requires
        ig < ngroup <= group.len(),
        is < group[ig as int].len(),
        group[ig as int][is as int] < stages ==> is + 1 < group[ig as int].len(),
    ensures
        p == merk_stage_plan(
            group@.map_values(|r: Vec<i32>| r@),
            ngroup as int,
            stages as int,
            ig as int,
            is as int,
            fixedstep,
            accum_none,
            has_stage_post,
            has_step_post,
        ),
{
    let row = &group[ig];
    let stage = row[is];
    let nextstage = if stage < stages { row[is + 1] } else { -1i32 };
    let embedding = ig as i64 == ngroup as i64 - 2 && stage >= 0 && nextstage < 0;
    let solution = ig as i64 == ngroup as i64 - 1 && stage >= 0 && nextstage < 0;
    let ghost g = group@.map_values(|r: Vec<i32>| r@);
    assert(g[ig as int] == row@);
    MERKStagePlan {
        stage,
        group_done: stage < 0,
        embedding,
        solution,
        skip: fixedstep && embedding && accum_none,
        reset_inner: stage > 1 && is == 0,
        inner_dsm: !embedding,
        post: post_hook_exec(solution, embedding, has_stage_post, has_step_post),
        calc_fslow: !solution && !embedding,
        archive: embedding,
    }
}

/// Number of stage indices an MRI-SR step runs through (stage 0 is the step's
/// start): the stages, and the embedding too unless steps are fixed and no error
/// is accumulated.
pub open spec fn sr_max_stages(stages: int, fixedstep: bool, accum_none: bool) -> int {
    if fixedstep && accum_none { stages } else { stages + 1 }
}

/// The decisions of stage `stage` of an MRI-SR step.
#[derive(Clone, Copy, PartialEq, Eq, Debug)]
pub struct SRStagePlan {
    /// the stage is computed in this step (`1 <= stage < max_stages`)
    pub performed: bool,
    pub solution: bool,
    pub embedding: bool,
    /// the stage starts again from the step's initial state, and the inner
    /// stepper restarts there (every stage after the first)
    pub restart: bool,
    /// the inner integration may report its error estimate (not for the embedding)
    pub inner_dsm: bool,
    /// the slow correction needs an implicit solve (nonzero diagonal coefficient)
    pub implicit_solve: bool,
    /// the slow correction is an explicit update
    pub explicit_update: bool,
    pub post: MRIPostHook,
    /// the slow right-hand sides are brought up to date for the stage
    pub calc_fslow: bool,
    pub pre_rhs: bool,
    pub eval_implicit: bool,
    pub deduce_implicit: bool,
    pub eval_explicit: bool,
    /// the implicit right-hand side is added into the explicit one (ImEx)
    pub combine: bool,
    /// the step solution is kept for the error estimate
    pub archive: bool,
}

/// The decisions of stage `stage` of an MRI-SR step with `stages` stages;
/// `diag_nonzero` tells whether the table's implicit diagonal coefficient at the
/// stage is nonzero beyond roundoff.
pub open spec fn sr_stage_plan(
    stage: int,
    stages: int,
    fixedstep: bool,
    accum_none: bool,
    implicit_rhs: bool,
    explicit_rhs: bool,
    deduce_rhs: bool,
    diag_nonzero: bool,
    has_stage_post: bool,
    has_step_post: bool,
    has_pre_rhs: bool,
) -> SRStagePlan {
    let solution = stage == stages - 1;
    let embedding = stage == stages;
    let impl_corr = implicit_rhs && diag_nonzero;
    let calc = !solution && !embedding;
    let call_implicit = implicit_rhs && (!deduce_rhs || !impl_corr);
    SRStagePlan {
        performed: 1 <= stage < sr_max_stages(stages, fixedstep, accum_none),
        solution,
        embedding,
        restart: stage > 1,
        inner_dsm: !embedding,
        implicit_solve: impl_corr,
        explicit_update: implicit_rhs && !impl_corr,
        post: post_hook(solution, embedding, has_stage_post, has_step_post),
        calc_fslow: calc,
        pre_rhs: calc && has_pre_rhs && (explicit_rhs || call_implicit),
        eval_implicit: calc && call_implicit,
        deduce_implicit: calc && implicit_rhs && deduce_rhs && impl_corr,
        eval_explicit: calc && explicit_rhs,
        combine: calc && implicit_rhs && explicit_rhs,
        archive: solution,
    }
}

/// Number of stage indices an MRI-SR step runs through.
pub fn mriStep_SRMaxStages(stages: i32, fixedstep: bool, accum_none: bool) -> (r: i64)
    ensures
        r == sr_max_stages(stages as int, fixedstep, accum_none),
{
    if fixedstep && accum_none {
        stages as i64
    } else {
        stages as i64 + 1
    }
}

/// Decides what stage `stage` of an MRI-SR step does.
pub fn mriStep_SRStagePlan(
    stage: i32,
    stages: i32,
    fixedstep: bool,
    accum_none: bool,
    implicit_rhs: bool,
    explicit_rhs: bool,
    deduce_rhs: bool,
    diag_nonzero: bool,
    has_stage_post: bool,
    has_step_post: bool,
    has_pre_rhs: bool,
) -> (p: SRStagePlan)
    ensures
        p == sr_stage_plan(
            stage as int,
            stages as int,
            fixedstep,
            accum_none,
            implicit_rhs,
            explicit_rhs,
            deduce_rhs,
            diag_nonzero,
            has_stage_post,
            has_step_post,
            has_pre_rhs,
        ),
{
    let solution = stage as i64 == stages as i64 - 1;
    let embedding = stage == stages;
    let impl_corr = implicit_rhs && diag_nonzero;
    let calc = !solution && !embedding;
    let call_implicit = implicit_rhs && (!deduce_rhs || !impl_corr);
    let max_stages = mriStep_SRMaxStages(stages, fixedstep, accum_none);
    SRStagePlan {
        performed: 1 <= stage && (stage as i64) < max_stages,
        solution,
        embedding,
        restart: stage > 1,
        inner_dsm: !embedding,
        implicit_solve: impl_corr,
        explicit_update: implicit_rhs && !impl_corr,
        post: post_hook_exec(solution, embedding, has_stage_post, has_step_post),
        calc_fslow: calc,
        pre_rhs: calc && has_pre_rhs && (explicit_rhs || call_implicit),
        eval_implicit: calc && call_implicit,
        deduce_implicit: calc && implicit_rhs && deduce_rhs && impl_corr,
        eval_explicit: calc && explicit_rhs,
        combine: calc && implicit_rhs && explicit_rhs,
        archive: solution,
    }
}

} // verus!

//! MRIStep: multirate infinitesimal time stepper: the inner (fast) stepper object,
//! coupling-table structure, selection and checks, initialization and release.
use vstd::prelude::*;
use crate::consts::{
    ARK_SUCCESS, ARK_ILL_INPUT, ARK_MEM_NULL, ARK_INVALID_TABLE, ARK_INNERSTEP_FAIL,
};
use crate::decimal::Decimal;
use crate::arkode::ws_margin;

verus! {

/* MRI method types */
pub const MRISTEP_EXPLICIT: i32 = 0;
pub const MRISTEP_IMPLICIT: i32 = 1;
pub const MRISTEP_IMEX: i32 = 2;
pub const MRISTEP_MERK: i32 = 3;
pub const MRISTEP_SR: i32 = 4;

/* MRI coupling table identifiers */
pub const ARKODE_MRI_NONE: i32 = -1;
pub const ARKODE_MIS_KW3: i32 = 200;
pub const ARKODE_MRI_GARK_ERK33a: i32 = 201;
pub const ARKODE_MRI_GARK_ERK45a: i32 = 202;
pub const ARKODE_MRI_GARK_IRK21a: i32 = 203;
pub const ARKODE_MRI_GARK_ESDIRK34a: i32 = 204;
pub const ARKODE_MRI_GARK_ESDIRK46a: i32 = 205;
pub const ARKODE_IMEX_MRI_GARK3a: i32 = 206;
pub const ARKODE_IMEX_MRI_GARK3b: i32 = 207;
pub const ARKODE_IMEX_MRI_GARK4: i32 = 208;
pub const ARKODE_MRI_GARK_FORWARD_EULER: i32 = 209;
pub const ARKODE_MRI_GARK_RALSTON2: i32 = 210;
pub const ARKODE_MRI_GARK_ERK22a: i32 = 211;
pub const ARKODE_MRI_GARK_ERK22b: i32 = 212;
pub const ARKODE_MRI_GARK_RALSTON3: i32 = 213;
pub const ARKODE_MRI_GARK_BACKWARD_EULER: i32 = 214;
pub const ARKODE_MRI_GARK_IMPLICIT_MIDPOINT: i32 = 215;
pub const ARKODE_IMEX_MRI_GARK_EULER: i32 = 216;
pub const ARKODE_IMEX_MRI_GARK_TRAPEZOIDAL: i32 = 217;
pub const ARKODE_IMEX_MRI_GARK_MIDPOINT: i32 = 218;
pub const ARKODE_MERK21: i32 = 219;
pub const ARKODE_MERK32: i32 = 220;
pub const ARKODE_MERK43: i32 = 221;
pub const ARKODE_MERK54: i32 = 222;
pub const ARKODE_IMEX_MRI_SR21: i32 = 223;
pub const ARKODE_IMEX_MRI_SR32: i32 = 224;
pub const ARKODE_IMEX_MRI_SR43: i32 = 225;

/// The method order of a built-in coupling table, as its definition sets it (the
/// tables built from explicit Butcher tables take the Butcher table's order: 1 for
/// forward Euler, 2 for the explicit midpoint, Heun and Ralston tables, 3 for
/// Knoth-Wolke); 0 for an identifier without a table.
pub open spec fn table_order(id: i32) -> int {
    if id == ARKODE_MRI_GARK_FORWARD_EULER || id == ARKODE_MRI_GARK_BACKWARD_EULER
        || id == ARKODE_IMEX_MRI_GARK_EULER {
        1
    } else if id == ARKODE_MRI_GARK_ERK22a || id == ARKODE_MRI_GARK_ERK22b
        || id == ARKODE_MRI_GARK_RALSTON2 || id == ARKODE_MRI_GARK_IRK21a
        || id == ARKODE_MRI_GARK_IMPLICIT_MIDPOINT || id == ARKODE_IMEX_MRI_GARK_TRAPEZOIDAL
        || id == ARKODE_IMEX_MRI_GARK_MIDPOINT || id == ARKODE_IMEX_MRI_SR21 || id == ARKODE_MERK21 {
        2
    } else if id == ARKODE_MIS_KW3 || id == ARKODE_MRI_GARK_ERK33a || id == ARKODE_MRI_GARK_RALSTON3
        || id == ARKODE_MRI_GARK_ESDIRK34a || id == ARKODE_IMEX_MRI_GARK3a
        || id == ARKODE_IMEX_MRI_GARK3b || id == ARKODE_IMEX_MRI_SR32 || id == ARKODE_MERK32 {
        3
    } else if id == ARKODE_MRI_GARK_ERK45a || id == ARKODE_MRI_GARK_ESDIRK46a
        || id == ARKODE_IMEX_MRI_GARK4 || id == ARKODE_IMEX_MRI_SR43 || id == ARKODE_MERK43 {
        4
    } else if id == ARKODE_MERK54 {
        5
    } else {
        0
    }
}

/// The embedding order of a built-in coupling table (0: no embedding).
pub open spec fn table_embedding(id: i32) -> int {
    if id == ARKODE_MRI_GARK_ERK22a || id == ARKODE_MRI_GARK_ERK22b || id == ARKODE_MRI_GARK_RALSTON2
        || id == ARKODE_MRI_GARK_IRK21a || id == ARKODE_IMEX_MRI_SR21 || id == ARKODE_MERK21 {
        1
    } else if id == ARKODE_MRI_GARK_ERK33a || id == ARKODE_MRI_GARK_RALSTON3
        || id == ARKODE_MRI_GARK_ESDIRK34a || id == ARKODE_IMEX_MRI_SR32 || id == ARKODE_MERK32 {
        2
    } else if id == ARKODE_MRI_GARK_ERK45a || id == ARKODE_MRI_GARK_ESDIRK46a
        || id == ARKODE_IMEX_MRI_SR43 || id == ARKODE_MERK43 {
        3
    } else if id == ARKODE_MERK54 {
        4
    } else {
        0
    }
}

/// The kind of problem a built-in coupling table treats: 0 a slow part that is
/// explicit only, 1 implicit only, 2 both (ImEx); -1 for an identifier without a
/// table.
pub open spec fn table_problem(id: i32) -> int {
    if id == ARKODE_MRI_GARK_FORWARD_EULER || id == ARKODE_MRI_GARK_ERK22a
        || id == ARKODE_MRI_GARK_ERK22b || id == ARKODE_MRI_GARK_RALSTON2 || id == ARKODE_MIS_KW3
        || id == ARKODE_MRI_GARK_ERK33a || id == ARKODE_MRI_GARK_RALSTON3
        || id == ARKODE_MRI_GARK_ERK45a || id == ARKODE_MERK21 || id == ARKODE_MERK32
        || id == ARKODE_MERK43 || id == ARKODE_MERK54 {
        0
    } else if id == ARKODE_MRI_GARK_BACKWARD_EULER || id == ARKODE_MRI_GARK_IRK21a
        || id == ARKODE_MRI_GARK_IMPLICIT_MIDPOINT || id == ARKODE_MRI_GARK_ESDIRK34a
        || id == ARKODE_MRI_GARK_ESDIRK46a {
        1
    } else if id == ARKODE_IMEX_MRI_GARK_EULER || id == ARKODE_IMEX_MRI_GARK_TRAPEZOIDAL
        || id == ARKODE_IMEX_MRI_GARK_MIDPOINT || id == ARKODE_IMEX_MRI_GARK3a
        || id == ARKODE_IMEX_MRI_GARK3b || id == ARKODE_IMEX_MRI_GARK4 || id == ARKODE_IMEX_MRI_SR21
        || id == ARKODE_IMEX_MRI_SR32 || id == ARKODE_IMEX_MRI_SR43 {
        2
    } else {
        -1
    }
}

/* default coupling tables for each order and problem type */
pub const MRISTEP_DEFAULT_EXPL_1: i32 = ARKODE_MRI_GARK_FORWARD_EULER;
pub const MRISTEP_DEFAULT_EXPL_2: i32 = ARKODE_MRI_GARK_ERK22b;
pub const MRISTEP_DEFAULT_EXPL_3: i32 = ARKODE_MIS_KW3;
pub const MRISTEP_DEFAULT_EXPL_4: i32 = ARKODE_MRI_GARK_ERK45a;
pub const MRISTEP_DEFAULT_EXPL_2_AD: i32 = ARKODE_MRI_GARK_ERK22b;
pub const MRISTEP_DEFAULT_EXPL_3_AD: i32 = ARKODE_MRI_GARK_ERK33a;
pub const MRISTEP_DEFAULT_EXPL_4_AD: i32 = ARKODE_MRI_GARK_ERK45a;
pub const MRISTEP_DEFAULT_EXPL_5_AD: i32 = ARKODE_MERK54;
pub const MRISTEP_DEFAULT_IMPL_SD_1: i32 = ARKODE_MRI_GARK_BACKWARD_EULER;
pub const MRISTEP_DEFAULT_IMPL_SD_2: i32 = ARKODE_MRI_GARK_IRK21a;
pub const MRISTEP_DEFAULT_IMPL_SD_3: i32 = ARKODE_MRI_GARK_ESDIRK34a;
pub const MRISTEP_DEFAULT_IMPL_SD_4: i32 = ARKODE_MRI_GARK_ESDIRK46a;
pub const MRISTEP_DEFAULT_IMEX_SD_1: i32 = ARKODE_IMEX_MRI_GARK_EULER;
pub const MRISTEP_DEFAULT_IMEX_SD_2: i32 = ARKODE_IMEX_MRI_GARK_TRAPEZOIDAL;
pub const MRISTEP_DEFAULT_IMEX_SD_3: i32 = ARKODE_IMEX_MRI_GARK3b;
pub const MRISTEP_DEFAULT_IMEX_SD_4: i32 = ARKODE_IMEX_MRI_GARK4;
pub const MRISTEP_DEFAULT_IMEX_SD_2_AD: i32 = ARKODE_IMEX_MRI_SR21;
pub const MRISTEP_DEFAULT_IMEX_SD_3_AD: i32 = ARKODE_IMEX_MRI_SR32;
pub const MRISTEP_DEFAULT_IMEX_SD_4_AD: i32 = ARKODE_IMEX_MRI_SR43;

/* stage types */
pub const MRISTAGE_ERK_FAST: i32 = 0;
pub const MRISTAGE_ERK_NOFAST: i32 = 1;
pub const MRISTAGE_DIRK_NOFAST: i32 = 2;
pub const MRISTAGE_DIRK_FAST: i32 = 3;
pub const MRISTAGE_STIFF_ACC: i32 = 4;
pub const MRISTAGE_FIRST: i32 = 5;

/// Inner (fast) stepper: whether content is attached, which operations it
/// provides, its forcing vectors and its own workspace accounting.
#[derive(Clone, Copy, PartialEq, Eq, Debug)]
pub struct MRIStepInnerStepper {
    pub content: bool,
    pub evolve: bool,
    pub fullrhs: bool,
    pub reset: bool,
    pub geterror: bool,
    pub reseterror: bool,
    pub setrtol: bool,
    /// the forcing vector array is allocated
    pub forcing: bool,
    pub nforcing: i32,
    pub nforcing_allocated: i32,
    pub lrw: i64,
    pub liw: i64,
    pub lrw1: i64,
    pub liw1: i64,
    pub last_flag: i32,
}

/// A new inner stepper: no content, no operations, no forcing.
pub open spec fn inner_stepper_created() -> MRIStepInnerStepper {
    MRIStepInnerStepper {
        content: false,
        evolve: false,
        fullrhs: false,
        reset: false,
        geterror: false,
        reseterror: false,
        setrtol: false,
        forcing: false,
        nforcing: 0,
        nforcing_allocated: 0,
        lrw: 0,
        liw: 0,
        lrw1: 0,
        liw1: 0,
        last_flag: ARK_SUCCESS,
    }
}

/// Creates an inner stepper with no content and no operations.
pub fn MRIStepInnerStepper_Create() -> (s: MRIStepInnerStepper)
    ensures
        s == inner_stepper_created(),
{
    MRIStepInnerStepper {
        content: false,
        evolve: false,
        fullrhs: false,
        reset: false,
        geterror: false,
        reseterror: false,
        setrtol: false,
        forcing: false,
        nforcing: 0,
        nforcing_allocated: 0,
        lrw: 0,
        liw: 0,
        lrw1: 0,
        liw1: 0,
        last_flag: ARK_SUCCESS,
    }
}

/// Attaches (`true`) or detaches the inner stepper's content.
pub fn MRIStepInnerStepper_SetContent(stepper: &mut MRIStepInnerStepper, content: bool) -> (r: i32)
    ensures
        r == ARK_SUCCESS,
        *final(stepper) == (MRIStepInnerStepper { content, ..*old(stepper) }),
{
    stepper.content = content;
    ARK_SUCCESS
}

/// Whether content is attached to the inner stepper.
pub fn MRIStepInnerStepper_GetContent(stepper: &mut MRIStepInnerStepper) -> (c: bool)
    ensures
        c == old(stepper).content,
        *final(stepper) == *old(stepper),
{
    stepper.content
}

/// Installs the evolve operation.
pub fn MRIStepInnerStepper_SetEvolveFn(stepper: &mut MRIStepInnerStepper) -> (r: i32)
    ensures
        r == ARK_SUCCESS,
        *final(stepper) == (MRIStepInnerStepper { evolve: true, ..*old(stepper) }),
{
    stepper.evolve = true;
    ARK_SUCCESS
}

/// Installs the full right-hand side operation.
pub fn MRIStepInnerStepper_SetFullRhsFn(stepper: &mut MRIStepInnerStepper) -> (r: i32)
    ensures
        r == ARK_SUCCESS,
        *final(stepper) == (MRIStepInnerStepper { fullrhs: true, ..*old(stepper) }),
{
    stepper.fullrhs = true;
    ARK_SUCCESS
}

/// Installs the reset operation.
pub fn MRIStepInnerStepper_SetResetFn(stepper: &mut MRIStepInnerStepper) -> (r: i32)
    ensures
        r == ARK_SUCCESS,
        *final(stepper) == (MRIStepInnerStepper { reset: true, ..*old(stepper) }),
{
    stepper.reset = true;
    ARK_SUCCESS
}

/// Installs the accumulated-error query operation.
pub fn MRIStepInnerStepper_SetAccumulatedErrorGetFn(stepper: &mut MRIStepInnerStepper) -> (r: i32)
    ensures
        r == ARK_SUCCESS,
        *final(stepper) == (MRIStepInnerStepper { geterror: true, ..*old(stepper) }),
{
    stepper.geterror = true;
    ARK_SUCCESS
}

/// Installs the accumulated-error reset operation.
pub fn MRIStepInnerStepper_SetAccumulatedErrorResetFn(stepper: &mut MRIStepInnerStepper) -> (r: i32)
    ensures
        r == ARK_SUCCESS,
        *final(stepper) == (MRIStepInnerStepper { reseterror: true, ..*old(stepper) }),
{
    stepper.reseterror = true;
    ARK_SUCCESS
}

/// Installs the relative tolerance operation.
pub fn MRIStepInnerStepper_SetRTolFn(stepper: &mut MRIStepInnerStepper) -> (r: i32)
    ensures
        r == ARK_SUCCESS,
        *final(stepper) == (MRIStepInnerStepper { setrtol: true, ..*old(stepper) }),
{
    stepper.setrtol = true;
    ARK_SUCCESS
}

/// An inner stepper wrapping a SUNStepper: the SUNStepper is its content and it
/// provides the evolve, full right-hand side and reset operations.
pub open spec fn inner_stepper_from_sunstepper() -> MRIStepInnerStepper {
    MRIStepInnerStepper {
        content: true,
        evolve: true,
        fullrhs: true,
        reset: true,
        ..inner_stepper_created()
    }
}

/// Creates an inner stepper around a SUNStepper.
pub fn MRIStepInnerStepper_CreateFromSUNStepper() -> (s: MRIStepInnerStepper)
    ensures
        s == inner_stepper_from_sunstepper(),
{
    let mut stepper = MRIStepInnerStepper_Create();
    let _ = MRIStepInnerStepper_SetContent(&mut stepper, true);
    let _ = MRIStepInnerStepper_SetEvolveFn(&mut stepper);
    let _ = MRIStepInnerStepper_SetFullRhsFn(&mut stepper);
    let _ = MRIStepInnerStepper_SetResetFn(&mut stepper);
    stepper
}

/// Releases an inner stepper.
pub fn MRIStepInnerStepper_Free(stepper: &mut Option<MRIStepInnerStepper>) -> (r: i32)
    ensures
        r == ARK_SUCCESS,
        *final(stepper) is None,
{
    *stepper = None;
    ARK_SUCCESS
}

/// The inner stepper can evolve the fast problem (`ARK_ILL_INPUT` otherwise).
pub fn mriStepInnerStepper_HasRequiredOps(stepper: &MRIStepInnerStepper) -> (r: i32)
    ensures
        r == (if stepper.evolve { ARK_SUCCESS } else { ARK_ILL_INPUT }),
{
    if stepper.evolve {
        ARK_SUCCESS
    } else {
        ARK_ILL_INPUT
    }
}

/// The inner stepper supports fast/slow tolerance adaptivity: it can report and
/// reset its accumulated error and accept a relative tolerance.
pub fn mriStepInnerStepper_SupportsRTolAdaptivity(stepper: &MRIStepInnerStepper) -> (b: bool)
    ensures
        b == (stepper.geterror && stepper.reseterror && stepper.setrtol),
{
    stepper.geterror && stepper.reseterror && stepper.setrtol
}

/// Resets the inner stepper's accumulated error.  When it reports an accumulated
/// error, its reset operation runs and `flag` is what that operation returned: it
/// becomes the last flag and the result.  Otherwise the stepper is taken to be
/// exact and nothing happens.
pub fn mriStepInnerStepper_ResetAccumulatedError(stepper: &mut MRIStepInnerStepper, flag: i32) -> (r: i32)
    requires
        old(stepper).geterror ==> old(stepper).reseterror,
    ensures
        old(stepper).geterror ==> r == flag && *final(stepper) == (MRIStepInnerStepper {
            last_flag: flag,
            ..*old(stepper)
        }),
        !old(stepper).geterror ==> r == ARK_SUCCESS && *final(stepper) == *old(stepper),
{
    if stepper.geterror {
        stepper.last_flag = flag;
        flag
    } else {
        ARK_SUCCESS
    }
}

/// The inner stepper after one of its operations ran and returned `flag`: the flag
/// is recorded as its last flag.
pub open spec fn with_last_flag(s: MRIStepInnerStepper, flag: i32) -> MRIStepInnerStepper {
    MRIStepInnerStepper { last_flag: flag, ..s }
}

/// Advances the inner stepper over a slow step.  Its evolve operation runs when
/// it has one, and `flag` is what that operation returned: it becomes the last
/// flag and the result.  Without one, `ARK_ILL_INPUT`.
pub fn mriStepInnerStepper_Evolve(stepper: &mut MRIStepInnerStepper, flag: i32) -> (r: i32)
    ensures
        old(stepper).evolve ==> r == flag && *final(stepper) == with_last_flag(*old(stepper), flag),
        !old(stepper).evolve ==> r == ARK_ILL_INPUT && *final(stepper) == *old(stepper),
{
    if !stepper.evolve {
        return ARK_ILL_INPUT;
    }
    stepper.last_flag = flag;
    flag
}

/// Evaluates the inner stepper's full right-hand side.  Its operation runs when it
/// has one, and `flag` is what it returned: it becomes the last flag and the
/// result.  Without one, `ARK_ILL_INPUT`.
pub fn mriStepInnerStepper_FullRhs(stepper: &mut MRIStepInnerStepper, flag: i32) -> (r: i32)
    ensures
        old(stepper).fullrhs ==> r == flag && *final(stepper) == with_last_flag(*old(stepper), flag),
        !old(stepper).fullrhs ==> r == ARK_ILL_INPUT && *final(stepper) == *old(stepper),
{
    if !stepper.fullrhs {
        return ARK_ILL_INPUT;
    }
    stepper.last_flag = flag;
    flag
}

/// Resets the inner stepper to a new state.  Its reset operation runs when it has
/// one, and `flag` is what it returned: it becomes the last flag and the result.
/// Without one the stepper is taken to read the state it is given, and nothing
/// happens.
pub fn mriStepInnerStepper_Reset(stepper: &mut MRIStepInnerStepper, flag: i32) -> (r: i32)
    ensures
        old(stepper).reset ==> r == flag && *final(stepper) == with_last_flag(*old(stepper), flag),
        !old(stepper).reset ==> r == ARK_SUCCESS && *final(stepper) == *old(stepper),
{
    if !stepper.reset {
        return ARK_SUCCESS;
    }
    stepper.last_flag = flag;
    flag
}

/// Reads the inner stepper's accumulated error.  Its operation runs when it has
/// one, and `flag` is what it returned: it becomes the last flag and the result.
/// Without one, `ARK_INNERSTEP_FAIL`.
pub fn mriStepInnerStepper_GetAccumulatedError(stepper: &mut MRIStepInnerStepper, flag: i32) -> (r: i32)
    ensures
        old(stepper).geterror ==> r == flag && *final(stepper) == with_last_flag(*old(stepper), flag),
        !old(stepper).geterror ==> r == ARK_INNERSTEP_FAIL && *final(stepper) == *old(stepper),
{
    if !stepper.geterror {
        return ARK_INNERSTEP_FAIL;
    }
    stepper.last_flag = flag;
    flag
}

/// Sets the inner stepper's relative tolerance factor.  Its operation runs when it
/// has one, and `flag` is what it returned: it becomes the last flag and the
/// result.  Without one the stepper is taken to be exact, and nothing happens.
pub fn mriStepInnerStepper_SetRTol(stepper: &mut MRIStepInnerStepper, flag: i32) -> (r: i32)
    ensures
        old(stepper).setrtol ==> r == flag && *final(stepper) == with_last_flag(*old(stepper), flag),
        !old(stepper).setrtol ==> r == ARK_SUCCESS && *final(stepper) == *old(stepper),
{
    if !stepper.setrtol {
        return ARK_SUCCESS;
    }
    stepper.last_flag = flag;
    flag
}

/// Forcing workspace of an inner stepper within machine limits.
pub open spec fn inner_ws_ok(s: MRIStepInnerStepper) -> bool {
    &&& 0 <= s.nforcing_allocated <= 0x1_0000
    &&& 0 <= s.lrw1 <= 0x1_0000_0000
    &&& -0x1000_0000_0000_0000 <= s.lrw <= 0x1000_0000_0000_0000
    &&& -0x1000_0000_0000_0000 <= s.liw <= 0x1000_0000_0000_0000
}

/// The inner stepper after `mriStepInnerStepper_AllocVecs(count, n)`: vector
/// sizes `n` real and 1 integer word, `count` forcing vectors; when more are needed
/// than allocated, the old array is released (if any were) and a new one allocated.
pub open spec fn inner_alloc_result(s: MRIStepInnerStepper, count: i32, n: i64) -> MRIStepInnerStepper {
    let s1 = MRIStepInnerStepper { lrw1: n, liw1: 1, nforcing: count, ..s };
    if s1.nforcing_allocated < count {
        let freed = s1.forcing && s1.nforcing_allocated > 0;
        let lrw2 = if freed { s1.lrw - s1.nforcing_allocated * n } else { s1.lrw as int };
        let liw2 = if freed { s1.liw - s1.nforcing_allocated } else { s1.liw as int };
        let present = if freed { false } else { s1.forcing };
        MRIStepInnerStepper {
            forcing: true,
            lrw: (if present { lrw2 } else { lrw2 + count * n }) as i64,
            liw: (if present { liw2 } else { liw2 + count }) as i64,
            nforcing_allocated: count,
            ..s1
        }
    } else {
        s1
    }
}

/// Sets up the inner stepper's forcing vectors for `count` forcing terms of
/// problem size `n`.
pub fn mriStepInnerStepper_AllocVecs(stepper: &mut MRIStepInnerStepper, count: i32, n: i64) -> (r: i32)
    requires
        inner_ws_ok(*old(stepper)),
        count <= 0x1_0000,
        0 <= n <= 0x1_0000_0000,
    ensures
        r == ARK_SUCCESS,
        *final(stepper) == inner_alloc_result(*old(stepper), count, n),
{
    let mut s = *stepper;
    s.lrw1 = n;
    s.liw1 = 1;
    s.nforcing = count;
    if s.nforcing_allocated < s.nforcing {
        proof {
            assert(0 <= s.nforcing_allocated * n <= 0x1_0000 * 0x1_0000_0000) by (nonlinear_arith)
                requires
                    0 <= s.nforcing_allocated <= 0x1_0000,
                    0 <= n <= 0x1_0000_0000,
            ;
            assert(0 <= count * n <= 0x1_0000 * 0x1_0000_0000) by (nonlinear_arith)
                requires
                    0 <= count <= 0x1_0000,
                    0 <= n <= 0x1_0000_0000,
            ;
        }
        if s.nforcing_allocated > 0 && s.forcing {
            s.lrw = s.lrw - s.nforcing_allocated as i64 * n;
            s.liw = s.liw - s.nforcing_allocated as i64;
            s.forcing = false;
        }
        if !s.forcing {
            s.lrw = s.lrw + count as i64 * n;
            s.liw = s.liw + count as i64;
            s.forcing = true;
        }
        s.nforcing_allocated = count;
    }
    *stepper = s;
    ARK_SUCCESS
}

/// The inner stepper after its forcing vectors are released (the allocated count
/// is kept).
pub open spec fn inner_free_result(s: MRIStepInnerStepper) -> MRIStepInnerStepper {
    if s.forcing {
        MRIStepInnerStepper {
            forcing: false,
            lrw: (s.lrw - s.nforcing_allocated * s.lrw1) as i64,
            liw: (s.liw - s.nforcing_allocated * s.liw1) as i64,
            ..s
        }
    } else {
        s
    }
}

/// Releases the inner stepper's forcing vectors.
pub fn mriStepInnerStepper_FreeVecs(stepper: &mut MRIStepInnerStepper) -> (r: i32)
    requires
        inner_ws_ok(*old(stepper)),
        0 <= old(stepper).liw1 <= 0x1_0000_0000,
    ensures
        r == ARK_SUCCESS,
        *final(stepper) == inner_free_result(*old(stepper)),
{
    let mut s = *stepper;
    if s.forcing {
        proof {
            assert(0 <= s.nforcing_allocated * s.lrw1 <= 0x1_0000 * 0x1_0000_0000) by (nonlinear_arith)
                requires
                    0 <= s.nforcing_allocated <= 0x1_0000,
                    0 <= s.lrw1 <= 0x1_0000_0000,
            ;
            assert(0 <= s.nforcing_allocated * s.liw1 <= 0x1_0000 * 0x1_0000_0000) by (nonlinear_arith)
                requires
                    0 <= s.nforcing_allocated <= 0x1_0000,
                    0 <= s.liw1 <= 0x1_0000_0000,
            ;
        }
        s.lrw = s.lrw - s.nforcing_allocated as i64 * s.lrw1;
        s.liw = s.liw - s.nforcing_allocated as i64 * s.liw1;
        s.forcing = false;
    }
    *stepper = s;
    ARK_SUCCESS
}

/// Structure of an MRI coupling table.  The coefficients are real numbers held
/// where the table is built; the table carries its dimensions and groups, and the
/// facts about its coefficients that the checks and stage classification read, each
/// a comparison of sums of magnitudes against 100 units of roundoff:
/// * `w_upper`: some explicit coefficient on or above the diagonal is nonzero;
/// * `g_strict_upper`: some implicit coefficient above the diagonal is nonzero;
/// * `c_unsorted`: some abscissa decreases from the one before;
/// * `first_nonzero`: the first abscissa or a first-row coefficient is nonzero;
/// * `last_off_one`: the last abscissa differs from 1;
/// * per stage `is` (0 to `stages`), as the stage classification reads them (the
///   embedding row `stages` against the previous stage): `g_diag[is]` diagonal
///   implicit coefficient, `g_row[is]` / `w_row[is]` some implicit / explicit
///   coefficient in the row, `c_step[is]` abscissa different from the previous;
/// * per column `j` (0 to `stages - 1`): `col_active[j]` some coefficient of the
///   column, in any matrix and row, is nonzero.
pub struct MRIStepCoupling {
    pub ctype: i32,
    pub nmat: i32,
    pub stages: i32,
    pub q: i32,
    pub p: i32,
    pub has_c: bool,
    pub has_W: bool,
    pub has_G: bool,
    pub ngroup: i32,
    pub group: Vec<Vec<i32>>,
    pub w_upper: bool,
    pub g_strict_upper: bool,
    pub c_unsorted: bool,
    pub first_nonzero: bool,
    pub last_off_one: bool,
    pub g_diag: Vec<bool>,
    pub g_row: Vec<bool>,
    pub w_row: Vec<bool>,
    pub c_step: Vec<bool>,
    pub col_active: Vec<bool>,
}

/// Dimensions of a coupling table: array sizes are nonnegative, the sizes its
/// space query computes fit in `i32`, and the per-stage and per-column facts cover
/// every stage and column.  The stage bound follows from the square of the stages
/// fitting in `i32`.  The matrix count is bounded by 2^16 as a memory limit: the
/// inner stepper allocates one forcing vector of the problem's length (up to 2^32
/// words) per matrix, and their total must stay countable in the 64-bit workspace
/// counters with room for the rest of the integrator's workspace.
pub open spec fn coupling_ok(c: MRIStepCoupling) -> bool {
    &&& 0 <= c.nmat <= 0x1_0000
    &&& 0 <= c.stages <= 0x1_0000
    &&& c.nmat * (c.stages + 1) * c.stages <= i32::MAX
    &&& c.stages * c.stages <= i32::MAX
    &&& c.g_diag.len() == c.stages + 1
    &&& c.g_row.len() == c.stages + 1
    &&& c.w_row.len() == c.stages + 1
    &&& c.c_step.len() == c.stages + 1
    &&& c.col_active.len() == c.stages
}

/// Integer words of a coupling table.
pub open spec fn coupling_liw(c: MRIStepCoupling) -> int {
    5 + if c.group.len() > 0 { c.stages * c.stages } else { 0 }
}

/// Real words of a coupling table.
pub open spec fn coupling_lrw(c: MRIStepCoupling) -> int {
    (if c.has_c { c.stages as int } else { 0 })
        + (if c.has_W { c.nmat * (c.stages + 1) * c.stages } else { 0 })
        + (if c.has_G { c.nmat * (c.stages + 1) * c.stages } else { 0 })
}

/// The workspace of a table within limits is bounded.
pub proof fn lemma_coupling_words(c: MRIStepCoupling)
    requires
        coupling_ok(c),
    ensures
        0 <= coupling_lrw(c) <= 3 * i32::MAX as int,
        5 <= coupling_liw(c) <= 5 + i32::MAX as int,
{
    assert(0 <= c.nmat * (c.stages + 1)) by (nonlinear_arith)
        requires
            0 <= c.nmat,
            0 <= c.stages,
    ;
    assert(0 <= c.nmat * (c.stages + 1) * c.stages) by (nonlinear_arith)
        requires
            0 <= c.nmat * (c.stages + 1),
            0 <= c.stages,
    ;
    assert(0 <= c.stages * c.stages) by (nonlinear_arith)
        requires
            0 <= c.stages,
    ;
}

/// Workspace of a coupling table: (integer words, real words); none without a
/// table.
pub fn MRIStepCoupling_Space(MRIC: Option<&MRIStepCoupling>) -> (r: (i64, i64))
    requires
        MRIC matches Some(c) ==> coupling_ok(*c),
    ensures
        MRIC is None ==> r == (0i64, 0i64),
        MRIC matches Some(c) ==> r.0 == coupling_liw(*c) && r.1 == coupling_lrw(*c),
        MRIC matches Some(c) ==> 5 <= r.0 <= 5 + i32::MAX && 0 <= r.1 <= 3 * i32::MAX as int,
{
    match MRIC {
        None => (0, 0),
        Some(c) => {
            let mut liw: i64 = 5;
            let mut lrw: i64 = 0;
            proof {
                assert(0 <= c.nmat * (c.stages + 1)) by (nonlinear_arith)
                    requires
                        0 <= c.nmat,
                        0 <= c.stages,
                ;
                assert(0 <= c.nmat * (c.stages + 1) * c.stages) by (nonlinear_arith)
                    requires
                        0 <= c.nmat * (c.stages + 1),
                        0 <= c.stages,
                ;
                assert(0 <= c.stages * c.stages) by (nonlinear_arith)
                    requires
                        0 <= c.stages,
                ;
                assert(c.nmat * (c.stages + 1) <= c.nmat * (c.stages + 1) * c.stages || c.stages
                    == 0) by (nonlinear_arith)
                    requires
                        0 <= c.nmat * (c.stages + 1),
                        0 <= c.stages,
                ;
                assert(c.nmat * (c.stages + 1) <= i32::MAX) by (nonlinear_arith)
                    requires
                        0 <= c.nmat <= 0x1_0000,
                        0 <= c.stages,
                        c.nmat * (c.stages + 1) * c.stages <= i32::MAX,
                ;
            }
            let m: i32 = c.nmat * (c.stages + 1);
            let words: i32 = m * c.stages;
            if c.has_c {
                lrw = lrw + c.stages as i64;
            }
            if c.has_W {
                lrw = lrw + words as i64;
            }
            if c.has_G {
                lrw = lrw + words as i64;
            }
            if c.group.len() > 0 {
                liw = liw + (c.stages * c.stages) as i64;
            }
            (liw, lrw)
        },
    }
}

/// Table types that hold explicit coupling matrices.
pub open spec fn type_has_W(t: i32) -> bool {
    t == MRISTEP_EXPLICIT || t == MRISTEP_IMEX || t == MRISTEP_MERK || t == MRISTEP_SR
}

/// Table types that hold implicit coupling matrices.
pub open spec fn type_has_G(t: i32) -> bool {
    t == MRISTEP_IMPLICIT || t == MRISTEP_IMEX || t == MRISTEP_SR
}

/// Dimensions whose arrays and space query stay within machine limits.
pub open spec fn coupling_dims_fit(nmat: int, stages: int) -> bool {
    &&& 0 <= nmat <= 0x1_0000
    &&& 0 <= stages <= 0x1_0000
    &&& nmat * (stages + 1) * stages <= i32::MAX
    &&& stages * stages <= i32::MAX
}

/// `n` copies of `false`.
pub open spec fn all_false(n: int) -> Seq<bool> {
    Seq::new(n as nat, |i: int| false)
}

/// The table `MRIStepCoupling_Alloc` gives for valid dimensions: type `t`, orders
/// zero, abscissae and the coupling matrices of the type (explicit ones for
/// explicit, ImEx, MERK and MRI-SR tables, implicit ones for implicit, ImEx and
/// MRI-SR tables), every coefficient zero; a MERK table gets `stages` stage groups
/// of `stages` entries, all `-1`.  Of a zero table every fact is false except that
/// the last abscissa differs from 1.
pub open spec fn is_zero_table(c: MRIStepCoupling, nmat: i32, stages: i32, t: i32) -> bool {
    &&& c.ctype == t && c.nmat == nmat && c.stages == stages
    &&& c.q == 0 && c.p == 0
    &&& c.has_c && c.has_W == type_has_W(t) && c.has_G == type_has_G(t)
    &&& c.ngroup == (if t == MRISTEP_MERK { stages } else { 0 })
    &&& c.group@.len() == (if t == MRISTEP_MERK { stages as int } else { 0 })
    &&& forall|i: int| 0 <= i < c.group@.len() ==> (#[trigger] c.group@[i])@ == Seq::new(
        stages as nat,
        |j: int| -1i32,
    )
    &&& !c.w_upper && !c.g_strict_upper && !c.c_unsorted && !c.first_nonzero
    &&& c.last_off_one
    &&& c.g_diag@ == all_false(stages + 1) && c.g_row@ == all_false(stages + 1)
    &&& c.w_row@ == all_false(stages + 1) && c.c_step@ == all_false(stages + 1)
    &&& c.col_active@ == all_false(stages as int)
}

/// `n` copies of `false` (computed).
fn false_vec(n: usize) -> (v: Vec<bool>)
    ensures
        v@ == all_false(n as int),
{
    let mut v: Vec<bool> = Vec::new();
    let mut i: usize = 0;
    while i < n
        invariant
            i <= n,
            v@ == all_false(i as int),
        decreases n - i,
    {
        v.push(false);
        i = i + 1;
        assert(v@ =~= all_false(i as int));
    }
    v
}

/// `k` stage groups of `s` entries, all `-1` (computed).
fn unset_groups(k: usize, s: usize) -> (g: Vec<Vec<i32>>)
    ensures
        g@.len() == k,
        forall|i: int| 0 <= i < k ==> (#[trigger] g@[i])@ == Seq::new(s as nat, |j: int| -1i32),
{
    let mut g: Vec<Vec<i32>> = Vec::new();
    let mut i: usize = 0;
    while i < k
        invariant
            i <= k,
            g@.len() == i,
            forall|m: int| 0 <= m < i ==> (#[trigger] g@[m])@ == Seq::new(s as nat, |j: int| -1i32),
        decreases k - i,
    {
        let mut row: Vec<i32> = Vec::new();
        let mut j: usize = 0;
        while j < s
            invariant
                j <= s,
                row@ == Seq::new(j as nat, |x: int| -1i32),
            decreases s - j,
        {
            row.push(-1);
            j = j + 1;
            assert(row@ =~= Seq::new(j as nat, |x: int| -1i32));
        }
        g.push(row);
        i = i + 1;
    }
    g
}

/// Allocates a coupling table of type `type_` with `nmat` matrices and `stages`
/// stages, every coefficient zero; `None` unless `nmat` and `stages` are positive.
pub fn MRIStepCoupling_Alloc(nmat: i32, stages: i32, type_: i32) -> (r: Option<MRIStepCoupling>)
    requires
        nmat >= 1 && stages >= 1 ==> coupling_dims_fit(nmat as int, stages as int),
    ensures
        (nmat < 1 || stages < 1) <==> r is None,
        r matches Some(c) ==> is_zero_table(c, nmat, stages, type_) && coupling_ok(c),
{
    if nmat < 1 || stages < 1 {
        return None;
    }
    let s = stages as usize;
    let merk = type_ == MRISTEP_MERK;
    let c = MRIStepCoupling {
        ctype: type_,
        nmat,
        stages,
        q: 0,
        p: 0,
        has_c: true,
        has_W: type_ == MRISTEP_EXPLICIT || type_ == MRISTEP_IMEX || merk || type_ == MRISTEP_SR,
        has_G: type_ == MRISTEP_IMPLICIT || type_ == MRISTEP_IMEX || type_ == MRISTEP_SR,
        ngroup: if merk { stages } else { 0 },
        group: if merk { unset_groups(s, s) } else { Vec::new() },
        w_upper: false,
        g_strict_upper: false,
        c_unsorted: false,
        first_nonzero: false,
        last_off_one: true,
        g_diag: false_vec(s + 1),
        g_row: false_vec(s + 1),
        w_row: false_vec(s + 1),
        c_step: false_vec(s + 1),
        col_active: false_vec(s),
    };
    Some(c)
}

/// Method settings of MRIStep.
#[derive(Clone, Copy, PartialEq, Eq, Debug)]
pub struct MRIMethodInfo {
    pub explicit_rhs: bool,
    pub implicit_rhs: bool,
    pub q: i32,
    pub p: i32,
    pub stages: i32,
    pub istage: i32,
    pub predictor: i32,
    /// number of forcing terms applied when MRIStep is itself an inner stepper
    pub nforcing: i32,
    /// the forcing terms are added to the explicit / implicit slow right-hand side
    pub expforcing: bool,
    pub impforcing: bool,
    /// the stored slow right-hand sides are current
    pub fse_is_current: bool,
    pub fsi_is_current: bool,
    pub unify_Fs: bool,
    pub jcur: bool,
    pub inner_rtol_factor: Decimal,
}

/// Workspace held by MRIStep: which arrays and vectors are allocated, and their
/// counts.
#[derive(Clone, Copy, PartialEq, Eq, Debug)]
pub struct MRIWorkspace {
    pub Fse: bool,
    pub Fsi: bool,
    pub nstages_active: i32,
    pub nstages_allocated: i32,
    pub Ae_row: bool,
    pub Ai_row: bool,
    pub cvals: bool,
    pub nfusedopvecs: i32,
    pub sdata: bool,
    pub zpred: bool,
    pub zcor: bool,
}

/// Algebraic solvers of MRIStep: the nonlinear solver and the attached linear
/// solver interface routines, with the linear solver counters.
#[derive(Clone, Copy, PartialEq, Eq, Debug)]
pub struct MRISolvers {
    pub NLS: bool,
    pub ownNLS: bool,
    pub linit: bool,
    pub lsetup: bool,
    pub lsolve: bool,
    pub lfree: bool,
    pub nsetups: i64,
    pub nstlp: i64,
}

/// MRIStep memory.
pub struct ARKodeMRIStepMem {
    pub method: MRIMethodInfo,
    pub work: MRIWorkspace,
    pub solvers: MRISolvers,
    pub stepper: MRIStepInnerStepper,
    pub MRIC: Option<MRIStepCoupling>,
    pub stage_map: Vec<i32>,
    pub stagetypes: Vec<i32>,
    /// evaluations of the explicit and the implicit slow right-hand side
    pub nfse: i64,
    pub nfsi: i64,
    /// nonlinear solver iterations and failures, and failed inner integrations
    pub nls_iters: i64,
    pub nls_fails: i64,
    pub inner_fails: i64,
}

/// The integrator's stepper is MRIStep.
pub open spec fn is_mri(a: crate::arkode::ARKodeMem) -> bool {
    a.step_mem is Mri
}

/// The MRIStep memory of an integrator whose stepper is MRIStep.
pub open spec fn mri_mem(a: crate::arkode::ARKodeMem) -> ARKodeMRIStepMem {
    a.step_mem->Mri_0
}

/// Classification of stage `is` of a coupling table: the first stage; for MERK and
/// MRI-SR tables every other stage evolves the fast problem explicitly; otherwise
/// a stage with nothing to compute is stiffly accurate, a stage with a diagonal
/// implicit coefficient is DIRK, else ERK, and it evolves the fast problem when its
/// abscissa moves.  Stages outside `0..=stages` are `ARK_INVALID_TABLE`.
pub open spec fn stage_type(c: MRIStepCoupling, is: int) -> i32 {
    if is < 0 || is > c.stages {
        ARK_INVALID_TABLE
    } else if is == 0 {
        MRISTAGE_FIRST
    } else if c.ctype == MRISTEP_SR || c.ctype == MRISTEP_MERK {
        MRISTAGE_ERK_FAST
    } else if !(c.g_diag@[is] || c.g_row@[is] || c.w_row@[is] || c.c_step@[is]) {
        MRISTAGE_STIFF_ACC
    } else if c.g_diag@[is] {
        if c.c_step@[is] { MRISTAGE_DIRK_FAST } else { MRISTAGE_DIRK_NOFAST }
    } else {
        if c.c_step@[is] { MRISTAGE_ERK_FAST } else { MRISTAGE_ERK_NOFAST }
    }
}

/// Stage type of stage `is` (computed).
pub fn mriStepCoupling_GetStageType(MRIC: &MRIStepCoupling, is: i32) -> (r: i32)
    requires
        coupling_ok(*MRIC),
    ensures
        r == stage_type(*MRIC, is as int),
{
    if is < 0 || is > MRIC.stages {
        return ARK_INVALID_TABLE;
    }
    if is == 0 {
        return MRISTAGE_FIRST;
    }
    if MRIC.ctype == MRISTEP_SR || MRIC.ctype == MRISTEP_MERK {
        return MRISTAGE_ERK_FAST;
    }
    let k = is as usize;
    let gdiag = MRIC.g_diag[k];
    let grow = MRIC.g_row[k];
    let wrow = MRIC.w_row[k];
    let cdiff = MRIC.c_step[k];
    if !(gdiag || grow || wrow || cdiff) {
        return MRISTAGE_STIFF_ACC;
    }
    if gdiag {
        if cdiff { MRISTAGE_DIRK_FAST } else { MRISTAGE_DIRK_NOFAST }
    } else {
        if cdiff { MRISTAGE_ERK_FAST } else { MRISTAGE_ERK_NOFAST }
    }
}

/// Number of active columns before column `j` (those with a nonzero coefficient).
pub open spec fn active_before(c: MRIStepCoupling, j: int) -> int
    decreases j,
{
    if j <= 0 {
        0
    } else {
        active_before(c, j - 1) + if c.col_active@[j - 1] { 1int } else { 0int }
    }
}

/// The stage map entry of column `j`: MERK and MRI-SR tables store every stage
/// right-hand side in order; other tables store only active columns, numbered in
/// order, and mark the others `-1`.
pub open spec fn stage_map_entry(c: MRIStepCoupling, j: int) -> int {
    if c.ctype == MRISTEP_MERK || c.ctype == MRISTEP_SR {
        j
    } else if c.col_active@[j] {
        active_before(c, j)
    } else {
        -1
    }
}

/// Number of stage right-hand sides the stage map stores.
pub open spec fn stages_active(c: MRIStepCoupling) -> int {
    if c.ctype == MRISTEP_MERK || c.ctype == MRISTEP_SR {
        c.stages as int
    } else {
        active_before(c, c.stages as int)
    }
}

/// The stage map can be built: the table has coupling matrices and stores at least
/// one stage right-hand side.
pub open spec fn stage_map_ok(c: MRIStepCoupling) -> bool {
    (c.has_W || c.has_G) && ((c.ctype == MRISTEP_MERK || c.ctype == MRISTEP_SR) || stages_active(
        c,
    ) >= 1)
}

pub proof fn lemma_active_before_bounds(c: MRIStepCoupling, j: int)
    requires
        0 <= j,
    ensures
        0 <= active_before(c, j) <= j,
    decreases j,
{
    if j > 0 {
        lemma_active_before_bounds(c, j - 1);
    }
}

/// Fills the first `stages` entries of the stage map and the number of stored stage
/// right-hand sides.  Without coupling matrices, or when no column is active,
/// `ARK_ILL_INPUT` (in the latter case the map is filled and the count set to 0).
pub fn mriStepCoupling_GetStageMap(MRIC: &MRIStepCoupling, stage_map: &mut Vec<i32>, nstages_active: &mut i32) -> (r: i32)
    requires
        coupling_ok(*MRIC),
        old(stage_map).len() >= MRIC.stages,
    ensures
        !(MRIC.has_W || MRIC.has_G) ==> r == ARK_ILL_INPUT && *final(stage_map) == *old(stage_map)
            && *final(nstages_active) == *old(nstages_active),
        (MRIC.has_W || MRIC.has_G) ==> {
            &&& r == (if stage_map_ok(*MRIC) { ARK_SUCCESS } else { ARK_ILL_INPUT })
            &&& final(stage_map).len() == old(stage_map).len()
            &&& forall|j: int| 0 <= j < MRIC.stages ==> final(stage_map)@[j] == stage_map_entry(*MRIC, j)
            &&& forall|j: int| MRIC.stages <= j < old(stage_map).len() ==> final(stage_map)@[j] == old(stage_map)@[j]
            &&& *final(nstages_active) == (if stage_map_ok(*MRIC) { stages_active(*MRIC) } else { 0 })
        },
{
    if !MRIC.has_W && !MRIC.has_G {
        return ARK_ILL_INPUT;
    }
    let n = MRIC.stages as usize;
    if MRIC.ctype == MRISTEP_MERK || MRIC.ctype == MRISTEP_SR {
        let mut j: usize = 0;
        while j < n
            invariant
                n == MRIC.stages,
                0 <= j <= n,
                n <= stage_map.len(),
                stage_map.len() == old(stage_map).len(),
                MRIC.ctype == MRISTEP_MERK || MRIC.ctype == MRISTEP_SR,
                forall|l: int| 0 <= l < j ==> stage_map@[l] == stage_map_entry(*MRIC, l),
                forall|l: int| j <= l < stage_map.len() ==> stage_map@[l] == old(stage_map)@[l],
            decreases n - j,
        {
            stage_map.set(j, j as i32);
            j = j + 1;
        }
        *nstages_active = MRIC.stages;
        return ARK_SUCCESS;
    }
    *nstages_active = 0;
    let mut idx: i32 = 0;
    let mut j: usize = 0;
    while j < n
        invariant
            n == MRIC.stages,
            coupling_ok(*MRIC),
            !(MRIC.ctype == MRISTEP_MERK || MRIC.ctype == MRISTEP_SR),
            0 <= j <= n,
            n <= stage_map.len(),
            stage_map.len() == old(stage_map).len(),
            idx == active_before(*MRIC, j as int),
            0 <= idx <= j,
            forall|l: int| 0 <= l < j ==> stage_map@[l] == stage_map_entry(*MRIC, l),
            forall|l: int| j <= l < stage_map.len() ==> stage_map@[l] == old(stage_map)@[l],
        decreases n - j,
    {
        if MRIC.col_active[j] {
            stage_map.set(j, idx);
            idx = idx + 1;
        } else {
            stage_map.set(j, -1);
        }
        j = j + 1;
    }
    if idx < 1 {
        return ARK_ILL_INPUT;
    }
    *nstages_active = idx;
    ARK_SUCCESS
}

/// Where the scan of a group row, reading at most `n` entries, stops: at its first
/// `-1`, or after `n` entries.
pub open spec fn scan_len(row: Seq<i32>, n: int) -> int
    decreases n,
{
    if n <= 0 {
        0
    } else {
        let k = scan_len(row, n - 1);
        if k < n - 1 {
            k
        } else if row[n - 1] == -1 {
            n - 1
        } else {
            n
        }
    }
}

/// Every entry the scan of a group row reads exists.
pub open spec fn row_scan_ok(row: Seq<i32>, n: int) -> bool {
    let k = scan_len(row, n);
    (if k < n { k + 1 } else { n }) <= row.len()
}

/// The group rows a MERK table's check reads exist.
pub open spec fn groups_scan_ok(c: MRIStepCoupling) -> bool {
    &&& c.ngroup <= c.group.len()
    &&& forall|r: int| 0 <= r < c.ngroup ==> row_scan_ok(#[trigger] c.group@[r]@, c.stages as int)
}

/// Occurrences of stage `s` among the first `j` entries of a row.
pub open spec fn prefix_hits(row: Seq<i32>, j: int, s: int) -> int
    decreases j,
{
    if j <= 0 {
        0
    } else {
        prefix_hits(row, j - 1, s) + if row[j - 1] == s { 1int } else { 0int }
    }
}

/// Occurrences of stage `s` in the first `i` groups.
pub open spec fn group_hits(c: MRIStepCoupling, i: int, s: int) -> int
    decreases i,
{
    if i <= 0 {
        0
    } else {
        let row = c.group@[i - 1]@;
        group_hits(c, i - 1, s) + prefix_hits(row, scan_len(row, c.stages as int), s)
    }
}

/// The groups of a MERK table name only stages `0..=stages`, and every stage
/// `1..=stages` exactly once.
pub open spec fn merk_groups_ok(c: MRIStepCoupling) -> bool {
    &&& forall|r: int, l: int|
        0 <= r < c.ngroup && 0 <= l < scan_len(c.group@[r]@, c.stages as int) ==> 0 <= #[trigger] c.group@[r]@[l]
            <= c.stages
    &&& forall|s: int| 1 <= s <= c.stages ==> #[trigger] group_hits(c, c.ngroup as int, s) == 1
}

proof fn lemma_scan_len_bounds(row: Seq<i32>, n: int)
    requires
        0 <= n,
    ensures
        0 <= scan_len(row, n) <= n,
        forall|l: int| 0 <= l < scan_len(row, n) ==> row[l] != -1,
        scan_len(row, n) < n ==> row[scan_len(row, n)] == -1,
    decreases n,
{
    if n > 0 {
        lemma_scan_len_bounds(row, n - 1);
    }
}

proof fn lemma_scan_len_exact(row: Seq<i32>, n: int, j: int)
    requires
        0 <= j <= n,
        forall|l: int| 0 <= l < j ==> row[l] != -1,
        j == n || row[j] == -1,
    ensures
        scan_len(row, n) == j,
    decreases n,
{
    if n > 0 {
        if j == n {
            lemma_scan_len_exact(row, n - 1, n - 1);
        } else {
            lemma_scan_len_exact(row, n - 1, j);
        }
    }
}

proof fn lemma_group_hits_nonneg(c: MRIStepCoupling, i: int, s: int)
    ensures
        group_hits(c, i, s) >= 0,
    decreases i,
{
    if i > 0 {
        lemma_group_hits_nonneg(c, i - 1, s);
        let row = c.group@[i - 1]@;
        lemma_prefix_hits_nonneg(row, scan_len(row, c.stages as int), s);
    }
}

proof fn lemma_prefix_hits_nonneg(row: Seq<i32>, j: int, s: int)
    ensures
        prefix_hits(row, j, s) >= 0,
    decreases j,
{
    if j > 0 {
        lemma_prefix_hits_nonneg(row, j - 1, s);
    }
}

/// Counts capped at 2 (only "none", "one" and "several" matter).
pub open spec fn cap2(x: int) -> int {
    if x >= 2 { 2 } else { x }
}

/// Checks the groups of a MERK table (computed).
fn merk_groups_valid(c: &MRIStepCoupling) -> (b: bool)
    requires
        coupling_ok(*c),
        c.stages >= 1,
        groups_scan_ok(*c),
    ensures
        b == merk_groups_ok(*c),
{
    let n = c.stages as usize;
    let mut counter: Vec<u8> = Vec::new();
    let mut z: usize = 0;
    while z <= n
        invariant
            n == c.stages,
            0 <= z <= n + 1,
            counter.len() == z,
            forall|s: int| 0 <= s < z ==> counter@[s] == 0,
        decreases n + 1 - z,
    {
        counter.push(0);
        z = z + 1;
    }
    let ng: usize = if c.ngroup < 0 { 0 } else { c.ngroup as usize };
    let mut i: usize = 0;
    while i < ng
        invariant
            n == c.stages,
            c.stages >= 1,
            coupling_ok(*c),
            groups_scan_ok(*c),
            ng == (if c.ngroup < 0 { 0 } else { c.ngroup as int }),
            0 <= i <= ng,
            counter.len() == n + 1,
            forall|s: int| 0 <= s <= n ==> counter@[s] == cap2(#[trigger] group_hits(*c, i as int, s)),
            forall|r: int, l: int|
                0 <= r < i && 0 <= l < scan_len(c.group@[r]@, n as int) ==> 0 <= #[trigger] c.group@[r]@[l]
                    <= n,
        decreases ng - i,
    {
        let row = &c.group[i];
        assert(row_scan_ok(c.group@[i as int]@, n as int));
        let mut j: usize = 0;
        let mut stop = false;
        while j < n && !stop
            invariant
                n == c.stages,
                0 <= i < ng,
                ng == (if c.ngroup < 0 { 0 } else { c.ngroup as int }),
                row@ == c.group@[i as int]@,
                row_scan_ok(row@, n as int),
                0 <= j <= n,
                counter.len() == n + 1,
                forall|l: int| 0 <= l < j ==> row@[l] != -1,
                stop ==> j < row.len() && row@[j as int] == -1,
                forall|l: int| 0 <= l < j ==> 0 <= #[trigger] row@[l] <= n,
                forall|s: int|
                    0 <= s <= n ==> counter@[s] == cap2(
                        group_hits(*c, i as int, s) + #[trigger] prefix_hits(row@, j as int, s),
                    ),
            decreases n - j, if stop { 0int } else { 1int },
        {
            proof {
                lemma_scan_len_bounds(row@, n as int);
                if scan_len(row@, n as int) < j {
                    assert(row@[scan_len(row@, n as int)] == -1);
                }
            }
            let k = row[j];
            if k == -1 {
                stop = true;
            } else {
                if k < 0 || k > c.stages {
                    proof {
                        lemma_scan_len_bounds(row@, n as int);
                        if scan_len(row@, n as int) <= j {
                            assert(row@[scan_len(row@, n as int)] == -1);
                        }
                        assert(scan_len(row@, n as int) > j);
                        assert(c.group@[i as int]@[j as int] == k);
                        assert(0 <= i < c.ngroup);
                        assert(0 <= j < scan_len(c.group@[i as int]@, c.stages as int));
                        assert(!(0 <= c.group@[i as int]@[j as int] <= c.stages));
                        assert(!merk_groups_ok(*c));
                    }
                    return false;
                }
                let ku = k as usize;
                let old_count = counter[ku];
                let new_count: u8 = if old_count >= 2 { 2 } else { old_count + 1 };
                proof {
                    assert forall|s: int| 0 <= s <= n implies #[trigger] prefix_hits(row@, j as int + 1, s)
                        == prefix_hits(row@, j as int, s) + if s == k { 1int } else { 0int } by {}
                    lemma_group_hits_nonneg(*c, i as int, k as int);
                    lemma_prefix_hits_nonneg(row@, j as int, k as int);
                }
                counter.set(ku, new_count);
                j = j + 1;
            }
        }
        proof {
            lemma_scan_len_exact(row@, n as int, j as int);
            assert forall|s: int| 0 <= s <= n implies counter@[s] == cap2(
                #[trigger] group_hits(*c, i as int + 1, s),
            ) by {
                assert(group_hits(*c, i as int + 1, s) == group_hits(*c, i as int, s) + prefix_hits(
                    row@,
                    j as int,
                    s,
                ));
            }
        }
        i = i + 1;
    }
    proof {
        assert forall|t: int| 0 <= t <= n implies counter@[t] == cap2(
            #[trigger] group_hits(*c, c.ngroup as int, t),
        ) by {
            if c.ngroup < 0 {
                assert(group_hits(*c, c.ngroup as int, t) == 0);
                assert(group_hits(*c, i as int, t) == 0);
            } else {
                assert(i == c.ngroup);
            }
        }
    }
    let mut s: usize = 1;
    while s <= n
        invariant
            n == c.stages,
            1 <= s <= n + 1,
            counter.len() == n + 1,
            forall|t: int| 0 <= t <= n ==> counter@[t] == cap2(#[trigger] group_hits(*c, c.ngroup as int, t)),
            forall|t: int| 1 <= t < s ==> #[trigger] group_hits(*c, c.ngroup as int, t) == 1,
        decreases n + 1 - s,
    {
        if counter[s] != 1 {
            proof {
                lemma_group_hits_nonneg(*c, c.ngroup as int, s as int);
            }
            return false;
        }
        s = s + 1;
    }
    true
}

/// No stage before the embedding couples a DIRK solve with fast evolution.
pub open spec fn no_dirk_fast(c: MRIStepCoupling) -> bool {
    forall|is: int| 0 <= is < c.stages ==> #[trigger] stage_type(c, is) != MRISTAGE_DIRK_FAST
}

/// The coupling table fits the problem and the method: its type matches the
/// explicit/implicit parts, its matrices are those of its type, explicit couplings
/// are strictly and implicit couplings weakly lower triangular, MERK groups cover
/// each stage once, no stage couples a DIRK solve with fast evolution, MRI-GARK
/// abscissae are sorted, the first stage is the old solution and the last stage is
/// at the end of the step.  The first failing check decides the code.
pub open spec fn check_coupling_code(fixedstep: bool, m: MRIMethodInfo, c: MRIStepCoupling) -> i32 {
    let t = c.ctype;
    if c.stages < 1 {
        ARK_INVALID_TABLE
    } else if c.q < 1 {
        ARK_INVALID_TABLE
    } else if c.p < 1 && !fixedstep {
        ARK_INVALID_TABLE
    } else if m.implicit_rhs && m.explicit_rhs && t != MRISTEP_IMEX && t != MRISTEP_SR {
        ARK_ILL_INPUT
    } else if m.explicit_rhs && t != MRISTEP_EXPLICIT && t != MRISTEP_IMEX && t != MRISTEP_MERK
        && t != MRISTEP_SR {
        ARK_ILL_INPUT
    } else if m.implicit_rhs && t != MRISTEP_IMPLICIT && t != MRISTEP_IMEX && t != MRISTEP_SR {
        ARK_ILL_INPUT
    } else if (t == MRISTEP_IMEX || t == MRISTEP_SR) && (!c.has_W || !c.has_G) {
        ARK_ILL_INPUT
    } else if (t == MRISTEP_EXPLICIT || t == MRISTEP_MERK) && (!c.has_W || c.has_G) {
        ARK_ILL_INPUT
    } else if t == MRISTEP_IMPLICIT && (c.has_W || !c.has_G) {
        ARK_ILL_INPUT
    } else if c.has_W && c.w_upper {
        ARK_INVALID_TABLE
    } else if c.has_G && c.g_strict_upper {
        ARK_INVALID_TABLE
    } else if t == MRISTEP_MERK && !merk_groups_ok(c) {
        ARK_INVALID_TABLE
    } else if !no_dirk_fast(c) {
        ARK_INVALID_TABLE
    } else if (t == MRISTEP_IMPLICIT || t == MRISTEP_EXPLICIT || t == MRISTEP_IMEX) && c.c_unsorted {
        ARK_INVALID_TABLE
    } else if c.first_nonzero {
        ARK_INVALID_TABLE
    } else if c.last_off_one {
        ARK_INVALID_TABLE
    } else {
        ARK_SUCCESS
    }
}

/// A coupling table this library can read: within size limits, and a MERK table's
/// groups can be scanned.
pub open spec fn coupling_readable(c: MRIStepCoupling) -> bool {
    coupling_ok(c) && (c.ctype == MRISTEP_MERK ==> groups_scan_ok(c))
}

/// Checks the MRIStep coupling table against the problem and the method.
pub fn mriStep_CheckCoupling(ark_mem: &crate::arkode::ARKodeMem) -> (r: i32)
    requires
        is_mri(*ark_mem),
        mri_mem(*ark_mem).MRIC matches Some(c) && coupling_readable(c),
    ensures
        r == check_coupling_code(
            ark_mem.opts.fixedstep,
            mri_mem(*ark_mem).method,
            mri_mem(*ark_mem).MRIC->Some_0,
        ),
{
    let sm = match &ark_mem.step_mem {
        crate::stepper::ARKStepMem::Mri(sm) => sm,
        _ => {
            return ARK_MEM_NULL;
        },
    };
    let c = match &sm.MRIC {
        Some(c) => c,
        None => {
            return ARK_MEM_NULL;
        },
    };
    let m = sm.method;
    let t = c.ctype;
    if c.stages < 1 {
        return ARK_INVALID_TABLE;
    }
    if c.q < 1 {
        return ARK_INVALID_TABLE;
    }
    if c.p < 1 && !ark_mem.opts.fixedstep {
        return ARK_INVALID_TABLE;
    }
    if m.implicit_rhs && m.explicit_rhs && t != MRISTEP_IMEX && t != MRISTEP_SR {
        return ARK_ILL_INPUT;
    }
    if m.explicit_rhs && t != MRISTEP_EXPLICIT && t != MRISTEP_IMEX && t != MRISTEP_MERK && t
        != MRISTEP_SR {
        return ARK_ILL_INPUT;
    }
    if m.implicit_rhs && t != MRISTEP_IMPLICIT && t != MRISTEP_IMEX && t != MRISTEP_SR {
        return ARK_ILL_INPUT;
    }
    if t == MRISTEP_IMEX || t == MRISTEP_SR {
        if !c.has_W || !c.has_G {
            return ARK_ILL_INPUT;
        }
    } else if t == MRISTEP_EXPLICIT || t == MRISTEP_MERK {
        if !c.has_W || c.has_G {
            return ARK_ILL_INPUT;
        }
    } else if t == MRISTEP_IMPLICIT {
        if c.has_W || !c.has_G {
            return ARK_ILL_INPUT;
        }
    }
    if c.has_W && c.w_upper {
        return ARK_INVALID_TABLE;
    }
    if c.has_G && c.g_strict_upper {
        return ARK_INVALID_TABLE;
    }
    if t == MRISTEP_MERK {
        if !merk_groups_valid(c) {
            return ARK_INVALID_TABLE;
        }
    }
    let mut okay = true;
    let mut is: i32 = 0;
    while is < c.stages
        invariant
            coupling_ok(*c),
            0 <= is <= c.stages,
            okay == (forall|k: int| 0 <= k < is ==> #[trigger] stage_type(*c, k) != MRISTAGE_DIRK_FAST),
        decreases c.stages - is,
    {
        if mriStepCoupling_GetStageType(c, is) == MRISTAGE_DIRK_FAST {
            okay = false;
        }
        is = is + 1;
    }
    if !okay {
        return ARK_INVALID_TABLE;
    }
    if t == MRISTEP_IMPLICIT || t == MRISTEP_EXPLICIT || t == MRISTEP_IMEX {
        if c.c_unsorted {
            return ARK_INVALID_TABLE;
        }
    }
    if c.first_nonzero {
        return ARK_INVALID_TABLE;
    }
    if c.last_off_one {
        return ARK_INVALID_TABLE;
    }
    ARK_SUCCESS
}

/// The default coupling table for the method order `q` and problem type: with
/// fixed steps any order 1 to 4 (explicit also 5), adaptive steps orders 2 to 4
/// (explicit also 5) with embedded tables; `ARKODE_MRI_NONE` when there is none.
pub open spec fn default_table_id(fixedstep: bool, explicit_rhs: bool, implicit_rhs: bool, q: i32) -> i32 {
    if fixedstep {
        if implicit_rhs && explicit_rhs {
            if q == 1 { MRISTEP_DEFAULT_IMEX_SD_1 }
            else if q == 2 { MRISTEP_DEFAULT_IMEX_SD_2 }
            else if q == 3 { MRISTEP_DEFAULT_IMEX_SD_3 }
            else if q == 4 { MRISTEP_DEFAULT_IMEX_SD_4 }
            else { ARKODE_MRI_NONE }
        } else if implicit_rhs {
            if q == 1 { MRISTEP_DEFAULT_IMPL_SD_1 }
            else if q == 2 { MRISTEP_DEFAULT_IMPL_SD_2 }
            else if q == 3 { MRISTEP_DEFAULT_IMPL_SD_3 }
            else if q == 4 { MRISTEP_DEFAULT_IMPL_SD_4 }
            else { ARKODE_MRI_NONE }
        } else {
            if q == 1 { MRISTEP_DEFAULT_EXPL_1 }
            else if q == 2 { MRISTEP_DEFAULT_EXPL_2 }
            else if q == 3 { MRISTEP_DEFAULT_EXPL_3 }
            else if q == 4 { MRISTEP_DEFAULT_EXPL_4 }
            else if q == 5 { MRISTEP_DEFAULT_EXPL_5_AD }
            else { ARKODE_MRI_NONE }
        }
    } else {
        if implicit_rhs && explicit_rhs {
            if q == 2 { MRISTEP_DEFAULT_IMEX_SD_2_AD }
            else if q == 3 { MRISTEP_DEFAULT_IMEX_SD_3_AD }
            else if q == 4 { MRISTEP_DEFAULT_IMEX_SD_4_AD }
            else { ARKODE_MRI_NONE }
        } else if implicit_rhs {
            if q == 2 { MRISTEP_DEFAULT_IMPL_SD_2 }
            else if q == 3 { MRISTEP_DEFAULT_IMPL_SD_3 }
            else if q == 4 { MRISTEP_DEFAULT_IMPL_SD_4 }
            else { ARKODE_MRI_NONE }
        } else {
            if q == 2 { MRISTEP_DEFAULT_EXPL_2_AD }
            else if q == 3 { MRISTEP_DEFAULT_EXPL_3_AD }
            else if q == 4 { MRISTEP_DEFAULT_EXPL_4_AD }
            else if q == 5 { MRISTEP_DEFAULT_EXPL_5_AD }
            else { ARKODE_MRI_NONE }
        }
    }
}

/// Chooses the default coupling table of an MRIStep integrator from its order,
/// problem type and fixed/adaptive stepping; any stepper other than MRIStep gets
/// `ARKODE_MRI_NONE`.
pub fn mriStep_DefaultTableID(ark_mem: &crate::arkode::ARKodeMem) -> (id: i32)
    ensures
        is_mri(*ark_mem) ==> id == default_table_id(
            ark_mem.opts.fixedstep,
            mri_mem(*ark_mem).method.explicit_rhs,
            mri_mem(*ark_mem).method.implicit_rhs,
            mri_mem(*ark_mem).method.q,
        ),
        !is_mri(*ark_mem) ==> id == ARKODE_MRI_NONE,
{
    let m = match &ark_mem.step_mem {
        crate::stepper::ARKStepMem::Mri(sm) => sm.method,
        _ => {
            return ARKODE_MRI_NONE;
        },
    };
    let q = m.q;
    if ark_mem.opts.fixedstep {
        if m.implicit_rhs && m.explicit_rhs {
            if q == 1 { MRISTEP_DEFAULT_IMEX_SD_1 }
            else if q == 2 { MRISTEP_DEFAULT_IMEX_SD_2 }
            else if q == 3 { MRISTEP_DEFAULT_IMEX_SD_3 }
            else if q == 4 { MRISTEP_DEFAULT_IMEX_SD_4 }
            else { ARKODE_MRI_NONE }
        } else if m.implicit_rhs {
            if q == 1 { MRISTEP_DEFAULT_IMPL_SD_1 }
            else if q == 2 { MRISTEP_DEFAULT_IMPL_SD_2 }
            else if q == 3 { MRISTEP_DEFAULT_IMPL_SD_3 }
            else if q == 4 { MRISTEP_DEFAULT_IMPL_SD_4 }
            else { ARKODE_MRI_NONE }
        } else {
            if q == 1 { MRISTEP_DEFAULT_EXPL_1 }
            else if q == 2 { MRISTEP_DEFAULT_EXPL_2 }
            else if q == 3 { MRISTEP_DEFAULT_EXPL_3 }
            else if q == 4 { MRISTEP_DEFAULT_EXPL_4 }
            else if q == 5 { MRISTEP_DEFAULT_EXPL_5_AD }
            else { ARKODE_MRI_NONE }
        }
    } else {
        if m.implicit_rhs && m.explicit_rhs {
            if q == 2 { MRISTEP_DEFAULT_IMEX_SD_2_AD }
            else if q == 3 { MRISTEP_DEFAULT_IMEX_SD_3_AD }
            else if q == 4 { MRISTEP_DEFAULT_IMEX_SD_4_AD }
            else { ARKODE_MRI_NONE }
        } else if m.implicit_rhs {
            if q == 2 { MRISTEP_DEFAULT_IMPL_SD_2 }
            else if q == 3 { MRISTEP_DEFAULT_IMPL_SD_3 }
            else if q == 4 { MRISTEP_DEFAULT_IMPL_SD_4 }
            else { ARKODE_MRI_NONE }
        } else {
            if q == 2 { MRISTEP_DEFAULT_EXPL_2_AD }
            else if q == 3 { MRISTEP_DEFAULT_EXPL_3_AD }
            else if q == 4 { MRISTEP_DEFAULT_EXPL_4_AD }
            else if q == 5 { MRISTEP_DEFAULT_EXPL_5_AD }
            else { ARKODE_MRI_NONE }
        }
    }
}

/// The default table id of an MRIStep integrator.
pub open spec fn mri_default_id(a: crate::arkode::ARKodeMem) -> i32 {
    default_table_id(
        a.opts.fixedstep,
        mri_mem(a).method.explicit_rhs,
        mri_mem(a).method.implicit_rhs,
        mri_mem(a).method.q,
    )
}

/// The integrator after a coupling table is installed: the table's workspace is
/// added and its stage count and orders recorded.
pub open spec fn with_coupling(a: crate::arkode::ARKodeMem, c: MRIStepCoupling) -> crate::arkode::ARKodeMem {
    let sm = mri_mem(a);
    crate::arkode::ARKodeMem {
        lrw: (a.lrw + coupling_lrw(c)) as i64,
        liw: (a.liw + coupling_liw(c)) as i64,
        step_mem: crate::stepper::ARKStepMem::Mri(
            ARKodeMRIStepMem {
                MRIC: Some(c),
                method: MRIMethodInfo { stages: c.stages, q: c.q, p: c.p, ..sm.method },
                ..sm
            },
        ),
        ..a
    }
}

/// The result of `mriStep_SetCoupling`: nothing to do when a table is set;
/// `ARK_ILL_INPUT` when no default table exists and `ARK_INVALID_TABLE` when the
/// default table could not be built (both leaving the integrator unchanged);
/// otherwise the table is installed.
pub open spec fn set_coupling_spec(a: crate::arkode::ARKodeMem, table: Option<MRIStepCoupling>) -> (i32, crate::arkode::ARKodeMem) {
    if mri_mem(a).MRIC is Some {
        (ARK_SUCCESS, a)
    } else if mri_default_id(a) == ARKODE_MRI_NONE {
        (ARK_ILL_INPUT, a)
    } else if table is None {
        (ARK_INVALID_TABLE, a)
    } else {
        (ARK_SUCCESS, with_coupling(a, table->Some_0))
    }
}

/// Sets the MRIStep coupling table when none is set yet.  The default table for
/// the method order and problem type is chosen (`ARK_ILL_INPUT` when there is
/// none); `table` is that table as built (`None` when building it failed:
/// `ARK_INVALID_TABLE`).  The table's workspace joins the integrator's and its stage
/// count and orders become the method's.
pub fn mriStep_SetCoupling(ark_mem: &mut crate::arkode::ARKodeMem, table: Option<MRIStepCoupling>) -> (r: i32)
    requires
        is_mri(*old(ark_mem)),
        mri_mem(*old(ark_mem)).MRIC is None && table is Some ==> coupling_ok(table->Some_0),
        ws_margin(*old(ark_mem), 0x4_0000_0000),
    ensures
        (r, *final(ark_mem)) == set_coupling_spec(*old(ark_mem), table),
{
    let has = match &ark_mem.step_mem {
        crate::stepper::ARKStepMem::Mri(sm) => sm.MRIC.is_some(),
        _ => true,
    };
    if has {
        return ARK_SUCCESS;
    }
    let table_id = mriStep_DefaultTableID(ark_mem);
    if table_id == ARKODE_MRI_NONE {
        return ARK_ILL_INPUT;
    }
    let c = match table {
        None => {
            return ARK_INVALID_TABLE;
        },
        Some(c) => c,
    };
    let (cliw, clrw) = MRIStepCoupling_Space(Some(&c));
    let liw = ark_mem.liw + cliw;
    let lrw = ark_mem.lrw + clrw;
    let stages = c.stages;
    let q = c.q;
    let p = c.p;
    ark_mem.liw = liw;
    ark_mem.lrw = lrw;
    match &mut ark_mem.step_mem {
        crate::stepper::ARKStepMem::Mri(sm) => {
            sm.method = MRIMethodInfo { stages, q, p, ..sm.method };
            sm.MRIC = Some(c);
        },
        _ => {},
    }
    ARK_SUCCESS
}

/// MRIStep's implicit right-hand side, when its problem has one.
pub fn mriStep_GetImplicitRHS(ark_mem: &crate::arkode::ARKodeMem) -> (r: Option<crate::ls::ARKRhsSource>)
    ensures
        r == crate::ls::implicit_rhs_of(*ark_mem),
{
    match &ark_mem.step_mem {
        crate::stepper::ARKStepMem::Mri(sm) => {
            if sm.method.implicit_rhs {
                Some(crate::ls::ARKRhsSource::StepperImplicit)
            } else {
                None
            }
        },
        _ => None,
    }
}

/// The integrator with its MRIStep memory replaced.
pub open spec fn with_mri(a: crate::arkode::ARKodeMem, sm: ARKodeMRIStepMem) -> crate::arkode::ARKodeMem {
    crate::arkode::ARKodeMem { step_mem: crate::stepper::ARKStepMem::Mri(sm), ..a }
}

/// The inner stepper's state after a reset whose operation (if any) returned
/// `flag`, and the reset's result.
pub open spec fn inner_reset(s: MRIStepInnerStepper, flag: i32) -> (i32, MRIStepInnerStepper) {
    if s.reset { (flag, with_last_flag(s, flag)) } else { (ARK_SUCCESS, s) }
}

/// Resets MRIStep to a new state by resetting its inner stepper (whose reset
/// operation, when it has one, returned `flag`); a failing reset is
/// `ARK_INNERSTEP_FAIL`.  `ARK_MEM_NULL` for another stepper.
pub fn mriStep_Reset(ark_mem: &mut crate::arkode::ARKodeMem, flag: i32) -> (r: i32)
    ensures
        !is_mri(*old(ark_mem)) ==> r == ARK_MEM_NULL && *final(ark_mem) == *old(ark_mem),
        is_mri(*old(ark_mem)) ==> {
            let sm = mri_mem(*old(ark_mem));
            let ir = inner_reset(sm.stepper, flag);
            &&& r == (if ir.0 != ARK_SUCCESS { ARK_INNERSTEP_FAIL } else { ARK_SUCCESS })
            &&& *final(ark_mem) == with_mri(*old(ark_mem), ARKodeMRIStepMem { stepper: ir.1, ..sm })
        },
{
    let rv = match &mut ark_mem.step_mem {
        crate::stepper::ARKStepMem::Mri(sm) => mriStepInnerStepper_Reset(&mut sm.stepper, flag),
        _ => {
            return ARK_MEM_NULL;
        },
    };
    if rv != ARK_SUCCESS {
        return ARK_INNERSTEP_FAIL;
    }
    ARK_SUCCESS
}

/// Stops MRIStep from calling the linear solver setup.
pub fn mriStep_DisableLSetup(ark_mem: &mut crate::arkode::ARKodeMem)
    ensures
        is_mri(*old(ark_mem)) ==> *final(ark_mem) == with_mri(
            *old(ark_mem),
            ARKodeMRIStepMem {
                solvers: MRISolvers { lsetup: false, ..mri_mem(*old(ark_mem)).solvers },
                ..mri_mem(*old(ark_mem))
            },
        ),
        !is_mri(*old(ark_mem)) ==> *final(ark_mem) == *old(ark_mem),
{
    match &mut ark_mem.step_mem {
        crate::stepper::ARKStepMem::Mri(sm) => {
            sm.solvers = MRISolvers { lsetup: false, ..sm.solvers };
        },
        _ => {},
    }
}

/// Records whether the Jacobian was just recomputed.
pub fn mriStep_SetJcur(ark_mem: &mut crate::arkode::ARKodeMem, jcur: bool)
    ensures
        is_mri(*old(ark_mem)) ==> *final(ark_mem) == with_mri(
            *old(ark_mem),
            ARKodeMRIStepMem {
                method: MRIMethodInfo { jcur, ..mri_mem(*old(ark_mem)).method },
                ..mri_mem(*old(ark_mem))
            },
        ),
        !is_mri(*old(ark_mem)) ==> *final(ark_mem) == *old(ark_mem),
{
    match &mut ark_mem.step_mem {
        crate::stepper::ARKStepMem::Mri(sm) => {
            sm.method = MRIMethodInfo { jcur, ..sm.method };
        },
        _ => {},
    }
}

/// Workspace words (real, integer) held by the coupling table and the stage types,
/// stage map and coefficient rows derived from it.
pub open spec fn coupling_release(sm: ARKodeMRIStepMem) -> (int, int) {
    let s = sm.method.stages as int;
    let w = sm.work;
    match sm.MRIC {
        Some(c) => (
            coupling_lrw(c) + (if w.Ae_row { s } else { 0 }) + (if w.Ai_row { s } else { 0 }),
            coupling_liw(c) + (if sm.stagetypes.len() > 0 { s + 1 } else { 0 }) + (
            if sm.stage_map.len() > 0 { s } else { 0 }),
        ),
        None => (0, 0),
    }
}

/// The integrator after `mriStep_SetInnerForcing(nvecs)`.  With forcing terms
/// (`nvecs > 0`) they are added to the explicit slow right-hand side when the
/// problem has one (else to the implicit one), whose stored values become stale,
/// as does the integrator's right-hand side; once a table is set, a fused-operation
/// workspace too small for `2 * stages + 2` entries besides the forcing terms is
/// replaced by one of `2 * stages + 2 + nvecs`.  Without forcing terms both
/// forcing flags are cleared.
pub open spec fn set_forcing_result(a: crate::arkode::ARKodeMem, nvecs: i32) -> crate::arkode::ARKodeMem {
    let sm = mri_mem(a);
    let m = sm.method;
    if nvecs > 0 {
        let m1 = MRIMethodInfo {
            expforcing: m.explicit_rhs,
            impforcing: !m.explicit_rhs,
            fse_is_current: if m.explicit_rhs { false } else { m.fse_is_current },
            fsi_is_current: if m.explicit_rhs { m.fsi_is_current } else { false },
            nforcing: nvecs,
            ..m
        };
        let a1 = crate::arkode::ARKodeMem {
            status: crate::arkode::ARKodeStatus { fn_is_current: false, ..a.status },
            ..a
        };
        match sm.MRIC {
            Some(c) => if sm.work.nfusedopvecs - nvecs < 2 * c.stages + 2 {
                let rel: int = if sm.work.cvals { sm.work.nfusedopvecs as int } else { 0 };
                let n: int = 2 * c.stages + 2 + nvecs;
                crate::arkode::ARKodeMem {
                    lrw: (a.lrw - rel + n) as i64,
                    liw: (a.liw - rel + n) as i64,
                    step_mem: crate::stepper::ARKStepMem::Mri(
                        ARKodeMRIStepMem {
                            method: m1,
                            work: MRIWorkspace { cvals: true, nfusedopvecs: n as i32, ..sm.work },
                            ..sm
                        },
                    ),
                    ..a1
                }
            } else {
                with_mri(a1, ARKodeMRIStepMem { method: m1, ..sm })
            },
            None => with_mri(a1, ARKodeMRIStepMem { method: m1, ..sm }),
        }
    } else {
        with_mri(
            a,
            ARKodeMRIStepMem {
                method: MRIMethodInfo { expforcing: false, impforcing: false, nforcing: 0, ..m },
                ..sm
            },
        )
    }
}

/// Sets the number of forcing terms MRIStep adds to its slow right-hand side when
/// it serves as the inner stepper of another MRI method (the terms themselves,
/// and their time shift and scale, are held with the solution data);
/// `ARK_MEM_NULL` for another stepper.
pub fn mriStep_SetInnerForcing(ark_mem: &mut crate::arkode::ARKodeMem, nvecs: i32) -> (r: i32)
    requires
        is_mri(*old(ark_mem)) ==> {
            let sm = mri_mem(*old(ark_mem));
            &&& 0 <= sm.work.nfusedopvecs
            &&& (sm.MRIC matches Some(c) ==> 0 <= c.stages && 2 * c.stages + 2 + nvecs
                <= i32::MAX)
        },
        ws_margin(*old(ark_mem), 0x1_0000_0000),
    ensures
        !is_mri(*old(ark_mem)) ==> r == ARK_MEM_NULL && *final(ark_mem) == *old(ark_mem),
        is_mri(*old(ark_mem)) ==> r == ARK_SUCCESS && *final(ark_mem) == set_forcing_result(
            *old(ark_mem),
            nvecs,
        ),
{
    let (m, w, stages) = match &ark_mem.step_mem {
        crate::stepper::ARKStepMem::Mri(sm) => (
            sm.method,
            sm.work,
            match &sm.MRIC {
                Some(c) => Some(c.stages),
                None => None,
            },
        ),
        _ => {
            return ARK_MEM_NULL;
        },
    };
    if nvecs > 0 {
        let m1 = MRIMethodInfo {
            expforcing: m.explicit_rhs,
            impforcing: !m.explicit_rhs,
            fse_is_current: if m.explicit_rhs { false } else { m.fse_is_current },
            fsi_is_current: if m.explicit_rhs { m.fsi_is_current } else { false },
            nforcing: nvecs,
            ..m
        };
        ark_mem.status = crate::arkode::ARKodeStatus { fn_is_current: false, ..ark_mem.status };
        let mut w1 = w;
        match stages {
            Some(s) => {
                if w.nfusedopvecs - nvecs < 2 * s + 2 {
                    let rel: i64 = if w.cvals { w.nfusedopvecs as i64 } else { 0 };
                    let n: i32 = 2 * s + 2 + nvecs;
                    let lrw = ark_mem.lrw - rel + n as i64;
                    let liw = ark_mem.liw - rel + n as i64;
                    ark_mem.lrw = lrw;
                    ark_mem.liw = liw;
                    w1 = MRIWorkspace { cvals: true, nfusedopvecs: n, ..w };
                }
            },
            None => {},
        }
        match &mut ark_mem.step_mem {
            crate::stepper::ARKStepMem::Mri(sm) => {
                sm.method = m1;
                sm.work = w1;
            },
            _ => {},
        }
    } else {
        match &mut ark_mem.step_mem {
            crate::stepper::ARKStepMem::Mri(sm) => {
                sm.method = MRIMethodInfo { expforcing: false, impforcing: false, nforcing: 0, ..m };
            },
            _ => {},
        }
    }
    ARK_SUCCESS
}

/// Number of problem-size vectors MRIStep holds: the implicit-solve vectors and
/// the stage right-hand side arrays.
pub open spec fn mri_vec_count(w: MRIWorkspace) -> int {
    (if w.sdata { 1int } else { 0int }) + (if w.zpred { 1int } else { 0int }) + (if w.zcor {
        1int
    } else {
        0int
    }) + (if w.Fse { w.nstages_allocated as int } else { 0int }) + (if w.Fsi {
        w.nstages_allocated as int
    } else {
        0int
    })
}

/// Workspace words (real, integer) released with MRIStep's own arrays: the coupling
/// table and what derives from it, its problem-size vectors and the fused-operation
/// workspace.
pub open spec fn mri_released(a: crate::arkode::ARKodeMem) -> (int, int) {
    let sm = mri_mem(a);
    let cr = coupling_release(sm);
    let n = mri_vec_count(sm.work);
    let cv: int = if sm.work.cvals { sm.work.nfusedopvecs as int } else { 0 };
    (cr.0 + n * a.lrw1 + cv, cr.1 + n * a.liw1 + cv)
}

/// Bounds on an MRIStep memory that keep its release within machine limits.
pub open spec fn mri_free_ok(sm: ARKodeMRIStepMem) -> bool {
    &&& 0 <= sm.method.stages <= 0x1_0000
    &&& 0 <= sm.work.nstages_allocated <= 0x1_0000
    &&& 0 <= sm.work.nfusedopvecs <= 0x4_0000
    &&& (sm.MRIC matches Some(c) ==> coupling_ok(c))
}

/// The integrator after MRIStep is released: the linear solver interface is
/// released when attached, MRIStep's arrays leave the accounting, and the
/// integrator is left without a stepper memory.
pub open spec fn mri_free_result(a: crate::arkode::ARKodeMem) -> crate::arkode::ARKodeMem {
    let sm = mri_mem(a);
    let a1 = if sm.solvers.lfree { crate::ls::ls_free_result(a) } else { a };
    let rel = mri_released(a);
    crate::arkode::ARKodeMem {
        lrw: (a1.lrw - rel.0) as i64,
        liw: (a1.liw - rel.1) as i64,
        step_mem: crate::stepper::ARKStepMem::NoStepper,
        ..a1
    }
}

/// `n * w` for up to `0x2_0003` vectors of at most `2^32` words (computed).
fn vecs_words(n: i64, w: i64) -> (r: i64)
    requires
        0 <= n <= 0x2_0003,
        0 <= w <= 0x1_0000_0000,
    ensures
        r == n * w,
        0 <= r <= 0x2_0003 * 0x1_0000_0000,
{
    proof {
        assert(0 <= n * w <= 0x2_0003 * 0x1_0000_0000) by (nonlinear_arith)
            requires
                0 <= n <= 0x2_0003,
                0 <= w <= 0x1_0000_0000,
        ;
    }
    n * w
}

/// The words held by the coupling table and what derives from it (computed).
fn coupling_release_words(sm: &ARKodeMRIStepMem) -> (r: (i64, i64))
    requires
        mri_free_ok(*sm),
    ensures
        r.0 == coupling_release(*sm).0,
        r.1 == coupling_release(*sm).1,
        0 <= r.0 <= 0x4_0000_0000,
        0 <= r.1 <= 0x4_0000_0000,
{
    let s = sm.method.stages as i64;
    let w = sm.work;
    match &sm.MRIC {
        Some(c) => {
            proof {
                lemma_coupling_words(*c);
            }
            let (cliw, clrw) = MRIStepCoupling_Space(Some(c));
            (
                clrw + (if w.Ae_row { s } else { 0 }) + (if w.Ai_row { s } else { 0 }),
                cliw + (if sm.stagetypes.len() > 0 { s + 1 } else { 0 }) + (if sm.stage_map.len() > 0 {
                    s
                } else {
                    0
                }),
            )
        },
        None => (0, 0),
    }
}

/// Number of problem-size vectors MRIStep holds (computed).
fn mri_vec_count_exec(w: MRIWorkspace) -> (n: i64)
    requires
        0 <= w.nstages_allocated <= 0x1_0000,
    ensures
        n == mri_vec_count(w),
        0 <= n <= 0x2_0003,
{
    let nv: i64 = (if w.sdata { 1 } else { 0 }) + (if w.zpred { 1 } else { 0 }) + (if w.zcor { 1 } else { 0 });
    let k: i64 = (if w.Fse { 1 } else { 0 }) + (if w.Fsi { 1 } else { 0 });
    let na: i64 = if k == 0 {
        0
    } else if k == 1 {
        w.nstages_allocated as i64
    } else {
        2 * w.nstages_allocated as i64
    };
    nv + na
}

/// The words MRIStep's own arrays hold (computed).
fn mri_released_words(a: &crate::arkode::ARKodeMem) -> (r: (i64, i64))
    requires
        is_mri(*a),
        mri_free_ok(mri_mem(*a)),
        crate::arkode::vec_sizes_ok(*a),
    ensures
        r.0 == mri_released(*a).0,
        r.1 == mri_released(*a).1,
        0 <= r.0 <= 0x10_0000_0000_0000,
        0 <= r.1 <= 0x10_0000_0000_0000,
{
    match &a.step_mem {
        crate::stepper::ARKStepMem::Mri(sm) => {
            let (cl, ci) = coupling_release_words(sm);
            let n = mri_vec_count_exec(sm.work);
            let cv: i64 = if sm.work.cvals { sm.work.nfusedopvecs as i64 } else { 0 };
            let vr = vecs_words(n, a.lrw1);
            let vi = vecs_words(n, a.liw1);
            (cl + vr + cv, ci + vi + cv)
        },
        _ => (0, 0),
    }
}

/// Releases MRIStep: its linear solver interface (when attached), the coupling
/// table and the arrays derived from it, the implicit-solve and stage vectors and
/// the fused-operation workspace; the integrator is left without a stepper memory.
/// Nothing happens for another stepper.
pub fn mriStep_Free(ark_mem: &mut crate::arkode::ARKodeMem)
    requires
        is_mri(*old(ark_mem)) ==> mri_free_ok(mri_mem(*old(ark_mem))),
        crate::arkode::vec_sizes_ok(*old(ark_mem)),
        ws_margin(*old(ark_mem), 0x20_0000_0000_0000),
    ensures
        is_mri(*old(ark_mem)) ==> *final(ark_mem) == mri_free_result(*old(ark_mem)),
        !is_mri(*old(ark_mem)) ==> *final(ark_mem) == *old(ark_mem),
{
    let lfree = match &ark_mem.step_mem {
        crate::stepper::ARKStepMem::Mri(sm) => sm.solvers.lfree,
        _ => {
            return;
        },
    };
    let (rr, ri) = mri_released_words(ark_mem);
    if lfree {
        proof {
            crate::ls::lemma_ls_free_bounds(*ark_mem);
        }
        crate::ls::arkLsFree(ark_mem);
    }
    let lrw = ark_mem.lrw - rr;
    let liw = ark_mem.liw - ri;
    ark_mem.lrw = lrw;
    ark_mem.liw = liw;
    ark_mem.step_mem = crate::stepper::ARKStepMem::NoStepper;
}

} // verus!

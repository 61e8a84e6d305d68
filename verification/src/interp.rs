//! Dense-output interpolation modules (Hermite and Lagrange): creation, degree,
//! resizing and release, with their workspace accounting.
use vstd::prelude::*;
use crate::consts::{ARK_INTERP_MAX_DEGREE, ARK_SUCCESS, ARK_ILL_INPUT, ARK_MEM_FAIL, ARK_RHSFUNC_FAIL};
use crate::arkode::{ARKodeMem, ws_margin, vec_sizes_ok};

verus! {

/// Hermite interpolation content: maximum degree and which of its four history
/// vectors (fold, yold, fa, fb) are allocated.
#[derive(Clone, Copy, PartialEq, Eq, Debug)]
pub struct ARKInterpContent_Hermite {
    pub degree: i32,
    pub fold: bool,
    pub yold: bool,
    pub fa: bool,
    pub fb: bool,
}

/// Lagrange interpolation content: history length, number of allocated history
/// vectors, active history length, and whether the history arrays exist.
#[derive(Clone, Copy, PartialEq, Eq, Debug)]
pub struct ARKInterpContent_Lagrange {
    pub nmax: i32,
    pub nmaxalloc: i32,
    pub nhist: i32,
    pub yhist: bool,
    pub thist: bool,
}

/// An interpolation module.
#[derive(Clone, Copy, PartialEq, Eq, Debug)]
pub enum ARKInterp {
    Hermite(ARKInterpContent_Hermite),
    Lagrange(ARKInterpContent_Lagrange),
}

pub open spec fn spec_imin(a: int, b: int) -> int {
    if a < b { a } else { b }
}

pub open spec fn spec_imax(a: int, b: int) -> int {
    if a > b { a } else { b }
}

/// Integer minimum.
pub fn imin(a: i32, b: i32) -> (r: i32)
    ensures
        r == spec_imin(a as int, b as int),
{
    if a < b { a } else { b }
}

/// Integer maximum.
pub fn imax(a: i32, b: i32) -> (r: i32)
    ensures
        r == spec_imax(a as int, b as int),
{
    if a > b { a } else { b }
}

/// A degree the interpolation modules accept.
pub open spec fn valid_degree(degree: int) -> bool {
    0 <= degree <= ARK_INTERP_MAX_DEGREE
}

/// Number of vectors a Hermite module holds.
pub open spec fn hermite_nvecs(hc: ARKInterpContent_Hermite) -> int {
    (if hc.fold { 1int } else { 0int }) + (if hc.yold { 1int } else { 0int })
        + (if hc.fa { 1int } else { 0int }) + (if hc.fb { 1int } else { 0int })
}

/// Number of vectors a Lagrange module holds.
pub open spec fn lagrange_nvecs(lc: ARKInterpContent_Lagrange) -> int {
    if lc.yhist { lc.nmaxalloc as int } else { 0 }
}

/// Fixed real-word workspace of an interpolation module.
pub open spec fn interp_lrw(i: ARKInterp) -> int {
    match i {
        ARKInterp::Hermite(_) => 2,
        ARKInterp::Lagrange(lc) => lc.nmax + 1,
    }
}

/// Fixed integer-word workspace of an interpolation module.
pub open spec fn interp_liw(i: ARKInterp) -> int {
    match i {
        ARKInterp::Hermite(_) => 5,
        ARKInterp::Lagrange(lc) => lc.nmax + 2,
    }
}

/// Number of problem-size vectors an interpolation module holds.
pub open spec fn interp_nvecs(i: ARKInterp) -> int {
    match i {
        ARKInterp::Hermite(hc) => hermite_nvecs(hc),
        ARKInterp::Lagrange(lc) => lagrange_nvecs(lc),
    }
}

/// Sizes of an interpolation module that keep its accounting within machine limits.
pub open spec fn interp_ok(i: ARKInterp) -> bool {
    match i {
        ARKInterp::Hermite(hc) => true,
        ARKInterp::Lagrange(lc) => 0 <= lc.nmax <= ARK_INTERP_MAX_DEGREE + 1 && 0 <= lc.nmaxalloc
            <= ARK_INTERP_MAX_DEGREE + 1,
    }
}

/// The module `arkInterpCreate_Hermite` builds for a degree.
pub open spec fn hermite_created(degree: int) -> ARKInterp {
    ARKInterp::Hermite(
        ARKInterpContent_Hermite {
            degree: spec_imin(ARK_INTERP_MAX_DEGREE as int, degree) as i32,
            fold: false,
            yold: false,
            fa: false,
            fb: false,
        },
    )
}

/// The module `arkInterpCreate_Lagrange` builds for a degree.
pub open spec fn lagrange_created(degree: int) -> ARKInterp {
    ARKInterp::Lagrange(
        ARKInterpContent_Lagrange {
            nmax: spec_imin(degree + 1, ARK_INTERP_MAX_DEGREE + 1) as i32,
            nmaxalloc: 0,
            nhist: 0,
            yhist: false,
            thist: false,
        },
    )
}

/// The integrator once a module of the given kind (Lagrange or Hermite) and valid
/// degree is created: the module's fixed workspace is added to the accounting.
pub open spec fn created_ws(a: ARKodeMem, lagrange: bool, degree: int) -> ARKodeMem {
    if lagrange {
        ARKodeMem { lrw: (a.lrw + degree + 2) as i64, liw: (a.liw + degree + 3) as i64, ..a }
    } else {
        ARKodeMem { lrw: (a.lrw + 2) as i64, liw: (a.liw + 5) as i64, ..a }
    }
}

/// The integrator once its interpolation module (if any) is released: the module's
/// vectors and fixed workspace leave the accounting.
pub open spec fn interp_free_result(a: ARKodeMem) -> ARKodeMem {
    match a.interp {
        None => a,
        Some(i) => ARKodeMem {
            lrw: (a.lrw - interp_nvecs(i) * a.lrw1 - interp_lrw(i)) as i64,
            liw: (a.liw - interp_nvecs(i) * a.liw1 - interp_liw(i)) as i64,
            interp: None,
            ..a
        },
    }
}

/// Creates a Hermite interpolation module of at most the given degree; `None` for a
/// degree outside `0..=ARK_INTERP_MAX_DEGREE`.  On success the integrator workspace
/// grows by 2 real and 5 integer words.
pub fn arkInterpCreate_Hermite(ark_mem: &mut ARKodeMem, degree: i32) -> (r: Option<ARKInterp>)
    requires
        ws_margin(*old(ark_mem), 8),
    ensures
        valid_degree(degree as int) ==> r == Some(hermite_created(degree as int)),
        !valid_degree(degree as int) ==> r is None,
        valid_degree(degree as int) ==> *final(ark_mem) == created_ws(*old(ark_mem), false, degree as int),
        !valid_degree(degree as int) ==> *final(ark_mem) == *old(ark_mem),
{
    if degree < 0 || degree > ARK_INTERP_MAX_DEGREE {
        return None;
    }
    let content = ARKInterpContent_Hermite {
        degree: imin(ARK_INTERP_MAX_DEGREE, degree),
        fold: false,
        yold: false,
        fa: false,
        fb: false,
    };
    ark_mem.lrw = ark_mem.lrw + 2;
    ark_mem.liw = ark_mem.liw + 5;
    Some(ARKInterp::Hermite(content))
}

/// Creates a Lagrange interpolation module keeping `degree + 1` history entries;
/// `None` for a degree outside `0..=ARK_INTERP_MAX_DEGREE`.  On success the
/// integrator workspace grows by `nmax + 1` real and `nmax + 2` integer words.
pub fn arkInterpCreate_Lagrange(ark_mem: &mut ARKodeMem, degree: i32) -> (r: Option<ARKInterp>)
    requires
        ws_margin(*old(ark_mem), 16),
    ensures
        valid_degree(degree as int) ==> r == Some(lagrange_created(degree as int)),
        !valid_degree(degree as int) ==> r is None,
        valid_degree(degree as int) ==> *final(ark_mem) == created_ws(*old(ark_mem), true, degree as int),
        !valid_degree(degree as int) ==> *final(ark_mem) == *old(ark_mem),
{
    if degree < 0 || degree > ARK_INTERP_MAX_DEGREE {
        return None;
    }
    let nmax = imin(degree + 1, ARK_INTERP_MAX_DEGREE + 1);
    let content = ARKInterpContent_Lagrange {
        nmax,
        nmaxalloc: 0,
        nhist: 0,
        yhist: false,
        thist: false,
    };
    ark_mem.lrw = ark_mem.lrw + (nmax as i64 + 1);
    ark_mem.liw = ark_mem.liw + (nmax as i64 + 2);
    Some(ARKInterp::Lagrange(content))
}

/// `n * w` for a small count `n` of vectors of `w` words each.
pub fn vec_words(n: i64, w: i64) -> (r: i64)
    requires
        0 <= n <= 8,
        -0x1_0000_0000 <= w <= 0x1_0000_0000,
    ensures
        r == n * w,
        -0x8_0000_0000 <= r <= 0x8_0000_0000,
{
    let mut r: i64 = 0;
    let mut k: i64 = 0;
    while k < n
        invariant
            0 <= k <= n <= 8,
            -0x1_0000_0000 <= w <= 0x1_0000_0000,
            r == k * w,
            -0x8_0000_0000 <= r <= 0x8_0000_0000,
        decreases n - k,
    {
        proof {
            assert((k + 1) * w == k * w + w) by (nonlinear_arith);
            assert(-0x8_0000_0000 <= k * w <= 0x8_0000_0000) by (nonlinear_arith)
                requires
                    0 <= k <= 8,
                    -0x1_0000_0000 <= w <= 0x1_0000_0000,
            ;
        }
        proof {
            assert(-0x8_0000_0000 <= (k + 1) * w <= 0x8_0000_0000) by (nonlinear_arith)
                requires
                    0 <= k + 1 <= 8,
                    -0x1_0000_0000 <= w <= 0x1_0000_0000,
            ;
        }
        r = r + w;
        k = k + 1;
    }
    r
}

/// The vectors of a module within limits hold a bounded number of words.
pub proof fn lemma_interp_words(i: ARKInterp, w: i64)
    requires
        interp_ok(i),
        0 <= w <= 0x1_0000_0000,
    ensures
        0 <= interp_nvecs(i) <= 6,
        0 <= interp_nvecs(i) * w <= 6 * 0x1_0000_0000,
{
    let n = interp_nvecs(i);
    assert(0 <= n <= 6);
    assert(0 <= n * w <= 6 * 0x1_0000_0000) by (nonlinear_arith)
        requires
            0 <= n <= 6,
            0 <= w <= 0x1_0000_0000,
    ;
}

/// Number of vectors an interpolation module holds (computed).
fn interp_vec_count(i: &ARKInterp) -> (r: i64)
    requires
        interp_ok(*i),
    ensures
        r == interp_nvecs(*i),
        0 <= r <= 6,
{
    match i {
        ARKInterp::Hermite(hc) => {
            let mut n: i64 = 0;
            if hc.fold {
                n = n + 1;
            }
            if hc.yold {
                n = n + 1;
            }
            if hc.fa {
                n = n + 1;
            }
            if hc.fb {
                n = n + 1;
            }
            n
        },
        ARKInterp::Lagrange(lc) => {
            if lc.yhist {
                lc.nmaxalloc as i64
            } else {
                0
            }
        },
    }
}

/// Releases the interpolation module (if any): its vectors and its fixed workspace
/// are removed from the integrator's accounting.
pub fn arkInterpFree(ark_mem: &mut ARKodeMem)
    requires
        old(ark_mem).interp matches Some(i) ==> interp_ok(i),
        vec_sizes_ok(*old(ark_mem)),
        ws_margin(*old(ark_mem), 0x10_0000_0000),
    ensures
        *final(ark_mem) == interp_free_result(*old(ark_mem)),
        match old(ark_mem).interp {
            None => *final(ark_mem) == *old(ark_mem),
            Some(i) => {
                &&& final(ark_mem).lrw == old(ark_mem).lrw - interp_nvecs(i) * old(ark_mem).lrw1
                    - interp_lrw(i)
                &&& final(ark_mem).liw == old(ark_mem).liw - interp_nvecs(i) * old(ark_mem).liw1
                    - interp_liw(i)
                &&& *final(ark_mem) == (ARKodeMem {
                    lrw: final(ark_mem).lrw,
                    liw: final(ark_mem).liw,
                    interp: None,
                    ..*old(ark_mem)
                })
            },
        },
{
    match ark_mem.interp {
        None => {},
        Some(i) => {
            let n = interp_vec_count(&i);
            let fr: i64 = match i {
                ARKInterp::Hermite(_) => 2,
                ARKInterp::Lagrange(lc) => lc.nmax as i64 + 1,
            };
            let fi: i64 = match i {
                ARKInterp::Hermite(_) => 5,
                ARKInterp::Lagrange(lc) => lc.nmax as i64 + 2,
            };
            let lrw = ark_mem.lrw - vec_words(n, ark_mem.lrw1) - fr;
            let liw = ark_mem.liw - vec_words(n, ark_mem.liw1) - fi;
            ark_mem.lrw = lrw;
            ark_mem.liw = liw;
            ark_mem.interp = None;
        },
    }
}

/// The module with its degree changed: the Hermite maximum degree, or the Lagrange
/// history length `degree + 1`.
pub open spec fn with_degree(i: ARKInterp, degree: int) -> ARKInterp {
    match i {
        ARKInterp::Hermite(hc) => ARKInterp::Hermite(
            ARKInterpContent_Hermite { degree: degree as i32, ..hc },
        ),
        ARKInterp::Lagrange(lc) => ARKInterp::Lagrange(
            ARKInterpContent_Lagrange { nmax: (degree + 1) as i32, ..lc },
        ),
    }
}

/// Sets the interpolant degree of the attached module: `ARK_ILL_INPUT` for a degree
/// outside `0..=ARK_INTERP_MAX_DEGREE`; without a module, nothing is done.
pub fn arkInterpSetDegree(ark_mem: &mut ARKodeMem, degree: i32) -> (r: i32)
    ensures
        old(ark_mem).interp is None ==> r == ARK_SUCCESS && *final(ark_mem) == *old(ark_mem),
        old(ark_mem).interp is Some && !valid_degree(degree as int) ==> r == ARK_ILL_INPUT
            && *final(ark_mem) == *old(ark_mem),
        old(ark_mem).interp is Some && valid_degree(degree as int) ==> r == ARK_SUCCESS
            && *final(ark_mem) == (ARKodeMem {
            interp: Some(with_degree(old(ark_mem).interp->Some_0, degree as int)),
            ..*old(ark_mem)
        }),
{
    match ark_mem.interp {
        None => ARK_SUCCESS,
        Some(i) => {
            if degree > ARK_INTERP_MAX_DEGREE || degree < 0 {
                return ARK_ILL_INPUT;
            }
            let ni = match i {
                ARKInterp::Hermite(hc) => ARKInterp::Hermite(
                    ARKInterpContent_Hermite { degree, ..hc },
                ),
                ARKInterp::Lagrange(lc) => ARKInterp::Lagrange(
                    ARKInterpContent_Lagrange { nmax: degree + 1, ..lc },
                ),
            };
            ark_mem.interp = Some(ni);
            ARK_SUCCESS
        },
    }
}

/// Resizes the vectors of the interpolation module.  `resize_ok` tells whether the
/// resize operation succeeds; when it fails, the first held vector fails and
/// `ARK_MEM_FAIL` is returned with nothing changed.  Each resized vector changes the
/// workspace by `lrw_diff` / `liw_diff` words, and a Lagrange module's active
/// history is emptied.
pub fn arkInterpResize(ark_mem: &mut ARKodeMem, resize_ok: bool, lrw_diff: i64, liw_diff: i64) -> (r: i32)
    requires
        old(ark_mem).interp matches Some(i) ==> interp_ok(i),
        -0x1_0000_0000 <= lrw_diff <= 0x1_0000_0000,
        -0x1_0000_0000 <= liw_diff <= 0x1_0000_0000,
        ws_margin(*old(ark_mem), 0x10_0000_0000),
    ensures
        match old(ark_mem).interp {
            None => r == ARK_SUCCESS && *final(ark_mem) == *old(ark_mem),
            Some(i) => if !resize_ok && interp_nvecs(i) > 0 {
                r == ARK_MEM_FAIL && *final(ark_mem) == *old(ark_mem)
            } else {
                &&& r == ARK_SUCCESS
                &&& final(ark_mem).lrw == old(ark_mem).lrw + interp_nvecs(i) * lrw_diff
                &&& final(ark_mem).liw == old(ark_mem).liw + interp_nvecs(i) * liw_diff
                &&& *final(ark_mem) == (ARKodeMem {
                    lrw: final(ark_mem).lrw,
                    liw: final(ark_mem).liw,
                    interp: Some(
                        match i {
                            ARKInterp::Hermite(_) => i,
                            ARKInterp::Lagrange(lc) => ARKInterp::Lagrange(
                                ARKInterpContent_Lagrange { nhist: 0, ..lc },
                            ),
                        },
                    ),
                    ..*old(ark_mem)
                })
            },
        },
{
    match ark_mem.interp {
        None => ARK_SUCCESS,
        Some(i) => {
            let n = interp_vec_count(&i);
            if !resize_ok && n > 0 {
                return ARK_MEM_FAIL;
            }
            let lrw = ark_mem.lrw + vec_words(n, lrw_diff);
            let liw = ark_mem.liw + vec_words(n, liw_diff);
            let ni = match i {
                ARKInterp::Hermite(_) => i,
                ARKInterp::Lagrange(lc) => ARKInterp::Lagrange(
                    ARKInterpContent_Lagrange { nhist: 0, ..lc },
                ),
            };
            ark_mem.lrw = lrw;
            ark_mem.liw = liw;
            ark_mem.interp = Some(ni);
            ARK_SUCCESS
        },
    }
}

/// A Hermite module after its first initialization: its two history vectors, and
/// the derivative vectors its degree needs (above 3, above 4), are allocated.
pub open spec fn hermite_initialized(hc: ARKInterpContent_Hermite) -> ARKInterpContent_Hermite {
    ARKInterpContent_Hermite {
        fold: true,
        yold: true,
        fa: hc.fa || hc.degree > 3,
        fb: hc.fb || hc.degree > 4,
        ..hc
    }
}

/// A Lagrange module after initialization: a history longer than the one
/// allocated replaces it; the history holds one entry, the initial state.
pub open spec fn lagrange_initialized(lc: ARKInterpContent_Lagrange) -> ARKInterpContent_Lagrange {
    ARKInterpContent_Lagrange {
        thist: true,
        yhist: true,
        nmaxalloc: if lc.nmax > lc.nmaxalloc { lc.nmax } else { lc.nmaxalloc },
        nhist: 1,
        ..lc
    }
}

/// The module after (re)initialization at the start of an integration.
pub open spec fn interp_initialized(i: ARKInterp) -> ARKInterp {
    match i {
        ARKInterp::Hermite(hc) => ARKInterp::Hermite(hermite_initialized(hc)),
        ARKInterp::Lagrange(lc) => ARKInterp::Lagrange(lagrange_initialized(lc)),
    }
}

/// The integrator after its interpolation module is initialized: the vectors the
/// module allocates (those it did not hold) enter the accounting, and a Hermite
/// module asks for full right-hand side evaluations.
pub open spec fn interp_init_result(a: ARKodeMem) -> ARKodeMem {
    match a.interp {
        None => a,
        Some(i) => {
            let n = interp_nvecs(interp_initialized(i)) - interp_nvecs(i);
            ARKodeMem {
                lrw: (a.lrw + n * a.lrw1) as i64,
                liw: (a.liw + n * a.liw1) as i64,
                interp: Some(interp_initialized(i)),
                status: if i is Hermite {
                    crate::arkode::ARKodeStatus { call_fullrhs: true, ..a.status }
                } else {
                    a.status
                },
                ..a
            }
        },
    }
}

/// Initializes the interpolation module for a new integration (the history's
/// times and values, real data, are set by the caller): the vectors it needs are
/// allocated and counted.  A Lagrange module whose history is longer than the one
/// allocated first releases the old history vectors.
pub fn arkInterpInit(ark_mem: &mut ARKodeMem) -> (r: i32)
    requires
        old(ark_mem).interp matches Some(i) ==> interp_ok(i),
        old(ark_mem).interp matches Some(i) ==> (i matches ARKInterp::Lagrange(lc) ==> (lc.yhist
            || lc.nmaxalloc == 0)),
        vec_sizes_ok(*old(ark_mem)),
        ws_margin(*old(ark_mem), 0x10_0000_0000),
    ensures
        r == ARK_SUCCESS,
        *final(ark_mem) == interp_init_result(*old(ark_mem)),
{
    let i = match ark_mem.interp {
        None => {
            return ARK_SUCCESS;
        },
        Some(i) => i,
    };
    let n0 = interp_vec_count(&i);
    let ni = match i {
        ARKInterp::Hermite(hc) => ARKInterp::Hermite(
            ARKInterpContent_Hermite {
                fold: true,
                yold: true,
                fa: hc.fa || hc.degree > 3,
                fb: hc.fb || hc.degree > 4,
                ..hc
            },
        ),
        ARKInterp::Lagrange(lc) => ARKInterp::Lagrange(
            ARKInterpContent_Lagrange {
                thist: true,
                yhist: true,
                nmaxalloc: if lc.nmax > lc.nmaxalloc { lc.nmax } else { lc.nmaxalloc },
                nhist: 1,
                ..lc
            },
        ),
    };
    let n1 = interp_vec_count(&ni);
    proof {
        lemma_interp_words(ni, ark_mem.lrw1);
        lemma_interp_words(ni, ark_mem.liw1);
        lemma_interp_words(i, ark_mem.lrw1);
        lemma_interp_words(i, ark_mem.liw1);
    }
    let lrw = ark_mem.lrw - vec_words(n0, ark_mem.lrw1) + vec_words(n1, ark_mem.lrw1);
    let liw = ark_mem.liw - vec_words(n0, ark_mem.liw1) + vec_words(n1, ark_mem.liw1);
    proof {
        assert((n1 - n0) * ark_mem.lrw1 == n1 * ark_mem.lrw1 - n0 * ark_mem.lrw1) by (nonlinear_arith);
        assert((n1 - n0) * ark_mem.liw1 == n1 * ark_mem.liw1 - n0 * ark_mem.liw1) by (nonlinear_arith);
    }
    ark_mem.lrw = lrw;
    ark_mem.liw = liw;
    ark_mem.interp = Some(ni);
    match i {
        ARKInterp::Hermite(_) => {
            ark_mem.status = crate::arkode::ARKodeStatus { call_fullrhs: true, ..ark_mem.status };
        },
        ARKInterp::Lagrange(_) => {},
    }
    ARK_SUCCESS
}

/// Records a completed step in the interpolation module.  A Hermite module keeps
/// the step's initial state and right-hand side, evaluating the latter first
/// when it is not current (`rhs_ok`: whether that evaluation, made by the caller,
/// succeeds; `ARK_RHSFUNC_FAIL` otherwise).  A Lagrange module adds an entry to its
/// history, up to its length, when the new time differs from the stored ones
/// beyond roundoff (`tnew_distinct`, a comparison of real times made by the
/// caller).
pub fn arkInterpUpdate(ark_mem: &mut ARKodeMem, rhs_ok: bool, tnew_distinct: bool) -> (r: i32)
    ensures
        match old(ark_mem).interp {
            None => r == ARK_SUCCESS && *final(ark_mem) == *old(ark_mem),
            Some(ARKInterp::Hermite(_)) => if old(ark_mem).status.fn_is_current {
                r == ARK_SUCCESS && *final(ark_mem) == *old(ark_mem)
            } else if !rhs_ok {
                r == ARK_RHSFUNC_FAIL && *final(ark_mem) == *old(ark_mem)
            } else {
                r == ARK_SUCCESS && *final(ark_mem) == (ARKodeMem {
                    status: crate::arkode::ARKodeStatus {
                        fn_is_current: true,
                        ..old(ark_mem).status
                    },
                    ..*old(ark_mem)
                })
            },
            Some(ARKInterp::Lagrange(lc)) => r == ARK_SUCCESS && if tnew_distinct {
                *final(ark_mem) == (ARKodeMem {
                    interp: Some(
                        ARKInterp::Lagrange(
                            ARKInterpContent_Lagrange {
                                nhist: spec_imin(lc.nhist + 1, lc.nmax as int) as i32,
                                ..lc
                            },
                        ),
                    ),
                    ..*old(ark_mem)
                })
            } else {
                *final(ark_mem) == *old(ark_mem)
            },
        },
{
    match ark_mem.interp {
        None => ARK_SUCCESS,
        Some(ARKInterp::Hermite(_)) => {
            if !ark_mem.status.fn_is_current {
                if !rhs_ok {
                    return ARK_RHSFUNC_FAIL;
                }
                ark_mem.status = crate::arkode::ARKodeStatus { fn_is_current: true, ..ark_mem.status };
            }
            ARK_SUCCESS
        },
        Some(ARKInterp::Lagrange(lc)) => {
            if tnew_distinct {
                let n = if lc.nhist as i64 + 1 < lc.nmax as i64 { lc.nhist + 1 } else { lc.nmax };
                ark_mem.interp = Some(ARKInterp::Lagrange(ARKInterpContent_Lagrange { nhist: n, ..lc }));
            }
            ARK_SUCCESS
        },
    }
}

} // verus!

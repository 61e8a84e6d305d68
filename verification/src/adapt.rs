//! Attaching time step adaptivity controllers, with their workspace accounting.
use vstd::prelude::*;
use crate::consts::{
    ARK_SUCCESS, ARK_ILL_INPUT, SUN_ADAPTCONTROLLER_H, ARK_ADAPT_PID, ARK_ADAPT_I,
    ARK_ADAPT_IMEX_GUS,
};
use crate::decimal::Decimal;
use crate::arkode::{ARKodeMem, ARKodeHAdaptMem, SUNAdaptController, ARKUserControl, ws_margin};

verus! {

/// Largest workspace a controller may report.
pub open spec fn ctrl_words_ok(lenrw: i64, leniw: i64) -> bool {
    0 <= lenrw <= 0x1_0000_0000 && 0 <= leniw <= 0x1_0000_0000
}

/// The controllers held by the adaptivity memory report workspace within limits.
pub open spec fn hadapt_ctrl_ok(h: ARKodeHAdaptMem) -> bool {
    &&& (h.hcontroller matches Some(c) ==> ctrl_words_ok(c.lenrw, c.leniw))
    &&& (h.usercontrol matches Some(u) ==> ctrl_words_ok(u.lenrw, u.leniw))
}

/// Real words released when the current controllers are removed: the user-function
/// wrapper always, the controller object only when owned.
pub open spec fn released_rw(h: ARKodeHAdaptMem) -> int {
    (match h.usercontrol {
        Some(u) => u.lenrw as int,
        None => 0int,
    }) + (if h.owncontroller {
        match h.hcontroller {
            Some(c) => c.lenrw as int,
            None => 0int,
        }
    } else {
        0int
    })
}

/// Integer words released when the current controllers are removed.
pub open spec fn released_iw(h: ARKodeHAdaptMem) -> int {
    (match h.usercontrol {
        Some(u) => u.leniw as int,
        None => 0int,
    }) + (if h.owncontroller {
        match h.hcontroller {
            Some(c) => c.leniw as int,
            None => 0int,
        }
    } else {
        0int
    })
}

/// The default I controller.
pub open spec fn default_controller() -> SUNAdaptController {
    SUNAdaptController { ctype: SUN_ADAPTCONTROLLER_H, method: ARK_ADAPT_I, gains: None, lenrw: 10, leniw: 1 }
}

/// Creates the default integral (I) step size controller.
pub fn SUNAdaptController_I() -> (c: SUNAdaptController)
    ensures
        c == default_controller(),
{
    SUNAdaptController { ctype: SUN_ADAPTCONTROLLER_H, method: ARK_ADAPT_I, gains: None, lenrw: 10, leniw: 1 }
}

/// Workspace words released when the current controllers are removed.
fn released_words(h: &ARKodeHAdaptMem) -> (r: (i64, i64))
    requires
        hadapt_ctrl_ok(*h),
    ensures
        r.0 == released_rw(*h),
        r.1 == released_iw(*h),
{
    let mut rw: i64 = 0;
    let mut iw: i64 = 0;
    match h.usercontrol {
        Some(uc) => {
            rw = uc.lenrw;
            iw = uc.leniw;
        },
        None => {},
    }
    if h.owncontroller {
        match h.hcontroller {
            Some(hc) => {
                rw = rw + hc.lenrw;
                iw = iw + hc.leniw;
            },
            None => {},
        }
    }
    (rw, iw)
}

/// Replaces the current step size controller.  `None` installs (and owns) the
/// default I controller; otherwise `c` is attached, owned when `take_ownership`.
/// The workspace of removed controllers is released and that of the new one added.
pub fn arkReplaceAdaptController(
    ark_mem: &mut ARKodeMem,
    c: Option<SUNAdaptController>,
    take_ownership: bool,
) -> (r: i32)
    requires
        old(ark_mem).hadapt_mem is Some,
        hadapt_ctrl_ok(old(ark_mem).hadapt_mem->Some_0),
        c matches Some(cc) ==> ctrl_words_ok(cc.lenrw, cc.leniw),
        ws_margin(*old(ark_mem), 0x8_0000_0000),
    ensures
        r == ARK_SUCCESS,
        ({
            let h = old(ark_mem).hadapt_mem->Some_0;
            let newc = if c is Some { c->Some_0 } else { default_controller() };
            let own = if c is Some { take_ownership } else { true };
            &&& final(ark_mem).lrw == old(ark_mem).lrw - released_rw(h) + newc.lenrw
            &&& final(ark_mem).liw == old(ark_mem).liw - released_iw(h) + newc.leniw
            &&& final(ark_mem).hadapt_mem == Some(
                ARKodeHAdaptMem { usercontrol: None, hcontroller: Some(newc), owncontroller: own, ..h },
            )
            &&& *final(ark_mem) == (ARKodeMem {
                lrw: final(ark_mem).lrw,
                liw: final(ark_mem).liw,
                hadapt_mem: final(ark_mem).hadapt_mem,
                ..*old(ark_mem)
            })
        }),
        hadapt_ctrl_ok(final(ark_mem).hadapt_mem->Some_0),
{
    let h = ark_mem.hadapt_mem.unwrap();
    let (rw, iw) = released_words(&h);
    let (newc, own) = match c {
        None => (SUNAdaptController_I(), true),
        Some(cc) => (cc, take_ownership),
    };
    let h = ARKodeHAdaptMem { usercontrol: None, hcontroller: Some(newc), owncontroller: own, ..h };
    let liw = ark_mem.liw - iw + newc.leniw;
    let lrw = ark_mem.lrw - rw + newc.lenrw;
    ark_mem.liw = liw;
    ark_mem.lrw = lrw;
    ark_mem.hadapt_mem = Some(h);
    ARK_SUCCESS
}

/// Installs a user-supplied adaptivity function (given by its controller wrapper),
/// or the owned default I controller when `hfun` is `None`, after removing the
/// current controllers.
pub fn arkSetAdaptivityFn(ark_mem: &mut ARKodeMem, hfun: Option<ARKUserControl>) -> (r: i32)
    requires
        old(ark_mem).hadapt_mem is Some,
        hadapt_ctrl_ok(old(ark_mem).hadapt_mem->Some_0),
        hfun matches Some(u) ==> ctrl_words_ok(u.lenrw, u.leniw),
        ws_margin(*old(ark_mem), 0x8_0000_0000),
    ensures
        r == ARK_SUCCESS,
        ({
            let h = old(ark_mem).hadapt_mem->Some_0;
            match hfun {
                None => final(ark_mem).lrw == old(ark_mem).lrw - released_rw(h) + 10
                    && final(ark_mem).liw == old(ark_mem).liw - released_iw(h) + 1
                    && *final(ark_mem) == (ARKodeMem {
                    lrw: final(ark_mem).lrw,
                    liw: final(ark_mem).liw,
                    hadapt_mem: Some(
                        ARKodeHAdaptMem {
                            usercontrol: None,
                            hcontroller: Some(default_controller()),
                            owncontroller: true,
                            ..h
                        },
                    ),
                    ..*old(ark_mem)
                }),
                Some(u) => final(ark_mem).lrw == old(ark_mem).lrw - released_rw(h) + u.lenrw
                    && final(ark_mem).liw == old(ark_mem).liw - released_iw(h) + u.leniw
                    && *final(ark_mem) == (ARKodeMem {
                    lrw: final(ark_mem).lrw,
                    liw: final(ark_mem).liw,
                    hadapt_mem: Some(
                        ARKodeHAdaptMem {
                            usercontrol: Some(u),
                            hcontroller: None,
                            owncontroller: false,
                            ..h
                        },
                    ),
                    ..*old(ark_mem)
                }),
            }
        }),
        hadapt_ctrl_ok(final(ark_mem).hadapt_mem->Some_0),
{
    let h0 = ark_mem.hadapt_mem.unwrap();
    let (rw, iw) = released_words(&h0);
    let (h, addrw, addiw) = match hfun {
        None => {
            let c = SUNAdaptController_I();
            (
                ARKodeHAdaptMem { usercontrol: None, hcontroller: Some(c), owncontroller: true, ..h0 },
                c.lenrw,
                c.leniw,
            )
        },
        Some(uc) => (
            ARKodeHAdaptMem { usercontrol: Some(uc), hcontroller: None, owncontroller: false, ..h0 },
            uc.lenrw,
            uc.leniw,
        ),
    };
    let liw = ark_mem.liw - iw + addiw;
    let lrw = ark_mem.lrw - rw + addrw;
    ark_mem.liw = liw;
    ark_mem.lrw = lrw;
    ark_mem.hadapt_mem = Some(h);
    ARK_SUCCESS
}

/// The built-in controller of an adaptivity method, configured with `gains` (the
/// method's own defaults when `None`): the Soderlind family (PID, PI, I and the
/// explicit and implicit Gustafsson controllers) reports 10 real and 1 integer
/// words, the ImEx Gustafsson controller 7 and 1.
pub open spec fn method_controller(imethod: i32, gains: Option<(Decimal, Decimal, Decimal)>) -> SUNAdaptController {
    SUNAdaptController {
        ctype: SUN_ADAPTCONTROLLER_H,
        method: imethod,
        gains,
        lenrw: if imethod == ARK_ADAPT_IMEX_GUS { 7 } else { 10 },
        leniw: 1,
    }
}

/// The integrator once its controllers are removed for a new adaptivity method:
/// their workspace is released, none is held or owned, and the embedding order
/// used by the method is recorded.
pub open spec fn controllers_removed(a: ARKodeMem, pq: i32) -> ARKodeMem {
    let h = a.hadapt_mem->Some_0;
    ARKodeMem {
        lrw: (a.lrw - released_rw(h)) as i64,
        liw: (a.liw - released_iw(h)) as i64,
        hadapt_mem: Some(
            ARKodeHAdaptMem { usercontrol: None, hcontroller: None, owncontroller: false, pq, ..h },
        ),
        ..a
    }
}

/// The code and integrator after selecting adaptivity method `imethod`.
pub open spec fn set_adaptivity_method_result(
    a: ARKodeMem,
    imethod: i32,
    idefault: i32,
    pq: i32,
    adapt_params: Option<(Decimal, Decimal, Decimal)>,
) -> (i32, ARKodeMem) {
    if idefault != 1 && adapt_params is None {
        (ARK_ILL_INPUT, a)
    } else {
        let b = controllers_removed(a, pq);
        if imethod < ARK_ADAPT_PID || imethod > ARK_ADAPT_IMEX_GUS {
            (ARK_ILL_INPUT, b)
        } else {
            let c = method_controller(imethod, if idefault == 1 { None } else { adapt_params });
            (
                ARK_SUCCESS,
                ARKodeMem {
                    lrw: (b.lrw + c.lenrw) as i64,
                    liw: (b.liw + c.leniw) as i64,
                    hadapt_mem: Some(
                        ARKodeHAdaptMem {
                            hcontroller: Some(c),
                            owncontroller: true,
                            ..b.hadapt_mem->Some_0
                        },
                    ),
                    ..b
                },
            )
        }
    }
}

/// Selects a built-in adaptivity method (`ARK_ADAPT_PID` to `ARK_ADAPT_IMEX_GUS`)
/// with its default gains (`idefault == 1`) or the given ones, and the embedding
/// order `pq` it uses.  Without gains when they are asked for, nothing changes
/// (`ARK_ILL_INPUT`); otherwise the current controllers are removed first, so an
/// unknown method (`ARK_ILL_INPUT`) leaves the integrator without a controller.
pub fn arkSetAdaptivityMethod(
    ark_mem: &mut ARKodeMem,
    imethod: i32,
    idefault: i32,
    pq: i32,
    adapt_params: Option<(Decimal, Decimal, Decimal)>,
) -> (r: i32)
    requires
        old(ark_mem).hadapt_mem is Some,
        hadapt_ctrl_ok(old(ark_mem).hadapt_mem->Some_0),
        ws_margin(*old(ark_mem), 0x8_0000_0000),
    ensures
        (r, *final(ark_mem)) == set_adaptivity_method_result(
            *old(ark_mem),
            imethod,
            idefault,
            pq,
            adapt_params,
        ),
        hadapt_ctrl_ok(final(ark_mem).hadapt_mem->Some_0),
{
    if idefault != 1 && adapt_params.is_none() {
        return ARK_ILL_INPUT;
    }
    let h0 = ark_mem.hadapt_mem.unwrap();
    let (rw, iw) = released_words(&h0);
    let h = ARKodeHAdaptMem { usercontrol: None, hcontroller: None, owncontroller: false, pq, ..h0 };
    let lrw = ark_mem.lrw - rw;
    let liw = ark_mem.liw - iw;
    ark_mem.lrw = lrw;
    ark_mem.liw = liw;
    ark_mem.hadapt_mem = Some(h);
    if imethod < ARK_ADAPT_PID || imethod > ARK_ADAPT_IMEX_GUS {
        return ARK_ILL_INPUT;
    }
    let gains = if idefault == 1 { None } else { adapt_params };
    let c = SUNAdaptController {
        ctype: SUN_ADAPTCONTROLLER_H,
        method: imethod,
        gains,
        lenrw: if imethod == ARK_ADAPT_IMEX_GUS { 7 } else { 10 },
        leniw: 1,
    };
    let lrw = ark_mem.lrw + c.lenrw;
    let liw = ark_mem.liw + c.leniw;
    ark_mem.lrw = lrw;
    ark_mem.liw = liw;
    ark_mem.hadapt_mem = Some(ARKodeHAdaptMem { hcontroller: Some(c), owncontroller: true, ..h });
    ARK_SUCCESS
}

} // verus!

//! How one event travels through the three menu machines.
//!
//! The top level machine sees every event first. A few changes always reach
//! the machine that lists them, whatever screen is up. Then the machine of the
//! current screen (main menus or parameter views) gets the event, unless the
//! top level machine took it; a touch of a parameter encoder, a view
//! selection on the view screens, and a request for an instance's
//! parameters or datarefs on the main menus, reach it in any case.
use vstd::prelude::*;
use crate::context::CommonContext;
use crate::events::{Cmd, Events};
use crate::machines::{
    main_step, spec_main_step, spec_top_step, spec_view_step, top_step, view_step, MainState,
    Step, TopState, ViewState,
};

verus! {

/// The states of the three machines.
#[derive(Copy, Clone, Debug, PartialEq, Eq, Structural)]
pub struct Menus {
    pub top: TopState,
    pub view: ViewState,
    pub main: MainState,
}

/// The state after a step: the step's target, or the old state when no
/// transition fired.
pub open spec fn after<S>(s: S, r: Step<S>) -> S {
    match r {
        Some((t, _)) => t,
        None => s,
    }
}

/// The commands a step queues.
pub open spec fn queued<S>(r: Step<S>) -> Seq<Cmd> {
    match r {
        Some((_, Some(c))) => seq![c],
        _ => Seq::empty(),
    }
}

/// A touch of one of the eight parameter encoders.
pub open spec fn is_param_touch(e: Events) -> bool {
    match e {
        Events::EncTouch(n) => n < 8,
        _ => false,
    }
}

/// Changes that always reach the main menus when another screen is up.
pub open spec fn is_main_list_change(e: Events) -> bool {
    match e {
        Events::SetNamesChanged | Events::SetPresetNamesChanged | Events::SetCurrentChanged
        | Events::SetPresetLoadedChanged => true,
        _ => false,
    }
}

/// A view or page selection from the runner.
pub open spec fn is_view_selection(e: Events) -> bool {
    match e {
        Events::SetViewSelected(_, _) | Events::SetViewPageSelected(_) => true,
        _ => false,
    }
}

/// A request from the runner for an instance's parameters or datarefs.
pub open spec fn is_device_selection(e: Events) -> bool {
    match e {
        Events::DeviceParamsSelected(_, _) | Events::DeviceDataSelected(_) => true,
        _ => false,
    }
}

/// The main menus get the event before the view machine: a list change that
/// reaches them while another screen is up.
pub open spec fn main_first(top: TopState, e: Events) -> bool {
    is_main_list_change(e) && top != TopState::Main
}

/// Whether the main menu machine gets the event, given the top state after
/// the top step and whether that step fired.
pub open spec fn main_gets(top: TopState, fired: bool, e: Events) -> bool {
    ||| main_first(top, e)
    ||| (top == TopState::Main && (is_param_touch(e) || is_device_selection(e) || !fired))
}

/// Whether the view machine gets the event.
pub open spec fn view_gets(top: TopState, fired: bool, e: Events) -> bool {
    ||| (e == Events::SetViewListChanged && top != TopState::ParamViews)
    ||| (top == TopState::ParamViews && (is_param_touch(e) || is_view_selection(e) || !fired))
}

/// The top state after the event.
pub open spec fn top_after(m: Menus, ctx: &CommonContext, e: Events) -> TopState {
    after(m.top, spec_top_step(m.top, ctx, e))
}

/// Whether a transition of the top machine fired.
pub open spec fn top_fired(m: Menus, ctx: &CommonContext, e: Events) -> bool {
    spec_top_step(m.top, ctx, e) is Some
}

/// The three states after the event.
pub open spec fn spec_dispatch(m: Menus, ctx: &CommonContext, e: Events) -> Menus {
    let top = top_after(m, ctx, e);
    let fired = top_fired(m, ctx, e);
    Menus {
        top,
        view: if view_gets(top, fired, e) {
            after(m.view, spec_view_step(m.view, ctx, e))
        } else {
            m.view
        },
        main: if main_gets(top, fired, e) {
            after(m.main, spec_main_step(m.main, ctx, e))
        } else {
            m.main
        },
    }
}

/// The commands the event queues, in order: the top machine's, then those of
/// the machine that got the event first.
pub open spec fn spec_dispatch_cmds(m: Menus, ctx: &CommonContext, e: Events) -> Seq<Cmd> {
    let top = top_after(m, ctx, e);
    let fired = top_fired(m, ctx, e);
    let v = if view_gets(top, fired, e) {
        queued(spec_view_step(m.view, ctx, e))
    } else {
        Seq::empty()
    };
    let mm = if main_gets(top, fired, e) {
        queued(spec_main_step(m.main, ctx, e))
    } else {
        Seq::empty()
    };
    queued(spec_top_step(m.top, ctx, e)) + if main_first(top, e) {
        mm + v
    } else {
        v + mm
    }
}

fn push_queued<S>(cmds: &mut Vec<Cmd>, r: &Step<S>)
    ensures
        final(cmds)@ == old(cmds)@ + queued(*r),
{
    match r {
        Some((_, Some(c))) => {
            cmds.push(*c);
        },
        _ => {
            assert(old(cmds)@ + Seq::<Cmd>::empty() =~= old(cmds)@);
        },
    }
}

/// Runs the event through the machines: the new states, the commands queued,
/// and whether the top machine fired.
pub fn dispatch(m: Menus, ctx: &CommonContext, e: Events) -> (r: (Menus, Vec<Cmd>, bool))
    ensures
        r.0 == spec_dispatch(m, ctx, e),
        r.1@ == spec_dispatch_cmds(m, ctx, e),
        r.2 == top_fired(m, ctx, e),
{
    let tr = top_step(m.top, ctx, e);
    let fired = tr.is_some();
    let top = match tr {
        Some((t, _)) => t,
        None => m.top,
    };
    let mut cmds: Vec<Cmd> = Vec::new();
    push_queued(&mut cmds, &tr);
    let touch = match e {
        Events::EncTouch(n) => n < 8,
        _ => false,
    };
    let list_change = match e {
        Events::SetNamesChanged | Events::SetPresetNamesChanged | Events::SetCurrentChanged
        | Events::SetPresetLoadedChanged => true,
        _ => false,
    };
    let selection = match e {
        Events::SetViewSelected(_, _) | Events::SetViewPageSelected(_) => true,
        _ => false,
    };
    let device = match e {
        Events::DeviceParamsSelected(_, _) | Events::DeviceDataSelected(_) => true,
        _ => false,
    };
    let is_main = match top {
        TopState::Main => true,
        _ => false,
    };
    let is_views = match top {
        TopState::ParamViews => true,
        _ => false,
    };
    let view_list = match e {
        Events::SetViewListChanged => true,
        _ => false,
    };
    let first = list_change && !is_main;
    let main_in = first || (is_main && (touch || device || !fired));
    let view_in = (view_list && !is_views) || (is_views && (touch || selection || !fired));
    let mut main = m.main;
    let mut view = m.view;
    let ghost c0 = cmds@;
    if first {
        let mr = main_step(m.main, ctx, e);
        push_queued(&mut cmds, &mr);
        if let Some((s, _)) = mr {
            main = s;
        }
        if view_in {
            let vr = view_step(m.view, ctx, e);
            push_queued(&mut cmds, &vr);
            if let Some((s, _)) = vr {
                view = s;
            }
        }
    } else {
        if view_in {
            let vr = view_step(m.view, ctx, e);
            push_queued(&mut cmds, &vr);
            if let Some((s, _)) = vr {
                view = s;
            }
        }
        if main_in {
            let mr = main_step(m.main, ctx, e);
            push_queued(&mut cmds, &mr);
            if let Some((s, _)) = mr {
                main = s;
            }
        }
    }
    proof {
        let v = if view_in {
            queued(spec_view_step(m.view, ctx, e))
        } else {
            Seq::<Cmd>::empty()
        };
        let mm = if main_in {
            queued(spec_main_step(m.main, ctx, e))
        } else {
            Seq::<Cmd>::empty()
        };
        if first {
            assert(cmds@ =~= c0 + (mm + v));
        } else {
            assert(cmds@ =~= c0 + (v + mm));
        }
    }
    (Menus { top, view, main }, cmds, fired)
}

} // verus!

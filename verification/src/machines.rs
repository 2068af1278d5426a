//! The three menu state machines: the top level (device screens), the
//! parameter view menus, and the main menu tree.
//!
//! Each machine is a table of guarded transitions; the first transition whose
//! state, event and guard match fires. A step gives the new state and the
//! command that the transition's action queues, or `None` when no transition
//! fires (the state then stays as it was).
use vstd::prelude::*;
use crate::context::CommonContext;
use crate::events::{
    Button, Cmd, Events, JOG_WHEEL_ENCODER, JOG_WHEEL_TOUCH, VOLUME_WHEEL_ENCODER,
    VOLUME_WHEEL_TOUCH,
};
use crate::midi::PowerCommand;
use crate::nav::{
    DataLoad, DataSel, InstSel, InstSelType, ParamPage, PresetListOp, PresetListState,
};

verus! {

/// Number of entries of the exit menu.
pub const EXIT_MENU_LEN: usize = 2;
/// Exit menu entry that powers the device down.
pub const POWER_DOWN_INDEX: usize = 0;
/// Exit menu entry that hands the device back to its own software.
pub const LAUNCH_MOVE_INDEX: usize = 1;

/// Number of entries of the main menu.
pub const MENU_ITEMS_LEN: usize = 7;
pub const DEVICE_PARAMS_INDEX: usize = 0;
pub const DEVICE_DATA_INDEX: usize = 1;
pub const GRAPHS_INDEX: usize = 2;
pub const GRAPH_PRESETS_INDEX: usize = 3;
pub const PATCHERS_INDEX: usize = 4;
pub const TEMPO_INDEX: usize = 5;
pub const ABOUT_INDEX: usize = 6;

/// Number of entries of the preset menu.
pub const PRESET_MENU_ITEMS_LEN: usize = 5;
pub const PRESET_MENU_LOAD_INDEX: usize = 0;
pub const PRESET_MENU_SAVE_INDEX: usize = 1;
pub const PRESET_MENU_OVERWRITE_INDEX: usize = 2;
pub const PRESET_MENU_SET_INTIAL_INDEX: usize = 3;
pub const PRESET_MENU_DELETE_INDEX: usize = 4;

/// The screen a transient top level screen returns to.
#[derive(Copy, Clone, Debug, PartialEq, Eq, Structural)]
pub enum LastView {
    Main,
    ParamViews,
}

/// The top level screens.
#[derive(Copy, Clone, Debug, PartialEq, Eq, Structural)]
pub enum TopState {
    Init,
    Main,
    VolumeEditor(LastView),
    ParamViews,
    PromptExit(usize),
    PowerOff,
    LaunchMove,
    Popup(LastView),
    DisplayChildProcessError,
}

/// The parameter view screens.
#[derive(Copy, Clone, Debug, PartialEq, Eq, Structural)]
pub enum ViewState {
    ParamViewMenu(usize),
    ViewParams(ParamPage),
}

/// The screens of the main menu tree.
#[derive(Copy, Clone, Debug, PartialEq, Eq, Structural)]
pub enum MainState {
    Init,
    Menu(usize),
    SetsList(usize),
    GraphPresetMenu(usize),
    GraphPresetsList(PresetListState),
    PatcherInstances(InstSel),
    PatcherParams(ParamPage),
    PatcherDatarefs(DataSel),
    PatcherDatarefLoad(DataLoad),
    PatchersList(usize),
    TempoEditor,
    About,
}

/// A transition: the new state and the command its action queues.
pub type Step<S> = Option<(S, Option<Cmd>)>;

pub open spec fn last_view_state(lv: LastView) -> TopState {
    match lv {
        LastView::Main => TopState::Main,
        LastView::ParamViews => TopState::ParamViews,
    }
}

pub open spec fn other_view_state(lv: LastView) -> TopState {
    match lv {
        LastView::Main => TopState::ParamViews,
        LastView::ParamViews => TopState::Main,
    }
}

/// Transitions of the top level machine that name their state.
pub open spec fn spec_top_specific(s: TopState, ctx: &CommonContext, e: Events) -> Step<TopState> {
    match s {
        TopState::Init => match e {
            Events::BtnDown(Button::Menu) => Some((TopState::Main, None)),
            Events::BtnDown(Button::JogWheel) => Some((TopState::Main, None)),
            Events::BtnDown(Button::Back) => Some((TopState::Main, None)),
            Events::EncTouch(n) => if n == JOG_WHEEL_TOUCH {
                Some((TopState::Main, None))
            } else if n == VOLUME_WHEEL_TOUCH {
                Some((TopState::VolumeEditor(LastView::Main), None))
            } else {
                None
            },
            Events::EncRight(n) => if n == VOLUME_WHEEL_ENCODER {
                Some((TopState::VolumeEditor(LastView::Main), Some(Cmd::OffsetVolume(1isize))))
            } else {
                None
            },
            Events::EncLeft(n) => if n == VOLUME_WHEEL_ENCODER {
                Some((TopState::VolumeEditor(LastView::Main), Some(Cmd::OffsetVolume(-1isize))))
            } else {
                None
            },
            _ => None,
        },
        TopState::Main => match e {
            Events::EncTouch(n) => if n == VOLUME_WHEEL_TOUCH {
                Some((TopState::VolumeEditor(LastView::Main), None))
            } else {
                None
            },
            Events::EncRight(n) => if n == VOLUME_WHEEL_ENCODER {
                Some((TopState::VolumeEditor(LastView::Main), Some(Cmd::OffsetVolume(1isize))))
            } else {
                None
            },
            Events::EncLeft(n) => if n == VOLUME_WHEEL_ENCODER {
                Some((TopState::VolumeEditor(LastView::Main), Some(Cmd::OffsetVolume(-1isize))))
            } else {
                None
            },
            Events::BtnDown(Button::Menu) => Some((TopState::ParamViews, None)),
            Events::SetViewSelected(_, _) => Some((TopState::ParamViews, None)),
            Events::SetViewPageSelected(_) => Some((TopState::ParamViews, None)),
            Events::PopupRequested => Some((TopState::Popup(LastView::Main), None)),
            _ => None,
        },
        TopState::ParamViews => match e {
            Events::BtnDown(Button::Menu) => Some((TopState::Main, None)),
            Events::EncTouch(n) => if n == VOLUME_WHEEL_TOUCH {
                Some((TopState::VolumeEditor(LastView::ParamViews), None))
            } else {
                None
            },
            Events::EncRight(n) => if n == VOLUME_WHEEL_ENCODER {
                Some((TopState::VolumeEditor(LastView::ParamViews), Some(Cmd::OffsetVolume(1isize))))
            } else {
                None
            },
            Events::EncLeft(n) => if n == VOLUME_WHEEL_ENCODER {
                Some((TopState::VolumeEditor(LastView::ParamViews), Some(Cmd::OffsetVolume(-1isize))))
            } else {
                None
            },
            Events::PopupRequested => Some((TopState::Popup(LastView::ParamViews), None)),
            Events::DeviceParamsSelected(_, _) => Some((TopState::Main, None)),
            Events::DeviceDataSelected(_) => Some((TopState::Main, None)),
            _ => None,
        },
        TopState::VolumeEditor(lv) => match e {
            Events::BtnDown(Button::Back) => Some((last_view_state(lv), None)),
            Events::BtnDown(Button::Menu) => Some((other_view_state(lv), None)),
            Events::EncRight(n) => if n == VOLUME_WHEEL_ENCODER {
                Some((TopState::VolumeEditor(lv), Some(Cmd::OffsetVolume(1isize))))
            } else {
                None
            },
            Events::EncLeft(n) => if n == VOLUME_WHEEL_ENCODER {
                Some((TopState::VolumeEditor(lv), Some(Cmd::OffsetVolume(-1isize))))
            } else {
                None
            },
            Events::EncTouch(n) => if n != VOLUME_WHEEL_TOUCH {
                Some((last_view_state(lv), None))
            } else {
                None
            },
            Events::SetViewSelected(_, _) => Some((TopState::ParamViews, None)),
            Events::SetViewPageSelected(_) => Some((TopState::ParamViews, None)),
            Events::DeviceParamsSelected(_, _) => Some((TopState::Main, None)),
            Events::DeviceDataSelected(_) => Some((TopState::Main, None)),
            _ => None,
        },
        TopState::PromptExit(i) => match e {
            Events::BtnDown(Button::JogWheel) => if i == POWER_DOWN_INDEX {
                Some((TopState::PowerOff, None))
            } else if i == LAUNCH_MOVE_INDEX {
                Some((TopState::LaunchMove, None))
            } else {
                None
            },
            Events::EncRight(n) => if n == JOG_WHEEL_ENCODER && i + 1 < EXIT_MENU_LEN {
                Some((TopState::PromptExit((i + 1) as usize), None))
            } else {
                None
            },
            Events::EncLeft(n) => if n == JOG_WHEEL_ENCODER && i > 0 {
                Some((TopState::PromptExit((i - 1) as usize), None))
            } else {
                None
            },
            Events::BtnDown(Button::Back) => if ctx.can_exit_powermenu {
                Some((TopState::Main, None))
            } else {
                None
            },
            Events::BtnDown(Button::Menu) => if ctx.can_exit_powermenu {
                Some((TopState::Main, None))
            } else {
                None
            },
            _ => None,
        },
        TopState::Popup(lv) => match e {
            Events::PopupTimeout => Some((last_view_state(lv), None)),
            Events::EncTouch(n) => if n == JOG_WHEEL_TOUCH {
                Some((last_view_state(lv), None))
            } else {
                None
            },
            _ => None,
        },
        TopState::DisplayChildProcessError => match e {
            Events::BtnDown(Button::PowerShort) => Some(
                (
                    TopState::PromptExit(POWER_DOWN_INDEX),
                    Some(Cmd::Power(PowerCommand::ClearShortPress)),
                ),
            ),
            _ => None,
        },
        TopState::PowerOff => None,
        TopState::LaunchMove => None,
    }
}

/// Transitions of the top level machine that hold in every state.
pub open spec fn spec_top_any(s: TopState, e: Events) -> Step<TopState> {
    match e {
        Events::BtnDown(Button::PowerShort) => Some(
            (TopState::PromptExit(POWER_DOWN_INDEX), Some(Cmd::Power(PowerCommand::ClearShortPress))),
        ),
        Events::BtnDown(Button::PowerLong) => Some(
            (TopState::PowerOff, Some(Cmd::Power(PowerCommand::ClearLongPress))),
        ),
        Events::BtnDown(Button::Play) => Some((s, Some(Cmd::ToggleTransport))),
        Events::ChildProcessError => Some((TopState::DisplayChildProcessError, None)),
        Events::SetViewSelected(_, _) => if leaving(s) || s == TopState::ParamViews {
            None
        } else {
            Some((TopState::ParamViews, None))
        },
        Events::DeviceParamsSelected(_, _) | Events::DeviceDataSelected(_) => if leaving(s) || s
            == TopState::Main {
            None
        } else {
            Some((TopState::Main, None))
        },
        _ => None,
    }
}

/// The screens shown while the device powers down or is handed back: a
/// selection from the runner no longer moves away from them.
pub open spec fn leaving(s: TopState) -> bool {
    s == TopState::PowerOff || s == TopState::LaunchMove
}

/// One step of the top level machine.
pub open spec fn spec_top_step(s: TopState, ctx: &CommonContext, e: Events) -> Step<TopState> {
    match spec_top_specific(s, ctx, e) {
        Some(r) => Some(r),
        None => spec_top_any(s, e),
    }
}

/// The parameter slot under encoder `e` on page `page`: `page * 8 + e`,
/// wrapping on overflow.
pub open spec fn param_slot(page: usize, e: usize) -> usize {
    vstd::wrapping::usize_specs::wrapping_add(vstd::wrapping::usize_specs::wrapping_mul(page, 8), e)
}

/// `page` limited to the last of `pages` pages (unchanged when there are none).
pub open spec fn clamp_page(page: usize, pages: usize) -> usize {
    if pages == 0 {
        page
    } else if page < pages - 1 {
        page
    } else {
        (pages - 1) as usize
    }
}

/// Transitions of the view machine that name their state.
pub open spec fn spec_view_specific(s: ViewState, ctx: &CommonContext, e: Events) -> Step<ViewState> {
    let count = ctx.spec_param_view_count();
    match s {
        ViewState::ParamViewMenu(i) => match e {
            Events::EncRight(n) => if n == JOG_WHEEL_ENCODER && i + 1 < count {
                Some((ViewState::ParamViewMenu((i + 1) as usize), None))
            } else {
                None
            },
            Events::EncLeft(n) => if n == JOG_WHEEL_ENCODER && i > 0 {
                Some((ViewState::ParamViewMenu((i - 1) as usize), None))
            } else {
                None
            },
            Events::BtnDown(Button::JogWheel) => if i < count {
                Some(
                    (
                        ViewState::ViewParams(ParamPage { index: i, page: 0, focused: None }),
                        Some(Cmd::ReportViewParamPage(i, 0)),
                    ),
                )
            } else {
                None
            },
            Events::SetViewSelected(a, b) => if a < count && b < ctx.spec_view_param_pages(a) {
                Some(
                    (
                        ViewState::ViewParams(ParamPage { index: a, page: b, focused: None }),
                        Some(Cmd::ReportViewParamPage(a, b)),
                    ),
                )
            } else {
                None
            },
            _ => None,
        },
        ViewState::ViewParams(p) => match e {
            Events::BtnDown(Button::Back) => Some((ViewState::ParamViewMenu(p.index), None)),
            Events::EncRight(n) => if n == JOG_WHEEL_ENCODER && p.page + 1
                < ctx.spec_view_param_pages(p.index) {
                Some(
                    (
                        ViewState::ViewParams(ParamPage { page: (p.page + 1) as usize, ..p }),
                        Some(Cmd::ReportViewParamPage(p.index, (p.page + 1) as usize)),
                    ),
                )
            } else if n < 8 {
                Some(
                    (
                        ViewState::ViewParams(ParamPage { focused: Some(n), ..p }),
                        Some(
                            Cmd::OffsetViewParam {
                                view: p.index,
                                index: param_slot(p.page, n),
                                offset: 1isize,
                            },
                        ),
                    ),
                )
            } else {
                None
            },
            Events::EncLeft(n) => if n == JOG_WHEEL_ENCODER && p.page > 0 {
                Some(
                    (
                        ViewState::ViewParams(ParamPage { page: (p.page - 1) as usize, ..p }),
                        Some(Cmd::ReportViewParamPage(p.index, (p.page - 1) as usize)),
                    ),
                )
            } else if n < 8 {
                Some(
                    (
                        ViewState::ViewParams(ParamPage { focused: Some(n), ..p }),
                        Some(
                            Cmd::OffsetViewParam {
                                view: p.index,
                                index: param_slot(p.page, n),
                                offset: -1isize,
                            },
                        ),
                    ),
                )
            } else {
                None
            },
            Events::EncTouch(n) => if n < 8 {
                Some((ViewState::ViewParams(ParamPage { focused: Some(n), ..p }), None))
            } else {
                None
            },
            Events::VisibleParamUpdated(n) => if p.focused == Some(n) {
                Some((ViewState::ViewParams(p), None))
            } else {
                None
            },
            Events::SetViewSelected(a, b) => if (p.index != a || p.page != b) && a < count && b
                < ctx.spec_view_param_pages(a) {
                Some(
                    (
                        ViewState::ViewParams(ParamPage { index: a, page: b, focused: p.focused }),
                        Some(Cmd::ReportViewParamPage(a, b)),
                    ),
                )
            } else {
                None
            },
            Events::SetViewPageSelected(n) => if p.page != n {
                let pg = clamp_page(n, ctx.spec_view_param_pages(p.index));
                Some(
                    (
                        ViewState::ViewParams(ParamPage { page: pg, ..p }),
                        Some(Cmd::ReportViewParamPage(p.index, pg)),
                    ),
                )
            } else {
                None
            },
            _ => None,
        },
    }
}

/// One step of the view machine.
pub open spec fn spec_view_step(s: ViewState, ctx: &CommonContext, e: Events) -> Step<ViewState> {
    match spec_view_specific(s, ctx, e) {
        Some(r) => Some(r),
        None => match e {
            Events::SetViewListChanged => if ctx.spec_param_view_count() != 1 {
                Some((ViewState::ParamViewMenu(0), None))
            } else {
                Some((ViewState::ViewParams(ParamPage { index: 0, page: 0, focused: None }), None))
            },
            _ => None,
        },
    }
}

/// The main menu entry that lists instances of the given kind.
pub open spec fn instances_menu_index(typ: InstSelType) -> usize {
    match typ {
        InstSelType::Params => DEVICE_PARAMS_INDEX,
        InstSelType::Datarefs => DEVICE_DATA_INDEX,
    }
}

/// The preset menu entry that opens a preset list for `op`.
pub open spec fn preset_menu_index(op: PresetListOp) -> usize {
    match op {
        PresetListOp::Load => PRESET_MENU_LOAD_INDEX,
        PresetListOp::Delete => PRESET_MENU_DELETE_INDEX,
        PresetListOp::Overwrite => PRESET_MENU_OVERWRITE_INDEX,
        PresetListOp::SetInitial => PRESET_MENU_SET_INTIAL_INDEX,
    }
}

/// The command that choosing a preset sends for `op`.
pub open spec fn preset_cmd(op: PresetListOp, i: usize) -> Cmd {
    match op {
        PresetListOp::Load => Cmd::LoadSetPreset(i),
        PresetListOp::Delete => Cmd::DeleteSetPreset(i),
        PresetListOp::Overwrite => Cmd::OverwriteSetPreset(i),
        PresetListOp::SetInitial => Cmd::SetInitialSetPreset(i),
    }
}

/// What choosing entry `i` of the main menu does.
pub open spec fn spec_menu_select(i: usize, ctx: &CommonContext) -> Step<MainState> {
    let np = ctx.params_instances_count;
    let nd = ctx.datarefs_instances_count;
    if i == GRAPHS_INDEX && ctx.sets_count > 0 {
        Some((MainState::SetsList(0), None))
    } else if i == GRAPH_PRESETS_INDEX && ctx.set_presets_count > 0 {
        Some((MainState::GraphPresetMenu(PRESET_MENU_LOAD_INDEX), None))
    } else if i == DEVICE_PARAMS_INDEX && np > 1 {
        Some(
            (
                MainState::PatcherInstances(
                    InstSel { selected: 0, count: np, typ: InstSelType::Params },
                ),
                None,
            ),
        )
    } else if i == DEVICE_PARAMS_INDEX && np == 1 {
        Some((MainState::PatcherParams(ParamPage { index: 0, page: 0, focused: None }), None))
    } else if i == DEVICE_DATA_INDEX && nd > 1 {
        Some(
            (
                MainState::PatcherInstances(
                    InstSel { selected: 0, count: nd, typ: InstSelType::Datarefs },
                ),
                None,
            ),
        )
    } else if i == DEVICE_DATA_INDEX && nd == 1 {
        Some(
            (
                MainState::PatcherDatarefs(
                    DataSel { instance: 0, selected: 0, count: ctx.spec_dataref_count(0) },
                ),
                Some(Cmd::UpdateDataFileList),
            ),
        )
    } else if i == PATCHERS_INDEX && ctx.patchers_count > 0 {
        Some((MainState::PatchersList(0), None))
    } else if i == TEMPO_INDEX {
        Some((MainState::TempoEditor, None))
    } else if i == ABOUT_INDEX {
        Some((MainState::About, None))
    } else {
        None
    }
}

/// What choosing entry `i` of the preset menu does.
pub open spec fn spec_preset_menu_select(i: usize, ctx: &CommonContext) -> Step<MainState> {
    let some = ctx.set_presets_count > 0;
    if i == PRESET_MENU_LOAD_INDEX && some {
        Some((MainState::GraphPresetsList(PresetListState { op: PresetListOp::Load, selected: 0 }), None))
    } else if i == PRESET_MENU_DELETE_INDEX && some {
        Some((MainState::GraphPresetsList(PresetListState { op: PresetListOp::Delete, selected: 0 }), None))
    } else if i == PRESET_MENU_OVERWRITE_INDEX && some {
        Some(
            (
                MainState::GraphPresetsList(PresetListState { op: PresetListOp::Overwrite, selected: 0 }),
                None,
            ),
        )
    } else if i == PRESET_MENU_SET_INTIAL_INDEX && some {
        Some(
            (
                MainState::GraphPresetsList(PresetListState { op: PresetListOp::SetInitial, selected: 0 }),
                None,
            ),
        )
    } else if i == PRESET_MENU_SAVE_INDEX {
        Some((MainState::GraphPresetMenu(i), Some(Cmd::SaveSetPreset)))
    } else {
        None
    }
}

/// Where the instance lists go when the instances change.
pub open spec fn spec_data_instances_changed(ctx: &CommonContext) -> MainState {
    if ctx.spec_dataref_count(0) == 0 {
        MainState::Menu(DEVICE_DATA_INDEX)
    } else {
        MainState::PatcherInstances(
            InstSel { selected: 0, count: ctx.datarefs_instances_count, typ: InstSelType::Datarefs },
        )
    }
}

/// Transitions of the main menu machine that hold in every state: the
/// runner asks for an instance's parameters or datarefs.
pub open spec fn spec_main_any(ctx: &CommonContext, e: Events) -> Step<MainState> {
    match e {
        Events::DeviceParamsSelected(i, p) => if i < ctx.params_instances_count
            && p < ctx.spec_instance_param_pages(i) {
            Some((MainState::PatcherParams(ParamPage { index: i, page: p, focused: None }), None))
        } else {
            None
        },
        Events::DeviceDataSelected(i) => if i < ctx.datarefs_instances_count
            && ctx.spec_dataref_count(i) > 0 {
            Some(
                (
                    MainState::PatcherDatarefs(
                        DataSel { instance: i, selected: 0, count: ctx.spec_dataref_count(i) },
                    ),
                    Some(Cmd::UpdateDataFileList),
                ),
            )
        } else {
            None
        },
        _ => None,
    }
}

/// One step of the main menu machine.
pub open spec fn spec_main_step(s: MainState, ctx: &CommonContext, e: Events) -> Step<MainState> {
    match spec_main_any(ctx, e) {
        Some(r) => Some(r),
        None => spec_main_specific(s, ctx, e),
    }
}

/// Transitions of the main menu machine that name their state.
pub open spec fn spec_main_specific(s: MainState, ctx: &CommonContext, e: Events) -> Step<MainState> {
    let jog = JOG_WHEEL_ENCODER;
    match s {
        MainState::Init => match e {
            Events::BtnDown(Button::Back) => Some((MainState::Init, None)),
            _ => None,
        },
        MainState::Menu(i) => match e {
            Events::EncRight(n) => if n == jog && i + 1 < MENU_ITEMS_LEN {
                Some((MainState::Menu((i + 1) as usize), None))
            } else {
                None
            },
            Events::EncLeft(n) => if n == jog && i > 0 {
                Some((MainState::Menu((i - 1) as usize), None))
            } else {
                None
            },
            Events::BtnDown(Button::JogWheel) => spec_menu_select(i, ctx),
            _ => None,
        },
        MainState::SetsList(i) => match e {
            Events::BtnDown(Button::Back) => Some((MainState::Menu(GRAPHS_INDEX), None)),
            Events::EncRight(n) => if n == jog && ctx.sets_count > i + 1 {
                Some((MainState::SetsList((i + 1) as usize), None))
            } else {
                None
            },
            Events::EncLeft(n) => if n == jog && i > 0 {
                Some((MainState::SetsList((i - 1) as usize), None))
            } else {
                None
            },
            Events::BtnDown(Button::JogWheel) => Some((MainState::SetsList(i), Some(Cmd::LoadSet(i)))),
            Events::SetNamesChanged => Some((MainState::Menu(GRAPHS_INDEX), None)),
            Events::SetCurrentChanged => Some((MainState::SetsList(i), None)),
            _ => None,
        },
        MainState::GraphPresetMenu(i) => match e {
            Events::BtnDown(Button::Back) => Some((MainState::Menu(GRAPH_PRESETS_INDEX), None)),
            Events::EncRight(n) => if n == jog && PRESET_MENU_ITEMS_LEN > i + 1 {
                Some((MainState::GraphPresetMenu((i + 1) as usize), None))
            } else {
                None
            },
            Events::EncLeft(n) => if n == jog && i > 0 {
                Some((MainState::GraphPresetMenu((i - 1) as usize), None))
            } else {
                None
            },
            Events::BtnDown(Button::JogWheel) => spec_preset_menu_select(i, ctx),
            _ => None,
        },
        MainState::GraphPresetsList(l) => match e {
            Events::BtnDown(Button::Back) => Some(
                (MainState::GraphPresetMenu(preset_menu_index(l.op)), None),
            ),
            Events::EncRight(n) => if n == jog && ctx.set_presets_count > l.selected + 1 {
                Some(
                    (
                        MainState::GraphPresetsList(
                            PresetListState { op: l.op, selected: (l.selected + 1) as usize },
                        ),
                        None,
                    ),
                )
            } else {
                None
            },
            Events::EncLeft(n) => if n == jog && l.selected > 0 {
                Some(
                    (
                        MainState::GraphPresetsList(
                            PresetListState { op: l.op, selected: (l.selected - 1) as usize },
                        ),
                        None,
                    ),
                )
            } else {
                None
            },
            Events::BtnDown(Button::JogWheel) => match l.op {
                PresetListOp::Delete => Some(
                    (
                        MainState::GraphPresetMenu(PRESET_MENU_DELETE_INDEX),
                        Some(Cmd::DeleteSetPreset(l.selected)),
                    ),
                ),
                _ => Some((MainState::GraphPresetsList(l), Some(preset_cmd(l.op, l.selected)))),
            },
            Events::SetPresetNamesChanged => Some(
                (MainState::GraphPresetMenu(preset_menu_index(l.op)), None),
            ),
            Events::SetPresetLoadedChanged => Some((MainState::GraphPresetsList(l), None)),
            _ => None,
        },
        MainState::PatcherInstances(sel) => match e {
            Events::BtnDown(Button::Back) => Some(
                (MainState::Menu(instances_menu_index(sel.typ)), None),
            ),
            Events::EncRight(n) => if n == jog && sel.spec_can_go_next() {
                Some((MainState::PatcherInstances(sel.spec_next()), None))
            } else {
                None
            },
            Events::EncLeft(n) => if n == jog && sel.selected > 0 {
                Some((MainState::PatcherInstances(sel.spec_prev()), None))
            } else {
                None
            },
            Events::BtnDown(Button::JogWheel) => match sel.typ {
                InstSelType::Params => Some(
                    (
                        MainState::PatcherParams(
                            ParamPage { index: sel.selected, page: 0, focused: None },
                        ),
                        None,
                    ),
                ),
                InstSelType::Datarefs => Some(
                    (
                        MainState::PatcherDatarefs(
                            DataSel {
                                instance: sel.selected,
                                selected: 0,
                                count: ctx.spec_dataref_count(sel.selected),
                            },
                        ),
                        Some(Cmd::UpdateDataFileList),
                    ),
                ),
            },
            Events::InstancesChanged(_) => if ctx.spec_instances_count(sel.typ) == 0 {
                Some((MainState::Menu(instances_menu_index(sel.typ)), None))
            } else {
                Some((MainState::PatcherInstances(InstSel { selected: 0, ..sel }), None))
            },
            Events::DatarefVisibleChanged => match sel.typ {
                InstSelType::Datarefs => Some((MainState::Menu(DEVICE_DATA_INDEX), None)),
                InstSelType::Params => None,
            },
            Events::SetCurrentChanged => Some((MainState::Menu(DEVICE_PARAMS_INDEX), None)),
            _ => None,
        },
        MainState::PatcherParams(p) => match e {
            Events::BtnDown(Button::Back) => if ctx.params_instances_count > 1 {
                Some(
                    (
                        MainState::PatcherInstances(
                            InstSel {
                                selected: p.index,
                                count: ctx.params_instances_count,
                                typ: InstSelType::Params,
                            },
                        ),
                        None,
                    ),
                )
            } else if ctx.params_instances_count == 1 {
                Some((MainState::Menu(DEVICE_PARAMS_INDEX), None))
            } else {
                None
            },
            Events::EncRight(n) => if n == jog && ctx.spec_instance_param_pages(p.index) > p.page
                + 1 {
                Some((MainState::PatcherParams(ParamPage { page: (p.page + 1) as usize, ..p }), None))
            } else if n < 8 {
                Some(
                    (
                        MainState::PatcherParams(ParamPage { focused: Some(n), ..p }),
                        Some(
                            Cmd::OffsetParam {
                                instance: p.index,
                                index: param_slot(p.page, n),
                                offset: 1isize,
                            },
                        ),
                    ),
                )
            } else {
                None
            },
            Events::EncLeft(n) => if n == jog && p.page > 0 {
                Some((MainState::PatcherParams(ParamPage { page: (p.page - 1) as usize, ..p }), None))
            } else if n < 8 {
                Some(
                    (
                        MainState::PatcherParams(ParamPage { focused: Some(n), ..p }),
                        Some(
                            Cmd::OffsetParam {
                                instance: p.index,
                                index: param_slot(p.page, n),
                                offset: -1isize,
                            },
                        ),
                    ),
                )
            } else {
                None
            },
            Events::EncTouch(n) => if n < 8 {
                Some((MainState::PatcherParams(ParamPage { focused: Some(n), ..p }), None))
            } else {
                None
            },
            Events::InstancesChanged(_) => if ctx.params_instances_count == 0 {
                Some((MainState::Menu(DEVICE_PARAMS_INDEX), None))
            } else {
                Some(
                    (
                        MainState::PatcherInstances(
                            InstSel {
                                selected: 0,
                                count: ctx.params_instances_count,
                                typ: InstSelType::Params,
                            },
                        ),
                        None,
                    ),
                )
            },
            Events::SetCurrentChanged => Some((MainState::Menu(DEVICE_PARAMS_INDEX), None)),
            Events::VisibleParamUpdated(n) => if p.focused == Some(n) {
                Some((MainState::PatcherParams(p), None))
            } else {
                None
            },
            _ => None,
        },
        MainState::PatcherDatarefs(d) => match e {
            Events::BtnDown(Button::Back) => if ctx.datarefs_instances_count > 1 {
                Some(
                    (
                        MainState::PatcherInstances(
                            InstSel {
                                selected: d.instance,
                                count: ctx.datarefs_instances_count,
                                typ: InstSelType::Datarefs,
                            },
                        ),
                        None,
                    ),
                )
            } else if ctx.datarefs_instances_count == 1 {
                Some((MainState::Menu(DEVICE_DATA_INDEX), None))
            } else {
                None
            },
            Events::InstancesChanged(_) => Some((spec_data_instances_changed(ctx), None)),
            Events::EncRight(n) => if n == jog && d.spec_can_go_next() {
                Some((MainState::PatcherDatarefs(d.spec_next()), None))
            } else {
                None
            },
            Events::EncLeft(n) => if n == jog && d.selected > 0 {
                Some((MainState::PatcherDatarefs(d.spec_prev()), None))
            } else {
                None
            },
            Events::BtnDown(Button::JogWheel) => Some(
                (
                    MainState::PatcherDatarefLoad(
                        DataLoad { dataref: d, selected: 0, filecount: ctx.datafile_count },
                    ),
                    None,
                ),
            ),
            Events::DatarefVisibleChanged => Some((MainState::Menu(DEVICE_DATA_INDEX), None)),
            Events::SetCurrentChanged => Some((MainState::Menu(DEVICE_DATA_INDEX), None)),
            _ => None,
        },
        MainState::PatcherDatarefLoad(l) => match e {
            Events::InstancesChanged(_) => Some((spec_data_instances_changed(ctx), None)),
            Events::BtnDown(Button::JogWheel) => Some(
                (
                    MainState::PatcherDatarefLoad(l),
                    Some(Cmd::LoadDataref(l.dataref.instance, l.dataref.selected, l.selected)),
                ),
            ),
            Events::BtnDown(Button::Back) => Some((MainState::PatcherDatarefs(l.dataref), None)),
            Events::EncRight(n) => if n == jog && l.spec_can_go_next() {
                Some((MainState::PatcherDatarefLoad(l.spec_next()), None))
            } else {
                None
            },
            Events::EncLeft(n) => if n == jog && l.selected > 0 {
                Some((MainState::PatcherDatarefLoad(l.spec_prev()), None))
            } else {
                None
            },
            Events::DatarefMappingChanged => Some((MainState::PatcherDatarefLoad(l), None)),
            Events::DatarefVisibleChanged => Some((MainState::Menu(DEVICE_DATA_INDEX), None)),
            Events::SetCurrentChanged => Some((MainState::Menu(DEVICE_DATA_INDEX), None)),
            _ => None,
        },
        MainState::PatchersList(i) => match e {
            Events::BtnDown(Button::Back) => Some((MainState::Menu(PATCHERS_INDEX), None)),
            Events::EncRight(n) => if n == jog && ctx.patchers_count > i + 1 {
                Some((MainState::PatchersList((i + 1) as usize), None))
            } else {
                None
            },
            Events::EncLeft(n) => if n == jog && i > 0 {
                Some((MainState::PatchersList((i - 1) as usize), None))
            } else {
                None
            },
            Events::BtnDown(Button::JogWheel) => Some(
                (MainState::PatchersList(i), Some(Cmd::LoadPatcher(i))),
            ),
            Events::PatcherNamesChanged => Some((MainState::Menu(PATCHERS_INDEX), None)),
            _ => None,
        },
        MainState::TempoEditor => match e {
            Events::BtnDown(Button::Back) => Some((MainState::Menu(TEMPO_INDEX), None)),
            Events::EncRight(n) => if n == jog {
                Some((MainState::TempoEditor, Some(Cmd::OffsetTempo(1isize))))
            } else {
                None
            },
            Events::EncLeft(n) => if n == jog {
                Some((MainState::TempoEditor, Some(Cmd::OffsetTempo(-1isize))))
            } else {
                None
            },
            Events::BtnDown(Button::JogWheel) => Some(
                (MainState::TempoEditor, Some(Cmd::MulTempoOffset(true))),
            ),
            Events::BtnUp(Button::JogWheel) => Some(
                (MainState::TempoEditor, Some(Cmd::MulTempoOffset(false))),
            ),
            Events::Tempo => Some((MainState::TempoEditor, None)),
            _ => None,
        },
        MainState::About => match e {
            Events::BtnDown(Button::Back) => Some((MainState::Menu(ABOUT_INDEX), None)),
            _ => None,
        },
    }
}

fn last_view(lv: LastView) -> (s: TopState)
    ensures
        s == last_view_state(lv),
{
    match lv {
        LastView::Main => TopState::Main,
        LastView::ParamViews => TopState::ParamViews,
    }
}

fn other_view(lv: LastView) -> (s: TopState)
    ensures
        s == other_view_state(lv),
{
    match lv {
        LastView::Main => TopState::ParamViews,
        LastView::ParamViews => TopState::Main,
    }
}

fn top_specific(s: TopState, ctx: &CommonContext, e: Events) -> (r: Step<TopState>)
    ensures
        r == spec_top_specific(s, ctx, e),
{
    match s {
        TopState::Init => match e {
            Events::BtnDown(Button::Menu) => Some((TopState::Main, None)),
            Events::BtnDown(Button::JogWheel) => Some((TopState::Main, None)),
            Events::BtnDown(Button::Back) => Some((TopState::Main, None)),
            Events::EncTouch(n) => if n == JOG_WHEEL_TOUCH {
                Some((TopState::Main, None))
            } else if n == VOLUME_WHEEL_TOUCH {
                Some((TopState::VolumeEditor(LastView::Main), None))
            } else {
                None
            },
            Events::EncRight(n) => if n == VOLUME_WHEEL_ENCODER {
                Some((TopState::VolumeEditor(LastView::Main), Some(Cmd::OffsetVolume(1isize))))
            } else {
                None
            },
            Events::EncLeft(n) => if n == VOLUME_WHEEL_ENCODER {
                Some((TopState::VolumeEditor(LastView::Main), Some(Cmd::OffsetVolume(-1isize))))
            } else {
                None
            },
            _ => None,
        },
        TopState::Main => match e {
            Events::EncTouch(n) => if n == VOLUME_WHEEL_TOUCH {
                Some((TopState::VolumeEditor(LastView::Main), None))
            } else {
                None
            },
            Events::EncRight(n) => if n == VOLUME_WHEEL_ENCODER {
                Some((TopState::VolumeEditor(LastView::Main), Some(Cmd::OffsetVolume(1isize))))
            } else {
                None
            },
            Events::EncLeft(n) => if n == VOLUME_WHEEL_ENCODER {
                Some((TopState::VolumeEditor(LastView::Main), Some(Cmd::OffsetVolume(-1isize))))
            } else {
                None
            },
            Events::BtnDown(Button::Menu) => Some((TopState::ParamViews, None)),
            Events::SetViewSelected(_, _) => Some((TopState::ParamViews, None)),
            Events::SetViewPageSelected(_) => Some((TopState::ParamViews, None)),
            Events::PopupRequested => Some((TopState::Popup(LastView::Main), None)),
            _ => None,
        },
        TopState::ParamViews => match e {
            Events::BtnDown(Button::Menu) => Some((TopState::Main, None)),
            Events::EncTouch(n) => if n == VOLUME_WHEEL_TOUCH {
                Some((TopState::VolumeEditor(LastView::ParamViews), None))
            } else {
                None
            },
            Events::EncRight(n) => if n == VOLUME_WHEEL_ENCODER {
                Some((TopState::VolumeEditor(LastView::ParamViews), Some(Cmd::OffsetVolume(1isize))))
            } else {
                None
            },
            Events::EncLeft(n) => if n == VOLUME_WHEEL_ENCODER {
                Some((TopState::VolumeEditor(LastView::ParamViews), Some(Cmd::OffsetVolume(-1isize))))
            } else {
                None
            },
            Events::PopupRequested => Some((TopState::Popup(LastView::ParamViews), None)),
            Events::DeviceParamsSelected(_, _) => Some((TopState::Main, None)),
            Events::DeviceDataSelected(_) => Some((TopState::Main, None)),
            _ => None,
        },
        TopState::VolumeEditor(lv) => match e {
            Events::BtnDown(Button::Back) => Some((last_view(lv), None)),
            Events::BtnDown(Button::Menu) => Some((other_view(lv), None)),
            Events::EncRight(n) => if n == VOLUME_WHEEL_ENCODER {
                Some((TopState::VolumeEditor(lv), Some(Cmd::OffsetVolume(1isize))))
            } else {
                None
            },
            Events::EncLeft(n) => if n == VOLUME_WHEEL_ENCODER {
                Some((TopState::VolumeEditor(lv), Some(Cmd::OffsetVolume(-1isize))))
            } else {
                None
            },
            Events::EncTouch(n) => if n != VOLUME_WHEEL_TOUCH {
                Some((last_view(lv), None))
            } else {
                None
            },
            Events::SetViewSelected(_, _) => Some((TopState::ParamViews, None)),
            Events::SetViewPageSelected(_) => Some((TopState::ParamViews, None)),
            Events::DeviceParamsSelected(_, _) => Some((TopState::Main, None)),
            Events::DeviceDataSelected(_) => Some((TopState::Main, None)),
            _ => None,
        },
        TopState::PromptExit(i) => match e {
            Events::BtnDown(Button::JogWheel) => if i == POWER_DOWN_INDEX {
                Some((TopState::PowerOff, None))
            } else if i == LAUNCH_MOVE_INDEX {
                Some((TopState::LaunchMove, None))
            } else {
                None
            },
            Events::EncRight(n) => if n == JOG_WHEEL_ENCODER && i < EXIT_MENU_LEN - 1 {
                Some((TopState::PromptExit(i + 1), None))
            } else {
                None
            },
            Events::EncLeft(n) => if n == JOG_WHEEL_ENCODER && i > 0 {
                Some((TopState::PromptExit(i - 1), None))
            } else {
                None
            },
            Events::BtnDown(Button::Back) => if ctx.can_exit_powermenu {
                Some((TopState::Main, None))
            } else {
                None
            },
            Events::BtnDown(Button::Menu) => if ctx.can_exit_powermenu {
                Some((TopState::Main, None))
            } else {
                None
            },
            _ => None,
        },
        TopState::Popup(lv) => match e {
            Events::PopupTimeout => Some((last_view(lv), None)),
            Events::EncTouch(n) => if n == JOG_WHEEL_TOUCH {
                Some((last_view(lv), None))
            } else {
                None
            },
            _ => None,
        },
        TopState::DisplayChildProcessError => match e {
            Events::BtnDown(Button::PowerShort) => Some(
                (
                    TopState::PromptExit(POWER_DOWN_INDEX),
                    Some(Cmd::Power(PowerCommand::ClearShortPress)),
                ),
            ),
            _ => None,
        },
        TopState::PowerOff => None,
        TopState::LaunchMove => None,
    }
}

/// One step of the top level machine.
pub fn top_step(s: TopState, ctx: &CommonContext, e: Events) -> (r: Step<TopState>)
    ensures
        r == spec_top_step(s, ctx, e),
{
    match top_specific(s, ctx, e) {
        Some(r) => Some(r),
        None => match e {
            Events::BtnDown(Button::PowerShort) => Some(
                (
                    TopState::PromptExit(POWER_DOWN_INDEX),
                    Some(Cmd::Power(PowerCommand::ClearShortPress)),
                ),
            ),
            Events::BtnDown(Button::PowerLong) => Some(
                (TopState::PowerOff, Some(Cmd::Power(PowerCommand::ClearLongPress))),
            ),
            Events::BtnDown(Button::Play) => Some((s, Some(Cmd::ToggleTransport))),
            Events::ChildProcessError => Some((TopState::DisplayChildProcessError, None)),
            Events::SetViewSelected(_, _) => match s {
                TopState::PowerOff | TopState::LaunchMove | TopState::ParamViews => None,
                _ => Some((TopState::ParamViews, None)),
            },
            Events::DeviceParamsSelected(_, _) | Events::DeviceDataSelected(_) => match s {
                TopState::PowerOff | TopState::LaunchMove | TopState::Main => None,
                _ => Some((TopState::Main, None)),
            },
            _ => None,
        },
    }
}

/// `page * 8 + e`, wrapping on overflow.
fn slot(page: usize, e: usize) -> (r: usize)
    ensures
        r == param_slot(page, e),
{
    page.wrapping_mul(8).wrapping_add(e)
}

/// `page` limited to the last of `pages` pages.
pub fn clamp_to_pages(page: usize, pages: usize) -> (r: usize)
    ensures
        r == clamp_page(page, pages),
{
    if pages == 0 {
        page
    } else if page < pages - 1 {
        page
    } else {
        pages - 1
    }
}

fn view_specific(s: ViewState, ctx: &CommonContext, e: Events) -> (r: Step<ViewState>)
    ensures
        r == spec_view_specific(s, ctx, e),
{
    let count = ctx.param_view_count();
    match s {
        ViewState::ParamViewMenu(i) => match e {
            Events::EncRight(n) => if n == JOG_WHEEL_ENCODER && i < count && count - i > 1 {
                Some((ViewState::ParamViewMenu(i + 1), None))
            } else {
                None
            },
            Events::EncLeft(n) => if n == JOG_WHEEL_ENCODER && i > 0 {
                Some((ViewState::ParamViewMenu(i - 1), None))
            } else {
                None
            },
            Events::BtnDown(Button::JogWheel) => if i < count {
                Some(
                    (
                        ViewState::ViewParams(ParamPage { index: i, page: 0, focused: None }),
                        Some(Cmd::ReportViewParamPage(i, 0)),
                    ),
                )
            } else {
                None
            },
            Events::SetViewSelected(a, b) => if a < count && b < ctx.view_param_pages(a) {
                Some(
                    (
                        ViewState::ViewParams(ParamPage { index: a, page: b, focused: None }),
                        Some(Cmd::ReportViewParamPage(a, b)),
                    ),
                )
            } else {
                None
            },
            _ => None,
        },
        ViewState::ViewParams(p) => match e {
            Events::BtnDown(Button::Back) => Some((ViewState::ParamViewMenu(p.index), None)),
            Events::EncRight(n) => {
                let pages = ctx.view_param_pages(p.index);
                if n == JOG_WHEEL_ENCODER && p.page < pages && pages - p.page > 1 {
                    Some(
                        (
                            ViewState::ViewParams(ParamPage { page: p.page + 1, ..p }),
                            Some(Cmd::ReportViewParamPage(p.index, p.page + 1)),
                        ),
                    )
                } else if n < 8 {
                    Some(
                        (
                            ViewState::ViewParams(ParamPage { focused: Some(n), ..p }),
                            Some(
                                Cmd::OffsetViewParam {
                                    view: p.index,
                                    index: slot(p.page, n),
                                    offset: 1isize,
                                },
                            ),
                        ),
                    )
                } else {
                    None
                }
            },
            Events::EncLeft(n) => if n == JOG_WHEEL_ENCODER && p.page > 0 {
                Some(
                    (
                        ViewState::ViewParams(ParamPage { page: p.page - 1, ..p }),
                        Some(Cmd::ReportViewParamPage(p.index, p.page - 1)),
                    ),
                )
            } else if n < 8 {
                Some(
                    (
                        ViewState::ViewParams(ParamPage { focused: Some(n), ..p }),
                        Some(
                            Cmd::OffsetViewParam {
                                view: p.index,
                                index: slot(p.page, n),
                                offset: -1isize,
                            },
                        ),
                    ),
                )
            } else {
                None
            },
            Events::EncTouch(n) => if n < 8 {
                Some((ViewState::ViewParams(ParamPage { focused: Some(n), ..p }), None))
            } else {
                None
            },
            Events::VisibleParamUpdated(n) => if p.focused == Some(n) {
                Some((ViewState::ViewParams(p), None))
            } else {
                None
            },
            Events::SetViewSelected(a, b) => if (p.index != a || p.page != b) && a < count && b
                < ctx.view_param_pages(a) {
                Some(
                    (
                        ViewState::ViewParams(ParamPage { index: a, page: b, focused: p.focused }),
                        Some(Cmd::ReportViewParamPage(a, b)),
                    ),
                )
            } else {
                None
            },
            Events::SetViewPageSelected(n) => if p.page != n {
                let pg = clamp_to_pages(n, ctx.view_param_pages(p.index));
                Some(
                    (
                        ViewState::ViewParams(ParamPage { page: pg, ..p }),
                        Some(Cmd::ReportViewParamPage(p.index, pg)),
                    ),
                )
            } else {
                None
            },
            _ => None,
        },
    }
}

/// One step of the view machine.
pub fn view_step(s: ViewState, ctx: &CommonContext, e: Events) -> (r: Step<ViewState>)
    ensures
        r == spec_view_step(s, ctx, e),
{
    match view_specific(s, ctx, e) {
        Some(r) => Some(r),
        None => match e {
            Events::SetViewListChanged => if ctx.param_view_count() != 1 {
                Some((ViewState::ParamViewMenu(0), None))
            } else {
                Some((ViewState::ViewParams(ParamPage { index: 0, page: 0, focused: None }), None))
            },
            _ => None,
        },
    }
}

fn menu_select(i: usize, ctx: &CommonContext) -> (r: Step<MainState>)
    ensures
        r == spec_menu_select(i, ctx),
{
    let np = ctx.params_instances_count;
    let nd = ctx.datarefs_instances_count;
    if i == GRAPHS_INDEX && ctx.sets_count > 0 {
        Some((MainState::SetsList(0), None))
    } else if i == GRAPH_PRESETS_INDEX && ctx.set_presets_count > 0 {
        Some((MainState::GraphPresetMenu(PRESET_MENU_LOAD_INDEX), None))
    } else if i == DEVICE_PARAMS_INDEX && np > 1 {
        Some((MainState::PatcherInstances(InstSel::enter(InstSelType::Params, np)), None))
    } else if i == DEVICE_PARAMS_INDEX && np == 1 {
        Some((MainState::PatcherParams(ParamPage { index: 0, page: 0, focused: None }), None))
    } else if i == DEVICE_DATA_INDEX && nd > 1 {
        Some((MainState::PatcherInstances(InstSel::enter(InstSelType::Datarefs, nd)), None))
    } else if i == DEVICE_DATA_INDEX && nd == 1 {
        Some(
            (
                MainState::PatcherDatarefs(DataSel::new(0, ctx.dataref_count(0))),
                Some(Cmd::UpdateDataFileList),
            ),
        )
    } else if i == PATCHERS_INDEX && ctx.patchers_count > 0 {
        Some((MainState::PatchersList(0), None))
    } else if i == TEMPO_INDEX {
        Some((MainState::TempoEditor, None))
    } else if i == ABOUT_INDEX {
        Some((MainState::About, None))
    } else {
        None
    }
}

fn preset_menu_select(i: usize, ctx: &CommonContext) -> (r: Step<MainState>)
    ensures
        r == spec_preset_menu_select(i, ctx),
{
    let some = ctx.set_presets_count > 0;
    if i == PRESET_MENU_LOAD_INDEX && some {
        Some((MainState::GraphPresetsList(PresetListState::new(PresetListOp::Load)), None))
    } else if i == PRESET_MENU_DELETE_INDEX && some {
        Some((MainState::GraphPresetsList(PresetListState::new(PresetListOp::Delete)), None))
    } else if i == PRESET_MENU_OVERWRITE_INDEX && some {
        Some((MainState::GraphPresetsList(PresetListState::new(PresetListOp::Overwrite)), None))
    } else if i == PRESET_MENU_SET_INTIAL_INDEX && some {
        Some((MainState::GraphPresetsList(PresetListState::new(PresetListOp::SetInitial)), None))
    } else if i == PRESET_MENU_SAVE_INDEX {
        Some((MainState::GraphPresetMenu(i), Some(Cmd::SaveSetPreset)))
    } else {
        None
    }
}

fn instances_menu(typ: InstSelType) -> (i: usize)
    ensures
        i == instances_menu_index(typ),
{
    match typ {
        InstSelType::Params => DEVICE_PARAMS_INDEX,
        InstSelType::Datarefs => DEVICE_DATA_INDEX,
    }
}

fn preset_menu(op: PresetListOp) -> (i: usize)
    ensures
        i == preset_menu_index(op),
{
    match op {
        PresetListOp::Load => PRESET_MENU_LOAD_INDEX,
        PresetListOp::Delete => PRESET_MENU_DELETE_INDEX,
        PresetListOp::Overwrite => PRESET_MENU_OVERWRITE_INDEX,
        PresetListOp::SetInitial => PRESET_MENU_SET_INTIAL_INDEX,
    }
}

fn data_instances_changed(ctx: &CommonContext) -> (s: MainState)
    ensures
        s == spec_data_instances_changed(ctx),
{
    if ctx.dataref_count(0) == 0 {
        MainState::Menu(DEVICE_DATA_INDEX)
    } else {
        MainState::PatcherInstances(InstSel::enter(InstSelType::Datarefs, ctx.datarefs_instances_count))
    }
}

/// One step of the main menu machine.
pub fn main_step(s: MainState, ctx: &CommonContext, e: Events) -> (r: Step<MainState>)
    ensures
        r == spec_main_step(s, ctx, e),
{
    match e {
        Events::DeviceParamsSelected(i, p) => {
            if i < ctx.params_instances_count && p < ctx.instance_param_pages(i) {
                return Some((MainState::PatcherParams(ParamPage { index: i, page: p, focused: None }), None));
            }
        },
        Events::DeviceDataSelected(i) => {
            let n = ctx.dataref_count(i);
            if i < ctx.datarefs_instances_count && n > 0 {
                return Some(
                    (
                        MainState::PatcherDatarefs(DataSel { instance: i, selected: 0, count: n }),
                        Some(Cmd::UpdateDataFileList),
                    ),
                );
            }
        },
        _ => {},
    }
    main_specific(s, ctx, e)
}

/// Transitions of the main menu machine that name their state.
fn main_specific(s: MainState, ctx: &CommonContext, e: Events) -> (r: Step<MainState>)
    ensures
        r == spec_main_specific(s, ctx, e),
{
    let jog = JOG_WHEEL_ENCODER;
    match s {
        MainState::Init => match e {
            Events::BtnDown(Button::Back) => Some((MainState::Init, None)),
            _ => None,
        },
        MainState::Menu(i) => match e {
            Events::EncRight(n) => if n == jog && i < MENU_ITEMS_LEN - 1 {
                Some((MainState::Menu(i + 1), None))
            } else {
                None
            },
            Events::EncLeft(n) => if n == jog && i > 0 {
                Some((MainState::Menu(i - 1), None))
            } else {
                None
            },
            Events::BtnDown(Button::JogWheel) => menu_select(i, ctx),
            _ => None,
        },
        MainState::SetsList(i) => match e {
            Events::BtnDown(Button::Back) => Some((MainState::Menu(GRAPHS_INDEX), None)),
            Events::EncRight(n) => if n == jog && i < ctx.sets_count && ctx.sets_count - i > 1 {
                Some((MainState::SetsList(i + 1), None))
            } else {
                None
            },
            Events::EncLeft(n) => if n == jog && i > 0 {
                Some((MainState::SetsList(i - 1), None))
            } else {
                None
            },
            Events::BtnDown(Button::JogWheel) => Some((MainState::SetsList(i), Some(Cmd::LoadSet(i)))),
            Events::SetNamesChanged => Some((MainState::Menu(GRAPHS_INDEX), None)),
            Events::SetCurrentChanged => Some((MainState::SetsList(i), None)),
            _ => None,
        },
        MainState::GraphPresetMenu(i) => match e {
            Events::BtnDown(Button::Back) => Some((MainState::Menu(GRAPH_PRESETS_INDEX), None)),
            Events::EncRight(n) => if n == jog && i < PRESET_MENU_ITEMS_LEN - 1 {
                Some((MainState::GraphPresetMenu(i + 1), None))
            } else {
                None
            },
            Events::EncLeft(n) => if n == jog && i > 0 {
                Some((MainState::GraphPresetMenu(i - 1), None))
            } else {
                None
            },
            Events::BtnDown(Button::JogWheel) => preset_menu_select(i, ctx),
            _ => None,
        },
        MainState::GraphPresetsList(l) => match e {
            Events::BtnDown(Button::Back) => Some((MainState::GraphPresetMenu(preset_menu(l.op)), None)),
            Events::EncRight(n) => if n == jog && l.selected < ctx.set_presets_count
                && ctx.set_presets_count - l.selected > 1 {
                Some((MainState::GraphPresetsList(l.next()), None))
            } else {
                None
            },
            Events::EncLeft(n) => if n == jog && l.can_go_prev() {
                Some((MainState::GraphPresetsList(l.prev()), None))
            } else {
                None
            },
            Events::BtnDown(Button::JogWheel) => match l.op {
                PresetListOp::Delete => Some(
                    (
                        MainState::GraphPresetMenu(PRESET_MENU_DELETE_INDEX),
                        Some(Cmd::DeleteSetPreset(l.selected)),
                    ),
                ),
                PresetListOp::Load => Some(
                    (MainState::GraphPresetsList(l), Some(Cmd::LoadSetPreset(l.selected))),
                ),
                PresetListOp::Overwrite => Some(
                    (MainState::GraphPresetsList(l), Some(Cmd::OverwriteSetPreset(l.selected))),
                ),
                PresetListOp::SetInitial => Some(
                    (MainState::GraphPresetsList(l), Some(Cmd::SetInitialSetPreset(l.selected))),
                ),
            },
            Events::SetPresetNamesChanged => Some(
                (MainState::GraphPresetMenu(preset_menu(l.op)), None),
            ),
            Events::SetPresetLoadedChanged => Some((MainState::GraphPresetsList(l), None)),
            _ => None,
        },
        MainState::PatcherInstances(sel) => match e {
            Events::BtnDown(Button::Back) => Some((MainState::Menu(instances_menu(sel.typ)), None)),
            Events::EncRight(n) => if n == jog && sel.can_go_next() {
                Some((MainState::PatcherInstances(sel.next()), None))
            } else {
                None
            },
            Events::EncLeft(n) => if n == jog && sel.can_go_prev() {
                Some((MainState::PatcherInstances(sel.prev()), None))
            } else {
                None
            },
            Events::BtnDown(Button::JogWheel) => match sel.typ {
                InstSelType::Params => Some(
                    (
                        MainState::PatcherParams(
                            ParamPage { index: sel.selected, page: 0, focused: None },
                        ),
                        None,
                    ),
                ),
                InstSelType::Datarefs => Some(
                    (
                        MainState::PatcherDatarefs(
                            DataSel::new(sel.selected, ctx.dataref_count(sel.selected)),
                        ),
                        Some(Cmd::UpdateDataFileList),
                    ),
                ),
            },
            Events::InstancesChanged(_) => if ctx.instances_count(sel.typ) == 0 {
                Some((MainState::Menu(instances_menu(sel.typ)), None))
            } else {
                Some((MainState::PatcherInstances(sel.restart()), None))
            },
            Events::DatarefVisibleChanged => match sel.typ {
                InstSelType::Datarefs => Some((MainState::Menu(DEVICE_DATA_INDEX), None)),
                InstSelType::Params => None,
            },
            Events::SetCurrentChanged => Some((MainState::Menu(DEVICE_PARAMS_INDEX), None)),
            _ => None,
        },
        MainState::PatcherParams(p) => match e {
            Events::BtnDown(Button::Back) => if ctx.params_instances_count > 1 {
                Some(
                    (
                        MainState::PatcherInstances(
                            InstSel::new(InstSelType::Params, p.index, ctx.params_instances_count),
                        ),
                        None,
                    ),
                )
            } else if ctx.params_instances_count == 1 {
                Some((MainState::Menu(DEVICE_PARAMS_INDEX), None))
            } else {
                None
            },
            Events::EncRight(n) => {
                let pages = ctx.instance_param_pages(p.index);
                if n == jog && p.page < pages && pages - p.page > 1 {
                    Some((MainState::PatcherParams(ParamPage { page: p.page + 1, ..p }), None))
                } else if n < 8 {
                    Some(
                        (
                            MainState::PatcherParams(p.with_focus(n)),
                            Some(
                                Cmd::OffsetParam {
                                    instance: p.index,
                                    index: slot(p.page, n),
                                    offset: 1isize,
                                },
                            ),
                        ),
                    )
                } else {
                    None
                }
            },
            Events::EncLeft(n) => if n == jog && p.page > 0 {
                Some((MainState::PatcherParams(ParamPage { page: p.page - 1, ..p }), None))
            } else if n < 8 {
                Some(
                    (
                        MainState::PatcherParams(p.with_focus(n)),
                        Some(
                            Cmd::OffsetParam {
                                instance: p.index,
                                index: slot(p.page, n),
                                offset: -1isize,
                            },
                        ),
                    ),
                )
            } else {
                None
            },
            Events::EncTouch(n) => if n < 8 {
                Some((MainState::PatcherParams(p.with_focus(n)), None))
            } else {
                None
            },
            Events::InstancesChanged(_) => if ctx.params_instances_count == 0 {
                Some((MainState::Menu(DEVICE_PARAMS_INDEX), None))
            } else {
                Some(
                    (
                        MainState::PatcherInstances(
                            InstSel::enter(InstSelType::Params, ctx.params_instances_count),
                        ),
                        None,
                    ),
                )
            },
            Events::SetCurrentChanged => Some((MainState::Menu(DEVICE_PARAMS_INDEX), None)),
            Events::VisibleParamUpdated(n) => if p.focused == Some(n) {
                Some((MainState::PatcherParams(p), None))
            } else {
                None
            },
            _ => None,
        },
        MainState::PatcherDatarefs(d) => match e {
            Events::BtnDown(Button::Back) => if ctx.datarefs_instances_count > 1 {
                Some(
                    (
                        MainState::PatcherInstances(
                            InstSel::new(
                                InstSelType::Datarefs,
                                d.instance,
                                ctx.datarefs_instances_count,
                            ),
                        ),
                        None,
                    ),
                )
            } else if ctx.datarefs_instances_count == 1 {
                Some((MainState::Menu(DEVICE_DATA_INDEX), None))
            } else {
                None
            },
            Events::InstancesChanged(_) => Some((data_instances_changed(ctx), None)),
            Events::EncRight(n) => if n == jog && d.can_go_next() {
                Some((MainState::PatcherDatarefs(d.next()), None))
            } else {
                None
            },
            Events::EncLeft(n) => if n == jog && d.can_go_prev() {
                Some((MainState::PatcherDatarefs(d.prev()), None))
            } else {
                None
            },
            Events::BtnDown(Button::JogWheel) => Some(
                (MainState::PatcherDatarefLoad(DataLoad::new(d, ctx.datafile_count)), None),
            ),
            Events::DatarefVisibleChanged => Some((MainState::Menu(DEVICE_DATA_INDEX), None)),
            Events::SetCurrentChanged => Some((MainState::Menu(DEVICE_DATA_INDEX), None)),
            _ => None,
        },
        MainState::PatcherDatarefLoad(l) => match e {
            Events::InstancesChanged(_) => Some((data_instances_changed(ctx), None)),
            Events::BtnDown(Button::JogWheel) => Some(
                (MainState::PatcherDatarefLoad(l), Some(l.dataload_cmd())),
            ),
            Events::BtnDown(Button::Back) => Some((MainState::PatcherDatarefs(l.dataref()), None)),
            Events::EncRight(n) => if n == jog && l.can_go_next() {
                Some((MainState::PatcherDatarefLoad(l.next()), None))
            } else {
                None
            },
            Events::EncLeft(n) => if n == jog && l.can_go_prev() {
                Some((MainState::PatcherDatarefLoad(l.prev()), None))
            } else {
                None
            },
            Events::DatarefMappingChanged => Some((MainState::PatcherDatarefLoad(l), None)),
            Events::DatarefVisibleChanged => Some((MainState::Menu(DEVICE_DATA_INDEX), None)),
            Events::SetCurrentChanged => Some((MainState::Menu(DEVICE_DATA_INDEX), None)),
            _ => None,
        },
        MainState::PatchersList(i) => match e {
            Events::BtnDown(Button::Back) => Some((MainState::Menu(PATCHERS_INDEX), None)),
            Events::EncRight(n) => if n == jog && i < ctx.patchers_count && ctx.patchers_count
                - i > 1 {
                Some((MainState::PatchersList(i + 1), None))
            } else {
                None
            },
            Events::EncLeft(n) => if n == jog && i > 0 {
                Some((MainState::PatchersList(i - 1), None))
            } else {
                None
            },
            Events::BtnDown(Button::JogWheel) => Some(
                (MainState::PatchersList(i), Some(Cmd::LoadPatcher(i))),
            ),
            Events::PatcherNamesChanged => Some((MainState::Menu(PATCHERS_INDEX), None)),
            _ => None,
        },
        MainState::TempoEditor => match e {
            Events::BtnDown(Button::Back) => Some((MainState::Menu(TEMPO_INDEX), None)),
            Events::EncRight(n) => if n == jog {
                Some((MainState::TempoEditor, Some(Cmd::OffsetTempo(1isize))))
            } else {
                None
            },
            Events::EncLeft(n) => if n == jog {
                Some((MainState::TempoEditor, Some(Cmd::OffsetTempo(-1isize))))
            } else {
                None
            },
            Events::BtnDown(Button::JogWheel) => Some(
                (MainState::TempoEditor, Some(Cmd::MulTempoOffset(true))),
            ),
            Events::BtnUp(Button::JogWheel) => Some(
                (MainState::TempoEditor, Some(Cmd::MulTempoOffset(false))),
            ),
            Events::Tempo => Some((MainState::TempoEditor, None)),
            _ => None,
        },
        MainState::About => match e {
            Events::BtnDown(Button::Back) => Some((MainState::Menu(ABOUT_INDEX), None)),
            _ => None,
        },
    }
}

} // verus!

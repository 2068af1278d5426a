//! Properties of the menus and of the MIDI decoding that hold for every
//! state, context and input.
use vstd::prelude::*;
use crate::context::CommonContext;
use crate::events::{
    Button, Cmd, Events, JOG_WHEEL_ENCODER, JOG_WHEEL_TOUCH, VOLUME_WHEEL_TOUCH,
};
use crate::input::{spec_decode, spec_intercepts, spec_sysex_event};
use crate::machines::{
    last_view_state, spec_main_step, spec_top_step, spec_view_step, LastView, MainState, TopState,
    ViewState, EXIT_MENU_LEN, MENU_ITEMS_LEN, POWER_DOWN_INDEX, PRESET_MENU_ITEMS_LEN,
};
use crate::midi::{flatten, messages, power_messages, spec_power_sysex, PowerCommand};
use crate::nav::InstSelType;
use crate::commands::{cmd_outcome, str_msg, unload_all};
use crate::controller::{position_of, Controller};
use crate::dispatch::{spec_dispatch, spec_dispatch_cmds, Menus};
use crate::names::{is_initial, order_lt, sorted_by, in_order_at, Order};
use crate::osc::{OutView, SET_LOAD_ADDR};
use crate::screen::{led_updates, spec_button_plan};
use crate::views::{clamp_selection, resolve_all, shown};
use crate::instances::{group_params, regrouped, flush, ParamRef, Instance, InstanceBook};
use crate::view::ParamView;
use crate::nav::{DataSel, ParamPage};
use crate::text::{decimal, digit_char};
use crate::view::{all_digits, colon_pos, digits_value, spec_parse_pair, spec_parse_usize, unsigned_part};
use crate::machines::{leaving, param_slot, LAUNCH_MOVE_INDEX};
use crate::events::VOLUME_WHEEL_ENCODER;
use crate::nav::{PresetListOp, PresetListState};
use crate::userview::{
    buffers_unique, insert_z, lemma_sort_z, lemma_sort_z_sorted, lemma_z_pos_bounds, sort_z, spec_draw_plan, z_pos,
    z_sorted, DrawStep, LayerView,
};
use crate::incoming::{osc_effect, spec_route, FollowView, RouteView};
use crate::osc::ArgView;
use crate::userview::{view_pos, buffer_pos, first_param_view, layer_from, layer_updated, opt_view, view_updated, UserView, ViewDataView};

verus! {

/// The counts agree with the lists they summarize, and every parameter view
/// has at least one page.
pub open spec fn ctx_wf(ctx: &CommonContext) -> bool {
    &&& ctx.datarefs_instances_count == ctx.dataref_count@.len()
    &&& ctx.params_instances_count == ctx.instance_param_pages@.len()
    &&& forall|i: int| 0 <= i < ctx.param_view_pages@.len() ==> ctx.param_view_pages@[i] > 0
}

/// Every selection of the main menu machine points into its list.
pub open spec fn main_in_range(s: MainState, ctx: &CommonContext) -> bool {
    match s {
        MainState::Init => true,
        MainState::Menu(i) => i < MENU_ITEMS_LEN,
        MainState::SetsList(i) => i < ctx.sets_count,
        MainState::GraphPresetMenu(i) => i < PRESET_MENU_ITEMS_LEN,
        MainState::GraphPresetsList(l) => l.selected < ctx.set_presets_count,
        MainState::PatcherInstances(sel) => sel.count == ctx.spec_instances_count(sel.typ)
            && sel.selected < sel.count,
        MainState::PatcherParams(p) => p.index < ctx.params_instances_count,
        MainState::PatcherDatarefs(d) => d.instance < ctx.datarefs_instances_count && d.count
            == ctx.spec_dataref_count(d.instance) && (d.selected < d.count || d.selected == 0),
        MainState::PatcherDatarefLoad(l) => l.dataref.instance < ctx.datarefs_instances_count
            && l.dataref.count == ctx.spec_dataref_count(l.dataref.instance) && (
        l.dataref.selected < l.dataref.count || l.dataref.selected == 0) && l.filecount
            == ctx.datafile_count && (l.selected < l.filecount || l.selected == 0),
        MainState::PatchersList(i) => i < ctx.patchers_count,
        MainState::TempoEditor => true,
        MainState::About => true,
    }
}

/// Every selection of the view machine points into its list.
pub open spec fn view_in_range(s: ViewState, ctx: &CommonContext) -> bool {
    match s {
        ViewState::ParamViewMenu(i) => i < ctx.spec_param_view_count() || i == 0,
        ViewState::ViewParams(p) => p.index < ctx.spec_param_view_count() && p.page
            < ctx.spec_view_param_pages(p.index),
    }
}

/// Every selection of the top machine points into its list.
pub open spec fn top_in_range(s: TopState) -> bool {
    match s {
        TopState::PromptExit(i) => i < EXIT_MENU_LEN,
        _ => true,
    }
}

/// The main menu never selects past the end of a list: every transition keeps
/// each selection inside the list it points into.
pub proof fn law_main_stays_in_range(s: MainState, ctx: &CommonContext, e: Events)
    requires
        ctx_wf(ctx),
        main_in_range(s, ctx),
    ensures
        spec_main_step(s, ctx, e) matches Some((t, _)) ==> main_in_range(t, ctx),
{
}

/// The parameter view menus never select past the end of a list.
pub proof fn law_view_stays_in_range(s: ViewState, ctx: &CommonContext, e: Events)
    requires
        ctx_wf(ctx),
        view_in_range(s, ctx),
    ensures
        spec_view_step(s, ctx, e) matches Some((t, _)) ==> view_in_range(t, ctx),
{
    let count = ctx.spec_param_view_count();
    match s {
        ViewState::ViewParams(p) => match e {
            Events::SetViewPageSelected(n) => {
                let pages = ctx.spec_view_param_pages(p.index);
                assert(pages == ctx.param_view_pages@[p.index as int]);
                assert(pages > 0);
            },
            Events::SetViewListChanged => {
                if count == 1 {
                    assert(ctx.param_view_pages@[0] > 0);
                }
            },
            _ => {},
        },
        ViewState::ParamViewMenu(i) => match e {
            Events::BtnDown(Button::JogWheel) => {
                if i < count {
                    assert(ctx.param_view_pages@[i as int] > 0);
                }
            },
            Events::SetViewListChanged => {
                if count == 1 {
                    assert(ctx.param_view_pages@[0] > 0);
                }
            },
            _ => {},
        },
    }
}

/// The exit prompt never selects past its two entries.
pub proof fn law_top_stays_in_range(s: TopState, ctx: &CommonContext, e: Events)
    requires
        top_in_range(s),
    ensures
        spec_top_step(s, ctx, e) matches Some((t, _)) ==> top_in_range(t),
{
}

/// Going back from the screen that a main menu entry opens returns to that
/// entry.
pub proof fn law_back_returns_to_menu_entry(i: usize, ctx: &CommonContext)
    ensures
        spec_main_step(MainState::Menu(i), ctx, Events::BtnDown(Button::JogWheel)) matches Some(
            (t, _),
        ) ==> spec_main_step(t, ctx, Events::BtnDown(Button::Back)) == Some(
            (MainState::Menu(i), None::<Cmd>),
        ),
{
}

/// Going back from a preset list returns to the preset menu entry that opened it.
pub proof fn law_back_returns_to_preset_entry(i: usize, ctx: &CommonContext)
    ensures
        spec_main_step(MainState::GraphPresetMenu(i), ctx, Events::BtnDown(Button::JogWheel)) matches Some(
            (MainState::GraphPresetsList(l), _),
        ) ==> spec_main_step(MainState::GraphPresetsList(l), ctx, Events::BtnDown(Button::Back))
            == Some((MainState::GraphPresetMenu(i), None::<Cmd>)),
{
}

/// Going back from an instance's parameters returns to that instance in the
/// instance list.
pub proof fn law_back_returns_to_instance(s: MainState, ctx: &CommonContext)
    requires
        s matches MainState::PatcherInstances(sel) && sel.count == ctx.spec_instances_count(sel.typ)
            && sel.count > 1,
    ensures
        spec_main_step(s, ctx, Events::BtnDown(Button::JogWheel)) matches Some((t, _)) ==> (
        t matches MainState::PatcherParams(_) ==> spec_main_step(
            t,
            ctx,
            Events::BtnDown(Button::Back),
        ) == Some((s, None::<Cmd>))),
{
}

/// Pressing the jog wheel on a list acts on the entry selected there: a
/// graph list loads that graph, a patcher list loads that patcher, and a
/// data file list loads that file into the dataref it was opened for; the
/// list stays up. In the tempo editor, holding the jog wheel down makes the
/// tempo steps coarse until it is released.
pub proof fn law_main_press_acts_on_selection(i: usize, l: crate::nav::DataLoad, ctx: &CommonContext)
    ensures
        spec_main_step(MainState::SetsList(i), ctx, Events::BtnDown(Button::JogWheel)) == Some(
            (MainState::SetsList(i), Some(Cmd::LoadSet(i))),
        ),
        spec_main_step(MainState::PatchersList(i), ctx, Events::BtnDown(Button::JogWheel)) == Some(
            (MainState::PatchersList(i), Some(Cmd::LoadPatcher(i))),
        ),
        spec_main_step(MainState::PatcherDatarefLoad(l), ctx, Events::BtnDown(Button::JogWheel)) == Some(
            (MainState::PatcherDatarefLoad(l), Some(Cmd::LoadDataref(l.dataref.instance, l.dataref.selected, l.selected))),
        ),
        spec_main_step(MainState::TempoEditor, ctx, Events::BtnDown(Button::JogWheel)) == Some(
            (MainState::TempoEditor, Some(Cmd::MulTempoOffset(true))),
        ),
        spec_main_step(MainState::TempoEditor, ctx, Events::BtnUp(Button::JogWheel)) == Some(
            (MainState::TempoEditor, Some(Cmd::MulTempoOffset(false))),
        ),
{
}

/// Carrying out a volume step lowers the volume by one for a step of -1 and
/// raises it by one for a step of +1, stopping at 0 and at 255; a tempo
/// offset and a parameter offset are sent on with the sign they came with.
pub proof fn law_offsets_keep_their_sign(
    pre: &Controller,
    post: &Controller,
    out: Seq<OutView>,
    go_on: bool,
    cmd: Cmd,
)
    requires
        cmd_outcome(pre, cmd, post, out, go_on),
    ensures
        cmd == Cmd::OffsetVolume(-1isize) ==> post.status.config.volume == if pre.status.config.volume > 0 {
            pre.status.config.volume - 1
        } else {
            0
        },
        cmd == Cmd::OffsetVolume(1isize) ==> post.status.config.volume == if pre.status.config.volume < 255 {
            pre.status.config.volume + 1
        } else {
            255
        },
        cmd matches Cmd::OffsetTempo(k) ==> out == seq![OutView::OffsetTempo(k)],
        cmd matches Cmd::OffsetParam { offset, .. } ==> forall|j: int| 0 <= j < out.len() ==> ((#[trigger] out[j])
            matches OutView::OffsetParam(_, o) && o == offset),
        cmd matches Cmd::OffsetViewParam { offset, .. } ==> forall|j: int| 0 <= j < out.len() ==> ((#[trigger] out[j])
            matches OutView::OffsetParam(_, o) && o == offset),
{
}

/// The selected entry of a main menu screen that is a list, or the page of
/// an instance's parameters.
pub open spec fn list_pos(s: MainState) -> Option<usize> {
    match s {
        MainState::Menu(i) => Some(i),
        MainState::SetsList(i) => Some(i),
        MainState::GraphPresetMenu(i) => Some(i),
        MainState::GraphPresetsList(l) => Some(l.selected),
        MainState::PatcherInstances(sel) => Some(sel.selected),
        MainState::PatcherParams(p) => Some(p.page),
        MainState::PatcherDatarefs(d) => Some(d.selected),
        MainState::PatcherDatarefLoad(l) => Some(l.selected),
        MainState::PatchersList(i) => Some(i),
        _ => None,
    }
}

/// The same kind of main menu screen.
pub open spec fn same_screen(s: MainState, t: MainState) -> bool {
    match (s, t) {
        (MainState::Menu(_), MainState::Menu(_)) => true,
        (MainState::SetsList(_), MainState::SetsList(_)) => true,
        (MainState::GraphPresetMenu(_), MainState::GraphPresetMenu(_)) => true,
        (MainState::GraphPresetsList(a), MainState::GraphPresetsList(b)) => a.op == b.op,
        (MainState::PatcherInstances(a), MainState::PatcherInstances(b)) => a.typ == b.typ && a.count == b.count,
        (MainState::PatcherParams(a), MainState::PatcherParams(b)) => a.index == b.index && a.focused == b.focused,
        (MainState::PatcherDatarefs(a), MainState::PatcherDatarefs(b)) => a.instance == b.instance && a.count == b.count,
        (MainState::PatcherDatarefLoad(a), MainState::PatcherDatarefLoad(b)) => a.dataref == b.dataref
            && a.filecount == b.filecount,
        (MainState::PatchersList(_), MainState::PatchersList(_)) => true,
        _ => false,
    }
}

/// On every main menu list (and an instance's parameter pages), turning the
/// jog wheel left moves to the entry before, and does so exactly when there
/// is one; turning it right moves to the entry after. Neither queues
/// anything, and the screen stays the same kind.
pub proof fn law_main_jog_direction(s: MainState, ctx: &CommonContext)
    ensures
        list_pos(s) matches Some(i) ==> {
            &&& (spec_main_step(s, ctx, Events::EncLeft(JOG_WHEEL_ENCODER)) is Some <==> i > 0)
            &&& spec_main_step(s, ctx, Events::EncLeft(JOG_WHEEL_ENCODER)) matches Some((t, c)) ==> c is None
                && same_screen(s, t) && list_pos(t) == Some((i - 1) as usize)
            &&& spec_main_step(s, ctx, Events::EncRight(JOG_WHEEL_ENCODER)) matches Some((t, c)) ==> c is None
                && same_screen(s, t) && list_pos(t) == Some((i + 1) as usize)
        },
{
}

/// The selected entry of a parameter view screen: the view in the list, or
/// the page of a view's parameters.
pub open spec fn view_screen_pos(s: ViewState) -> usize {
    match s {
        ViewState::ParamViewMenu(i) => i,
        ViewState::ViewParams(p) => p.page,
    }
}

/// In the parameter views, turning the jog wheel left moves to the view (or
/// page) before, exactly when there is one, and turning it right to the one
/// after; the screen stays the same kind.
pub proof fn law_view_jog_direction(s: ViewState, ctx: &CommonContext)
    ensures
        (spec_view_step(s, ctx, Events::EncLeft(JOG_WHEEL_ENCODER)) is Some <==> view_screen_pos(s) > 0),
        spec_view_step(s, ctx, Events::EncLeft(JOG_WHEEL_ENCODER)) matches Some((t, _)) ==> view_screen_pos(t) == view_screen_pos(s) - 1
            && (s is ParamViewMenu <==> t is ParamViewMenu),
        spec_view_step(s, ctx, Events::EncRight(JOG_WHEEL_ENCODER)) matches Some((t, _)) ==> view_screen_pos(t) == view_screen_pos(s) + 1
            && (s is ParamViewMenu <==> t is ParamViewMenu),
{
}

/// In the exit prompt, turning the jog wheel left moves to the entry before,
/// exactly when there is one, and right to the one after.
pub proof fn law_exit_prompt_jog_direction(i: usize, ctx: &CommonContext)
    ensures
        (spec_top_step(TopState::PromptExit(i), ctx, Events::EncLeft(JOG_WHEEL_ENCODER)) is Some <==> i > 0),
        spec_top_step(TopState::PromptExit(i), ctx, Events::EncLeft(JOG_WHEEL_ENCODER)) matches Some((t, c)) ==> t
            == TopState::PromptExit((i - 1) as usize) && c is None,
        spec_top_step(TopState::PromptExit(i), ctx, Events::EncRight(JOG_WHEEL_ENCODER)) matches Some((t, c)) ==> t
            == TopState::PromptExit((i + 1) as usize) && c is None,
{
}

/// Turning the jog wheel right and then left comes back to the same main menu
/// screen and selection.
pub proof fn law_main_right_then_left(s: MainState, ctx: &CommonContext)
    ensures
        spec_main_step(s, ctx, Events::EncRight(JOG_WHEEL_ENCODER)) matches Some((t, _)) ==> (
        spec_main_step(t, ctx, Events::EncLeft(JOG_WHEEL_ENCODER)) matches Some((u, _)) && u
            == s),
{
}

/// Turning the jog wheel right and then left comes back to the same view screen.
pub proof fn law_view_right_then_left(s: ViewState, ctx: &CommonContext)
    ensures
        spec_view_step(s, ctx, Events::EncRight(JOG_WHEEL_ENCODER)) matches Some((t, _)) ==> (
        spec_view_step(t, ctx, Events::EncLeft(JOG_WHEEL_ENCODER)) matches Some((u, _)) && u
            == s),
{
}

/// A long press of the power button powers off from every screen.
pub proof fn law_power_long_powers_off(s: TopState, ctx: &CommonContext)
    ensures
        spec_top_step(s, ctx, Events::BtnDown(Button::PowerLong)) == Some(
            (TopState::PowerOff, Some(Cmd::Power(PowerCommand::ClearLongPress))),
        ),
{
}

/// A short press of the power button opens the exit prompt from every screen.
pub proof fn law_power_short_prompts_exit(s: TopState, ctx: &CommonContext)
    ensures
        spec_top_step(s, ctx, Events::BtnDown(Button::PowerShort)) == Some(
            (TopState::PromptExit(POWER_DOWN_INDEX), Some(Cmd::Power(PowerCommand::ClearShortPress))),
        ),
{
}

/// The play button toggles the transport and leaves every screen as it is.
pub proof fn law_play_toggles_transport(s: TopState, ctx: &CommonContext)
    ensures
        spec_top_step(s, ctx, Events::BtnDown(Button::Play)) == Some(
            (s, Some(Cmd::ToggleTransport)),
        ),
{
}

/// The offset a step queues, if it queues an offset of the volume.
pub open spec fn volume_offset_of<S>(r: Option<(S, Option<Cmd>)>) -> Option<isize> {
    match r {
        Some((_, Some(Cmd::OffsetVolume(k)))) => Some(k),
        _ => None,
    }
}

/// The volume wheel turns the volume down when turned left and up when
/// turned right, by one step, on every screen: whatever a left turn queues
/// for the volume is -1 and whatever a right turn queues is +1. On the
/// volume editor, and on the screens that open it, a turn does queue that
/// step, and the volume editor stays up.
pub proof fn law_volume_wheel_direction(s: TopState, ctx: &CommonContext, lv: LastView)
    ensures
        volume_offset_of(spec_top_step(s, ctx, Events::EncLeft(VOLUME_WHEEL_ENCODER))) matches Some(k) ==> k == -1,
        volume_offset_of(spec_top_step(s, ctx, Events::EncRight(VOLUME_WHEEL_ENCODER))) matches Some(k) ==> k == 1,
        spec_top_step(TopState::VolumeEditor(lv), ctx, Events::EncLeft(VOLUME_WHEEL_ENCODER)) == Some(
            (TopState::VolumeEditor(lv), Some(Cmd::OffsetVolume(-1isize))),
        ),
        spec_top_step(TopState::VolumeEditor(lv), ctx, Events::EncRight(VOLUME_WHEEL_ENCODER)) == Some(
            (TopState::VolumeEditor(lv), Some(Cmd::OffsetVolume(1isize))),
        ),
        (s == TopState::Init || s == TopState::Main || s == TopState::ParamViews) ==> {
            &&& volume_offset_of(spec_top_step(s, ctx, Events::EncLeft(VOLUME_WHEEL_ENCODER))) == Some(-1isize)
            &&& volume_offset_of(spec_top_step(s, ctx, Events::EncRight(VOLUME_WHEEL_ENCODER))) == Some(1isize)
        },
{
}

/// The offset a step queues, if it queues an offset of the tempo.
pub open spec fn tempo_offset_of(r: Option<(MainState, Option<Cmd>)>) -> Option<isize> {
    match r {
        Some((_, Some(Cmd::OffsetTempo(k)))) => Some(k),
        _ => None,
    }
}

/// The jog wheel in the tempo editor turns the tempo down when turned left
/// and up when turned right, by one step, and the editor stays up; no turn
/// of any encoder on any screen offsets the tempo the other way.
pub proof fn law_tempo_wheel_direction(s: MainState, ctx: &CommonContext, n: usize)
    ensures
        spec_main_step(MainState::TempoEditor, ctx, Events::EncLeft(JOG_WHEEL_ENCODER)) == Some(
            (MainState::TempoEditor, Some(Cmd::OffsetTempo(-1isize))),
        ),
        spec_main_step(MainState::TempoEditor, ctx, Events::EncRight(JOG_WHEEL_ENCODER)) == Some(
            (MainState::TempoEditor, Some(Cmd::OffsetTempo(1isize))),
        ),
        tempo_offset_of(spec_main_step(s, ctx, Events::EncLeft(n))) matches Some(k) ==> k == -1,
        tempo_offset_of(spec_main_step(s, ctx, Events::EncRight(n))) matches Some(k) ==> k == 1,
{
}

/// In a parameter view, turning one of the eight parameter encoders left
/// lowers the parameter under it (on the page shown) by one step and turning
/// it right raises it, focusing that encoder; the two directions offset the
/// same parameter by opposite amounts.
pub proof fn law_view_param_encoder_direction(p: ParamPage, ctx: &CommonContext, n: usize)
    requires
        n < 8,
    ensures
        spec_view_step(ViewState::ViewParams(p), ctx, Events::EncLeft(n)) == Some(
            (
                ViewState::ViewParams(ParamPage { focused: Some(n), ..p }),
                Some(Cmd::OffsetViewParam { view: p.index, index: param_slot(p.page, n), offset: -1isize }),
            ),
        ),
        spec_view_step(ViewState::ViewParams(p), ctx, Events::EncRight(n)) == Some(
            (
                ViewState::ViewParams(ParamPage { focused: Some(n), ..p }),
                Some(Cmd::OffsetViewParam { view: p.index, index: param_slot(p.page, n), offset: 1isize }),
            ),
        ),
{
}

/// On an instance's parameters, turning one of the eight parameter encoders
/// left lowers the parameter under it (on the page shown) by one step and
/// turning it right raises it, focusing that encoder; the two directions
/// offset the same parameter by opposite amounts.
pub proof fn law_device_param_encoder_direction(p: ParamPage, ctx: &CommonContext, n: usize)
    requires
        n < 8,
    ensures
        spec_main_step(MainState::PatcherParams(p), ctx, Events::EncLeft(n)) == Some(
            (
                MainState::PatcherParams(ParamPage { focused: Some(n), ..p }),
                Some(Cmd::OffsetParam { instance: p.index, index: param_slot(p.page, n), offset: -1isize }),
            ),
        ),
        spec_main_step(MainState::PatcherParams(p), ctx, Events::EncRight(n)) == Some(
            (
                MainState::PatcherParams(ParamPage { focused: Some(n), ..p }),
                Some(Cmd::OffsetParam { instance: p.index, index: param_slot(p.page, n), offset: 1isize }),
            ),
        ),
{
}

/// Pressing the jog wheel in a preset list carries out the list's operation
/// on the selected preset: a load list loads it, an overwrite list saves
/// over it, a set-initial list makes it the initial one, a delete list
/// deletes it (and returns to the preset menu); the other lists stay up.
pub proof fn law_preset_list_press(l: PresetListState, ctx: &CommonContext)
    ensures
        spec_main_step(MainState::GraphPresetsList(l), ctx, Events::BtnDown(Button::JogWheel)) == match l.op {
            PresetListOp::Load => Some((MainState::GraphPresetsList(l), Some(Cmd::LoadSetPreset(l.selected)))),
            PresetListOp::Overwrite => Some(
                (MainState::GraphPresetsList(l), Some(Cmd::OverwriteSetPreset(l.selected))),
            ),
            PresetListOp::SetInitial => Some(
                (MainState::GraphPresetsList(l), Some(Cmd::SetInitialSetPreset(l.selected))),
            ),
            PresetListOp::Delete => Some(
                (MainState::GraphPresetMenu(crate::machines::PRESET_MENU_DELETE_INDEX), Some(Cmd::DeleteSetPreset(l.selected))),
            ),
        },
{
}

/// The menu button switches between the main menu and the parameter views,
/// and pressing it twice comes back.
pub proof fn law_menu_button_toggles(ctx: &CommonContext)
    ensures
        spec_top_step(TopState::Main, ctx, Events::BtnDown(Button::Menu)) == Some(
            (TopState::ParamViews, None::<Cmd>),
        ),
        spec_top_step(TopState::ParamViews, ctx, Events::BtnDown(Button::Menu)) == Some(
            (TopState::Main, None::<Cmd>),
        ),
{
}

/// Touching the volume wheel opens the volume editor, and the back button
/// returns to the screen it was opened from.
pub proof fn law_volume_editor_returns(lv: LastView, ctx: &CommonContext)
    ensures
        spec_top_step(last_view_state(lv), ctx, Events::EncTouch(VOLUME_WHEEL_TOUCH)) == Some(
            (TopState::VolumeEditor(lv), None::<Cmd>),
        ),
        spec_top_step(TopState::VolumeEditor(lv), ctx, Events::BtnDown(Button::Back)) == Some(
            (last_view_state(lv), None::<Cmd>),
        ),
{
}

/// A popup returns to the screen it was opened over when it times out.
pub proof fn law_popup_returns(lv: LastView, ctx: &CommonContext)
    ensures
        spec_top_step(last_view_state(lv), ctx, Events::PopupRequested) == Some(
            (TopState::Popup(lv), None::<Cmd>),
        ),
        spec_top_step(TopState::Popup(lv), ctx, Events::PopupTimeout) == Some(
            (last_view_state(lv), None::<Cmd>),
        ),
        spec_top_step(TopState::Popup(lv), ctx, Events::EncTouch(JOG_WHEEL_TOUCH)) == Some(
            (last_view_state(lv), None::<Cmd>),
        ),
{
}

/// Every message that the decoder turns into an event is one the controller
/// intercepts, so no control reaches the patches as well.
pub proof fn law_decoded_messages_are_intercepted(s: Seq<u8>, b: Seq<u8>)
    ensures
        spec_decode(s, b).1 is Some ==> spec_intercepts(b) == Some(true),
{
    if b.len() == 3 && spec_decode(s, b).1 is Some {
        assert(0x8Fu8 & 0x80 != 0) by (bit_vector);
        if b[0] == 0xBF {
            assert(spec_intercepts(b) == Some(true));
        }
    }
}

/// The encoder a control change number belongs to: the jog wheel, the
/// volume wheel, or one of the eight parameter encoders (71 to 78).
pub open spec fn encoder_of_cc(num: u8) -> Option<usize> {
    if num == 0x0e {
        Some(JOG_WHEEL_ENCODER)
    } else if num == 0x4f {
        Some(VOLUME_WHEEL_ENCODER)
    } else if 71 <= num <= 78 {
        Some((num - 71) as usize)
    } else {
        None
    }
}

/// An encoder reports a turn to the left as the value 127 and a turn to
/// the right as the value 1, on the control channel: those decode into a
/// left and a right turn of that encoder, whatever came before.
pub proof fn law_encoder_turn_decodes(s: Seq<u8>, num: u8)
    ensures
        encoder_of_cc(num) matches Some(n) ==> {
            &&& spec_decode(s, seq![0xBFu8, num, 127u8]).1 == Some(Events::EncLeft(n))
            &&& spec_decode(s, seq![0xBFu8, num, 1u8]).1 == Some(Events::EncRight(n))
        },
{
}

/// The power controller's status report, as the device sends it in three
/// packets, is decoded into the power button event it reports (the status is
/// a seven-bit data byte).
pub proof fn law_power_report_decodes(status: u8)
    requires
        status < 0x80,
    ensures
        ({
            let (s1, e1) = spec_decode(Seq::empty(), seq![0xF0u8, 0x00, 0x21]);
            let (s2, e2) = spec_decode(s1, seq![0x1Du8, 0x01, 0x01]);
            let (s3, e3) = spec_decode(s2, seq![0x3Au8, status, 0xF7]);
            &&& e1 is None
            &&& e2 is None
            &&& s3 == Seq::<u8>::empty()
            &&& e3 == if status & 0x10 != 0 {
                Some(Events::BtnDown(Button::PowerLong))
            } else if status & 0x08 != 0 {
                Some(Events::BtnDown(Button::PowerShort))
            } else {
                None
            }
        }),
{
    let s1 = seq![0x00u8, 0x21];
    let b2 = seq![0x1Du8, 0x01, 0x01];
    assert(spec_decode(Seq::empty(), seq![0xF0u8, 0x00, 0x21]).0 =~= s1);
    assert(0x1Du8 & 0x80 == 0) by (bit_vector);
    assert(0x3Au8 & 0x80 == 0) by (bit_vector);
    assert(spec_decode(s1, b2).0 =~= s1 + b2);
    let s2 = s1 + b2;
    let full = s2.push(0x3Au8).push(status);
    assert(full =~= seq![0x00u8, 0x21, 0x1D, 0x01, 0x01, 0x3A, status]);
    assert(spec_sysex_event(full) == if status & 0x10 != 0 {
        Some(Events::BtnDown(Button::PowerLong))
    } else if status & 0x08 != 0 {
        Some(Events::BtnDown(Button::PowerShort))
    } else {
        None
    });
}

/// Choosing "Launch Move" in the exit prompt hands the device back: the
/// controller records that it is to leave.
pub proof fn law_launch_move_exits(c: &Controller, d: &Controller)
    requires
        c.menus.top == TopState::PromptExit(LAUNCH_MOVE_INDEX),
        c.stepped(d, Events::BtnDown(Button::JogWheel)),
    ensures
        d.exit,
        d.menus.top == TopState::LaunchMove,
{
}

/// A long press of the power button, on any screen, sends the device the
/// power-off sysex and queues the clearing of the long press.
pub proof fn law_long_press_sends_power_off(c: &Controller, d: &Controller)
    requires
        c.stepped(d, Events::BtnDown(Button::PowerLong)),
    ensures
        messages(d.midi_out@) == messages(c.midi_out@) + power_messages(PowerCommand::PowerOff),
        flatten(power_messages(PowerCommand::PowerOff)) == spec_power_sysex(PowerCommand::PowerOff),
        d.ctx.queue@ == c.ctx.queue@.push(Cmd::Power(PowerCommand::ClearLongPress)),
        d.menus.top == TopState::PowerOff,
{
    crate::midi::lemma_power_messages(PowerCommand::PowerOff);
    assert(spec_dispatch_cmds(c.menus, &c.ctx.common, Events::BtnDown(Button::PowerLong)) =~= seq![
        Cmd::Power(PowerCommand::ClearLongPress),
    ]);
}

/// Pressing the jog wheel on a graph in the graph list loads that graph: the
/// menus queue its load, and carrying the command out sends the runner the
/// graph's name, or unloads all for the first entry ("<empty>").
pub proof fn law_graph_choice_loads_it(c: &Controller, i: usize, post: &Controller, out: Seq<OutView>, go_on: bool)
    requires
        c.menus.top == TopState::Main,
        c.menus.main == MainState::SetsList(i),
        i < c.lists.set_names@.len(),
        cmd_outcome(c, Cmd::LoadSet(i), post, out, go_on),
    ensures
        spec_dispatch_cmds(c.menus, &c.ctx.common, Events::BtnDown(Button::JogWheel)) == seq![Cmd::LoadSet(i)],
        out == if i == 0 {
            seq![unload_all()]
        } else {
            seq![str_msg(SET_LOAD_ADDR@, c.lists.set_names@[i as int]@)]
        },
{
    assert(spec_dispatch_cmds(c.menus, &c.ctx.common, Events::BtnDown(Button::JogWheel)) =~= seq![
        Cmd::LoadSet(i),
    ]);
}

/// The preset "initial", when present, comes first in any list sorted in
/// preset order.
pub proof fn law_initial_preset_first(s: Seq<String>, i: int)
    requires
        sorted_by(Order::Presets, s),
        0 <= i < s.len(),
        is_initial(s[i]@),
    ensures
        is_initial(s[0]@),
    decreases i,
{
    if i > 0 {
        assert(in_order_at(Order::Presets, s, i - 1));
        if !is_initial(s[i - 1]@) {
            assert(order_lt(Order::Presets, s[i]@, s[i - 1]@));
        }
        law_initial_preset_first(s, i - 1);
    }
}

/// A marked entry is the first one with that name.
pub proof fn law_position_is_first_match(s: Seq<String>, x: Seq<char>)
    requires
        s.len() <= usize::MAX,
    ensures
        match position_of(s, x) {
            Some(i) => i < s.len() && s[i as int]@ == x && forall|j: int| 0 <= j < i ==> s[j]@ != x,
            None => forall|j: int| 0 <= j < s.len() ==> s[j]@ != x,
        },
    decreases s.len(),
{
    if s.len() > 0 {
        law_position_is_first_match(s.drop_last(), x);
        assert forall|j: int| 0 <= j < s.drop_last().len() implies s.drop_last()[j] == s[j] by {}
    }
}

/// A view selection from the runner lands on a view and page that exist.
pub proof fn law_view_selection_in_range(c: &CommonContext, index: usize, page: usize)
    ensures
        match clamp_selection(c, index, page) {
            Some((i, p)) => i < c.spec_param_view_count() && p < c.spec_view_param_pages(i) && (index
                < c.spec_param_view_count() ==> i == index) && (page < c.spec_view_param_pages(i) ==> p
                == page),
            None => c.spec_param_view_count() == 0 || c.spec_view_param_pages(
                if index < c.spec_param_view_count() - 1 {
                    index
                } else {
                    (c.spec_param_view_count() - 1) as usize
                },
            ) == 0,
        },
{
}

/// A view's layers in z order that take new view data for one layer,
/// leaving its z as it was, keep their order: the layer is updated where it
/// stands and the stable sort by z moves nothing, so equal-z layers are not
/// reordered.
pub proof fn law_layer_update_keeps_order(ls: Seq<LayerView>, p: int, nl: LayerView)
    requires
        0 <= p < ls.len(),
        z_sorted(ls),
        nl.z == ls[p].z,
    ensures
        sort_z(ls.update(p, nl)) == ls.update(p, nl),
{
    let u = ls.update(p, nl);
    assert forall|i: int, j: int| 0 <= i < j < u.len() implies (#[trigger] u[i]).z <= (#[trigger] u[j]).z by {
        assert(u[i].z == ls[i].z && u[j].z == ls[j].z);
    }
    lemma_sort_z_sorted(u);
}

/// Where layer `j` of `s` ends up when `s` is sorted by z.
proof fn lemma_sort_z_place(s: Seq<LayerView>, j: int) -> (m: int)
    requires
        buffers_unique(s),
        0 <= j < s.len(),
    ensures
        0 <= m < s.len(),
        sort_z(s)[m] == s[j],
    decreases s.len(),
{
    let n = s.len();
    let d = s.drop_last();
    let x = s.last();
    assert forall|i: int, i2: int| 0 <= i < i2 < d.len() implies (#[trigger] d[i]).buffer != (#[trigger] d[i2]).buffer by {
        assert(d[i] == s[i] && d[i2] == s[i2]);
    }
    lemma_sort_z(d);
    let r = sort_z(d);
    let k = z_pos(r, x.z);
    lemma_z_pos_bounds(r, x.z);
    let f = r.insert(k, x);
    assert(sort_z(s) == f);
    if j == n - 1 {
        assert(f[k] == s[j]);
        k
    } else {
        assert(d[j] == s[j]);
        let m = lemma_sort_z_place(d, j);
        if m < k {
            assert(f[m] == r[m]);
            m
        } else {
            assert(f[m + 1] == r[m]);
            m + 1
        }
    }
}

/// Layers `i` before `j` with the same z come out of the sort in that order.
proof fn lemma_sort_z_order(s: Seq<LayerView>, i: int, j: int, a: int, b: int)
    requires
        buffers_unique(s),
        0 <= i < j < s.len(),
        s[i].z == s[j].z,
        0 <= a < s.len(),
        0 <= b < s.len(),
        sort_z(s)[a] == s[i],
        sort_z(s)[b] == s[j],
    ensures
        a < b,
    decreases s.len(),
{
    let n = s.len();
    let d = s.drop_last();
    let x = s.last();
    assert forall|i1: int, i2: int| 0 <= i1 < i2 < d.len() implies (#[trigger] d[i1]).buffer != (#[trigger] d[i2]).buffer by {
        assert(d[i1] == s[i1] && d[i2] == s[i2]);
    }
    lemma_sort_z(d);
    let r = sort_z(d);
    let k = z_pos(r, x.z);
    lemma_z_pos_bounds(r, x.z);
    let f = r.insert(k, x);
    assert(sort_z(s) == f);
    assert(s[i].buffer != x.buffer);
    if a == k {
        assert(f[a] == x);
    }
    let a2 = if a < k { a } else { a - 1 };
    assert(f[a] == r[a2]);
    if j == n - 1 {
        if b != k {
            let b2 = if b < k { b } else { b - 1 };
            assert(f[b] == r[b2]);
            let jj = choose|jj: int| 0 <= jj < d.len() && r[b2] == d[jj];
            assert(d[jj] == s[jj]);
        }
        if a > k {
            assert(r[a2].z > x.z);
        }
    } else {
        assert(s[j].buffer != x.buffer);
        if b == k {
            assert(f[b] == x);
        }
        let b2 = if b < k { b } else { b - 1 };
        assert(f[b] == r[b2]);
        assert(d[i] == s[i] && d[j] == s[j]);
        lemma_sort_z_order(d, i, j, a2, b2);
    }
}

/// Sorting a view's layers by z is a stable sort: the result is in z order,
/// holds every layer and only those, and two layers with the same z come out
/// in the order they went in.
pub proof fn law_layer_sort_is_stable(s: Seq<LayerView>)
    requires
        buffers_unique(s),
    ensures
        sort_z(s).len() == s.len(),
        z_sorted(sort_z(s)),
        forall|m: int| 0 <= m < s.len() ==> exists|j: int| 0 <= j < s.len() && #[trigger] sort_z(s)[m] == s[j],
        forall|j: int| 0 <= j < s.len() ==> exists|m: int| 0 <= m < s.len() && sort_z(s)[m] == #[trigger] s[j],
        forall|i: int, j: int, a: int, b: int|
            0 <= i < j < s.len() && s[i].z == s[j].z && 0 <= a < s.len() && 0 <= b < s.len()
                && #[trigger] sort_z(s)[a] == #[trigger] s[i] && #[trigger] sort_z(s)[b] == #[trigger] s[j]
                ==> a < b,
{
    lemma_sort_z(s);
    assert forall|j: int| 0 <= j < s.len() implies exists|m: int| 0 <= m < s.len() && sort_z(s)[m] == #[trigger] s[j] by {
        let m = lemma_sort_z_place(s, j);
    }
    assert forall|i: int, j: int, a: int, b: int|
        0 <= i < j < s.len() && s[i].z == s[j].z && 0 <= a < s.len() && 0 <= b < s.len()
            && #[trigger] sort_z(s)[a] == #[trigger] s[i] && #[trigger] sort_z(s)[b] == #[trigger] s[j]
        implies a < b by {
        lemma_sort_z_order(s, i, j, a, b);
    }
}

/// Drawing a view draws each layer that is not hidden, once, in the order of
/// the layers (so, for layers in z order, higher ones over lower ones), and
/// no hidden one: a hidden layer's shared memory is not read. A layer is read
/// first exactly when it is dirty, and drawn by exclusive or exactly when it
/// is set to.
pub proof fn law_draw_plan(ls: Seq<LayerView>)
    requires
        ls.len() <= usize::MAX,
    ensures
        forall|k: int| 0 <= k < spec_draw_plan(ls).len() ==> {
            let st = #[trigger] spec_draw_plan(ls)[k];
            &&& st.pos < ls.len()
            &&& !ls[st.pos as int].hidden
            &&& st.read == ls[st.pos as int].dirty
            &&& st.xor == ls[st.pos as int].do_xor
        },
        forall|k1: int, k2: int| 0 <= k1 < k2 < spec_draw_plan(ls).len() ==> (#[trigger] spec_draw_plan(ls)[k1]).pos
            < (#[trigger] spec_draw_plan(ls)[k2]).pos,
        forall|i: int| 0 <= i < ls.len() && !(#[trigger] ls[i]).hidden ==> exists|k: int| 0 <= k < spec_draw_plan(ls).len()
            && spec_draw_plan(ls)[k].pos == i,
        z_sorted(ls) ==> forall|k1: int, k2: int| 0 <= k1 < k2 < spec_draw_plan(ls).len() ==> ls[(#[trigger] spec_draw_plan(ls)[k1]).pos as int].z
            <= ls[(#[trigger] spec_draw_plan(ls)[k2]).pos as int].z,
    decreases ls.len(),
{
    if ls.len() > 0 {
        let d = ls.drop_last();
        law_draw_plan(d);
        let r = spec_draw_plan(d);
        let p = spec_draw_plan(ls);
        assert forall|k: int| 0 <= k < r.len() implies (#[trigger] r[k]).pos < d.len() && ls[r[k].pos as int] == d[r[k].pos as int] by {}
        if !ls.last().hidden {
            assert(p == r.push(DrawStep { pos: (ls.len() - 1) as usize, read: ls.last().dirty, xor: ls.last().do_xor }));
            assert forall|k: int| 0 <= k < r.len() implies p[k] == #[trigger] r[k] by {}
        } else {
            assert(p == r);
        }
        assert forall|i: int| 0 <= i < ls.len() && !(#[trigger] ls[i]).hidden implies exists|k: int| 0 <= k < p.len() && p[k].pos == i by {
            if i == ls.len() - 1 {
                assert(ls[i] == ls.last());
                let st = DrawStep { pos: (ls.len() - 1) as usize, read: ls.last().dirty, xor: ls.last().do_xor };
                assert(p == r.push(st));
                assert(p[r.len() as int] == st);
                assert(p[r.len() as int].pos == i);
            } else {
                assert(d[i] == ls[i]);
                let k = choose|k: int| 0 <= k < r.len() && r[k].pos == i;
                assert(p[k] == r[k]);
            }
        }
        if z_sorted(ls) {
            assert forall|i: int, j: int| 0 <= i < j < d.len() implies (#[trigger] d[i]).z <= (#[trigger] d[j]).z by {
                assert(d[i] == ls[i] && d[j] == ls[j]);
            }
        }
    }
}

/// The layers of a view with the view data `vd` of `buffer` taken, before
/// sorting, and the position of the buffer's layer among them.
pub open spec fn taken(ls: Seq<LayerView>, buffer: Seq<char>, vd: ViewDataView) -> (Seq<LayerView>, int) {
    match buffer_pos(ls, buffer) {
        Some(p) => (ls.update(p, layer_updated(ls[p], vd)), p),
        None => (ls.push(layer_from(buffer, vd)), ls.len() as int),
    }
}

proof fn lemma_taken(ls: Seq<LayerView>, buffer: Seq<char>, vd: ViewDataView)
    requires
        buffers_unique(ls),
    ensures
        ({
            let (s, k) = taken(ls, buffer, vd);
            &&& 0 <= k < s.len()
            &&& s[k].buffer == buffer
            &&& buffers_unique(s)
            &&& forall|i: int| 0 <= i < s.len() && i != k ==> i < ls.len() && #[trigger] s[i] == ls[i] && ls[i].buffer
                != buffer
            &&& forall|i: int| 0 <= i < ls.len() && (#[trigger] ls[i]).buffer != buffer ==> i != k && s[i] == ls[i]
        }),
{
    crate::userview::lemma_buffer_pos(ls, buffer);
    let (s, k) = taken(ls, buffer, vd);
    assert forall|i: int, j: int| 0 <= i < j < s.len() implies (#[trigger] s[i]).buffer != (#[trigger] s[j]).buffer by {
        if i != k && j != k {
            assert(s[i] == ls[i] && s[j] == ls[j]);
        } else if i == k {
            assert(s[j] == ls[j]);
        } else {
            assert(s[i] == ls[i]);
        }
    }
}

/// A view whose layers show different buffers, after it took the view data
/// `vd` of `buffer`: exactly one layer shows `buffer`, the old one updated by
/// `vd` or, when there was none, a new one; every other layer is one of the
/// old layers, unchanged, and every old layer for another buffer is still
/// there; the layers are in z order; and the parameter view shown is the one
/// the first layer in that order names.
pub proof fn law_update_layers(ls: Seq<LayerView>, name: Option<Seq<char>>, post: UserView, buffer: Seq<char>, vd: ViewDataView)
    requires
        buffers_unique(ls),
        view_updated(ls, name, post, buffer, vd),
    ensures
        ({
            let f = post.layer_views();
            let nl = match buffer_pos(ls, buffer) {
                Some(p) => layer_updated(ls[p], vd),
                None => layer_from(buffer, vd),
            };
            &&& exists|m: int| 0 <= m < f.len() && f[m] == nl
            &&& forall|m: int| 0 <= m < f.len() && (#[trigger] f[m]).buffer == buffer ==> f[m] == nl
            &&& forall|m: int| 0 <= m < f.len() && (#[trigger] f[m]).buffer != buffer ==> exists|i: int| 0 <= i < ls.len() && f[m] == ls[i]
            &&& forall|i: int| 0 <= i < ls.len() && (#[trigger] ls[i]).buffer != buffer ==> exists|m: int| 0 <= m < f.len() && f[m] == ls[i]
            &&& z_sorted(f)
            &&& opt_view(post.param_view_name) == first_param_view(f)
        }),
{
    let f = post.layer_views();
    lemma_taken(ls, buffer, vd);
    let (s, k) = taken(ls, buffer, vd);
    assert(f == sort_z(s));
    lemma_sort_z(s);
    let m0 = lemma_sort_z_place(s, k);
    crate::userview::lemma_buffer_pos(ls, buffer);
    let nl = match buffer_pos(ls, buffer) {
        Some(p) => layer_updated(ls[p], vd),
        None => layer_from(buffer, vd),
    };
    assert(s[k] == nl);
    assert(f[m0] == nl);
    assert forall|m: int| 0 <= m < f.len() && (#[trigger] f[m]).buffer == buffer implies f[m] == s[k] by {
        let j = choose|j: int| 0 <= j < s.len() && #[trigger] sort_z(s)[m] == s[j];
        if j != k {
            assert(s[j] == ls[j]);
        }
    }
    assert forall|m: int| 0 <= m < f.len() && (#[trigger] f[m]).buffer != buffer implies exists|i: int| 0 <= i < ls.len() && f[m] == ls[i] by {
        let j = choose|j: int| 0 <= j < s.len() && #[trigger] sort_z(s)[m] == s[j];
        assert(s[j] == ls[j]);
    }
    assert forall|i: int| 0 <= i < ls.len() && (#[trigger] ls[i]).buffer != buffer implies exists|m: int| 0 <= m < f.len() && f[m] == ls[i] by {
        let m = lemma_sort_z_place(s, i);
    }
}

/// A request to show user view `i` shows it when there is a view with that
/// index, and otherwise leaves the view shown as it was; the views and the
/// rest of the controller stay as they were.
pub proof fn law_user_view_display(c: &Controller, d: &Controller, addr: Seq<char>, i: i32, r: FollowView)
    requires
        spec_route(c, addr) == RouteView::UserViewDisplay,
        osc_effect(c, d, addr, seq![ArgView::Int(i)], r),
        i >= 0,
    ensures
        r == FollowView::Done,
        d.user_views.views == c.user_views.views,
        d.user_views.shown == if view_pos(c.user_views.views@, i as usize) is Some {
            Some(i as usize)
        } else {
            c.user_views.shown
        },
        d.menus == c.menus,
        d.ctx == c.ctx,
        d.book == c.book,
        d.views == c.views,
        d.midi_out == c.midi_out,
{
}

/// A new layer added to a view whose layers are in z order goes after every
/// layer whose z is not above its own, the others keeping their order.
pub proof fn law_new_layer_after_equal_z(ls: Seq<LayerView>, nl: LayerView)
    requires
        z_sorted(ls),
    ensures
        sort_z(ls.push(nl)) == insert_z(ls, nl),
{
    lemma_sort_z_sorted(ls);
    assert(ls.push(nl).drop_last() =~= ls);
}

/// The buttons a screen lights depend on the screens and the status alone,
/// so lighting them a second time sends nothing.
pub proof fn law_button_plan_follows_screen(c: &Controller, d: &Controller)
    requires
        c.menus == d.menus,
        c.status == d.status,
    ensures
        spec_button_plan(c) == spec_button_plan(d),
{
}

/// Sending the encoder LED colours they already show sends nothing.
pub proof fn law_leds_resent_send_nothing(v: Seq<(u8, u8, u8)>, n: nat)
    requires
        n <= v.len(),
    ensures
        led_updates(v.map_values(|c: (u8, u8, u8)| Some(c)), v, n) == Seq::<Seq<u8>>::empty(),
    decreases n,
{
    if n > 0 {
        law_leds_resent_send_nothing(v, (n - 1) as nat);
        assert(v.map_values(|c: (u8, u8, u8)| Some(c))[n - 1] == Some(v[n - 1]));
    }
}

/// LEDs whose colour is unknown (after a redraw) are all sent, whatever they
/// are to show: six messages each.
pub proof fn law_unknown_leds_all_sent(last: Seq<Option<(u8, u8, u8)>>, v: Seq<(u8, u8, u8)>, n: nat)
    requires
        n <= v.len(),
        n <= last.len(),
        forall|i: int| 0 <= i < n ==> #[trigger] last[i] is None,
    ensures
        led_updates(last, v, n).len() == 6 * n,
    decreases n,
{
    if n > 0 {
        law_unknown_leds_all_sent(last, v, (n - 1) as nat);
        assert(last[n - 1] is None);
    }
}

/// The bytes of ASCII chars.
pub open spec fn ascii_bytes(s: Seq<char>) -> Seq<u8> {
    Seq::new(s.len(), |i: int| s[i] as u8)
}

proof fn lemma_decimal_digits(n: nat)
    ensures
        decimal(n).len() > 0,
        forall|i: int| 0 <= i < decimal(n).len() ==> '0' <= #[trigger] decimal(n)[i] <= '9',
        digits_value(ascii_bytes(decimal(n))) == n,
        forall|i: int| 0 <= i < decimal(n).len() ==> 48 <= #[trigger] ascii_bytes(decimal(n))[i] <= 57,
    decreases n,
{
    if n >= 10 {
        lemma_decimal_digits(n / 10);
        let d = decimal(n);
        let p = decimal(n / 10);
        assert(d == p.push(digit_char(n % 10)));
        assert(ascii_bytes(d).drop_last() =~= ascii_bytes(p));
        assert(ascii_bytes(d).last() == digit_char(n % 10) as u8);
        assert(digit_char(n % 10) as u8 == 48 + n % 10);
        assert((n / 10) * 10 + n % 10 == n) by (nonlinear_arith);
        assert(digits_value(ascii_bytes(d)) == digits_value(ascii_bytes(p)) * 10 + (n % 10));
    } else {
        assert(digit_char(n) as u8 == 48 + n);
        assert(ascii_bytes(decimal(n)).drop_last() =~= Seq::<u8>::empty());
        assert(ascii_bytes(decimal(n)).last() == digit_char(n) as u8);
        assert(digits_value(ascii_bytes(decimal(n))) == digits_value(Seq::<u8>::empty()) * 10 + n);
    }
}

/// A number written in decimal reads back as the same number: the UTF-8
/// bytes of `decimal(n)` parse to `n`.
pub proof fn law_decimal_reads_back(n: usize)
    ensures
        spec_parse_usize(vstd::utf8::encode_utf8(decimal(n as nat))) == Some(n),
{
    lemma_decimal_digits(n as nat);
    let d = decimal(n as nat);
    assert(vstd::utf8::is_ascii_chars(d));
    vstd::utf8::is_ascii_chars_encode_utf8(d);
    let b = vstd::utf8::encode_utf8(d);
    assert(b =~= ascii_bytes(d));
    assert(b[0] != 43);
    assert(unsigned_part(b) == b);
    assert(all_digits(b));
}

proof fn lemma_colon_pos_no_colon(x: Seq<u8>, y: Seq<u8>)
    requires
        forall|i: int| 0 <= i < x.len() ==> x[i] != 58,
    ensures
        colon_pos(x + y) == x.len() + colon_pos(y),
    decreases x.len(),
{
    if x.len() > 0 {
        assert((x + y).drop_first() =~= x.drop_first() + y);
        lemma_colon_pos_no_colon(x.drop_first(), y);
    } else {
        assert(x + y =~= y);
    }
}

/// A parameter written `"instance:param"` in decimal reads back as the same
/// pair.
pub proof fn law_param_pair_reads_back(a: usize, b: usize)
    ensures
        spec_parse_pair(vstd::utf8::encode_utf8(decimal(a as nat) + ":"@ + decimal(b as nat))) == Some((a, b)),
{
    lemma_decimal_digits(a as nat);
    lemma_decimal_digits(b as nat);
    law_decimal_reads_back(a);
    law_decimal_reads_back(b);
    reveal_strlit(":");
    let da = decimal(a as nat);
    let db = decimal(b as nat);
    let s = da + ":"@ + db;
    assert(vstd::utf8::is_ascii_chars(s));
    vstd::utf8::is_ascii_chars_encode_utf8(s);
    vstd::utf8::is_ascii_chars_encode_utf8(da);
    vstd::utf8::is_ascii_chars_encode_utf8(db);
    let bytes = vstd::utf8::encode_utf8(s);
    let ba = vstd::utf8::encode_utf8(da);
    let bb = vstd::utf8::encode_utf8(db);
    assert(ba =~= ascii_bytes(da));
    assert(bb =~= ascii_bytes(db));
    assert(bytes =~= ba + seq![58u8] + bb);
    lemma_colon_pos_no_colon(ba, seq![58u8] + bb);
    assert(ba + seq![58u8] + bb =~= ba + (seq![58u8] + bb));
    assert(colon_pos(seq![58u8] + bb) == 0);
    assert(bytes.take(ba.len() as int) =~= ba);
    let rest = bytes.skip(ba.len() as int + 1);
    assert(rest =~= bb);
    lemma_colon_pos_no_colon(bb, Seq::<u8>::empty());
    assert(bb + Seq::<u8>::empty() =~= bb);
    assert(rest.take(colon_pos(rest) as int) =~= bb);
}

/// A view selection from the runner shows the chosen view at the chosen
/// page, both limited to what exists, whatever screen is up (but while the
/// device powers down or is handed back).
pub proof fn law_view_display_shows_view(c: &Controller, d: &Controller, index: usize, page: usize, i: usize, p: usize)
    requires
        ctx_wf(&c.ctx.common),
        !leaving(c.menus.top),
        view_in_range(c.menus.view, &c.ctx.common),
        clamp_selection(&c.ctx.common, index, page) == Some((i, p)),
        c.stepped(d, Events::SetViewSelected(i, p)),
    ensures
        d.menus.top == TopState::ParamViews,
        d.menus.view is ViewParams,
        d.menus.view->ViewParams_0.index == i,
        d.menus.view->ViewParams_0.page == p,
{
}

/// A request from the runner for an instance's parameters shows them at the
/// chosen page, whatever screen is up (but while the device powers down or
/// is handed back); it queues nothing.
pub proof fn law_device_params_shows_instance(c: &Controller, d: &Controller, k: usize, p: usize)
    requires
        !leaving(c.menus.top),
        k < c.ctx.common.params_instances_count,
        p < c.ctx.common.spec_instance_param_pages(k),
        c.stepped(d, Events::DeviceParamsSelected(k, p)),
    ensures
        d.menus.top == TopState::Main,
        d.menus.main == MainState::PatcherParams(ParamPage { index: k, page: p, focused: None }),
        d.ctx.queue@ == c.ctx.queue@,
{
}

/// A request from the runner for an instance's datarefs shows them, the
/// first one selected, from the same screens, and asks for the list of data
/// files.
pub proof fn law_device_data_shows_instance(c: &Controller, d: &Controller, k: usize)
    requires
        !leaving(c.menus.top),
        k < c.ctx.common.datarefs_instances_count,
        c.ctx.common.spec_dataref_count(k) > 0,
        c.stepped(d, Events::DeviceDataSelected(k)),
    ensures
        d.menus.top == TopState::Main,
        d.menus.main == MainState::PatcherDatarefs(
            DataSel { instance: k, selected: 0, count: c.ctx.common.spec_dataref_count(k) },
        ),
        d.ctx.queue@ == c.ctx.queue@.push(Cmd::UpdateDataFileList),
{
    assert(spec_dispatch_cmds(c.menus, &c.ctx.common, Events::DeviceDataSelected(k)) =~= seq![
        Cmd::UpdateDataFileList,
    ]);
}

/// A page selection from the runner, on a parameter view, shows that page
/// limited to the view's pages.
pub proof fn law_view_page_display(c: &Controller, d: &Controller, page: usize)
    requires
        ctx_wf(&c.ctx.common),
        c.menus.top == TopState::ParamViews,
        c.menus.view is ViewParams,
        view_in_range(c.menus.view, &c.ctx.common),
        c.stepped(d, Events::SetViewPageSelected(page)),
    ensures
        d.menus.top == TopState::ParamViews,
        d.menus.view is ViewParams,
        d.menus.view->ViewParams_0.index == c.menus.view->ViewParams_0.index,
        d.menus.view->ViewParams_0.page == {
            let pages = c.ctx.common.spec_view_param_pages(c.menus.view->ViewParams_0.index);
            if page < pages - 1 {
                page
            } else {
                (pages - 1) as usize
            }
        },
{
}

/// Only visible parameters are listed under an instance.
pub proof fn law_listed_params_visible(ps: Seq<ParamRef>, insts: Seq<Instance>)
    requires
        ps.len() <= usize::MAX,
    ensures
        forall|g: int, j: int|
            0 <= g < regrouped(ps, insts).instance_params.len() && 0 <= j < regrouped(
                ps,
                insts,
            ).instance_params[g].len() ==> {
                let k = #[trigger] regrouped(ps, insts).instance_params[g][j];
                k < ps.len() && !ps[k as int].hidden
            },
{
    lemma_groups_visible(ps, insts);
    let g0 = group_params(ps, insts);
    lemma_flush_keeps_visible(g0, insts, ps);
}

/// Every group kept and every pending index is a visible parameter.
pub open spec fn groups_visible(instance_params: Seq<Seq<usize>>, pending: Seq<usize>, ps: Seq<ParamRef>) -> bool {
    &&& forall|g: int, j: int| 0 <= g < instance_params.len() && 0 <= j < instance_params[g].len() ==> {
        let k = #[trigger] instance_params[g][j];
        k < ps.len() && !ps[k as int].hidden
    }
    &&& forall|j: int| 0 <= j < pending.len() ==> {
        let k = #[trigger] pending[j];
        k < ps.len() && !ps[k as int].hidden
    }
}

proof fn lemma_flush_keeps_visible(g: crate::instances::GroupState, insts: Seq<Instance>, ps: Seq<ParamRef>)
    requires
        groups_visible(g.instance_params, g.pending, ps),
    ensures
        groups_visible(flush(g, insts).instance_params, flush(g, insts).pending, ps),
{
    let f = flush(g, insts);
    assert forall|a: int, j: int| 0 <= a < f.instance_params.len() && 0 <= j < f.instance_params[a].len() implies {
        let k = #[trigger] f.instance_params[a][j];
        k < ps.len() && !ps[k as int].hidden
    } by {
        if a < g.instance_params.len() {
            assert(f.instance_params[a] == g.instance_params[a]);
        } else {
            assert(f.instance_params[a] == g.pending);
            assert(g.pending[j] == f.instance_params[a][j]);
        }
    }
}

proof fn lemma_groups_visible(ps: Seq<ParamRef>, insts: Seq<Instance>)
    requires
        ps.len() <= usize::MAX,
    ensures
        groups_visible(group_params(ps, insts).instance_params, group_params(ps, insts).pending, ps),
    decreases ps.len(),
{
    if ps.len() > 0 {
        let prev = ps.drop_last();
        lemma_groups_visible(prev, insts);
        let g = group_params(prev, insts);
        assert forall|a: int, j: int| 0 <= a < g.instance_params.len() && 0 <= j < g.instance_params[a].len() implies {
            let k = #[trigger] g.instance_params[a][j];
            k < ps.len() && !ps[k as int].hidden
        } by {
            let k = g.instance_params[a][j];
            assert(prev[k as int] == ps[k as int]);
        }
        assert forall|j: int| 0 <= j < g.pending.len() implies {
            let k = #[trigger] g.pending[j];
            k < ps.len() && !ps[k as int].hidden
        } by {
            let k = g.pending[j];
            assert(prev[k as int] == ps[k as int]);
        }
        lemma_flush_keeps_visible(g, insts, ps);
        let p = ps.last();
        let g1 = if p.instance_index != g.current {
            crate::instances::GroupState { current: p.instance_index, ..flush(g, insts) }
        } else {
            g
        };
        assert(groups_visible(g1.instance_params, g1.pending, ps));
        let g2 = group_params(ps, insts);
        if !p.hidden {
            assert(g2.pending == g1.pending.push((ps.len() - 1) as usize));
            assert forall|j: int| 0 <= j < g2.pending.len() implies {
                let k = #[trigger] g2.pending[j];
                k < ps.len() && !ps[k as int].hidden
            } by {
                if j < g1.pending.len() {
                    assert(g2.pending[j] == g1.pending[j]);
                } else {
                    assert(g2.pending[j] == (ps.len() - 1) as usize);
                    assert(ps[ps.len() - 1] == p);
                }
            }
        }
    }
}

/// Every view that the view menu lists shows at least one parameter.
pub proof fn law_shown_views_nonempty(book: &InstanceBook, vs: Seq<ParamView>)
    ensures
        forall|i: int| 0 <= i < shown(book, vs).len() ==> (#[trigger] shown(book, vs)[i]).1.len() > 0,
    decreases vs.len(),
{
    if vs.len() > 0 {
        law_shown_views_nonempty(book, vs.drop_last());
        let r = shown(book, vs.drop_last());
        let ps = resolve_all(book, vs.last().spec_params());
        assert forall|i: int| 0 <= i < shown(book, vs).len() implies (#[trigger] shown(book, vs)[i]).1.len() > 0 by {
            if i < r.len() {
                assert(shown(book, vs)[i] == r[i]);
            }
        }
    }
}

/// With exactly one view, a change of the view list opens that view at its
/// first page instead of the view menu.
pub proof fn law_single_view_opens_directly(s: ViewState, ctx: &CommonContext)
    requires
        ctx.spec_param_view_count() == 1,
    ensures
        spec_view_step(s, ctx, Events::SetViewListChanged) == Some(
            (ViewState::ViewParams(ParamPage { index: 0, page: 0, focused: None }), None::<Cmd>),
        ),
{
}

} // verus!

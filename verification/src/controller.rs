//! The controller: the menus, the lists they show, and what goes out to the
//! device and to the runner.
use vstd::prelude::*;
use crate::config::Config;
use crate::context::{CommonContext, Context};
use crate::dispatch::{dispatch, spec_dispatch, spec_dispatch_cmds, top_after, top_fired, Menus};
use crate::events::{Cmd, Events};
use crate::input::{spec_decode, MidiInput, MOVE_CTL_MIDI_CHAN, PLAY_MIDI};
use crate::instances::{indexes_wf, InstanceBook};
use crate::machines::{MainState, TopState, ViewState};
use crate::midi::{messages, power_messages, power_sysex, Midi, MoveColor, PowerCommand};
use crate::names::{sort_by, sorted_by, ties_kept, Order};
use crate::popup::Popup;
use crate::userview::UserViews;
use crate::views::Views;

verus! {

/// The colours the menu and back buttons were last lit with, and the last
/// colours sent to the eight encoder LEDs; `None` where the device's light is
/// unknown, so that it is sent whatever it is to show.
#[derive(Copy, Clone, Debug)]
pub struct Lights {
    pub menu: Option<MoveColor>,
    pub back: Option<MoveColor>,
    pub leds: [Option<(u8, u8, u8)>; 8],
}

/// The name lists the menus show, and which entries are current.
pub struct Lists {
    /// "<empty>" and then the graph names, sorted.
    pub set_names: Vec<String>,
    /// The patcher names, sorted.
    pub patcher_names: Vec<String>,
    /// The preset names, "initial" first.
    pub set_preset_names: Vec<String>,
    pub set_current_name: Option<String>,
    pub set_current_index: Option<usize>,
    pub set_preset_loaded_name: Option<String>,
    pub set_preset_loaded_index: Option<usize>,
    /// The data file names, sorted.
    pub datafile_list: Vec<String>,
    /// "(empty)" and then the data file names.
    pub datafile_menu: Vec<String>,
}

/// What the screens show besides the lists.
pub struct Status {
    pub config: Config,
    pub rolling: bool,
    pub has_all_capabilities: bool,
    /// The program whose process ended early.
    pub child_process_error: Option<String>,
    pub runner_rnbo_version: Option<String>,
    pub package_version: Option<String>,
    pub popup: Popup,
}

/// The whole controller.
pub struct Controller {
    pub menus: Menus,
    /// The menus' counts and the commands waiting to be carried out.
    pub ctx: Context,
    /// Messages for the device, oldest first.
    pub midi_out: Vec<Midi>,
    pub input: MidiInput,
    /// The user chose to hand the device back.
    pub exit: bool,
    /// Which screen last set the button lights; 0 after a screen change.
    pub line_token: u32,
    pub lights: Lights,
    pub lists: Lists,
    pub status: Status,
    pub views: Views,
    pub book: InstanceBook,
    /// The views that buffers' meta data declare, and the one shown.
    pub user_views: UserViews,
}

/// The messages sent when the top machine powers the device off.
pub open spec fn power_off_messages(fired: bool, top: TopState) -> Seq<Seq<u8>> {
    if fired && top == TopState::PowerOff {
        power_messages(PowerCommand::PowerOff)
    } else {
        Seq::empty()
    }
}

/// The messages for the device are well formed.
pub open spec fn midi_wf(ms: Seq<Midi>) -> bool {
    forall|i: int| 0 <= i < ms.len() ==> (#[trigger] ms[i]).wf()
}

impl Controller {
    /// The counts the menus consult agree with the lists, and the messages
    /// for the device are well formed.
    pub open spec fn wf(&self) -> bool {
        &&& midi_wf(self.midi_out@)
        &&& self.ctx.common.sets_count == self.lists.set_names@.len()
        &&& self.ctx.common.patchers_count == self.lists.patcher_names@.len()
        &&& self.ctx.common.set_presets_count == self.lists.set_preset_names@.len()
        &&& self.ctx.common.datafile_count == self.lists.datafile_menu@.len()
        &&& indexes_wf(self.book.view_with(&self.ctx.common))
        &&& self.user_views.wf()
    }

    /// `next` is `self` after the event `e` went through the menus: the
    /// machines moved, their commands were queued, leaving was recorded, the
    /// power-off sysex was sent, and the button lights are to be redrawn when
    /// the top level changed to a menu screen. Nothing else changed.
    pub open spec fn stepped(&self, next: &Controller, e: Events) -> bool {
        let ctx = &self.ctx.common;
        let top = top_after(self.menus, ctx, e);
        let fired = top_fired(self.menus, ctx, e);
        &&& next.menus == spec_dispatch(self.menus, ctx, e)
        &&& next.ctx.queue@ == self.ctx.queue@ + spec_dispatch_cmds(self.menus, ctx, e)
        &&& next.ctx.common == self.ctx.common
        &&& next.exit == (self.exit || (fired && top == TopState::LaunchMove))
        &&& messages(next.midi_out@) == messages(self.midi_out@) + power_off_messages(fired, top)
        &&& next.line_token == if fired && (top == TopState::Main || top == TopState::ParamViews) {
            0
        } else {
            self.line_token
        }
        &&& next.lights == self.lights
        &&& next.lists == self.lists
        &&& next.status == self.status
        &&& next.views == self.views
        &&& next.book == self.book
        &&& next.user_views == self.user_views
    }

    /// The fields an event leaves alone besides the input are the same.
    pub open spec fn unchanged(&self, next: &Controller) -> bool {
        &&& next.menus == self.menus
        &&& next.ctx == self.ctx
        &&& next.midi_out == self.midi_out
        &&& next.exit == self.exit
        &&& next.line_token == self.line_token
        &&& next.lights == self.lights
        &&& next.lists == self.lists
        &&& next.status == self.status
        &&& next.views == self.views
        &&& next.book == self.book
        &&& next.user_views == self.user_views
    }

    /// A controller that waits on its start screen, with the device reset
    /// and the play button lit light gray.
    pub fn new(config: Config, package_version: Option<String>, has_all_capabilities: bool) -> (c: Self)
        ensures
            c.wf(),
            c.menus == (Menus {
                top: TopState::Init,
                view: ViewState::ParamViewMenu(0),
                main: MainState::Menu(0),
            }),
            c.ctx.queue@ == Seq::<Cmd>::empty(),
            messages(c.midi_out@) == seq![
                seq![0xFFu8],
                seq![0xb0u8 | MOVE_CTL_MIDI_CHAN, PLAY_MIDI, MoveColor::LightGray.spec_value()],
            ],
            !c.exit,
            c.line_token == 0,
            c.lights.menu == Some(MoveColor::Black),
            c.lights.back == Some(MoveColor::Black),
            forall|i: int| 0 <= i < 8 ==> #[trigger] c.lights.leds@[i] == Some((255u8, 255u8, 255u8)),
            c.lists.set_names@.len() == 0,
            c.lists.patcher_names@.len() == 0,
            c.lists.set_preset_names@.len() == 0,
            c.lists.datafile_list@.len() == 0,
            c.lists.datafile_menu@.len() == 0,
            c.lists.set_current_name is None,
            c.lists.set_current_index is None,
            c.lists.set_preset_loaded_name is None,
            c.lists.set_preset_loaded_index is None,
            c.status.config == config,
            !c.status.rolling,
            c.status.has_all_capabilities == has_all_capabilities,
            c.status.child_process_error is None,
            c.status.runner_rnbo_version is None,
            c.status.package_version == package_version,
            c.ctx.common.can_exit_powermenu,
            c.ctx.common.sets_count == 0,
            c.ctx.common.patchers_count == 0,
            c.ctx.common.set_presets_count == 0,
            c.ctx.common.params_instances_count == 0,
            c.ctx.common.datarefs_instances_count == 0,
            c.ctx.common.instance_param_pages@.len() == 0,
            c.ctx.common.param_view_pages@.len() == 0,
            c.ctx.common.dataref_count@.len() == 0,
            c.ctx.common.datafile_count == 0,
            c.input.sysex@ == Seq::<u8>::empty(),
            c.status.popup.spec_title() == Seq::<char>::empty(),
            c.status.popup.spec_content() == Seq::<char>::empty(),
            !c.status.popup.spec_long(),
            c.views.param_views@.len() == 0,
            c.views.order@.len() == 0,
            c.views.lookup@.len() == 0,
            c.views.names@.len() == 0,
            c.views.params@.len() == 0,
            c.book.instances@.len() == 0,
            c.book.params@.len() == 0,
            c.book.instance_params@.len() == 0,
            c.book.instance_param_map@.len() == 0,
            c.book.alias_map@.len() == 0,
            c.book.dataref_lookup@.len() == 0,
            c.book.dataref_meta_lookup@.len() == 0,
            c.book.params_instance_names@.len() == 0,
            c.book.datarefs_instance_names@.len() == 0,
            c.book.params_instance_indexes@.len() == 0,
            c.book.datarefs_instance_indexes@.len() == 0,
            c.user_views.views@.len() == 0,
            c.user_views.shown is None,
    {
        let mut midi_out: Vec<Midi> = Vec::new();
        midi_out.push(Midi::reset());
        midi_out.push(Midi::cc(PLAY_MIDI, MoveColor::LightGray.value(), MOVE_CTL_MIDI_CHAN));
        let c = Controller {
            menus: Menus {
                top: TopState::Init,
                view: ViewState::ParamViewMenu(0),
                main: MainState::Menu(0),
            },
            ctx: Context::new(),
            midi_out,
            input: MidiInput::new(),
            exit: false,
            line_token: 0,
            lights: Lights {
                menu: Some(MoveColor::Black),
                back: Some(MoveColor::Black),
                leds: [Some((255u8, 255u8, 255u8)); 8],
            },
            lists: Lists {
                set_names: Vec::new(),
                patcher_names: Vec::new(),
                set_preset_names: Vec::new(),
                set_current_name: None,
                set_current_index: None,
                set_preset_loaded_name: None,
                set_preset_loaded_index: None,
                datafile_list: Vec::new(),
                datafile_menu: Vec::new(),
            },
            status: Status {
                config,
                rolling: false,
                has_all_capabilities,
                child_process_error: None,
                runner_rnbo_version: None,
                package_version,
                popup: Popup::empty(),
            },
            views: Views::new(),
            book: InstanceBook::new(),
            user_views: UserViews::new(),
        };
        assert(messages(c.midi_out@) =~= seq![
            seq![0xFFu8],
            seq![0xb0u8 | MOVE_CTL_MIDI_CHAN, PLAY_MIDI, MoveColor::LightGray.spec_value()],
        ]);
        c
    }

    fn send_midi(&mut self, m: Midi)
        requires
            m.wf(),
            midi_wf(old(self).midi_out@),
        ensures
            final(self).midi_out@ == old(self).midi_out@.push(m),
            midi_wf(final(self).midi_out@),
            final(self).menus == old(self).menus,
            final(self).ctx == old(self).ctx,
            final(self).input == old(self).input,
            final(self).exit == old(self).exit,
            final(self).line_token == old(self).line_token,
            final(self).lights == old(self).lights,
            final(self).lists == old(self).lists,
            final(self).status == old(self).status,
            final(self).views == old(self).views,
            final(self).book == old(self).book,
            final(self).user_views == old(self).user_views,
    {
        self.midi_out.push(m);
    }

    /// Runs an event through the menus and carries out what the top level
    /// machine's new screen asks for.
    pub fn handle_event(&mut self, e: Events)
        requires
            old(self).wf(),
        ensures
            final(self).wf(),
            old(self).stepped(final(self), e),
            final(self).input == old(self).input,
    {
        let (menus, cmds, fired) = dispatch(self.menus, &self.ctx.common, e);
        self.menus = menus;
        self.ctx.emit_all(&cmds);
        let ghost m0 = self.midi_out@;
        if fired {
            match menus.top {
                TopState::LaunchMove => {
                    self.exit = true;
                },
                TopState::PowerOff => {
                    let ms = power_sysex(PowerCommand::PowerOff);
                    self.send_midi(ms[0]);
                    self.send_midi(ms[1]);
                    self.send_midi(ms[2]);
                    assert(messages(self.midi_out@) =~= messages(m0) + messages(ms@));
                },
                TopState::Main | TopState::ParamViews => {
                    self.line_token = 0;
                },
                _ => {},
            }
        }
        proof {
            if !(fired && menus.top == TopState::PowerOff) {
                assert(messages(self.midi_out@) =~= messages(m0) + Seq::<Seq<u8>>::empty());
            }
        }
    }

    /// Takes a message from the device; returns whether the controller is
    /// to hand the device back.
    pub fn handle_midi(&mut self, bytes: &[u8]) -> (exit: bool)
        requires
            old(self).wf(),
        ensures
            final(self).wf(),
            final(self).input.sysex@ == spec_decode(old(self).input.sysex@, bytes@).0,
            match spec_decode(old(self).input.sysex@, bytes@).1 {
                Some(e) => old(self).stepped(final(self), e),
                None => old(self).unchanged(final(self)),
            },
            exit == final(self).exit,
    {
        let ev = self.input.feed(bytes);
        match ev {
            Some(e) => self.handle_event(e),
            None => {},
        }
        self.exit
    }
}

/// Position of the first name equal to `x`.
pub open spec fn position_of(s: Seq<String>, x: Seq<char>) -> Option<usize>
    decreases s.len(),
{
    if s.len() == 0 {
        None
    } else {
        match position_of(s.drop_last(), x) {
            Some(i) => Some(i),
            None => if s.last()@ == x {
                Some((s.len() - 1) as usize)
            } else {
                None
            },
        }
    }
}

proof fn lemma_position_extends(s: Seq<String>, x: Seq<char>, k: int)
    requires
        0 <= k <= s.len(),
        position_of(s.take(k), x) is Some,
    ensures
        position_of(s, x) == position_of(s.take(k), x),
    decreases s.len() - k,
{
    if k < s.len() {
        assert(s.take(k + 1).drop_last() =~= s.take(k));
        lemma_position_extends(s, x, k + 1);
    } else {
        assert(s.take(k) =~= s);
    }
}

proof fn lemma_position_none(s: Seq<String>, x: Seq<char>)
    requires
        forall|j: int| 0 <= j < s.len() ==> s[j]@ != x,
    ensures
        position_of(s, x) is None,
    decreases s.len(),
{
    if s.len() > 0 {
        lemma_position_none(s.drop_last(), x);
    }
}

/// Position of the first name equal to `x`, as `Iterator::position` finds it.
pub fn find_name(s: &Vec<String>, x: &String) -> (r: Option<usize>)
    ensures
        r == position_of(s@, x@),
{
    let n = s.len();
    let mut i: usize = 0;
    while i < n
        invariant
            n == s@.len(),
            i <= n,
            forall|j: int| 0 <= j < i ==> s@[j]@ != x@,
        decreases n - i,
    {
        if s[i] == *x {
            proof {
                lemma_position_none(s@.take(i as int), x@);
                assert(s@.take(i + 1).drop_last() =~= s@.take(i as int));
                lemma_position_extends(s@, x@, i + 1);
            }
            return Some(i);
        }
        i = i + 1;
    }
    proof {
        lemma_position_none(s@, x@);
    }
    None
}

/// An optional string as an optional value.
pub open spec fn opt_view(o: Option<String>) -> Option<Seq<char>> {
    match o {
        Some(s) => Some(s@),
        None => None,
    }
}

/// What taking the current graph's name does.
pub open spec fn current_effect(pre: &Controller, post: &Controller, name: Option<Seq<char>>) -> bool {
    &&& opt_view(post.lists.set_current_name) == name
    &&& post.lists == (Lists {
        set_current_name: post.lists.set_current_name,
        set_current_index: match name {
            Some(n) => position_of(pre.lists.set_names@, n),
            None => None,
        },
        ..pre.lists
    })
    &&& pre.relisted(post.lists, pre.ctx.common).stepped(post, Events::SetCurrentChanged)
    &&& post.input == pre.input
}

/// What taking the loaded preset's name does.
pub open spec fn loaded_effect(pre: &Controller, post: &Controller, name: Option<Seq<char>>) -> bool {
    &&& opt_view(post.lists.set_preset_loaded_name) == name
    &&& post.lists == (Lists {
        set_preset_loaded_name: post.lists.set_preset_loaded_name,
        set_preset_loaded_index: match name {
            Some(n) => position_of(pre.lists.set_preset_names@, n),
            None => None,
        },
        ..pre.lists
    })
    &&& pre.relisted(post.lists, pre.ctx.common).stepped(post, Events::SetPresetLoadedChanged)
    &&& post.input == pre.input
}

/// The counts with the number of graphs replaced.
pub open spec fn with_sets_count(c: CommonContext, n: usize) -> CommonContext {
    CommonContext { sets_count: n, ..c }
}

/// The counts with the number of patchers replaced.
pub open spec fn with_patchers_count(c: CommonContext, n: usize) -> CommonContext {
    CommonContext { patchers_count: n, ..c }
}

/// The counts with the number of presets replaced.
pub open spec fn with_presets_count(c: CommonContext, n: usize) -> CommonContext {
    CommonContext { set_presets_count: n, ..c }
}

impl Controller {
    /// `self` with other lists and counts: the state an event then runs in.
    pub open spec fn relisted(&self, lists: Lists, common: CommonContext) -> Controller {
        Controller { lists, ctx: Context { queue: self.ctx.queue, common }, ..*self }
    }

    /// `self` with other views and counts.
    pub open spec fn reviewed(&self, views: Views, common: CommonContext) -> Controller {
        Controller { views, ctx: Context { queue: self.ctx.queue, common }, ..*self }
    }

    /// `self` with other instances, views and counts.
    pub open spec fn rebooked(&self, book: InstanceBook, views: Views, common: CommonContext) -> Controller {
        Controller { book, views, ctx: Context { queue: self.ctx.queue, common }, ..*self }
    }

    /// `self` with another status.
    pub open spec fn restatus(&self, status: Status, common: CommonContext) -> Controller {
        Controller { status, ctx: Context { queue: self.ctx.queue, common }, ..*self }
    }

    /// Takes the graph names: the list becomes "<empty>" followed by the
    /// names in byte order, and the menus hear that it changed.
    pub fn set_set_names(&mut self, names: Vec<String>)
        requires
            old(self).wf(),
            names@.len() < usize::MAX,
        ensures
            final(self).wf(),
            final(self).lists.set_names@.len() == names@.len() + 1,
            final(self).lists.set_names@[0]@ == "<empty>"@,
            final(self).lists.set_names@.drop_first().to_multiset() == names@.to_multiset(),
            sorted_by(Order::Bytes, final(self).lists.set_names@.drop_first()),
            ties_kept(Order::Bytes, final(self).lists.set_names@.drop_first(), names@),
            final(self).lists == (Lists { set_names: final(self).lists.set_names, ..old(self).lists }),
            old(self).relisted(
                final(self).lists,
                with_sets_count(old(self).ctx.common, (names@.len() + 1) as usize),
            ).stepped(final(self), Events::SetNamesChanged),
            final(self).input == old(self).input,
    {
        broadcast use vstd::seq_lib::group_to_multiset_ensures;

        let ghost nv = names@;
        let sorted = sort_by(Order::Bytes, names);
        let ghost sv = sorted@;
        proof {
            vstd::seq_lib::to_multiset_len(nv);
            vstd::seq_lib::to_multiset_len(sv);
        }
        let mut list = sorted;
        list.insert(0, "<empty>".to_owned());
        assert(list@.drop_first() =~= sv);
        self.lists.set_names = list;
        self.ctx.common.sets_count = self.lists.set_names.len();
        self.handle_event(Events::SetNamesChanged);
    }

    /// Takes the patcher names, in byte order, and the menus hear that they
    /// changed.
    pub fn set_patcher_names(&mut self, names: Vec<String>)
        requires
            old(self).wf(),
        ensures
            final(self).wf(),
            final(self).lists.patcher_names@.to_multiset() == names@.to_multiset(),
            sorted_by(Order::Bytes, final(self).lists.patcher_names@),
            ties_kept(Order::Bytes, final(self).lists.patcher_names@, names@),
            final(self).lists == (Lists { patcher_names: final(self).lists.patcher_names, ..old(self).lists }),
            old(self).relisted(
                final(self).lists,
                with_patchers_count(old(self).ctx.common, names@.len() as usize),
            ).stepped(final(self), Events::PatcherNamesChanged),
            final(self).input == old(self).input,
    {
        broadcast use vstd::seq_lib::group_to_multiset_ensures;

        let ghost nv = names@;
        let sorted = sort_by(Order::Bytes, names);
        proof {
            vstd::seq_lib::to_multiset_len(nv);
            vstd::seq_lib::to_multiset_len(sorted@);
        }
        self.lists.patcher_names = sorted;
        self.ctx.common.patchers_count = self.lists.patcher_names.len();
        self.handle_event(Events::PatcherNamesChanged);
    }

    /// Takes the preset names: "initial" first, the rest in the order of
    /// their case-folded names; the menus hear that they changed.
    pub fn set_set_preset_names(&mut self, names: Vec<String>)
        requires
            old(self).wf(),
        ensures
            final(self).wf(),
            final(self).lists.set_preset_names@.to_multiset() == names@.to_multiset(),
            sorted_by(Order::Presets, final(self).lists.set_preset_names@),
            ties_kept(Order::Presets, final(self).lists.set_preset_names@, names@),
            final(self).lists == (Lists { set_preset_names: final(self).lists.set_preset_names, ..old(self).lists }),
            old(self).relisted(
                final(self).lists,
                with_presets_count(old(self).ctx.common, names@.len() as usize),
            ).stepped(final(self), Events::SetPresetNamesChanged),
            final(self).input == old(self).input,
    {
        broadcast use vstd::seq_lib::group_to_multiset_ensures;

        self.ctx.common.set_presets_count = names.len();
        let ghost nv = names@;
        let sorted = sort_by(Order::Presets, names);
        proof {
            vstd::seq_lib::to_multiset_len(nv);
            vstd::seq_lib::to_multiset_len(sorted@);
        }
        self.lists.set_preset_names = sorted;
        self.handle_event(Events::SetPresetNamesChanged);
    }

    /// Takes the name of the current graph; it is marked in the graph list
    /// where the list has it.
    pub fn set_set_current_name(&mut self, name: Option<String>)
        requires
            old(self).wf(),
        ensures
            final(self).wf(),
            current_effect(old(self), final(self), opt_view(name)),
            final(self).lists == (Lists {
                set_current_name: name,
                set_current_index: match name {
                    Some(n) => position_of(old(self).lists.set_names@, n@),
                    None => None,
                },
                ..old(self).lists
            }),
            old(self).relisted(final(self).lists, old(self).ctx.common).stepped(
                final(self),
                Events::SetCurrentChanged,
            ),
            final(self).input == old(self).input,
    {
        let index = match &name {
            Some(n) => find_name(&self.lists.set_names, n),
            None => None,
        };
        self.lists.set_current_name = name;
        self.lists.set_current_index = index;
        self.handle_event(Events::SetCurrentChanged);
    }

    /// Takes the name of the loaded preset; it is marked in the preset list
    /// where the list has it.
    pub fn set_preset_loaded_name(&mut self, name: Option<String>)
        requires
            old(self).wf(),
        ensures
            final(self).wf(),
            loaded_effect(old(self), final(self), opt_view(name)),
            final(self).lists == (Lists {
                set_preset_loaded_name: name,
                set_preset_loaded_index: match name {
                    Some(n) => position_of(old(self).lists.set_preset_names@, n@),
                    None => None,
                },
                ..old(self).lists
            }),
            old(self).relisted(final(self).lists, old(self).ctx.common).stepped(
                final(self),
                Events::SetPresetLoadedChanged,
            ),
            final(self).input == old(self).input,
    {
        let index = match &name {
            Some(n) => find_name(&self.lists.set_preset_names, n),
            None => None,
        };
        self.lists.set_preset_loaded_name = name;
        self.lists.set_preset_loaded_index = index;
        self.handle_event(Events::SetPresetLoadedChanged);
    }

    /// Records that a started program ended: the power menu can no longer be
    /// left, and the top level shows the error.
    pub fn display_child_process_error(&mut self, name: String)
        requires
            old(self).wf(),
        ensures
            final(self).wf(),
            final(self).status == (Status { child_process_error: Some(name), ..old(self).status }),
            old(self).restatus(
                final(self).status,
                CommonContext { can_exit_powermenu: false, ..old(self).ctx.common },
            ).stepped(final(self), Events::ChildProcessError),
            final(self).input == old(self).input,
    {
        self.ctx.common.can_exit_powermenu = false;
        self.status.child_process_error = Some(name);
        self.handle_event(Events::ChildProcessError);
    }

    /// Records the runner's version.
    pub fn set_runner_version(&mut self, version: &str)
        ensures
            final(self).status.runner_rnbo_version is Some,
            final(self).status.runner_rnbo_version->0@ == version@,
            final(self).status == (Status {
                runner_rnbo_version: final(self).status.runner_rnbo_version,
                ..old(self).status
            }),
            final(self).unchanged_but_status(old(self)),
    {
        self.status.runner_rnbo_version = Some(version.to_owned());
    }

    /// Everything but the status is as in `o`.
    pub open spec fn unchanged_but_status(&self, o: &Controller) -> bool {
        &&& self.menus == o.menus
        &&& self.ctx == o.ctx
        &&& self.midi_out == o.midi_out
        &&& self.input == o.input
        &&& self.exit == o.exit
        &&& self.line_token == o.line_token
        &&& self.lights == o.lights
        &&& self.lists == o.lists
        &&& self.views == o.views
        &&& self.book == o.book
        &&& self.user_views == o.user_views
    }
}

} // verus!

//! Carrying out the commands the menus queue: messages for the runner and
//! the device, volume changes, popups, and work handed to the caller.
use vstd::prelude::*;
use crate::context::CommonContext;
use crate::controller::{midi_wf, Controller, Status};
use crate::dispatch::{spec_dispatch_cmds, Menus};
use crate::events::{Cmd, Events};
use crate::input::MOVE_CTL_MIDI_CHAN;
use crate::midi::{messages, power_messages, power_sysex, Midi, PowerCommand};
use crate::osc::{
    msg_bool, msg_int, msg_str, msg_two, out_views, ArgView, OscArg, OscMsg, OutView, Outgoing,
    INST_LOAD_ADDR, INST_UNLOAD_ADDR, SET_LOAD_ADDR, SET_PRESETS_DELETE_ADDR, SET_PRESETS_LOAD_ADDR,
    SET_PRESETS_RENAME_ADDR, SET_PRESETS_SAVE_ADDR, SET_VIEW_DISPLAY, TRANSPORT_ROLLING_ADDR,
};
use crate::popup::Popup;
use crate::text::{concat, decimal, decimal_string};
use vstd::string::StringExecFns;

verus! {

/// How a saved preset is named: the local date and time of the save.
pub const PRESET_NAME_FORMAT: &'static str = "%y-%m-%d %H:%M:%S";

/// A name in the shape `yy-mm-dd HH:MM:SS`: seventeen characters, two
/// decimal digits each for year, month, day, hour, minute and second, with
/// `-`, ` ` and `:` between them.
pub open spec fn timestamp_shaped(s: Seq<char>) -> bool {
    &&& s.len() == 17
    &&& forall|i: int|
        0 <= i < 17 ==> if i == 2 || i == 5 {
            #[trigger] s[i] == '-'
        } else if i == 8 {
            s[i] == ' '
        } else if i == 11 || i == 14 {
            s[i] == ':'
        } else {
            '0' <= s[i] <= '9'
        }
}

/// `chrono::Local::now().format(format).to_string()`: the local time written
/// in `format`. Which time it is comes from the clock and is not stated; the
/// shape is: chrono writes each of `%y`, `%m`, `%d`, `%H`, `%M` and `%S` as
/// two zero-padded digits (the year modulo 100, seconds at most 60) and the
/// other characters of the format as they are. chrono's `to_string` panics
/// on a format it cannot write, so `format` is the one format the library
/// names.
#[verifier::external_body]
fn timestamp_name(format: &str) -> (r: String)
    requires
        format@ == PRESET_NAME_FORMAT@,
    ensures
        timestamp_shaped(r@),
{
    chrono::Local::now().format(format).to_string()
}

/// A popup request never queues a command.
pub proof fn lemma_popup_request_queues_nothing(m: Menus, ctx: &CommonContext)
    ensures
        spec_dispatch_cmds(m, ctx, Events::PopupRequested) == Seq::<Cmd>::empty(),
{
}

/// The volume stepped by `amt` and kept within 0 to 255.
pub open spec fn stepped_volume(v: u8, amt: isize) -> u8 {
    let n = v + amt;
    if n < 0 {
        0
    } else if n > 255 {
        255
    } else {
        n as u8
    }
}

/// The message that loads or unloads nothing in particular: unload all.
pub open spec fn unload_all() -> OutView {
    OutView::Osc(INST_UNLOAD_ADDR@, seq![ArgView::Int(-1i32)])
}

/// A message with one string argument.
pub open spec fn str_msg(addr: Seq<char>, s: Seq<char>) -> OutView {
    OutView::Osc(addr, seq![ArgView::Str(s)])
}

/// The address of an instance's dataref.
pub open spec fn dataref_addr(instance: usize, name: Seq<char>) -> Seq<char> {
    "/rnbo/inst/"@ + decimal(instance as nat) + "/data_refs/"@ + name
}

/// The entry `i` of a name list, if it has one.
pub open spec fn name_at(s: Seq<String>, i: usize) -> Option<Seq<char>> {
    if i < s.len() {
        Some(s[i as int]@)
    } else {
        None
    }
}

/// Nothing but the volume setting changed.
pub open spec fn only_volume(pre: &Controller, post: &Controller, v: u8) -> bool {
    &&& post.status == (Status { config: crate::config::Config { volume: v, ..pre.status.config }, ..pre.status })
    &&& post.unchanged_but_status(pre)
}

/// Nothing changed but the messages for the device, which got `ms`.
pub open spec fn only_midi(pre: &Controller, post: &Controller, ms: Seq<Seq<u8>>) -> bool {
    &&& messages(post.midi_out@) == messages(pre.midi_out@) + ms
    &&& post.menus == pre.menus
    &&& post.ctx == pre.ctx
    &&& post.input == pre.input
    &&& post.exit == pre.exit
    &&& post.line_token == pre.line_token
    &&& post.lights == pre.lights
    &&& post.lists == pre.lists
    &&& post.status == pre.status
    &&& post.views == pre.views
    &&& post.book == pre.book
    &&& post.user_views == pre.user_views
}

/// Nothing changed.
pub open spec fn same(pre: &Controller, post: &Controller) -> bool {
    pre.unchanged(post) && post.input == pre.input
}

/// A popup with this title and content came up: the top level machine
/// heard of the request, and nothing else changed.
pub open spec fn popped(pre: &Controller, post: &Controller, title: Seq<char>, content: Seq<char>, long: bool) -> bool {
    &&& post.status.popup.spec_title() == title
    &&& post.status.popup.spec_content() == content
    &&& post.status.popup.spec_long() == long
    &&& pre.restatus(Status { popup: post.status.popup, ..pre.status }, pre.ctx.common).stepped(
        post,
        Events::PopupRequested,
    )
    &&& post.input == pre.input
}

/// What carrying out `cmd` does: `post` is the controller after it, `out`
/// what it hands the caller, `go_on` whether the next command may follow.
pub open spec fn cmd_outcome(pre: &Controller, cmd: Cmd, post: &Controller, out: Seq<OutView>, go_on: bool) -> bool {
    match cmd {
        Cmd::Power(p) => go_on && out.len() == 0 && only_midi(pre, post, power_messages(p)),
        Cmd::OffsetParam { instance, index, offset } => {
            let ip = pre.book.instance_params@;
            &&& go_on
            &&& same(pre, post)
            &&& out == if instance < ip.len() && index < ip[instance as int]@.len() {
                seq![OutView::OffsetParam(ip[instance as int]@[index as int], offset)]
            } else {
                Seq::empty()
            }
        },
        Cmd::OffsetViewParam { view, index, offset } => {
            let vp = pre.views.params@;
            &&& go_on
            &&& same(pre, post)
            &&& out == if view < vp.len() && index < vp[view as int]@.len() {
                seq![OutView::OffsetParam(vp[view as int]@[index as int], offset)]
            } else {
                Seq::empty()
            }
        },
        Cmd::OffsetVolume(amt) => go_on && out.len() == 0 && only_volume(
            pre,
            post,
            stepped_volume(pre.status.config.volume, amt),
        ),
        Cmd::OffsetTempo(o) => go_on && same(pre, post) && out == seq![OutView::OffsetTempo(o)],
        Cmd::MulTempoOffset(b) => go_on && same(pre, post) && out == seq![OutView::MulTempoOffset(b)],
        Cmd::ToggleTransport => go_on && same(pre, post) && out == seq![
            OutView::Osc(TRANSPORT_ROLLING_ADDR@, seq![ArgView::Bool(!pre.status.rolling)]),
        ],
        Cmd::LightButton { btn, val } => go_on && out.len() == 0 && only_midi(
            pre,
            post,
            seq![seq![0xb0u8 | MOVE_CTL_MIDI_CHAN, btn, val]],
        ),
        Cmd::UpdateDataFileList => !go_on && same(pre, post) && out == seq![OutView::ListDataFiles],
        Cmd::LoadDataref(instance, dataref, file) => {
            let files = pre.lists.datafile_list@;
            let di = pre.book.datarefs_instance_indexes@;
            let insts = pre.book.instances@;
            if file > 0 && file - 1 >= files.len() {
                !go_on && same(pre, post) && out.len() == 0
            } else {
                let filename = if file == 0 {
                    Seq::<char>::empty()
                } else {
                    files[file - 1]@
                };
                &&& go_on
                &&& same(pre, post)
                &&& out == if instance < di.len() && di[instance as int] < insts.len() && dataref
                    < insts[di[instance as int] as int].visible_datarefs@.len() {
                    let inst = insts[di[instance as int] as int];
                    seq![
                        str_msg(
                            dataref_addr(inst.index, inst.visible_datarefs@[dataref as int]@),
                            filename,
                        ),
                    ]
                } else {
                    Seq::empty()
                }
            }
        },
        Cmd::LoadSet(i) => go_on && same(pre, post) && out == if i == 0 {
            seq![unload_all()]
        } else {
            match name_at(pre.lists.set_names@, i) {
                Some(n) => seq![str_msg(SET_LOAD_ADDR@, n)],
                None => Seq::empty(),
            }
        },
        Cmd::SaveSetPreset => {
            &&& go_on
            &&& out.len() == 1
            &&& out[0] is Osc
            &&& out[0]->Osc_0 == SET_PRESETS_SAVE_ADDR@
            &&& out[0]->Osc_1.len() == 1
            &&& out[0]->Osc_1[0] is Str
            &&& timestamp_shaped(out[0]->Osc_1[0]->Str_0)
            &&& popped(pre, post, "Preset Saved"@, out[0]->Osc_1[0]->Str_0, false)
        },
        Cmd::LoadSetPreset(i) => go_on && same(pre, post) && out == match name_at(
            pre.lists.set_preset_names@,
            i,
        ) {
            Some(n) => seq![str_msg(SET_PRESETS_LOAD_ADDR@, n)],
            None => Seq::empty(),
        },
        Cmd::OverwriteSetPreset(i) => go_on && match name_at(pre.lists.set_preset_names@, i) {
            Some(n) => out == seq![str_msg(SET_PRESETS_SAVE_ADDR@, n)] && popped(
                pre,
                post,
                "Overwritten"@,
                n,
                false,
            ),
            None => out.len() == 0 && same(pre, post),
        },
        Cmd::SetInitialSetPreset(i) => go_on && match name_at(pre.lists.set_preset_names@, i) {
            Some(n) => if n != "initial"@ {
                &&& out == seq![
                    str_msg(SET_PRESETS_DELETE_ADDR@, "initial"@),
                    OutView::Osc(
                        SET_PRESETS_RENAME_ADDR@,
                        seq![ArgView::Str(n), ArgView::Str("initial"@)],
                    ),
                ]
                &&& popped(pre, post, "Preset Renamed"@, n + " -> initial"@, true)
            } else {
                out.len() == 0 && same(pre, post)
            },
            None => out.len() == 0 && same(pre, post),
        },
        Cmd::DeleteSetPreset(i) => go_on && match name_at(pre.lists.set_preset_names@, i) {
            Some(n) => out == seq![str_msg(SET_PRESETS_DELETE_ADDR@, n)] && popped(
                pre,
                post,
                "Preset Deleted"@,
                n,
                false,
            ),
            None => out.len() == 0 && same(pre, post),
        },
        Cmd::LoadPatcher(i) => go_on && same(pre, post) && out == seq![unload_all()] + match name_at(
            pre.lists.patcher_names@,
            i,
        ) {
            Some(n) => seq![OutView::Osc(INST_LOAD_ADDR@, seq![ArgView::Int(-1i32), ArgView::Str(n)])],
            None => Seq::empty(),
        },
        Cmd::ReportViewParamPage(index, page) => go_on && same(pre, post) && out == seq![
            OutView::Osc(
                SET_VIEW_DISPLAY@,
                seq![ArgView::Int(index as i32), ArgView::Int(page as i32)],
            ),
        ],
    }
}

fn one(o: Outgoing) -> (v: Vec<Outgoing>)
    ensures
        out_views(v@) == seq![o@],
{
    let ghost ov = o@;
    let mut v: Vec<Outgoing> = Vec::new();
    v.push(o);
    assert(out_views(v@) =~= seq![ov]);
    v
}

fn none() -> (v: Vec<Outgoing>)
    ensures
        out_views(v@) == Seq::<OutView>::empty(),
{
    let v: Vec<Outgoing> = Vec::new();
    assert(out_views(v@) =~= Seq::<OutView>::empty());
    v
}

impl Controller {
    /// Shows a popup and lets the top level machine know.
    pub fn request_popup(&mut self, title: String, content: String, long: bool)
        requires
            old(self).wf(),
        ensures
            final(self).wf(),
            popped(old(self), final(self), title@, content@, long),
            final(self).ctx.queue@ == old(self).ctx.queue@,
    {
        self.status.popup = if long {
            Popup::new_long(title, content)
        } else {
            Popup::new(title, content)
        };
        proof {
            lemma_popup_request_queues_nothing(self.menus, &self.ctx.common);
        }
        self.handle_event(Events::PopupRequested);
        assert(final(self).ctx.queue@ =~= old(self).ctx.queue@);
    }

    /// Carries out one command; returns what goes to the caller, and whether
    /// the next command may follow at once.
    pub fn process_cmd(&mut self, cmd: Cmd) -> (r: (Vec<Outgoing>, bool))
        requires
            old(self).wf(),
        ensures
            final(self).wf(),
            cmd_outcome(old(self), cmd, final(self), out_views(r.0@), r.1),
            final(self).ctx.queue@ == old(self).ctx.queue@,
    {
        match cmd {
            Cmd::Power(p) => {
                let ms = power_sysex(p);
                let ghost m0 = self.midi_out@;
                self.midi_out.push(ms[0]);
                self.midi_out.push(ms[1]);
                self.midi_out.push(ms[2]);
                assert(messages(self.midi_out@) =~= messages(m0) + messages(ms@));
                (none(), true)
            },
            Cmd::OffsetParam { instance, index, offset } => {
                if instance < self.book.instance_params.len() && index
                    < self.book.instance_params[instance].len() {
                    (one(Outgoing::OffsetParam(self.book.instance_params[instance][index], offset)), true)
                } else {
                    (none(), true)
                }
            },
            Cmd::OffsetViewParam { view, index, offset } => {
                if view < self.views.params.len() && index < self.views.params[view].len() {
                    (one(Outgoing::OffsetParam(self.views.params[view][index], offset)), true)
                } else {
                    (none(), true)
                }
            },
            Cmd::OffsetVolume(amt) => {
                let cur = self.status.config.volume as i128;
                let next = cur + amt as i128;
                let v: u8 = if next < 0 {
                    0
                } else if next > 255 {
                    255
                } else {
                    next as u8
                };
                self.status.config.volume = v;
                (none(), true)
            },
            Cmd::OffsetTempo(o) => (one(Outgoing::OffsetTempo(o)), true),
            Cmd::MulTempoOffset(b) => (one(Outgoing::MulTempoOffset(b)), true),
            Cmd::ToggleTransport => (
                one(Outgoing::Osc(msg_bool(TRANSPORT_ROLLING_ADDR, !self.status.rolling))),
                true,
            ),
            Cmd::LightButton { btn, val } => {
                let ghost m0 = self.midi_out@;
                self.midi_out.push(Midi::cc(btn, val, MOVE_CTL_MIDI_CHAN));
                assert(messages(self.midi_out@) =~= messages(m0) + seq![
                    seq![0xb0u8 | MOVE_CTL_MIDI_CHAN, btn, val],
                ]);
                (none(), true)
            },
            Cmd::UpdateDataFileList => (one(Outgoing::ListDataFiles), false),
            Cmd::LoadDataref(instance, dataref, file) => {
                let filename = if file == 0 {
                    String::new()
                } else if file - 1 < self.lists.datafile_list.len() {
                    self.lists.datafile_list[file - 1].clone()
                } else {
                    return (none(), false);
                };
                if instance < self.book.datarefs_instance_indexes.len() {
                    let pos = self.book.datarefs_instance_indexes[instance];
                    if pos < self.book.instances.len() && dataref
                        < self.book.instances[pos].visible_datarefs.len() {
                        let inst = &self.book.instances[pos];
                        let mut addr = concat("/rnbo/inst/", decimal_string(inst.index).as_str());
                        addr.append("/data_refs/");
                        addr.append(inst.visible_datarefs[dataref].as_str());
                        proof {
                            reveal_strlit("/rnbo/inst/");
                            reveal_strlit("/data_refs/");
                        }
                        return (one(Outgoing::Osc(msg_str(addr.as_str(), filename))), true);
                    }
                }
                (none(), true)
            },
            Cmd::LoadSet(i) => {
                if i == 0 {
                    (one(Outgoing::Osc(msg_int(INST_UNLOAD_ADDR, -1))), true)
                } else if i < self.lists.set_names.len() {
                    (one(Outgoing::Osc(msg_str(SET_LOAD_ADDR, self.lists.set_names[i].clone()))), true)
                } else {
                    (none(), true)
                }
            },
            Cmd::SaveSetPreset => {
                let name = timestamp_name(PRESET_NAME_FORMAT);
                let m = msg_str(SET_PRESETS_SAVE_ADDR, name.clone());
                self.request_popup("Preset Saved".to_owned(), name, false);
                (one(Outgoing::Osc(m)), true)
            },
            Cmd::LoadSetPreset(i) => {
                if i < self.lists.set_preset_names.len() {
                    (
                        one(
                            Outgoing::Osc(
                                msg_str(SET_PRESETS_LOAD_ADDR, self.lists.set_preset_names[i].clone()),
                            ),
                        ),
                        true,
                    )
                } else {
                    (none(), true)
                }
            },
            Cmd::OverwriteSetPreset(i) => {
                if i < self.lists.set_preset_names.len() {
                    let name = self.lists.set_preset_names[i].clone();
                    let m = msg_str(SET_PRESETS_SAVE_ADDR, name.clone());
                    self.request_popup("Overwritten".to_owned(), name, false);
                    (one(Outgoing::Osc(m)), true)
                } else {
                    (none(), true)
                }
            },
            Cmd::SetInitialSetPreset(i) => {
                if i < self.lists.set_preset_names.len() {
                    let name = self.lists.set_preset_names[i].clone();
                    let initial = "initial".to_owned();
                    if name != initial {
                        let del = msg_str(SET_PRESETS_DELETE_ADDR, initial.clone());
                        let ren = msg_two(
                            SET_PRESETS_RENAME_ADDR,
                            OscArg::Str(name.clone()),
                            OscArg::Str(initial),
                        );
                        let content = concat(name.as_str(), " -> initial");
                        self.request_popup("Preset Renamed".to_owned(), content, true);
                        let mut out: Vec<Outgoing> = Vec::new();
                        let ghost dv = Outgoing::Osc(del)@;
                        let ghost rv = Outgoing::Osc(ren)@;
                        out.push(Outgoing::Osc(del));
                        out.push(Outgoing::Osc(ren));
                        assert(out_views(out@) =~= seq![dv, rv]);
                        (out, true)
                    } else {
                        (none(), true)
                    }
                } else {
                    (none(), true)
                }
            },
            Cmd::DeleteSetPreset(i) => {
                if i < self.lists.set_preset_names.len() {
                    let name = self.lists.set_preset_names[i].clone();
                    let m = msg_str(SET_PRESETS_DELETE_ADDR, name.clone());
                    self.request_popup("Preset Deleted".to_owned(), name, false);
                    (one(Outgoing::Osc(m)), true)
                } else {
                    (none(), true)
                }
            },
            Cmd::LoadPatcher(i) => {
                let mut out = one(Outgoing::Osc(msg_int(INST_UNLOAD_ADDR, -1)));
                if i < self.lists.patcher_names.len() {
                    let m = msg_two(
                        INST_LOAD_ADDR,
                        OscArg::Int(-1),
                        OscArg::Str(self.lists.patcher_names[i].clone()),
                    );
                    let ghost o0 = out_views(out@);
                    let ghost mv = Outgoing::Osc(m)@;
                    out.push(Outgoing::Osc(m));
                    assert(out_views(out@) =~= o0 + seq![mv]);
                } else {
                    assert(out_views(out@) =~= out_views(out@) + Seq::<OutView>::empty());
                }
                (out, true)
            },
            Cmd::ReportViewParamPage(index, page) => (
                one(
                    Outgoing::Osc(
                        msg_two(SET_VIEW_DISPLAY, OscArg::Int(index as i32), OscArg::Int(page as i32)),
                    ),
                ),
                true,
            ),
        }
    }

    /// Carries out the queued commands, oldest first, until the queue is
    /// empty or a command asks the caller to act first; returns what goes to
    /// the caller, in order.
    pub fn process_cmds(&mut self) -> (out: Vec<Outgoing>)
        requires
            old(self).wf(),
        ensures
            final(self).wf(),
            exists|states: Seq<Controller>, takens: Seq<Controller>, outs: Seq<Seq<OutView>>, gos: Seq<bool>|
                #[trigger] processed(old(self), final(self), states, takens, outs, gos, out_views(out@)),
    {
        let mut out: Vec<Outgoing> = Vec::new();
        let ghost mut states: Seq<Controller> = seq![*self];
        let ghost mut takens: Seq<Controller> = Seq::empty();
        let ghost mut outs: Seq<Seq<OutView>> = Seq::empty();
        let ghost mut gos: Seq<bool> = Seq::empty();
        assert(out_views(out@) =~= outs.flatten());
        while self.ctx.queue.len() > 0
            invariant_except_break
                self.wf(),
                steps_so_far(old(self), self, states, takens, outs, gos, out_views(out@)),
                forall|i: int| 0 <= i < gos.len() ==> #[trigger] gos[i],
            ensures
                self.wf(),
                steps_so_far(old(self), self, states, takens, outs, gos, out_views(out@)),
                forall|i: int| 0 <= i < gos.len() - 1 ==> #[trigger] gos[i],
                self.ctx.queue@.len() == 0 || (gos.len() > 0 && !gos.last()),
            decreases self.ctx.queue@.len(),
        {
            let ghost pre = *self;
            let cmd = self.ctx.queue.remove(0);
            let ghost taken = *self;
            let (mut o, go_on) = self.process_cmd(cmd);
            proof {
                let ov = out_views(o@);
                assert(cmd_step(&pre, &taken, self, ov, go_on));
                lemma_flatten_push(outs, ov);
                states = states.push(*self);
                takens = takens.push(taken);
                outs = outs.push(ov);
                gos = gos.push(go_on);
            }
            let ghost o0 = out_views(out@);
            let ghost ov = out_views(o@);
            out.append(&mut o);
            assert(out_views(out@) =~= o0 + ov);
            if !go_on {
                break;
            }
        }
        assert(processed(old(self), self, states, takens, outs, gos, out_views(out@)));
        out
    }
}

/// One command taken from the front of the queue and carried out: `pre`
/// is the controller before, `taken` with the command taken off its queue,
/// `post` after it was carried out, `out` what went to the caller.
pub open spec fn cmd_step(pre: &Controller, taken: &Controller, post: &Controller, out: Seq<OutView>, go_on: bool) -> bool {
    &&& pre.ctx.queue@.len() > 0
    &&& taken.ctx.queue@ == pre.ctx.queue@.drop_first()
    &&& *taken == Controller {
        ctx: crate::context::Context { queue: taken.ctx.queue, common: pre.ctx.common },
        ..*pre
    }
    &&& cmd_outcome(taken, pre.ctx.queue@[0], post, out, go_on)
}

/// The commands carried out so far: a chain of states from `pre` to `post`,
/// one step per command, and what the steps handed out, in order.
pub open spec fn steps_so_far(
    pre: &Controller,
    post: &Controller,
    states: Seq<Controller>,
    takens: Seq<Controller>,
    outs: Seq<Seq<OutView>>,
    gos: Seq<bool>,
    out: Seq<OutView>,
) -> bool {
    &&& states.len() == outs.len() + 1
    &&& takens.len() == outs.len()
    &&& gos.len() == outs.len()
    &&& states[0] == *pre
    &&& states.last() == *post
    &&& forall|i: int| 0 <= i < outs.len() ==> #[trigger] cmd_step(&states[i], &takens[i], &states[i + 1], outs[i], gos[i])
    &&& out == outs.flatten()
}

/// The queue was worked off from the front, one command after another,
/// until it was empty or a command asked the caller to act first.
pub open spec fn processed(
    pre: &Controller,
    post: &Controller,
    states: Seq<Controller>,
    takens: Seq<Controller>,
    outs: Seq<Seq<OutView>>,
    gos: Seq<bool>,
    out: Seq<OutView>,
) -> bool {
    &&& steps_so_far(pre, post, states, takens, outs, gos, out)
    &&& forall|i: int| 0 <= i < gos.len() - 1 ==> #[trigger] gos[i]
    &&& post.ctx.queue@.len() == 0 || (gos.len() > 0 && !gos.last())
}

proof fn lemma_flatten_push(outs: Seq<Seq<OutView>>, x: Seq<OutView>)
    ensures
        outs.push(x).flatten() == outs.flatten() + x,
{
    assert(outs.push(x) =~= outs + seq![x]);
    vstd::seq_lib::lemma_flatten_concat(outs, seq![x]);
    seq![x].lemma_flatten_one_element();
}

} // verus!

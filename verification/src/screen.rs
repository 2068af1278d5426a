//! What the screens light up: the menu and back buttons, and the LEDs beside
//! the encoders of the parameters on the current page.
use vstd::prelude::*;
use crate::controller::{midi_wf, Controller};
use crate::input::{BACK_MIDI, MENU_MIDI, MOVE_CTL_MIDI_CHAN};
use crate::machines::{MainState, TopState, ViewState};
use crate::midi::{led_color, messages, Midi, MoveColor};
use crate::nav::{DataLoad, InstSelType, ParamPage, PresetListOp, ITEM_INDICATOR, SUB_MENU_INDICATOR};
use crate::machines::{
    ABOUT_INDEX, DEVICE_DATA_INDEX, DEVICE_PARAMS_INDEX, GRAPHS_INDEX, GRAPH_PRESETS_INDEX,
    PATCHERS_INDEX, PRESET_MENU_DELETE_INDEX, PRESET_MENU_LOAD_INDEX, PRESET_MENU_OVERWRITE_INDEX,
    PRESET_MENU_SET_INTIAL_INDEX, TEMPO_INDEX,
};
use crate::incoming::dataref_named;
use crate::controller::position_of;
use crate::text::{concat, decimal, decimal_string};

verus! {

/// Both buttons light gray.
pub open spec fn both_gray() -> Seq<(u8, MoveColor)> {
    seq![(MENU_MIDI, MoveColor::LightGray), (BACK_MIDI, MoveColor::LightGray)]
}

/// For the current screen, the token that marks it and the buttons it lights;
/// `None` for a screen that leaves the buttons alone.
pub open spec fn spec_button_plan(c: &Controller) -> Option<(u32, Seq<(u8, MoveColor)>)> {
    let lg = MoveColor::LightGray;
    match c.menus.top {
        TopState::Init => Some((1u32, both_gray())),
        TopState::LaunchMove => Some((2u32, Seq::empty())),
        TopState::PowerOff => Some((3u32, Seq::empty())),
        TopState::PromptExit(_) => Some((4u32, if c.status.child_process_error is None {
            seq![(BACK_MIDI, lg)]
        } else {
            Seq::empty()
        })),
        TopState::VolumeEditor(_) => Some((5u32, seq![(BACK_MIDI, lg), (MENU_MIDI, lg)])),
        TopState::DisplayChildProcessError => Some((6u32, Seq::empty())),
        TopState::Popup(_) => None,
        TopState::Main => match c.menus.main {
            MainState::Init => None,
            MainState::Menu(_) => Some((7u32, seq![(MENU_MIDI, lg)])),
            MainState::TempoEditor => Some((8u32, both_gray())),
            MainState::About => Some((9u32, both_gray())),
            MainState::SetsList(_) => Some((10u32, both_gray())),
            MainState::GraphPresetMenu(_) => Some((11u32, both_gray())),
            MainState::GraphPresetsList(_) => Some((12u32, both_gray())),
            MainState::PatcherInstances(_) => Some((13u32, both_gray())),
            MainState::PatcherParams(_) => Some((14u32, both_gray())),
            MainState::PatcherDatarefs(_) => Some((15u32, both_gray())),
            MainState::PatcherDatarefLoad(_) => Some((16u32, both_gray())),
            MainState::PatchersList(_) => Some((17u32, both_gray())),
        },
        TopState::ParamViews => match c.menus.view {
            ViewState::ParamViewMenu(_) => Some((18u32, seq![(MENU_MIDI, lg)])),
            ViewState::ViewParams(_) => Some((19u32, both_gray())),
        },
    }
}

/// The colour the pairs give `btn`: the last pair for it, or black.
pub open spec fn light_for(pairs: Seq<(u8, MoveColor)>, btn: u8) -> MoveColor
    decreases pairs.len(),
{
    if pairs.len() == 0 {
        MoveColor::Black
    } else if pairs.last().0 == btn {
        pairs.last().1
    } else {
        light_for(pairs.drop_last(), btn)
    }
}

/// The message that lights `btn` in `c`.
pub open spec fn light_msg(btn: u8, c: MoveColor) -> Seq<u8> {
    seq![0xb0u8 | MOVE_CTL_MIDI_CHAN, btn, c.spec_value()]
}

/// The messages that change the menu and back buttons from `menu` and `back`
/// (`None`: unknown) to what the pairs give them, menu first.
pub open spec fn light_updates(menu: Option<MoveColor>, back: Option<MoveColor>, pairs: Seq<(u8, MoveColor)>) -> Seq<Seq<u8>> {
    let m = light_for(pairs, MENU_MIDI);
    let b = light_for(pairs, BACK_MIDI);
    (if menu != Some(m) {
        seq![light_msg(MENU_MIDI, m)]
    } else {
        Seq::empty()
    }) + (if back != Some(b) {
        seq![light_msg(BACK_MIDI, b)]
    } else {
        Seq::empty()
    })
}

/// The messages that set encoder LED `index` to `c`.
pub open spec fn led_messages(index: u8, c: (u8, u8, u8)) -> Seq<Seq<u8>> {
    let r = if c.0 < 1 { 1u8 } else { c.0 };
    let g = if c.1 < 1 { 1u8 } else { c.1 };
    let b = if c.2 < 1 { 1u8 } else { c.2 };
    seq![
        seq![0xF0u8, 0x00, 0x21],
        seq![0x1Du8, 0x01, 0x01],
        seq![0x3bu8, 0x10, (index + 71) as u8],
        seq![r & 0x7F, r >> 7, g & 0x7F],
        seq![g >> 7, b & 0x7F, b >> 7],
        seq![0xF7u8],
    ]
}

/// The messages that bring the first `n` LEDs from `last` (`None`: unknown) to
/// `vals`, LED by LED, for those that differ or are unknown.
pub open spec fn led_updates(last: Seq<Option<(u8, u8, u8)>>, vals: Seq<(u8, u8, u8)>, n: nat) -> Seq<Seq<u8>>
    decreases n,
{
    if n == 0 {
        Seq::empty()
    } else {
        let i = (n - 1) as int;
        led_updates(last, vals, (n - 1) as nat) + if last[i] != Some(vals[i]) {
            led_messages(i as u8, vals[i])
        } else {
            Seq::empty()
        }
    }
}

/// The positions in the parameter list of the parameters on page `page` of
/// a list (eight to a page); none when the page lies past the list or its
/// start overflows.
pub open spec fn page_slice(list: Seq<usize>, page: usize) -> Seq<usize> {
    let offset = page * 8;
    if offset > usize::MAX || offset >= list.len() {
        Seq::empty()
    } else if offset + 8 <= list.len() {
        list.subrange(offset, offset + 8)
    } else {
        list.subrange(offset, list.len() as int)
    }
}

/// The list of parameters behind the screen's page, and the page.
pub open spec fn page_source(c: &Controller) -> Option<(Seq<usize>, ParamPage)> {
    match c.menus.top {
        TopState::ParamViews => match c.menus.view {
            ViewState::ViewParams(p) => if p.index < c.views.names@.len() && p.index < c.views.params@.len() {
                Some((c.views.params@[p.index as int]@, p))
            } else {
                None
            },
            _ => None,
        },
        TopState::Main => match c.menus.main {
            MainState::PatcherParams(p) => if p.index < c.book.instance_params@.len() {
                Some((c.book.instance_params@[p.index as int]@, p))
            } else {
                None
            },
            _ => None,
        },
        _ => None,
    }
}

/// The parameters whose LEDs the current screen lights, by slot.
pub open spec fn spec_page_params(c: &Controller) -> Seq<usize> {
    match page_source(c) {
        Some((list, p)) => page_slice(list, p.page),
        None => Seq::empty(),
    }
}

/// The focused parameter of the current screen, if it has one.
pub open spec fn spec_focused_param(c: &Controller) -> Option<usize> {
    match page_source(c) {
        Some((list, p)) => match p.focused {
            Some(f) => {
                let i = p.page * 8 + f;
                if i < list.len() {
                    Some(list[i])
                } else {
                    None
                }
            },
            None => None,
        },
        None => None,
    }
}

/// The last alias noted for runner instance `i`.
pub open spec fn alias_hit(m: Seq<(usize, Seq<char>)>, i: usize) -> Option<Seq<char>>
    decreases m.len(),
{
    if m.len() == 0 {
        None
    } else if m.last().0 == i {
        Some(m.last().1)
    } else {
        alias_hit(m.drop_last(), i)
    }
}

fn light_of(pairs: &Vec<(u8, MoveColor)>, btn: u8) -> (c: MoveColor)
    ensures
        c == light_for(pairs@, btn),
{
    let mut j: usize = pairs.len();
    assert(pairs@.take(j as int) =~= pairs@);
    while j > 0
        invariant
            j <= pairs@.len(),
            light_for(pairs@, btn) == light_for(pairs@.take(j as int), btn),
        decreases j,
    {
        assert(pairs@.take(j as int).drop_last() =~= pairs@.take(j - 1));
        if pairs[j - 1].0 == btn {
            return pairs[j - 1].1;
        }
        j = j - 1;
    }
    assert(pairs@.take(0) =~= Seq::<(u8, MoveColor)>::empty());
    MoveColor::Black
}

/// Whether the light is known to show `b`.
fn known_as(a: Option<MoveColor>, b: MoveColor) -> (r: bool)
    ensures
        r == (a == Some(b)),
{
    match a {
        Some(c) => same_color(c, b),
        None => false,
    }
}

fn same_color(a: MoveColor, b: MoveColor) -> (r: bool)
    ensures
        r == (a == b),
{
    a.value() == b.value() && match (a, b) {
        (MoveColor::Black, MoveColor::Black) => true,
        (MoveColor::FullWhite, MoveColor::FullWhite) => true,
        (MoveColor::White, MoveColor::White) => true,
        (MoveColor::LightGray, MoveColor::LightGray) => true,
        (MoveColor::DarkGray, MoveColor::DarkGray) => true,
        (MoveColor::Blue, MoveColor::Blue) => true,
        (MoveColor::Green, MoveColor::Green) => true,
        (MoveColor::Red, MoveColor::Red) => true,
        _ => false,
    }
}

fn append_midi(out: &mut Vec<Midi>, ms: &[Midi; 6])
    requires
        midi_wf(old(out)@),
        forall|i: int| 0 <= i < 6 ==> (#[trigger] ms@[i]).wf(),
    ensures
        midi_wf(final(out)@),
        messages(final(out)@) == messages(old(out)@) + messages(ms@),
{
    let mut k: usize = 0;
    while k < 6
        invariant
            k <= 6,
            midi_wf(out@),
            forall|i: int| 0 <= i < 6 ==> (#[trigger] ms@[i]).wf(),
            messages(out@) == messages(old(out)@) + messages(ms@.take(k as int)),
        decreases 6 - k,
    {
        let ghost prev = out@;
        out.push(ms[k]);
        k = k + 1;
        assert(messages(out@) =~= messages(prev).push(ms@[k - 1]@));
        assert(messages(ms@.take(k as int)) =~= messages(ms@.take(k - 1)).push(ms@[k - 1]@));
        assert(messages(out@) =~= messages(old(out)@) + messages(ms@.take(k as int)));
    }
    assert(ms@.take(6) =~= ms@);
}

impl Controller {
    /// Everything but the device messages and the lights is as in `o`.
    pub open spec fn unchanged_but_lights(&self, o: &Controller) -> bool {
        &&& self.menus == o.menus
        &&& self.ctx == o.ctx
        &&& self.input == o.input
        &&& self.exit == o.exit
        &&& self.lists == o.lists
        &&& self.status == o.status
        &&& self.views == o.views
        &&& self.book == o.book
        &&& self.user_views == o.user_views
    }

    /// The current screen's token and the buttons it lights.
    pub fn button_plan(&self) -> (r: Option<(u32, Vec<(u8, MoveColor)>)>)
        ensures
            match spec_button_plan(self) {
                Some((t, ps)) => match r {
                    Some((rt, rp)) => rt == t && rp@ == ps,
                    None => false,
                },
                None => r is None,
            },
    {
        let lg = MoveColor::LightGray;
        let t: u32;
        let mut ps: Vec<(u8, MoveColor)> = Vec::new();
        match self.menus.top {
            TopState::Init => {
                t = 1;
                ps.push((MENU_MIDI, lg));
                ps.push((BACK_MIDI, lg));
            },
            TopState::LaunchMove => {
                t = 2;
            },
            TopState::PowerOff => {
                t = 3;
            },
            TopState::PromptExit(_) => {
                t = 4;
                if self.status.child_process_error.is_none() {
                    ps.push((BACK_MIDI, lg));
                }
            },
            TopState::VolumeEditor(_) => {
                t = 5;
                ps.push((BACK_MIDI, lg));
                ps.push((MENU_MIDI, lg));
            },
            TopState::DisplayChildProcessError => {
                t = 6;
            },
            TopState::Popup(_) => {
                return None;
            },
            TopState::Main => {
                match self.menus.main {
                    MainState::Init => {
                        return None;
                    },
                    MainState::Menu(_) => {
                        t = 7;
                        ps.push((MENU_MIDI, lg));
                    },
                    MainState::TempoEditor => {
                        t = 8;
                    },
                    MainState::About => {
                        t = 9;
                    },
                    MainState::SetsList(_) => {
                        t = 10;
                    },
                    MainState::GraphPresetMenu(_) => {
                        t = 11;
                    },
                    MainState::GraphPresetsList(_) => {
                        t = 12;
                    },
                    MainState::PatcherInstances(_) => {
                        t = 13;
                    },
                    MainState::PatcherParams(_) => {
                        t = 14;
                    },
                    MainState::PatcherDatarefs(_) => {
                        t = 15;
                    },
                    MainState::PatcherDatarefLoad(_) => {
                        t = 16;
                    },
                    MainState::PatchersList(_) => {
                        t = 17;
                    },
                }
                if t != 7 {
                    ps.push((MENU_MIDI, lg));
                    ps.push((BACK_MIDI, lg));
                }
            },
            TopState::ParamViews => {
                match self.menus.view {
                    ViewState::ParamViewMenu(_) => {
                        t = 18;
                        ps.push((MENU_MIDI, lg));
                    },
                    ViewState::ViewParams(_) => {
                        t = 19;
                        ps.push((MENU_MIDI, lg));
                        ps.push((BACK_MIDI, lg));
                    },
                }
            },
        }
        proof {
            match spec_button_plan(self) {
                Some((tt, pp)) => {
                    assert(ps@ =~= pp);
                },
                None => {},
            }
        }
        Some((t, ps))
    }

    /// Lights the menu and back buttons as the pairs say (black when they do
    /// not name one), sending only what changes, menu first.
    pub fn render_buttons(&mut self, pairs: &Vec<(u8, MoveColor)>)
        requires
            midi_wf(old(self).midi_out@),
        ensures
            midi_wf(final(self).midi_out@),
            messages(final(self).midi_out@) == messages(old(self).midi_out@) + light_updates(
                old(self).lights.menu,
                old(self).lights.back,
                pairs@,
            ),
            final(self).lights.menu == Some(light_for(pairs@, MENU_MIDI)),
            final(self).lights.back == Some(light_for(pairs@, BACK_MIDI)),
            final(self).lights.leds == old(self).lights.leds,
            final(self).line_token == old(self).line_token,
            final(self).unchanged_but_lights(old(self)),
    {
        let ghost m0 = messages(self.midi_out@);
        let m = light_of(pairs, MENU_MIDI);
        if !known_as(self.lights.menu, m) {
            self.lights.menu = Some(m);
            self.midi_out.push(Midi::cc(MENU_MIDI, m.value(), MOVE_CTL_MIDI_CHAN));
        }
        let ghost m1 = messages(self.midi_out@);
        assert(m1 =~= m0 + if old(self).lights.menu != Some(m) {
            seq![light_msg(MENU_MIDI, m)]
        } else {
            Seq::<Seq<u8>>::empty()
        });
        let b = light_of(pairs, BACK_MIDI);
        if !known_as(self.lights.back, b) {
            self.lights.back = Some(b);
            self.midi_out.push(Midi::cc(BACK_MIDI, b.value(), MOVE_CTL_MIDI_CHAN));
        }
        assert(messages(self.midi_out@) =~= m1 + if old(self).lights.back != Some(b) {
            seq![light_msg(BACK_MIDI, b)]
        } else {
            Seq::<Seq<u8>>::empty()
        });
        self.lights.menu = Some(m);
        self.lights.back = Some(b);
    }

    /// Lights the buttons for the current screen, once per visit: nothing
    /// happens when the screen's token is the one recorded last.
    pub fn refresh_buttons(&mut self)
        requires
            old(self).wf(),
        ensures
            final(self).wf(),
            match spec_button_plan(old(self)) {
                Some((t, ps)) => {
                    &&& final(self).line_token == t
                    &&& if old(self).line_token != t {
                        &&& messages(final(self).midi_out@) == messages(old(self).midi_out@) + light_updates(
                            old(self).lights.menu,
                            old(self).lights.back,
                            ps,
                        )
                        &&& final(self).lights.menu == Some(light_for(ps, MENU_MIDI))
                        &&& final(self).lights.back == Some(light_for(ps, BACK_MIDI))
                    } else {
                        final(self).midi_out == old(self).midi_out && final(self).lights == old(self).lights
                    }
                },
                None => final(self).line_token == old(self).line_token && final(self).midi_out
                    == old(self).midi_out && final(self).lights == old(self).lights,
            },
            final(self).lights.leds == old(self).lights.leds,
            final(self).unchanged_but_lights(old(self)),
    {
        match self.button_plan() {
            Some((t, ps)) => {
                if self.line_token != t {
                    self.render_buttons(&ps);
                }
                self.line_token = t;
            },
            None => {},
        }
    }

    /// Sends the colours of the encoder LEDs that changed since they were
    /// last sent, lowest slot first.
    pub fn render_params(&mut self, values: [(u8, u8, u8); 8])
        requires
            old(self).wf(),
        ensures
            final(self).wf(),
            messages(final(self).midi_out@) == messages(old(self).midi_out@) + led_updates(
                old(self).lights.leds@,
                values@,
                8,
            ),
            final(self).lights.leds@ == values@.map_values(|v: (u8, u8, u8)| Some(v)),
            final(self).lights.menu == old(self).lights.menu,
            final(self).lights.back == old(self).lights.back,
            final(self).line_token == old(self).line_token,
            final(self).unchanged_but_lights(old(self)),
    {
        let ghost last0 = self.lights.leds@;
        let ghost m0 = messages(self.midi_out@);
        let mut l: usize = 0;
        while l < 8
            invariant
                l <= 8,
                self.wf(),
                last0 == old(self).lights.leds@,
                forall|i: int| 0 <= i < l ==> self.lights.leds@[i] == Some(values@[i]),
                forall|i: int| l <= i < 8 ==> self.lights.leds@[i] == last0[i],
                messages(self.midi_out@) == m0 + led_updates(last0, values@, l as nat),
                self.lights.menu == old(self).lights.menu,
                self.lights.back == old(self).lights.back,
                self.line_token == old(self).line_token,
                self.unchanged_but_lights(old(self)),
            decreases 8 - l,
        {
            let v = values[l];
            let cur = self.lights.leds[l];
            let ghost before = messages(self.midi_out@);
            let differs = match cur {
                Some(c) => c.0 != v.0 || c.1 != v.1 || c.2 != v.2,
                None => true,
            };
            if differs {
                self.lights.leds[l] = Some(v);
                let ms = led_color(l as u8, v.0, v.1, v.2);
                append_midi(&mut self.midi_out, &ms);
                assert(messages(ms@) =~= led_messages(l as u8, v));
            }
            l = l + 1;
            assert(messages(self.midi_out@) =~= m0 + led_updates(last0, values@, l as nat));
        }
        assert(self.lights.leds@ =~= values@.map_values(|v: (u8, u8, u8)| Some(v)));
    }

    /// The positions in the parameter list of the parameters whose LEDs the
    /// current screen lights, by encoder slot.
    pub fn page_params(&self) -> (r: Vec<usize>)
        ensures
            r@ == spec_page_params(self),
    {
        let (list, page): (&Vec<usize>, ParamPage) = match self.menus.top {
            TopState::ParamViews => match self.menus.view {
                ViewState::ViewParams(p) => if p.index < self.views.names.len() && p.index
                    < self.views.params.len() {
                    (&self.views.params[p.index], p)
                } else {
                    return Vec::new();
                },
                _ => {
                    return Vec::new();
                },
            },
            TopState::Main => match self.menus.main {
                MainState::PatcherParams(p) => if p.index < self.book.instance_params.len() {
                    (&self.book.instance_params[p.index], p)
                } else {
                    return Vec::new();
                },
                _ => {
                    return Vec::new();
                },
            },
            _ => {
                return Vec::new();
            },
        };
        let offset = match page.page.checked_mul(8) {
            Some(o) => o,
            None => {
                return Vec::new();
            },
        };
        let n = list.len();
        if offset >= n {
            return Vec::new();
        }
        let end = if n - offset >= 8 {
            offset + 8
        } else {
            n
        };
        let mut r: Vec<usize> = Vec::new();
        let mut k: usize = offset;
        while k < end
            invariant
                offset <= k <= end,
                end <= n,
                n == list@.len(),
                r@ == list@.subrange(offset as int, k as int),
            decreases end - k,
        {
            r.push(list[k]);
            k = k + 1;
            assert(r@ =~= list@.subrange(offset as int, k as int));
        }
        r
    }

    /// The position in the parameter list of the current screen's focused
    /// parameter, if it has one.
    pub fn focused_param(&self) -> (r: Option<usize>)
        ensures
            r == spec_focused_param(self),
    {
        let (list, page): (&Vec<usize>, ParamPage) = match self.menus.top {
            TopState::ParamViews => match self.menus.view {
                ViewState::ViewParams(p) => if p.index < self.views.names.len() && p.index
                    < self.views.params.len() {
                    (&self.views.params[p.index], p)
                } else {
                    return None;
                },
                _ => {
                    return None;
                },
            },
            TopState::Main => match self.menus.main {
                MainState::PatcherParams(p) => if p.index < self.book.instance_params.len() {
                    (&self.book.instance_params[p.index], p)
                } else {
                    return None;
                },
                _ => {
                    return None;
                },
            },
            _ => {
                return None;
            },
        };
        match page.focused {
            Some(f) => {
                let i = (page.page as u128) * 8 + (f as u128);
                if i < list.len() as u128 {
                    Some(list[i as usize])
                } else {
                    None
                }
            },
            None => None,
        }
    }

    /// The title over a focused parameter of a view: its instance's alias,
    /// or `"inst: {index}"`.
    pub fn instance_title(&self, instance_index: usize) -> (s: String)
        ensures
            s@ == match alias_hit(
                self.book.alias_map@.map_values(|e: (usize, String)| (e.0, e.1@)),
                instance_index,
            ) {
                Some(a) => a,
                None => "inst: "@ + decimal(instance_index as nat),
            },
    {
        let ghost m = self.book.alias_map@.map_values(|e: (usize, String)| (e.0, e.1@));
        let mut j: usize = self.book.alias_map.len();
        assert(m.take(j as int) =~= m);
        while j > 0
            invariant
                j <= self.book.alias_map@.len(),
                m == self.book.alias_map@.map_values(|e: (usize, String)| (e.0, e.1@)),
                alias_hit(m, instance_index) == alias_hit(m.take(j as int), instance_index),
            decreases j,
        {
            assert(m.take(j as int).drop_last() =~= m.take(j - 1));
            if self.book.alias_map[j - 1].0 == instance_index {
                return self.book.alias_map[j - 1].1.clone();
            }
            j = j - 1;
        }
        assert(m.take(0) =~= Seq::<(usize, Seq<char>)>::empty());
        proof {
            reveal_strlit("inst: ");
        }
        concat("inst: ", decimal_string(instance_index).as_str())
    }
}

/// The mark beside main menu entry `index` when selected: entries that open
/// a list of more than one instance, or another list, get the sub-menu mark.
pub open spec fn spec_menu_indicator(c: &Controller, index: usize) -> char {
    if index == TEMPO_INDEX || index == ABOUT_INDEX {
        ITEM_INDICATOR
    } else if index == DEVICE_PARAMS_INDEX && c.ctx.common.params_instances_count < 2 {
        ITEM_INDICATOR
    } else if index == DEVICE_DATA_INDEX && c.ctx.common.datarefs_instances_count < 2 {
        ITEM_INDICATOR
    } else {
        SUB_MENU_INDICATOR
    }
}

/// Whether main menu entry `index` has anything to show.
pub open spec fn spec_menu_enabled(c: &Controller, index: usize) -> bool {
    if index == DEVICE_PARAMS_INDEX {
        c.ctx.common.params_instances_count > 0
    } else if index == DEVICE_DATA_INDEX {
        c.ctx.common.datarefs_instances_count > 0
    } else if index == GRAPHS_INDEX {
        c.ctx.common.sets_count > 0
    } else if index == GRAPH_PRESETS_INDEX {
        c.ctx.common.set_presets_count > 0
    } else if index == PATCHERS_INDEX {
        c.ctx.common.patchers_count > 0
    } else {
        true
    }
}

/// The preset menu entries that open the preset list.
pub open spec fn opens_preset_list(index: usize) -> bool {
    index == PRESET_MENU_LOAD_INDEX || index == PRESET_MENU_DELETE_INDEX || index
        == PRESET_MENU_OVERWRITE_INDEX || index == PRESET_MENU_SET_INTIAL_INDEX
}

/// The title of the preset list for an operation.
pub open spec fn spec_preset_list_title(op: PresetListOp) -> Seq<char> {
    match op {
        PresetListOp::Load => "Load Preset"@,
        PresetListOp::Overwrite => "Overwrite Preset"@,
        PresetListOp::SetInitial => "Set Initial"@,
        PresetListOp::Delete => "Delete Preset"@,
    }
}

/// The position of a file in the data file list.
pub open spec fn file_pos(files: Seq<String>, name: Seq<char>) -> Option<usize> {
    position_of(files, name)
}

impl Controller {
    /// The mark beside main menu entry `index` when selected.
    pub fn menu_indicator(&self, index: usize) -> (c: char)
        ensures
            c == spec_menu_indicator(self, index),
    {
        if index == TEMPO_INDEX || index == ABOUT_INDEX {
            ITEM_INDICATOR
        } else if index == DEVICE_PARAMS_INDEX && self.ctx.instances_count(InstSelType::Params) < 2 {
            ITEM_INDICATOR
        } else if index == DEVICE_DATA_INDEX && self.ctx.instances_count(InstSelType::Datarefs) < 2 {
            ITEM_INDICATOR
        } else {
            SUB_MENU_INDICATOR
        }
    }

    /// Whether main menu entry `index` has anything to show.
    pub fn menu_enabled(&self, index: usize) -> (b: bool)
        ensures
            b == spec_menu_enabled(self, index),
    {
        if index == DEVICE_PARAMS_INDEX {
            self.ctx.instances_count(InstSelType::Params) > 0
        } else if index == DEVICE_DATA_INDEX {
            self.ctx.instances_count(InstSelType::Datarefs) > 0
        } else if index == GRAPHS_INDEX {
            self.ctx.sets_count() > 0
        } else if index == GRAPH_PRESETS_INDEX {
            self.ctx.set_presets_count() > 0
        } else if index == PATCHERS_INDEX {
            self.ctx.patchers_count() > 0
        } else {
            true
        }
    }

    /// Whether preset menu entry `index` has anything to show: the entries
    /// that open the preset list need presets.
    pub fn preset_menu_enabled(&self, index: usize) -> (b: bool)
        ensures
            b == (!opens_preset_list(index) || self.ctx.common.set_presets_count > 0),
    {
        if index == PRESET_MENU_LOAD_INDEX || index == PRESET_MENU_DELETE_INDEX || index
            == PRESET_MENU_OVERWRITE_INDEX || index == PRESET_MENU_SET_INTIAL_INDEX {
            self.ctx.set_presets_count() > 0
        } else {
            true
        }
    }

    /// The data file entry marked as loaded for the dataref a file picker is
    /// for: the mapped file's position in the file list plus one (the first
    /// entry unloads), 0 when the dataref maps no listed file, and `None`
    /// when the picker's dataref is past the visible ones.
    pub fn datafile_indicated(&self, l: DataLoad) -> (r: Option<usize>)
        requires
            l.dataref.instance < self.book.datarefs_instance_indexes@.len(),
            self.book.datarefs_instance_indexes@[l.dataref.instance as int] < self.book.instances@.len(),
            ({
                let inst = self.book.instances@[self.book.datarefs_instance_indexes@[l.dataref.instance as int] as int];
                l.dataref.selected < inst.visible_datarefs@.len() ==> dataref_named(
                    inst.datarefs@,
                    inst.visible_datarefs@[l.dataref.selected as int]@,
                ) is Some
            }),
        ensures
            ({
                let inst = self.book.instances@[self.book.datarefs_instance_indexes@[l.dataref.instance as int] as int];
                if l.dataref.selected < inst.visible_datarefs@.len() {
                    let d = dataref_named(
                        inst.datarefs@,
                        inst.visible_datarefs@[l.dataref.selected as int]@,
                    )->0;
                    r == Some(match inst.datarefs@[d].mapping {
                        Some(f) => match file_pos(self.lists.datafile_list@, f@) {
                            Some(p) => (p + 1) as usize,
                            None => 0usize,
                        },
                        None => 0usize,
                    })
                } else {
                    r is None
                }
            }),
    {
        let pos = self.book.datarefs_instance_indexes[l.dataref.instance];
        let inst = &self.book.instances[pos];
        if l.dataref.selected >= inst.visible_datarefs.len() {
            return None;
        }
        let key = &inst.visible_datarefs[l.dataref.selected];
        let _n = self.lists.datafile_list.len();
        let d = crate::incoming::find_dataref_pub(&inst.datarefs, key);
        match d {
            Some(d) => match &inst.datarefs[d].mapping {
                Some(f) => match crate::controller::find_name(&self.lists.datafile_list, f) {
                    Some(p) => {
                        proof {
                            crate::laws::law_position_is_first_match(self.lists.datafile_list@, f@);
                        }
                        Some(p + 1)
                    },
                    None => Some(0),
                },
                None => Some(0),
            },
            None => None,
        }
    }
}

/// The title of the preset list for an operation.
pub fn preset_list_title(op: PresetListOp) -> (s: &'static str)
    ensures
        s@ == spec_preset_list_title(op),
{
    match op {
        PresetListOp::Load => "Load Preset",
        PresetListOp::Overwrite => "Overwrite Preset",
        PresetListOp::SetInitial => "Set Initial",
        PresetListOp::Delete => "Delete Preset",
    }
}

} // verus!

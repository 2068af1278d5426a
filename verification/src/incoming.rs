//! What the runner tells the controller over OSC: which address means what,
//! and what each message changes.
use vstd::prelude::*;
use vstd::string::StringExecFns;
use crate::commands::{dataref_addr, same};
use crate::context::CommonContext;
use crate::controller::{current_effect, loaded_effect, Controller, Lists, Status};
use crate::events::Events;
use crate::input::{MOVE_CTL_MIDI_CHAN, PLAY_MIDI};
use crate::instances::{
    BookView, Instance, InstanceBook, ParamRef, entry_view, find_instance, indexes_wf, inst_pos,
    lemma_wf_frame, lemma_wf_indexes,
};
use crate::midi::{messages, Midi, MoveColor};
use crate::names::{sort_by, sorted_by, ties_kept, Order};
use crate::osc::{
    display_info_args, display_info_msg, msg_int, ArgView, OscArg, OscMsg, DEVICE_DATA_ADDR,
    DEVICE_PARAMS_ADDR, DISPLAY_COUNT_ADDR, DISPLAY_INFO_ADDR, PARAM_DELTA_ADDR, REDRAW_ADDR, SET_CURRENT_ADDR, SET_PRESETS_LOADED_ADDR, SET_VIEWS_LIST_ADDR,
    SET_VIEWS_ORDER_ADDR, SET_VIEW_DISPLAY, SET_VIEW_PAGE_DISPLAY, TRANSPORT_BPM_ADDR,
    TRANSPORT_ROLLING_ADDR, USERVIEW_DISPLAY_ADDR, USERVIEW_LAYER_HIDE_ADDR, USERVIEW_LAYER_REDRAW_ADDR,
    USERVIEW_LAYER_XOR_ADDR,
};
use crate::text::{concat, decimal, decimal_string};
use crate::machines::{clamp_page, clamp_to_pages};
use crate::view::{parse_usize, spec_parse_usize};
use crate::views::{clamp_selection, lookup_view, view_order_effect, view_params_apply, view_params_effect};
use crate::json::{json_bool, json_bool_at};
use crate::userview::{
    dirty_set, hidden_set, meta_view_data, view_data, views_displayed, views_relayered, views_updated, xor_set,
    LayerView, ViewDataView,
};

verus! {

/// The address pattern of an instance's name alias.
pub const INST_ALIAS_PATTERN: &'static str = r"/rnbo/inst/(\d*)/config/name_alias";

/// The address pattern of a parameter's meta data.
pub const PARAM_META_PATTERN: &'static str = r"/rnbo/inst/(\d*)/params/(.+)/meta";

/// Group `group` of the first match of the regular expression `pattern` in
/// `text`, as the `regex` crate finds it; `None` when the pattern does not
/// compile, does not match, or the group takes no part in the match.
pub uninterp spec fn regex_capture(pattern: Seq<char>, text: Seq<char>, group: usize) -> Option<Seq<char>>;

/// `Regex::new(pattern)`, then `captures(text)` and `get(group)` on the
/// captures, the match taken as a string. Its contract names the result as a
/// function of the three arguments.
#[verifier::external_body]
pub fn capture(pattern: &str, text: &str, group: usize) -> (r: Option<String>)
    ensures
        match r {
            Some(s) => regex_capture(pattern@, text@, group) == Some(s@),
            None => regex_capture(pattern@, text@, group) is None,
        },
{
    regex::Regex::new(pattern).ok()?.captures(text)?.get(group).map(|m| m.as_str().to_string())
}

/// What an address stands for.
pub enum Route {
    /// The parameter list of the view with this runner index.
    ViewParams(usize),
    TransportRolling,
    TransportBpm,
    SetCurrent,
    PresetLoaded,
    ViewsOrder,
    ViewDisplay,
    ViewPageDisplay,
    ParamDelta,
    Redraw,
    DisplayCount,
    DisplayInfo,
    DeviceParams,
    DeviceData,
    UserViewDisplay,
    UserLayerHide,
    UserLayerXor,
    UserLayerRedraw,
    /// The name alias of the instance with this runner index.
    InstanceAlias(usize),
    /// The meta data of a parameter: runner instance index, parameter name.
    ParamMeta(usize, String),
    /// The value of the parameter at this position of the parameter list.
    Param(usize),
    /// The normalized value of the parameter at this position.
    ParamNorm(usize),
    /// The file mapped to a dataref: position in the instances, name.
    Dataref(usize, String),
    /// The meta data of a dataref: position in the instances, name.
    DatarefMeta(usize, String),
    /// An instance address whose index does not read as a number.
    Malformed,
    /// Nothing the controller follows.
    Ignored,
}

/// An address's meaning, as values.
pub enum RouteView {
    ViewParams(usize),
    TransportRolling,
    TransportBpm,
    SetCurrent,
    PresetLoaded,
    ViewsOrder,
    ViewDisplay,
    ViewPageDisplay,
    ParamDelta,
    Redraw,
    DisplayCount,
    DisplayInfo,
    DeviceParams,
    DeviceData,
    UserViewDisplay,
    UserLayerHide,
    UserLayerXor,
    UserLayerRedraw,
    InstanceAlias(usize),
    ParamMeta(usize, Seq<char>),
    Param(usize),
    ParamNorm(usize),
    Dataref(usize, Seq<char>),
    DatarefMeta(usize, Seq<char>),
    Malformed,
    Ignored,
}

impl View for Route {
    type V = RouteView;

    open spec fn view(&self) -> RouteView {
        match self {
            Route::ViewParams(i) => RouteView::ViewParams(*i),
            Route::TransportRolling => RouteView::TransportRolling,
            Route::TransportBpm => RouteView::TransportBpm,
            Route::SetCurrent => RouteView::SetCurrent,
            Route::PresetLoaded => RouteView::PresetLoaded,
            Route::ViewsOrder => RouteView::ViewsOrder,
            Route::ViewDisplay => RouteView::ViewDisplay,
            Route::ViewPageDisplay => RouteView::ViewPageDisplay,
            Route::ParamDelta => RouteView::ParamDelta,
            Route::Redraw => RouteView::Redraw,
            Route::DisplayCount => RouteView::DisplayCount,
            Route::DisplayInfo => RouteView::DisplayInfo,
            Route::DeviceParams => RouteView::DeviceParams,
            Route::DeviceData => RouteView::DeviceData,
            Route::UserViewDisplay => RouteView::UserViewDisplay,
            Route::UserLayerHide => RouteView::UserLayerHide,
            Route::UserLayerXor => RouteView::UserLayerXor,
            Route::UserLayerRedraw => RouteView::UserLayerRedraw,
            Route::InstanceAlias(i) => RouteView::InstanceAlias(*i),
            Route::ParamMeta(i, n) => RouteView::ParamMeta(*i, n@),
            Route::Param(p) => RouteView::Param(*p),
            Route::ParamNorm(p) => RouteView::ParamNorm(*p),
            Route::Dataref(l, n) => RouteView::Dataref(*l, n@),
            Route::DatarefMeta(l, n) => RouteView::DatarefMeta(*l, n@),
            Route::Malformed => RouteView::Malformed,
            Route::Ignored => RouteView::Ignored,
        }
    }
}

/// The address of a view's parameter list.
pub open spec fn view_params_addr(index: usize) -> Seq<char> {
    SET_VIEWS_LIST_ADDR@ + "/"@ + decimal(index as nat) + "/params"@
}

/// The runner index of the last noted view whose parameter list address is
/// `addr`.
pub open spec fn view_addr_hit(m: Seq<(usize, usize)>, addr: Seq<char>) -> Option<usize>
    decreases m.len(),
{
    if m.len() == 0 {
        None
    } else if view_params_addr(m.last().0) == addr {
        Some(m.last().0)
    } else {
        view_addr_hit(m.drop_last(), addr)
    }
}

/// The position of the last parameter with value address `addr` (or
/// normalized address, when `norm`).
pub open spec fn param_addr_hit(ps: Seq<ParamRef>, addr: Seq<char>, norm: bool) -> Option<usize>
    decreases ps.len(),
{
    if ps.len() == 0 {
        None
    } else if (if norm {
        ps.last().addr_norm@
    } else {
        ps.last().addr@
    }) == addr {
        Some((ps.len() - 1) as usize)
    } else {
        param_addr_hit(ps.drop_last(), addr, norm)
    }
}

/// The last lookup entry for `addr`.
pub open spec fn entry_hit(m: Seq<(Seq<char>, (usize, Seq<char>))>, addr: Seq<char>) -> Option<(usize, Seq<char>)>
    decreases m.len(),
{
    if m.len() == 0 {
        None
    } else if m.last().0 == addr {
        Some(m.last().1)
    } else {
        entry_hit(m.drop_last(), addr)
    }
}

/// The runner instance index in capture group 1 of `pattern`.
pub open spec fn captured_index(pattern: Seq<char>, addr: Seq<char>) -> Option<Option<usize>> {
    match regex_capture(pattern, addr, 1) {
        Some(d) => Some(spec_parse_usize(vstd::utf8::encode_utf8(d))),
        None => None,
    }
}

/// What `addr` stands for, given the controller's lists and what the
/// address patterns capture of it: the instance index of a name alias
/// address, the instance index of a parameter meta address, and that
/// address's parameter name. The lookups are tried in this order.
pub open spec fn spec_route_with(
    c: &Controller,
    addr: Seq<char>,
    alias: Option<Option<usize>>,
    meta: Option<Option<usize>>,
    meta_name: Option<Seq<char>>,
) -> RouteView {
    let b = c.book.view_with(&c.ctx.common);
    match view_addr_hit(c.views.lookup@, addr) {
        Some(i) => RouteView::ViewParams(i),
        None => if addr == TRANSPORT_ROLLING_ADDR@ {
            RouteView::TransportRolling
        } else if addr == TRANSPORT_BPM_ADDR@ {
            RouteView::TransportBpm
        } else if addr == SET_CURRENT_ADDR@ {
            RouteView::SetCurrent
        } else if addr == SET_PRESETS_LOADED_ADDR@ {
            RouteView::PresetLoaded
        } else if addr == SET_VIEWS_ORDER_ADDR@ {
            RouteView::ViewsOrder
        } else if addr == SET_VIEW_DISPLAY@ {
            RouteView::ViewDisplay
        } else if addr == SET_VIEW_PAGE_DISPLAY@ {
            RouteView::ViewPageDisplay
        } else if addr == PARAM_DELTA_ADDR@ {
            RouteView::ParamDelta
        } else if addr == REDRAW_ADDR@ {
            RouteView::Redraw
        } else if addr == DISPLAY_COUNT_ADDR@ {
            RouteView::DisplayCount
        } else if addr == DISPLAY_INFO_ADDR@ {
            RouteView::DisplayInfo
        } else if addr == DEVICE_PARAMS_ADDR@ {
            RouteView::DeviceParams
        } else if addr == DEVICE_DATA_ADDR@ {
            RouteView::DeviceData
        } else if addr == USERVIEW_DISPLAY_ADDR@ {
            RouteView::UserViewDisplay
        } else if addr == USERVIEW_LAYER_HIDE_ADDR@ {
            RouteView::UserLayerHide
        } else if addr == USERVIEW_LAYER_XOR_ADDR@ {
            RouteView::UserLayerXor
        } else if addr == USERVIEW_LAYER_REDRAW_ADDR@ {
            RouteView::UserLayerRedraw
        } else {
            match alias {
                Some(Some(i)) => RouteView::InstanceAlias(i),
                Some(None) => RouteView::Malformed,
                None => match meta {
                    Some(Some(i)) => match meta_name {
                        Some(n) => RouteView::ParamMeta(i, n),
                        None => RouteView::Malformed,
                    },
                    Some(None) => RouteView::Malformed,
                    None => match param_addr_hit(c.book.params@, addr, false) {
                        Some(p) => RouteView::Param(p),
                        None => match param_addr_hit(c.book.params@, addr, true) {
                            Some(p) => RouteView::ParamNorm(p),
                            None => match entry_hit(b.dataref_lookup, addr) {
                                Some((l, n)) => RouteView::Dataref(l, n),
                                None => match entry_hit(b.dataref_meta_lookup, addr) {
                                    Some((l, n)) => RouteView::DatarefMeta(l, n),
                                    None => RouteView::Ignored,
                                },
                            },
                        },
                    },
                },
            }
        }
    }
}

/// What `addr` stands for, given the controller's lists.
pub open spec fn spec_route(c: &Controller, addr: Seq<char>) -> RouteView {
    spec_route_with(
        c,
        addr,
        captured_index(INST_ALIAS_PATTERN@, addr),
        captured_index(PARAM_META_PATTERN@, addr),
        regex_capture(PARAM_META_PATTERN@, addr, 2),
    )
}

fn find_view_addr(m: &Vec<(usize, usize)>, addr: &String) -> (r: Option<usize>)
    ensures
        r == view_addr_hit(m@, addr@),
{
    let mut j: usize = m.len();
    assert(m@.take(j as int) =~= m@);
    while j > 0
        invariant
            j <= m@.len(),
            view_addr_hit(m@, addr@) == view_addr_hit(m@.take(j as int), addr@),
        decreases j,
    {
        assert(m@.take(j as int).drop_last() =~= m@.take(j - 1));
        let i = m[j - 1].0;
        let mut a = concat(SET_VIEWS_LIST_ADDR, "/");
        a.append(decimal_string(i).as_str());
        a.append("/params");
        proof {
            reveal_strlit("/");
            reveal_strlit("/params");
        }
        if a == *addr {
            return Some(i);
        }
        j = j - 1;
    }
    assert(m@.take(0) =~= Seq::<(usize, usize)>::empty());
    None
}

fn find_param_addr(ps: &Vec<ParamRef>, addr: &String, norm: bool) -> (r: Option<usize>)
    ensures
        r == param_addr_hit(ps@, addr@, norm),
{
    let mut j: usize = ps.len();
    assert(ps@.take(j as int) =~= ps@);
    while j > 0
        invariant
            j <= ps@.len(),
            param_addr_hit(ps@, addr@, norm) == param_addr_hit(ps@.take(j as int), addr@, norm),
        decreases j,
    {
        assert(ps@.take(j as int).drop_last() =~= ps@.take(j - 1));
        let hit = if norm {
            ps[j - 1].addr_norm == *addr
        } else {
            ps[j - 1].addr == *addr
        };
        if hit {
            return Some(j - 1);
        }
        j = j - 1;
    }
    assert(ps@.take(0) =~= Seq::<ParamRef>::empty());
    None
}

fn find_entry(m: &Vec<(String, (usize, String))>, addr: &String) -> (r: Option<(usize, String)>)
    ensures
        match r {
            Some(e) => entry_hit(m@.map_values(|e: (String, (usize, String))| entry_view(e)), addr@)
                == Some((e.0, e.1@)),
            None => entry_hit(m@.map_values(|e: (String, (usize, String))| entry_view(e)), addr@) is None,
        },
{
    let ghost mv = m@.map_values(|e: (String, (usize, String))| entry_view(e));
    let mut j: usize = m.len();
    assert(mv.take(j as int) =~= mv);
    while j > 0
        invariant
            j <= m@.len(),
            mv == m@.map_values(|e: (String, (usize, String))| entry_view(e)),
            entry_hit(mv, addr@) == entry_hit(mv.take(j as int), addr@),
        decreases j,
    {
        assert(mv.take(j as int).drop_last() =~= mv.take(j - 1));
        if m[j - 1].0 == *addr {
            let (l, n) = &m[j - 1].1;
            return Some((*l, n.clone()));
        }
        j = j - 1;
    }
    assert(mv.take(0) =~= Seq::<(Seq<char>, (usize, Seq<char>))>::empty());
    None
}

fn captured_index_exec(pattern: &str, addr: &String) -> (r: Option<Option<usize>>)
    ensures
        r == captured_index(pattern@, addr@),
{
    match capture(pattern, addr.as_str(), 1) {
        Some(d) => Some(parse_usize(d.as_str().as_bytes())),
        None => None,
    }
}

/// The string in an argument, if it holds one.
pub open spec fn arg_str(a: ArgView) -> Option<Seq<char>> {
    match a {
        ArgView::Str(s) => Some(s),
        _ => None,
    }
}

fn str_arg(a: &OscArg) -> (r: Option<String>)
    ensures
        match r {
            Some(s) => arg_str(a@) == Some(s@),
            None => arg_str(a@) is None,
        },
{
    match a {
        OscArg::Str(s) => Some(s.clone()),
        _ => None,
    }
}

/// The alias an alias message carries: its first argument, when that is a
/// string that is not empty.
pub open spec fn alias_of(args: Seq<ArgView>) -> Option<Seq<char>> {
    if args.len() > 0 {
        match args[0] {
            ArgView::Str(s) => if s.len() > 0 {
                Some(s)
            } else {
                None
            },
            _ => None,
        }
    } else {
        None
    }
}

/// The file a mapping message carries: its argument, when that is a string
/// that is not empty.
pub open spec fn mapping_of(a: ArgView) -> Option<Seq<char>> {
    match a {
        ArgView::Str(s) => if s.len() > 0 {
            Some(s)
        } else {
            None
        },
        _ => None,
    }
}

/// Position of the first parameter of instance `ii` named `name`.
pub open spec fn param_named(ps: Seq<ParamRef>, ii: usize, name: Seq<char>) -> Option<int>
    decreases ps.len(),
{
    if ps.len() == 0 {
        None
    } else {
        match param_named(ps.drop_last(), ii, name) {
            Some(p) => Some(p),
            None => if ps.last().instance_index == ii && ps.last().name@ == name {
                Some(ps.len() - 1)
            } else {
                None
            },
        }
    }
}

/// Position of the first dataref named `name`.
pub open spec fn dataref_named(ds: Seq<crate::instances::DatarefRef>, name: Seq<char>) -> Option<int>
    decreases ds.len(),
{
    if ds.len() == 0 {
        None
    } else {
        match dataref_named(ds.drop_last(), name) {
            Some(p) => Some(p),
            None => if ds.last().name@ == name {
                Some(ds.len() - 1)
            } else {
                None
            },
        }
    }
}

/// The names the instance lists show, worked out from their positions.
pub open spec fn names_at(indexes: Seq<usize>, insts: Seq<Instance>) -> Seq<Seq<char>> {
    indexes.map_values(|i: usize| insts[i as int].display_name())
}

/// Nothing changed but the instance bookkeeping, which is `book`.
pub open spec fn only_book(pre: &Controller, post: &Controller, book: InstanceBook) -> bool {
    &&& post.book == book
    &&& post.menus == pre.menus
    &&& post.ctx == pre.ctx
    &&& post.midi_out == pre.midi_out
    &&& post.input == pre.input
    &&& post.exit == pre.exit
    &&& post.line_token == pre.line_token
    &&& post.lights == pre.lights
    &&& post.lists == pre.lists
    &&& post.status == pre.status
    &&& post.views == pre.views
    &&& post.user_views == pre.user_views
}

impl Controller {
    /// What `addr` stands for.
    pub fn route_osc(&self, addr: &String) -> (r: Route)
        ensures
            r@ == spec_route(self, addr@),
    {
        let alias = captured_index_exec(INST_ALIAS_PATTERN, addr);
        let meta = captured_index_exec(PARAM_META_PATTERN, addr);
        let meta_name = capture(PARAM_META_PATTERN, addr.as_str(), 2);
        let ghost mn = match &meta_name {
            Some(n) => Some(n@),
            None => None,
        };
        assert(mn == regex_capture(PARAM_META_PATTERN@, addr@, 2));
        self.route_captured(addr, alias, meta, meta_name)
    }

    /// What `addr` stands for, given what the address patterns capture of
    /// it (see `spec_route_with`).
    pub fn route_captured(
        &self,
        addr: &String,
        alias: Option<Option<usize>>,
        meta: Option<Option<usize>>,
        meta_name: Option<String>,
    ) -> (r: Route)
        ensures
            r@ == spec_route_with(
                self,
                addr@,
                alias,
                meta,
                match meta_name {
                    Some(n) => Some(n@),
                    None => None,
                },
            ),
    {
        if let Some(i) = find_view_addr(&self.views.lookup, addr) {
            return Route::ViewParams(i);
        }
        if *addr == TRANSPORT_ROLLING_ADDR.to_owned() {
            Route::TransportRolling
        } else if *addr == TRANSPORT_BPM_ADDR.to_owned() {
            Route::TransportBpm
        } else if *addr == SET_CURRENT_ADDR.to_owned() {
            Route::SetCurrent
        } else if *addr == SET_PRESETS_LOADED_ADDR.to_owned() {
            Route::PresetLoaded
        } else if *addr == SET_VIEWS_ORDER_ADDR.to_owned() {
            Route::ViewsOrder
        } else if *addr == SET_VIEW_DISPLAY.to_owned() {
            Route::ViewDisplay
        } else if *addr == SET_VIEW_PAGE_DISPLAY.to_owned() {
            Route::ViewPageDisplay
        } else if *addr == PARAM_DELTA_ADDR.to_owned() {
            Route::ParamDelta
        } else if *addr == REDRAW_ADDR.to_owned() {
            Route::Redraw
        } else if *addr == DISPLAY_COUNT_ADDR.to_owned() {
            Route::DisplayCount
        } else if *addr == DISPLAY_INFO_ADDR.to_owned() {
            Route::DisplayInfo
        } else if *addr == DEVICE_PARAMS_ADDR.to_owned() {
            Route::DeviceParams
        } else if *addr == DEVICE_DATA_ADDR.to_owned() {
            Route::DeviceData
        } else if *addr == USERVIEW_DISPLAY_ADDR.to_owned() {
            Route::UserViewDisplay
        } else if *addr == USERVIEW_LAYER_HIDE_ADDR.to_owned() {
            Route::UserLayerHide
        } else if *addr == USERVIEW_LAYER_XOR_ADDR.to_owned() {
            Route::UserLayerXor
        } else if *addr == USERVIEW_LAYER_REDRAW_ADDR.to_owned() {
            Route::UserLayerRedraw
        } else {
            match alias {
                Some(Some(i)) => Route::InstanceAlias(i),
                Some(None) => Route::Malformed,
                None => match meta {
                    Some(Some(i)) => match meta_name {
                        Some(n) => Route::ParamMeta(i, n),
                        None => Route::Malformed,
                    },
                    Some(None) => Route::Malformed,
                    None => match find_param_addr(&self.book.params, addr, false) {
                        Some(p) => Route::Param(p),
                        None => match find_param_addr(&self.book.params, addr, true) {
                            Some(p) => Route::ParamNorm(p),
                            None => match find_entry(&self.book.dataref_lookup, addr) {
                                Some((l, n)) => Route::Dataref(l, n),
                                None => match find_entry(&self.book.dataref_meta_lookup, addr) {
                                    Some((l, n)) => Route::DatarefMeta(l, n),
                                    None => Route::Ignored,
                                },
                            },
                        },
                    },
                },
            }
        }
    }

    /// Works out the names of the listed instances again from their
    /// positions, after an alias changed.
    pub fn update_patcher_instance_names(&mut self)
        requires
            old(self).wf(),
        ensures
            final(self).wf(),
            final(self).book.params_instance_names@.map_values(|s: String| s@) == names_at(
                old(self).book.params_instance_indexes@,
                old(self).book.instances@,
            ),
            final(self).book.datarefs_instance_names@.map_values(|s: String| s@) == names_at(
                old(self).book.datarefs_instance_indexes@,
                old(self).book.instances@,
            ),
            only_book(
                old(self),
                final(self),
                InstanceBook {
                    params_instance_names: final(self).book.params_instance_names,
                    datarefs_instance_names: final(self).book.datarefs_instance_names,
                    ..old(self).book
                },
            ),
    {
        proof {
            lemma_wf_indexes(&self.book, &self.ctx.common);
        }
        let p = names_for(&self.book.params_instance_indexes, &self.book.instances);
        let d = names_for(&self.book.datarefs_instance_indexes, &self.book.instances);
        self.book.params_instance_names = p;
        self.book.datarefs_instance_names = d;
        proof {
            lemma_wf_frame(&old(self).book, &old(self).ctx.common, &self.book, &self.ctx.common);
        }
    }

    /// Takes an instance's alias message: the first instance with that
    /// runner index takes the alias the message carries (or none), its name
    /// is noted, and the names of the listed instances are worked out again.
    pub fn set_instance_alias(&mut self, index: usize, args: &Vec<OscArg>)
        requires
            old(self).wf(),
        ensures
            final(self).wf(),
            alias_effect(old(self), final(self), index, args@.map_values(|a: OscArg| a@)),
    {
        let alias = if args.len() > 0 {
            match &args[0] {
                OscArg::Str(s) => if !s.as_str().is_empty() {
                    Some(s.clone())
                } else {
                    None
                },
                _ => None,
            }
        } else {
            None
        };
        proof {
            let av = args@.map_values(|a: OscArg| a@);
            if args@.len() > 0 {
                assert(av[0] == args@[0]@);
            }
        }
        match find_instance(&self.book.instances, index) {
            Some(pos) => {
                let mut insts: Vec<Instance> = Vec::new();
                std::mem::swap(&mut insts, &mut self.book.instances);
                let mut inst = insts.remove(pos);
                inst.alias = alias;
                let name = inst.alias_or_index_name();
                insts.insert(pos, inst);
                self.book.instances = insts;
                proof {
                    crate::instances::lemma_map_push(
                        self.book.alias_map@,
                        (index, name),
                        |e: (usize, String)| (e.0, e.1@),
                    );
                }
                self.book.alias_map.push((index, name));
                proof {
                    lemma_wf_frame(&old(self).book, &old(self).ctx.common, &self.book, &self.ctx.common);
                }
            },
            None => {},
        }
        self.update_patcher_instance_names();
    }

    /// Takes a parameter's hidden flag, worked out from its meta data: the
    /// first parameter of that instance with that name takes it, and when it
    /// changed the instance lists are worked out again. Returns whether it
    /// changed.
    pub fn set_param_hidden(&mut self, instance_index: usize, name: &String, hidden: bool) -> (changed: bool)
        requires
            old(self).wf(),
        ensures
            final(self).wf(),
            changed == match param_named(old(self).book.params@, instance_index, name@) {
                Some(p) => old(self).book.params@[p].hidden != hidden,
                None => false,
            },
            !changed ==> same(old(self), final(self)),
            changed ==> {
                let p = param_named(old(self).book.params@, instance_index, name@)->0;
                let params = old(self).book.params@.update(p, ParamRef { hidden, ..old(self).book.params@[p] });
                &&& final(self).book.params@ == params
                &&& final(self).book.instance_params@.map_values(|v: Vec<usize>| v@) == crate::instances::regrouped(
                    params,
                    old(self).book.instances@,
                ).instance_params
                &&& final(self).book.params_instance_names@.map_values(|s: String| s@) == crate::instances::regrouped(
                    params,
                    old(self).book.instances@,
                ).names
                &&& final(self).book.params_instance_indexes@ == crate::instances::regrouped(
                    params,
                    old(self).book.instances@,
                ).indexes
                &&& final(self).ctx.common.instance_param_pages@ == crate::instances::regrouped(
                    params,
                    old(self).book.instances@,
                ).pages
                &&& final(self).ctx.common.params_instances_count == final(self).book.params_instance_names@.len()
            },
    {
        match find_param(&self.book.params, instance_index, name) {
            Some(p) => {
                if self.book.params[p].hidden != hidden {
                    let mut r = self.book.params[p].clone();
                    r.hidden = hidden;
                    assert(r == (ParamRef { hidden, ..old(self).book.params@[p as int] }));
                    self.book.params.set(p, r);
                    assert(self.book.params@ == old(self).book.params@.update(p as int, r));
                    proof {
                        lemma_wf_frame(&old(self).book, &old(self).ctx.common, &self.book, &self.ctx.common);
                    }
                    let ghost params = self.book.params@;
                    self.update_instance_params();
                    true
                } else {
                    false
                }
            },
            None => false,
        }
    }

    /// Takes the file mapped to a dataref (at a position in the instances,
    /// by name): when there is one argument and the dataref exists, it takes
    /// the file the argument names (none for an empty string or another
    /// type) and the menus hear of it. Returns whether it did.
    pub fn set_dataref_mapping(&mut self, local: usize, name: &String, args: &Vec<OscArg>) -> (changed: bool)
        requires
            old(self).wf(),
        ensures
            final(self).wf(),
            dataref_mapping_effect(old(self), final(self), local, name@, args@.map_values(|a: OscArg| a@), changed),
    {
        if args.len() != 1 || local >= self.book.instances.len() {
            return false;
        }
        let mapping = match &args[0] {
            OscArg::Str(s) => if !s.as_str().is_empty() {
                Some(s.clone())
            } else {
                None
            },
            _ => None,
        };
        proof {
            let av = args@.map_values(|a: OscArg| a@);
            assert(av[0] == args@[0]@);
        }
        match find_dataref(&self.book.instances[local].datarefs, name) {
            Some(d) => {
                let mut insts: Vec<Instance> = Vec::new();
                std::mem::swap(&mut insts, &mut self.book.instances);
                let mut inst = insts.remove(local);
                let mut ds: Vec<crate::instances::DatarefRef> = Vec::new();
                std::mem::swap(&mut ds, &mut inst.datarefs);
                let ghost ds0 = ds@;
                let ghost insts0 = old(self).book.instances@;
                let mut dr = ds.remove(d);
                dr.mapping = mapping;
                let ghost drv = dr;
                ds.insert(d, dr);
                assert(ds@ =~= ds0.update(d as int, drv));
                inst.datarefs = ds;
                let ghost iv = inst;
                insts.insert(local, inst);
                assert(insts@ =~= insts0.update(local as int, iv));
                self.book.instances = insts;
                proof {
                    lemma_wf_frame(&old(self).book, &old(self).ctx.common, &self.book, &self.ctx.common);
                }
                self.handle_event(Events::DatarefMappingChanged);
                true
            },
            None => false,
        }
    }

    /// Takes a dataref's hidden flag, worked out from its meta data: when
    /// the dataref exists and the flag changes, it takes it and the menus
    /// hear that visibility changed. The list of visible datarefs is not
    /// worked out again. Returns whether it changed.
    pub fn set_dataref_hidden(&mut self, local: usize, name: &String, hidden: bool) -> (changed: bool)
        requires
            old(self).wf(),
        ensures
            final(self).wf(),
            dataref_hidden_effect(old(self), final(self), local, name@, hidden, changed),
    {
        if local >= self.book.instances.len() {
            return false;
        }
        match find_dataref(&self.book.instances[local].datarefs, name) {
            Some(d) => {
                if self.book.instances[local].datarefs[d].hidden == hidden {
                    return false;
                }
                let mut insts: Vec<Instance> = Vec::new();
                std::mem::swap(&mut insts, &mut self.book.instances);
                let mut inst = insts.remove(local);
                let mut ds: Vec<crate::instances::DatarefRef> = Vec::new();
                std::mem::swap(&mut ds, &mut inst.datarefs);
                let ghost ds0 = ds@;
                let ghost insts0 = old(self).book.instances@;
                let mut dr = ds.remove(d);
                dr.hidden = hidden;
                let ghost drv = dr;
                ds.insert(d, dr);
                assert(ds@ =~= ds0.update(d as int, drv));
                inst.datarefs = ds;
                let ghost iv = inst;
                insts.insert(local, inst);
                assert(insts@ =~= insts0.update(local as int, iv));
                self.book.instances = insts;
                proof {
                    lemma_wf_frame(&old(self).book, &old(self).ctx.common, &self.book, &self.ctx.common);
                }
                self.handle_event(Events::DatarefVisibleChanged);
                true
            },
            None => false,
        }
    }

    /// Takes the transport state: with one boolean argument that differs
    /// from the state known, the play button is lit green (rolling) or light
    /// gray, and the menus hear of it.
    pub fn set_transport(&mut self, args: &Vec<OscArg>) -> (changed: bool)
        requires
            old(self).wf(),
        ensures
            final(self).wf(),
            transport_effect(old(self), final(self), args@.map_values(|a: OscArg| a@), changed),
    {
        if args.len() != 1 {
            return false;
        }
        proof {
            let av = args@.map_values(|a: OscArg| a@);
            assert(av[0] == args@[0]@);
        }
        match &args[0] {
            OscArg::Bool(r) => {
                let rolling = *r;
                if rolling == self.status.rolling {
                    return false;
                }
                self.status.rolling = rolling;
                let color = if rolling {
                    MoveColor::Green
                } else {
                    MoveColor::LightGray
                };
                let ghost m0 = self.midi_out@;
                self.midi_out.push(Midi::cc(PLAY_MIDI, color.value(), MOVE_CTL_MIDI_CHAN));
                assert(messages(self.midi_out@) =~= messages(m0).push(
                    seq![0xb0u8 | MOVE_CTL_MIDI_CHAN, PLAY_MIDI, color.spec_value()],
                ));
                self.handle_event(Events::Transport(rolling));
                true
            },
            _ => false,
        }
    }

    /// The tempo changed; the menus redraw.
    pub fn tempo_changed(&mut self)
        requires
            old(self).wf(),
        ensures
            final(self).wf(),
            old(self).stepped(final(self), Events::Tempo),
            final(self).input == old(self).input,
    {
        self.handle_event(Events::Tempo);
    }

    /// Takes the names of the data files: the list is sorted, and the menu
    /// is "(empty)" followed by the list.
    pub fn set_datafile_list(&mut self, names: Vec<String>)
        requires
            old(self).wf(),
            names@.len() < usize::MAX,
        ensures
            final(self).wf(),
            final(self).lists.datafile_list@.to_multiset() == names@.to_multiset(),
            sorted_by(Order::Bytes, final(self).lists.datafile_list@),
            ties_kept(Order::Bytes, final(self).lists.datafile_list@, names@),
            final(self).lists.datafile_menu@.len() == names@.len() + 1,
            final(self).lists.datafile_menu@[0]@ == "(empty)"@,
            final(self).lists.datafile_menu@.drop_first() == final(self).lists.datafile_list@,
            final(self).lists == (Lists {
                datafile_list: final(self).lists.datafile_list,
                datafile_menu: final(self).lists.datafile_menu,
                ..old(self).lists
            }),
            final(self).ctx.common == (CommonContext {
                datafile_count: (names@.len() + 1) as usize,
                ..old(self).ctx.common
            }),
            final(self).menus == old(self).menus,
            final(self).ctx.queue == old(self).ctx.queue,
            final(self).midi_out == old(self).midi_out,
            final(self).input == old(self).input,
            final(self).exit == old(self).exit,
            final(self).line_token == old(self).line_token,
            final(self).lights == old(self).lights,
            final(self).status == old(self).status,
            final(self).views == old(self).views,
            final(self).book == old(self).book,
            final(self).user_views == old(self).user_views,
    {
        broadcast use vstd::seq_lib::group_to_multiset_ensures;

        let ghost nv = names@;
        let sorted = sort_by(Order::Bytes, names);
        proof {
            vstd::seq_lib::to_multiset_len(nv);
            vstd::seq_lib::to_multiset_len(sorted@);
        }
        let mut menu: Vec<String> = Vec::new();
        menu.push("(empty)".to_owned());
        let n = sorted.len();
        let mut k: usize = 0;
        while k < n
            invariant
                n == sorted@.len(),
                k <= n,
                menu@.len() == k + 1,
                menu@[0]@ == "(empty)"@,
                menu@.drop_first() == sorted@.take(k as int),
            decreases n - k,
        {
            menu.push(sorted[k].clone());
            k = k + 1;
            assert(menu@.drop_first() =~= sorted@.take(k as int));
        }
        assert(sorted@.take(n as int) =~= sorted@);
        self.lists.datafile_list = sorted;
        self.lists.datafile_menu = menu;
        self.ctx.common.datafile_count = self.lists.datafile_menu.len();
    }
}

fn names_for(indexes: &Vec<usize>, insts: &Vec<Instance>) -> (r: Vec<String>)
    requires
        forall|i: int| 0 <= i < indexes@.len() ==> #[trigger] indexes@[i] < insts@.len(),
    ensures
        r@.map_values(|s: String| s@) == names_at(indexes@, insts@),
{
    let mut r: Vec<String> = Vec::new();
    let n = indexes.len();
    let mut k: usize = 0;
    while k < n
        invariant
            n == indexes@.len(),
            k <= n,
            forall|i: int| 0 <= i < indexes@.len() ==> #[trigger] indexes@[i] < insts@.len(),
            r@.map_values(|s: String| s@) == names_at(indexes@.take(k as int), insts@),
        decreases n - k,
    {
        let name = insts[indexes[k]].alias_or_index_name();
        proof {
            crate::instances::lemma_map_push(r@, name, |s: String| s@);
        }
        r.push(name);
        k = k + 1;
        assert(names_at(indexes@.take(k as int), insts@) =~= names_at(indexes@.take(k - 1), insts@).push(
            insts@[indexes@[k - 1] as int].display_name(),
        ));
    }
    assert(indexes@.take(n as int) =~= indexes@);
    r
}

proof fn lemma_named_extends(ps: Seq<ParamRef>, ii: usize, name: Seq<char>, k: int)
    requires
        0 <= k <= ps.len(),
        param_named(ps.take(k), ii, name) is Some,
    ensures
        param_named(ps, ii, name) == param_named(ps.take(k), ii, name),
    decreases ps.len() - k,
{
    if k < ps.len() {
        assert(ps.take(k + 1).drop_last() =~= ps.take(k));
        lemma_named_extends(ps, ii, name, k + 1);
    } else {
        assert(ps.take(k) =~= ps);
    }
}

proof fn lemma_named_none(ps: Seq<ParamRef>, ii: usize, name: Seq<char>)
    requires
        forall|j: int| 0 <= j < ps.len() ==> !(ps[j].instance_index == ii && ps[j].name@ == name),
    ensures
        param_named(ps, ii, name) is None,
    decreases ps.len(),
{
    if ps.len() > 0 {
        lemma_named_none(ps.drop_last(), ii, name);
    }
}

fn find_param(ps: &Vec<ParamRef>, ii: usize, name: &String) -> (r: Option<usize>)
    ensures
        r is Some ==> param_named(ps@, ii, name@) == Some(r->0 as int) && r->0 < ps@.len(),
        r is None ==> param_named(ps@, ii, name@) is None,
{
    let n = ps.len();
    let mut k: usize = 0;
    while k < n
        invariant
            n == ps@.len(),
            k <= n,
            forall|j: int| 0 <= j < k ==> !(ps@[j].instance_index == ii && ps@[j].name@ == name@),
        decreases n - k,
    {
        if ps[k].instance_index == ii && ps[k].name == *name {
            proof {
                lemma_named_none(ps@.take(k as int), ii, name@);
                assert(ps@.take(k + 1).drop_last() =~= ps@.take(k as int));
                lemma_named_extends(ps@, ii, name@, k + 1);
            }
            return Some(k);
        }
        k = k + 1;
    }
    proof {
        lemma_named_none(ps@, ii, name@);
    }
    None
}

proof fn lemma_dnamed_extends(ds: Seq<crate::instances::DatarefRef>, name: Seq<char>, k: int)
    requires
        0 <= k <= ds.len(),
        dataref_named(ds.take(k), name) is Some,
    ensures
        dataref_named(ds, name) == dataref_named(ds.take(k), name),
    decreases ds.len() - k,
{
    if k < ds.len() {
        assert(ds.take(k + 1).drop_last() =~= ds.take(k));
        lemma_dnamed_extends(ds, name, k + 1);
    } else {
        assert(ds.take(k) =~= ds);
    }
}

proof fn lemma_dnamed_none(ds: Seq<crate::instances::DatarefRef>, name: Seq<char>)
    requires
        forall|j: int| 0 <= j < ds.len() ==> ds[j].name@ != name,
    ensures
        dataref_named(ds, name) is None,
    decreases ds.len(),
{
    if ds.len() > 0 {
        lemma_dnamed_none(ds.drop_last(), name);
    }
}

/// Position of the first dataref named `name`.
pub fn find_dataref_pub(ds: &Vec<crate::instances::DatarefRef>, name: &String) -> (r: Option<usize>)
    ensures
        r is Some ==> dataref_named(ds@, name@) == Some(r->0 as int) && r->0 < ds@.len(),
        r is None ==> dataref_named(ds@, name@) is None,
{
    find_dataref(ds, name)
}

fn find_dataref(ds: &Vec<crate::instances::DatarefRef>, name: &String) -> (r: Option<usize>)
    ensures
        r is Some ==> dataref_named(ds@, name@) == Some(r->0 as int) && r->0 < ds@.len(),
        r is None ==> dataref_named(ds@, name@) is None,
{
    let n = ds.len();
    let mut k: usize = 0;
    while k < n
        invariant
            n == ds@.len(),
            k <= n,
            forall|j: int| 0 <= j < k ==> ds@[j].name@ != name@,
        decreases n - k,
    {
        if ds[k].name == *name {
            proof {
                lemma_dnamed_none(ds@.take(k as int), name@);
                assert(ds@.take(k + 1).drop_last() =~= ds@.take(k as int));
                lemma_dnamed_extends(ds@, name@, k + 1);
            }
            return Some(k);
        }
        k = k + 1;
    }
    proof {
        lemma_dnamed_none(ds@, name@);
    }
    None
}

/// What an alias message does to the instance with runner index `index`.
pub open spec fn alias_effect(pre: &Controller, post: &Controller, index: usize, args: Seq<ArgView>) -> bool {
    let insts = pre.book.instances@;
    &&& match inst_pos(insts, index) {
        Some(p) => {
            &&& post.book.instances@.len() == insts.len()
            &&& forall|j: int| 0 <= j < insts.len() && j != p ==> post.book.instances@[j] == insts[j]
            &&& post.book.instances@[p] == (Instance { alias: post.book.instances@[p].alias, ..insts[p] })
            &&& match alias_of(args) {
                Some(a) => post.book.instances@[p].alias is Some && post.book.instances@[p].alias->0@ == a,
                None => post.book.instances@[p].alias is None,
            }
            &&& post.book.alias_map@.map_values(|e: (usize, String)| (e.0, e.1@)) == pre.book.alias_map@.map_values(
                |e: (usize, String)| (e.0, e.1@),
            ).push((index, post.book.instances@[p].display_name()))
        },
        None => post.book.instances == pre.book.instances && post.book.alias_map == pre.book.alias_map,
    }
    &&& post.book.params_instance_names@.map_values(|s: String| s@) == names_at(
        pre.book.params_instance_indexes@,
        post.book.instances@,
    )
    &&& post.book.datarefs_instance_names@.map_values(|s: String| s@) == names_at(
        pre.book.datarefs_instance_indexes@,
        post.book.instances@,
    )
    &&& only_book(
        pre,
        post,
        InstanceBook {
            instances: post.book.instances,
            alias_map: post.book.alias_map,
            params_instance_names: post.book.params_instance_names,
            datarefs_instance_names: post.book.datarefs_instance_names,
            ..pre.book
        },
    )
}

/// The instances with the dataref `d` of the instance at `local` changed.
pub open spec fn with_dataref(
    insts: Seq<Instance>,
    local: int,
    d: int,
    dr: crate::instances::DatarefRef,
) -> Seq<Instance> {
    insts.update(local, Instance { datarefs: insts[local].datarefs, ..insts[local] })
}

/// What a dataref mapping message does.
pub open spec fn dataref_mapping_effect(
    pre: &Controller,
    post: &Controller,
    local: usize,
    name: Seq<char>,
    args: Seq<ArgView>,
    changed: bool,
) -> bool {
    let insts = pre.book.instances@;
    &&& changed == (args.len() == 1 && local < insts.len() && dataref_named(insts[local as int].datarefs@, name) is Some)
    &&& !changed ==> same(pre, post)
    &&& changed ==> {
        let d = dataref_named(insts[local as int].datarefs@, name)->0;
        let old_dr = insts[local as int].datarefs@[d];
        let new_dr = post.book.instances@[local as int].datarefs@[d];
        &&& post.book.instances@.len() == insts.len()
        &&& forall|j: int| 0 <= j < insts.len() && j != local ==> post.book.instances@[j] == insts[j]
        &&& post.book.instances@[local as int].datarefs@ == insts[local as int].datarefs@.update(d, new_dr)
        &&& post.book.instances@[local as int] == (Instance {
            datarefs: post.book.instances@[local as int].datarefs,
            ..insts[local as int]
        })
        &&& new_dr.name == old_dr.name
        &&& new_dr.hidden == old_dr.hidden
        &&& match mapping_of(args[0]) {
            Some(m) => new_dr.mapping is Some && new_dr.mapping->0@ == m,
            None => new_dr.mapping is None,
        }
        &&& pre.rebooked(
            InstanceBook { instances: post.book.instances, ..pre.book },
            pre.views,
            pre.ctx.common,
        ).stepped(post, Events::DatarefMappingChanged)
        &&& post.input == pre.input
    }
}

/// What a dataref's new hidden flag does.
pub open spec fn dataref_hidden_effect(
    pre: &Controller,
    post: &Controller,
    local: usize,
    name: Seq<char>,
    hidden: bool,
    changed: bool,
) -> bool {
    let insts = pre.book.instances@;
    &&& changed == (local < insts.len() && match dataref_named(insts[local as int].datarefs@, name) {
        Some(d) => insts[local as int].datarefs@[d].hidden != hidden,
        None => false,
    })
    &&& !changed ==> same(pre, post)
    &&& changed ==> {
        let d = dataref_named(insts[local as int].datarefs@, name)->0;
        let old_dr = insts[local as int].datarefs@[d];
        let dss = insts[local as int].datarefs@.update(
            d,
            crate::instances::DatarefRef { hidden, ..old_dr },
        );
        &&& post.book.instances@.len() == insts.len()
        &&& forall|j: int| 0 <= j < insts.len() && j != local ==> post.book.instances@[j] == insts[j]
        &&& post.book.instances@[local as int].datarefs@ == dss
        &&& post.book.instances@[local as int] == (Instance {
            datarefs: post.book.instances@[local as int].datarefs,
            ..insts[local as int]
        })
        &&& pre.rebooked(
            InstanceBook { instances: post.book.instances, ..pre.book },
            pre.views,
            pre.ctx.common,
        ).stepped(post, Events::DatarefVisibleChanged)
        &&& post.input == pre.input
    }
}

/// What a transport message does.
pub open spec fn transport_effect(pre: &Controller, post: &Controller, args: Seq<ArgView>, changed: bool) -> bool {
    &&& changed == (args.len() == 1 && match args[0] {
        ArgView::Bool(r) => r != pre.status.rolling,
        _ => false,
    })
    &&& !changed ==> same(pre, post)
    &&& changed ==> {
        let rolling = args[0]->Bool_0;
        let color = if rolling {
            MoveColor::Green
        } else {
            MoveColor::LightGray
        };
        &&& messages(post.midi_out@) == messages(pre.midi_out@).push(
            seq![0xb0u8 | MOVE_CTL_MIDI_CHAN, PLAY_MIDI, color.spec_value()],
        )
        &&& (Controller { status: Status { rolling, ..pre.status }, midi_out: post.midi_out, ..*pre }).stepped(
            post,
            Events::Transport(rolling),
        )
        &&& post.input == pre.input
    }
}

/// Every light becomes unknown, so the next screen draw sends all of them
/// again whatever they show, and the play light is sent again.
pub open spec fn redraw_effect(pre: &Controller, post: &Controller) -> bool {
    let color = if pre.status.rolling {
        MoveColor::Green
    } else {
        MoveColor::LightGray
    };
    &&& messages(post.midi_out@) == messages(pre.midi_out@).push(
        seq![0xb0u8 | MOVE_CTL_MIDI_CHAN, PLAY_MIDI, color.spec_value()],
    )
    &&& post.line_token == 0
    &&& post.lights.menu is None
    &&& post.lights.back is None
    &&& forall|i: int| 0 <= i < 8 ==> #[trigger] post.lights.leds@[i] is None
    &&& post.menus == pre.menus
    &&& post.ctx == pre.ctx
    &&& post.input == pre.input
    &&& post.exit == pre.exit
    &&& post.lists == pre.lists
    &&& post.status == pre.status
    &&& post.views == pre.views
    &&& post.book == pre.book
    &&& post.user_views == pre.user_views
}

impl Controller {
    /// Makes the device lights be sent again, as after a reset of the device.
    pub fn redraw(&mut self)
        requires
            old(self).wf(),
        ensures
            final(self).wf(),
            redraw_effect(old(self), final(self)),
    {
        let color = if self.status.rolling {
            MoveColor::Green
        } else {
            MoveColor::LightGray
        };
        let ghost m0 = self.midi_out@;
        self.midi_out.push(Midi::cc(PLAY_MIDI, color.value(), MOVE_CTL_MIDI_CHAN));
        assert(messages(self.midi_out@) =~= messages(m0).push(
            seq![0xb0u8 | MOVE_CTL_MIDI_CHAN, PLAY_MIDI, color.spec_value()],
        ));
        self.line_token = 0;
        self.lights.menu = None;
        self.lights.back = None;
        self.lights.leds = [None; 8];
    }
}

/// The position in a list of listed instances (given by their positions in
/// `insts`) of the first one whose runner index is `device`.
pub open spec fn listed_position(idx: Seq<usize>, insts: Seq<Instance>, device: usize) -> Option<usize>
    decreases idx.len(),
{
    if idx.len() == 0 {
        None
    } else {
        match listed_position(idx.drop_last(), insts, device) {
            Some(k) => Some(k),
            None => if idx.last() < insts.len() && insts[idx.last() as int].index == device {
                Some((idx.len() - 1) as usize)
            } else {
                None
            },
        }
    }
}

/// A hit in a prefix of the list is the hit in the whole list.
proof fn lemma_listed_prefix(idx: Seq<usize>, insts: Seq<Instance>, device: usize, j: int)
    requires
        0 <= j <= idx.len(),
        listed_position(idx.take(j), insts, device) is Some,
    ensures
        listed_position(idx, insts, device) == listed_position(idx.take(j), insts, device),
    decreases idx.len(),
{
    if j == idx.len() {
        assert(idx.take(j) =~= idx);
    } else {
        assert(idx.drop_last().take(j) =~= idx.take(j));
        lemma_listed_prefix(idx.drop_last(), insts, device, j);
    }
}

fn find_listed(idx: &Vec<usize>, insts: &Vec<Instance>, device: usize) -> (r: Option<usize>)
    ensures
        r == listed_position(idx@, insts@, device),
{
    let n = idx.len();
    let mut j: usize = 0;
    assert(idx@.take(0) =~= Seq::<usize>::empty());
    while j < n
        invariant
            n == idx@.len(),
            j <= n,
            listed_position(idx@.take(j as int), insts@, device) is None,
        decreases n - j,
    {
        assert(idx@.take(j + 1).drop_last() =~= idx@.take(j as int));
        let at = idx[j];
        if at < insts.len() && insts[at].index == device {
            assert(listed_position(idx@.take(j + 1), insts@, device) == Some(j));
            proof {
                lemma_listed_prefix(idx@, insts@, device, j + 1);
            }
            return Some(j);
        }
        j = j + 1;
    }
    assert(idx@.take(n as int) =~= idx@);
    None
}

impl Controller {
    /// Shows the parameters of the instance with runner index `device`, at
    /// `page` limited to its pages; nothing happens when no listed instance
    /// has that index.
    pub fn select_device_params(&mut self, device: usize, page: usize)
        requires
            old(self).wf(),
        ensures
            final(self).wf(),
            match listed_position(old(self).book.params_instance_indexes@, old(self).book.instances@, device) {
                Some(k) => {
                    let pages = old(self).ctx.common.spec_instance_param_pages(k);
                    if pages > 0 {
                        old(self).stepped(final(self), Events::DeviceParamsSelected(k, clamp_page(page, pages)))
                    } else {
                        same(old(self), final(self))
                    }
                },
                None => same(old(self), final(self)),
            },
            final(self).input == old(self).input,
    {
        if let Some(k) = find_listed(&self.book.params_instance_indexes, &self.book.instances, device) {
            let pages = self.ctx.instance_param_pages(k);
            if pages > 0 {
                let p = clamp_to_pages(page, pages);
                self.handle_event(Events::DeviceParamsSelected(k, p));
            }
        }
    }

    /// Shows the datarefs of the instance with runner index `device`;
    /// nothing happens when no listed instance has that index.
    pub fn select_device_data(&mut self, device: usize)
        requires
            old(self).wf(),
        ensures
            final(self).wf(),
            match listed_position(old(self).book.datarefs_instance_indexes@, old(self).book.instances@, device) {
                Some(k) => old(self).stepped(final(self), Events::DeviceDataSelected(k)),
                None => same(old(self), final(self)),
            },
            final(self).input == old(self).input,
    {
        if let Some(k) = find_listed(&self.book.datarefs_instance_indexes, &self.book.instances, device) {
            self.handle_event(Events::DeviceDataSelected(k));
        }
    }
}

/// What is left for the caller after an OSC message: the parts that read
/// floating-point values or meta data.
pub enum FollowUp {
    Done,
    /// Read the tempo from the argument; when it holds one, keep it and call
    /// `tempo_changed`.
    Tempo,
    /// The arguments hold floating-point numbers: read a view index and a
    /// page from them and call `select_view`.
    ViewDisplay,
    /// The argument is a floating-point number: read a page from it and
    /// call `select_view_page`.
    ViewPageDisplay,
    /// Read a step size for parameter edits from the argument and keep it;
    /// with no argument, answer with the step size kept.
    ParamDelta,
    /// Send this answer back to whoever asked.
    Reply(OscMsg),
    /// The arguments hold floating-point numbers: read a runner instance
    /// index and a page from them and call `select_device_params`.
    DeviceParams,
    /// The argument is a floating-point number: read a runner instance index
    /// from it and call `select_device_data`.
    DeviceData,
    /// Work out the hidden flag from the meta data in the first argument
    /// for the parameter (runner instance index, name), and call
    /// `set_param_hidden`.
    ParamMeta(usize, String),
    /// Update the value of the parameter at this position from the argument.
    Param(usize),
    /// Update the normalized value of the parameter at this position.
    ParamNorm(usize),
    /// The address holds an instance index that does not read as a number.
    Malformed,
}

/// What is left for the caller, as values.
pub enum FollowView {
    Done,
    Tempo,
    ViewDisplay,
    ViewPageDisplay,
    ParamDelta,
    Reply(Seq<char>, Seq<ArgView>),
    DeviceParams,
    DeviceData,
    ParamMeta(usize, Seq<char>),
    Param(usize),
    ParamNorm(usize),
    Malformed,
}

impl View for FollowUp {
    type V = FollowView;

    open spec fn view(&self) -> FollowView {
        match self {
            FollowUp::Done => FollowView::Done,
            FollowUp::Tempo => FollowView::Tempo,
            FollowUp::ViewDisplay => FollowView::ViewDisplay,
            FollowUp::ViewPageDisplay => FollowView::ViewPageDisplay,
            FollowUp::ParamDelta => FollowView::ParamDelta,
            FollowUp::Reply(m) => FollowView::Reply(m@.0, m@.1),
            FollowUp::DeviceParams => FollowView::DeviceParams,
            FollowUp::DeviceData => FollowView::DeviceData,
            FollowUp::ParamMeta(i, n) => FollowView::ParamMeta(*i, n@),
            FollowUp::Param(p) => FollowView::Param(*p),
            FollowUp::ParamNorm(p) => FollowView::ParamNorm(*p),
            FollowUp::Malformed => FollowView::Malformed,
        }
    }
}

/// How the numbers of a selection message read.
pub enum Pick {
    /// The message selects nothing.
    Nothing,
    /// An argument is a number of a type the controller does not read (a
    /// floating-point one); the caller reads the message.
    Caller,
    /// The two numbers (the second 0 when the message has none).
    Two(usize, usize),
}

/// An integer argument as an index: negative numbers count as 0.
pub open spec fn arg_number(a: ArgView) -> Option<usize> {
    match a {
        ArgView::Int(v) => Some(if v < 0 {
            0usize
        } else {
            v as usize
        }),
        _ => None,
    }
}

/// The index (and, when `two`, the optional page) a selection message
/// carries.
pub open spec fn read_pick(args: Seq<ArgView>, two: bool) -> Pick {
    if args.len() == 0 {
        Pick::Nothing
    } else {
        match arg_number(args[0]) {
            Some(i) => if two && args.len() > 1 {
                match arg_number(args[1]) {
                    Some(p) => Pick::Two(i, p),
                    None => if args[1] is Other {
                        Pick::Caller
                    } else {
                        Pick::Nothing
                    },
                }
            } else {
                Pick::Two(i, 0)
            },
            None => if args[0] is Other {
                Pick::Caller
            } else {
                Pick::Nothing
            },
        }
    }
}

/// The page a page selection message carries: it has exactly one argument.
pub open spec fn read_page(args: Seq<ArgView>) -> Pick {
    if args.len() == 1 {
        read_pick(args, false)
    } else {
        Pick::Nothing
    }
}

fn number(a: &OscArg) -> (r: Option<usize>)
    ensures
        r == arg_number(a@),
{
    match a {
        OscArg::Int(v) => Some(if *v < 0 {
            0usize
        } else {
            *v as usize
        }),
        _ => None,
    }
}

fn is_other(a: &OscArg) -> (r: bool)
    ensures
        r == (a@ is Other),
{
    match a {
        OscArg::Other => true,
        _ => false,
    }
}

/// Reads the index (and, when `two`, the optional page) of a selection
/// message.
pub fn pick(args: &Vec<OscArg>, two: bool) -> (r: Pick)
    ensures
        r == read_pick(args@.map_values(|a: OscArg| a@), two),
{
    let ghost av = args@.map_values(|a: OscArg| a@);
    if args.len() == 0 {
        return Pick::Nothing;
    }
    assert(av[0] == args@[0]@);
    match number(&args[0]) {
        Some(i) => if two && args.len() > 1 {
            assert(av[1] == args@[1]@);
            match number(&args[1]) {
                Some(p) => Pick::Two(i, p),
                None => if is_other(&args[1]) {
                    Pick::Caller
                } else {
                    Pick::Nothing
                },
            }
        } else {
            Pick::Two(i, 0)
        },
        None => if is_other(&args[0]) {
            Pick::Caller
        } else {
            Pick::Nothing
        },
    }
}

/// What a view selection does: the view and page, limited to what exists,
/// are shown; nothing changes when there is no such view or page.
pub open spec fn view_select_effect(pre: &Controller, post: &Controller, index: usize, page: usize) -> bool {
    &&& match clamp_selection(&pre.ctx.common, index, page) {
        Some((i, p)) => pre.stepped(post, Events::SetViewSelected(i, p)),
        None => pre.unchanged(post),
    }
    &&& post.input == pre.input
}

/// What a request for an instance's parameters does.
pub open spec fn device_params_effect(pre: &Controller, post: &Controller, device: usize, page: usize) -> bool {
    &&& match listed_position(pre.book.params_instance_indexes@, pre.book.instances@, device) {
        Some(k) => {
            let pages = pre.ctx.common.spec_instance_param_pages(k);
            if pages > 0 {
                pre.stepped(post, Events::DeviceParamsSelected(k, clamp_page(page, pages)))
            } else {
                same(pre, post)
            }
        },
        None => same(pre, post),
    }
    &&& post.input == pre.input
}

/// What a request for an instance's datarefs does.
pub open spec fn device_data_effect(pre: &Controller, post: &Controller, device: usize) -> bool {
    &&& match listed_position(pre.book.datarefs_instance_indexes@, pre.book.instances@, device) {
        Some(k) => pre.stepped(post, Events::DeviceDataSelected(k)),
        None => same(pre, post),
    }
    &&& post.input == pre.input
}

/// Whether a transport message changes the state.
pub open spec fn transport_applies(pre: &Controller, args: Seq<ArgView>) -> bool {
    args.len() == 1 && match args[0] {
        ArgView::Bool(r) => r != pre.status.rolling,
        _ => false,
    }
}

/// Whether a dataref mapping message applies.
pub open spec fn mapping_applies(pre: &Controller, local: usize, name: Seq<char>, args: Seq<ArgView>) -> bool {
    args.len() == 1 && local < pre.book.instances@.len() && dataref_named(
        pre.book.instances@[local as int].datarefs@,
        name,
    ) is Some
}

/// A layer argument: an integer within the range of z indexes.
pub open spec fn arg_layer(a: ArgView) -> Option<i8> {
    match a {
        ArgView::Int(v) => if -128 <= v <= 127 {
            Some(v as i8)
        } else {
            None
        },
        _ => None,
    }
}

/// A flag argument: an integer, set when it is not 0, or a boolean.
pub open spec fn arg_flag(a: ArgView) -> Option<bool> {
    match a {
        ArgView::Int(v) => Some(v != 0),
        ArgView::Bool(b) => Some(b),
        _ => None,
    }
}

/// The view index a user view display message carries in its first
/// argument.
pub open spec fn display_request(args: Seq<ArgView>) -> Option<usize> {
    if args.len() > 0 {
        arg_number(args[0])
    } else {
        None
    }
}

/// The view index, layer z index and flag a layer hide or exclusive-or
/// message carries, in that order.
pub open spec fn layer_flag_request(args: Seq<ArgView>) -> Option<(usize, i8, bool)> {
    if args.len() > 2 {
        match (arg_number(args[0]), arg_layer(args[1]), arg_flag(args[2])) {
            (Some(i), Some(z), Some(b)) => Some((i, z, b)),
            _ => None,
        }
    } else {
        None
    }
}

/// The view index and layer z index a layer redraw message carries.
pub open spec fn layer_redraw_request(args: Seq<ArgView>) -> Option<(usize, i8)> {
    if args.len() > 1 {
        match (arg_number(args[0]), arg_layer(args[1])) {
            (Some(i), Some(z)) => Some((i, z)),
            _ => None,
        }
    } else {
        None
    }
}

/// Whether meta data text marks its item hidden: its "hidden" entry is the
/// boolean true.
pub open spec fn spec_meta_hidden(meta: Seq<char>) -> bool {
    json_bool_at(meta, "hidden"@) == Some(true)
}

/// Whether meta data text marks its item hidden (see `spec_meta_hidden`).
pub fn meta_hidden(meta: &str) -> (h: bool)
    ensures
        h == spec_meta_hidden(meta@),
{
    match json_bool(meta, "hidden") {
        Some(b) => b,
        None => false,
    }
}

/// The hidden flag a meta data argument gives: an argument that is not a
/// string gives none set.
pub open spec fn arg_meta_hidden(a: ArgView) -> bool {
    match a {
        ArgView::Str(m) => spec_meta_hidden(m),
        _ => false,
    }
}

/// The view data a meta data argument declares.
pub open spec fn arg_meta_view(a: ArgView) -> Option<ViewDataView> {
    match a {
        ArgView::Str(m) => meta_view_data(m),
        _ => None,
    }
}

/// Whether setting the hidden flag of a dataref changes it.
pub open spec fn dataref_hidden_changes(pre: &Controller, local: usize, name: Seq<char>, hidden: bool) -> bool {
    let insts = pre.book.instances@;
    local < insts.len() && match dataref_named(insts[local as int].datarefs@, name) {
        Some(d) => insts[local as int].datarefs@[d].hidden != hidden,
        None => false,
    }
}

/// `post` is `pre` with other user views and nothing else changed.
pub open spec fn only_user_views(pre: &Controller, post: &Controller) -> bool {
    &&& *post == Controller { user_views: post.user_views, ..*pre }
}

/// What a dataref's meta data message does: with one argument, the
/// dataref takes the hidden flag it gives, and then, when it declares a
/// view, the buffer takes part in that user view; otherwise nothing changes.
pub open spec fn dataref_meta_effect(pre: &Controller, post: &Controller, local: usize, name: Seq<char>, args: Seq<ArgView>) -> bool {
    if args.len() == 1 {
        let hidden = arg_meta_hidden(args[0]);
        let mid = Controller { user_views: pre.user_views, ..*post };
        &&& dataref_hidden_effect(pre, &mid, local, name, hidden, dataref_hidden_changes(pre, local, name, hidden))
        &&& post.input == pre.input
        &&& match arg_meta_view(args[0]) {
            Some(vd) => views_updated(pre.user_views, post.user_views, name, vd),
            None => post.user_views == pre.user_views,
        }
    } else {
        same(pre, post)
    }
}

fn layer_arg(a: &OscArg) -> (r: Option<i8>)
    ensures
        r == arg_layer(a@),
{
    match a {
        OscArg::Int(v) => if -128 <= *v && *v <= 127 {
            Some(*v as i8)
        } else {
            None
        },
        _ => None,
    }
}

fn flag_arg(a: &OscArg) -> (r: Option<bool>)
    ensures
        r == arg_flag(a@),
{
    match a {
        OscArg::Int(v) => Some(*v != 0),
        OscArg::Bool(b) => Some(*b),
        _ => None,
    }
}

/// Reads a user view display message.
fn display_args(args: &Vec<OscArg>) -> (r: Option<usize>)
    ensures
        r == display_request(args@.map_values(|a: OscArg| a@)),
{
    let ghost av = args@.map_values(|a: OscArg| a@);
    if args.len() > 0 {
        assert(av[0] == args@[0]@);
        number(&args[0])
    } else {
        None
    }
}

/// Reads a layer hide or exclusive-or message.
fn layer_flag_args(args: &Vec<OscArg>) -> (r: Option<(usize, i8, bool)>)
    ensures
        r == layer_flag_request(args@.map_values(|a: OscArg| a@)),
{
    let ghost av = args@.map_values(|a: OscArg| a@);
    if args.len() > 2 {
        assert(av[0] == args@[0]@ && av[1] == args@[1]@ && av[2] == args@[2]@);
        match (number(&args[0]), layer_arg(&args[1]), flag_arg(&args[2])) {
            (Some(i), Some(z), Some(b)) => Some((i, z, b)),
            _ => None,
        }
    } else {
        None
    }
}

/// Reads a layer redraw message.
fn layer_redraw_args(args: &Vec<OscArg>) -> (r: Option<(usize, i8)>)
    ensures
        r == layer_redraw_request(args@.map_values(|a: OscArg| a@)),
{
    let ghost av = args@.map_values(|a: OscArg| a@);
    if args.len() > 1 {
        assert(av[0] == args@[0]@ && av[1] == args@[1]@);
        match (number(&args[0]), layer_arg(&args[1])) {
            (Some(i), Some(z)) => Some((i, z)),
            _ => None,
        }
    } else {
        None
    }
}

/// What an OSC message to `addr` with `args` does, and what it leaves for
/// the caller.
pub open spec fn osc_effect(pre: &Controller, post: &Controller, addr: Seq<char>, args: Seq<ArgView>, r: FollowView) -> bool {
    match spec_route(pre, addr) {
        RouteView::ViewParams(i) => r == FollowView::Done && view_params_effect(
            pre,
            post,
            i,
            args,
            view_params_apply(pre, i, args),
        ),
        RouteView::TransportRolling => r == FollowView::Done && transport_effect(
            pre,
            post,
            args,
            transport_applies(pre, args),
        ),
        RouteView::TransportBpm => r == FollowView::Tempo && same(pre, post),
        RouteView::SetCurrent => r == FollowView::Done && if args.len() == 1 {
            current_effect(pre, post, arg_str(args[0]))
        } else {
            same(pre, post)
        },
        RouteView::PresetLoaded => r == FollowView::Done && if args.len() == 1 {
            loaded_effect(pre, post, arg_str(args[0]))
        } else {
            same(pre, post)
        },
        RouteView::ViewsOrder => r == FollowView::Done && view_order_effect(pre, post, args),
        RouteView::ViewDisplay => match read_pick(args, true) {
            Pick::Two(i, p) => r == FollowView::Done && view_select_effect(pre, post, i, p),
            Pick::Caller => r == FollowView::ViewDisplay && same(pre, post),
            Pick::Nothing => r == FollowView::Done && same(pre, post),
        },
        RouteView::ViewPageDisplay => match read_page(args) {
            Pick::Two(p, _) => r == FollowView::Done && pre.stepped(post, Events::SetViewPageSelected(p))
                && post.input == pre.input,
            Pick::Caller => r == FollowView::ViewPageDisplay && same(pre, post),
            Pick::Nothing => r == FollowView::Done && same(pre, post),
        },
        RouteView::ParamDelta => r == FollowView::ParamDelta && same(pre, post),
        RouteView::Redraw => r == FollowView::Done && redraw_effect(pre, post),
        RouteView::DeviceParams => match read_pick(args, true) {
            Pick::Two(d, p) => r == FollowView::Done && device_params_effect(pre, post, d, p),
            Pick::Caller => r == FollowView::DeviceParams && same(pre, post),
            Pick::Nothing => r == FollowView::Done && same(pre, post),
        },
        RouteView::DeviceData => match read_pick(args, false) {
            Pick::Two(d, _) => r == FollowView::Done && device_data_effect(pre, post, d),
            Pick::Caller => r == FollowView::DeviceData && same(pre, post),
            Pick::Nothing => r == FollowView::Done && same(pre, post),
        },
        RouteView::DisplayCount => r == FollowView::Reply(DISPLAY_COUNT_ADDR@, seq![ArgView::Int(1)])
            && same(pre, post),
        RouteView::DisplayInfo => same(pre, post) && r == if args.len() > 0 && args[0] == ArgView::Int(0) {
            FollowView::Reply(DISPLAY_INFO_ADDR@, display_info_args())
        } else {
            FollowView::Done
        },
        RouteView::InstanceAlias(i) => r == FollowView::Done && alias_effect(pre, post, i, args),
        RouteView::ParamMeta(i, n) => same(pre, post) && r == if args.len() > 0 && args[0] is Str {
            FollowView::ParamMeta(i, n)
        } else {
            FollowView::Done
        },
        RouteView::Param(p) => same(pre, post) && r == if args.len() == 1 {
            FollowView::Param(p)
        } else {
            FollowView::Done
        },
        RouteView::ParamNorm(p) => same(pre, post) && r == if args.len() == 1 {
            FollowView::ParamNorm(p)
        } else {
            FollowView::Done
        },
        RouteView::Dataref(l, n) => r == FollowView::Done && dataref_mapping_effect(
            pre,
            post,
            l,
            n,
            args,
            mapping_applies(pre, l, n, args),
        ),
        RouteView::DatarefMeta(l, n) => r == FollowView::Done && dataref_meta_effect(pre, post, l, n, args),
        RouteView::UserViewDisplay => r == FollowView::Done && match display_request(args) {
            Some(i) => only_user_views(pre, post) && views_displayed(pre.user_views, post.user_views, i),
            None => same(pre, post),
        },
        RouteView::UserLayerHide => r == FollowView::Done && match layer_flag_request(args) {
            Some((i, z, b)) => only_user_views(pre, post) && views_relayered(
                pre.user_views,
                post.user_views,
                i,
                |ls: Seq<LayerView>| hidden_set(ls, z, b),
            ),
            None => same(pre, post),
        },
        RouteView::UserLayerXor => r == FollowView::Done && match layer_flag_request(args) {
            Some((i, z, b)) => only_user_views(pre, post) && views_relayered(
                pre.user_views,
                post.user_views,
                i,
                |ls: Seq<LayerView>| xor_set(ls, z, b),
            ),
            None => same(pre, post),
        },
        RouteView::UserLayerRedraw => r == FollowView::Done && match layer_redraw_request(args) {
            Some((i, z)) => only_user_views(pre, post) && views_relayered(
                pre.user_views,
                post.user_views,
                i,
                |ls: Seq<LayerView>| dirty_set(ls, z),
            ),
            None => same(pre, post),
        },
        RouteView::Malformed => r == FollowView::Malformed && same(pre, post),
        RouteView::Ignored => r == FollowView::Done && same(pre, post),
    }
}

impl Controller {
    /// Takes a dataref's meta data argument: the dataref takes the hidden
    /// flag it gives, and, when it declares a view, the buffer takes part in
    /// that user view.
    pub fn take_dataref_meta(&mut self, local: usize, name: String, meta: &OscArg)
        requires
            old(self).wf(),
        ensures
            final(self).wf(),
            dataref_meta_effect(old(self), final(self), local, name@, seq![meta@]),
    {
        let hidden = match meta {
            OscArg::Str(m) => meta_hidden(m.as_str()),
            _ => false,
        };
        self.set_dataref_hidden(local, &name, hidden);
        if let OscArg::Str(m) = meta {
            if let Some(vd) = view_data(m.as_str()) {
                self.user_views.update(name, vd);
            }
        }
    }
}

impl Controller {
    /// Takes an OSC message from the runner.
    pub fn handle_osc(&mut self, addr: &String, args: &Vec<OscArg>) -> (r: FollowUp)
        requires
            old(self).wf(),
        ensures
            final(self).wf(),
            osc_effect(old(self), final(self), addr@, args@.map_values(|a: OscArg| a@), r@),
    {
        let ghost av = args@.map_values(|a: OscArg| a@);
        proof {
            if args@.len() > 0 {
                assert(av[0] == args@[0]@);
            }
        }
        let route = self.route_osc(addr);
        match route {
            Route::ViewParams(i) => {
                self.set_view_params(i, args);
                FollowUp::Done
            },
            Route::TransportRolling => {
                self.set_transport(args);
                FollowUp::Done
            },
            Route::TransportBpm => FollowUp::Tempo,
            Route::SetCurrent => {
                if args.len() == 1 {
                    let name = str_arg(&args[0]);
                    self.set_set_current_name(name);
                }
                FollowUp::Done
            },
            Route::PresetLoaded => {
                if args.len() == 1 {
                    let name = str_arg(&args[0]);
                    self.set_preset_loaded_name(name);
                }
                FollowUp::Done
            },
            Route::ViewsOrder => {
                self.set_view_order(args);
                FollowUp::Done
            },
            Route::ViewDisplay => match pick(args, true) {
                Pick::Two(i, p) => {
                    self.select_view(i, p);
                    FollowUp::Done
                },
                Pick::Caller => FollowUp::ViewDisplay,
                Pick::Nothing => FollowUp::Done,
            },
            Route::ViewPageDisplay => if args.len() == 1 {
                match pick(args, false) {
                    Pick::Two(p, _) => {
                        self.select_view_page(p);
                        FollowUp::Done
                    },
                    Pick::Caller => FollowUp::ViewPageDisplay,
                    Pick::Nothing => FollowUp::Done,
                }
            } else {
                FollowUp::Done
            },
            Route::ParamDelta => FollowUp::ParamDelta,
            Route::Redraw => {
                self.redraw();
                FollowUp::Done
            },
            Route::DisplayCount => FollowUp::Reply(msg_int(DISPLAY_COUNT_ADDR, 1)),
            Route::DeviceParams => match pick(args, true) {
                Pick::Two(d, p) => {
                    self.select_device_params(d, p);
                    FollowUp::Done
                },
                Pick::Caller => FollowUp::DeviceParams,
                Pick::Nothing => FollowUp::Done,
            },
            Route::DeviceData => match pick(args, false) {
                Pick::Two(d, _) => {
                    self.select_device_data(d);
                    FollowUp::Done
                },
                Pick::Caller => FollowUp::DeviceData,
                Pick::Nothing => FollowUp::Done,
            },
            Route::DisplayInfo => {
                let first_is_zero = args.len() > 0 && match &args[0] {
                    OscArg::Int(i) => *i == 0,
                    _ => false,
                };
                if first_is_zero {
                    FollowUp::Reply(display_info_msg())
                } else {
                    FollowUp::Done
                }
            },
            Route::InstanceAlias(i) => {
                self.set_instance_alias(i, args);
                FollowUp::Done
            },
            Route::ParamMeta(i, n) => {
                let is_str = args.len() > 0 && match &args[0] {
                    OscArg::Str(_) => true,
                    _ => false,
                };
                if is_str {
                    FollowUp::ParamMeta(i, n)
                } else {
                    FollowUp::Done
                }
            },
            Route::Param(p) => if args.len() == 1 {
                FollowUp::Param(p)
            } else {
                FollowUp::Done
            },
            Route::ParamNorm(p) => if args.len() == 1 {
                FollowUp::ParamNorm(p)
            } else {
                FollowUp::Done
            },
            Route::Dataref(l, n) => {
                self.set_dataref_mapping(l, &n, args);
                FollowUp::Done
            },
            Route::DatarefMeta(l, n) => {
                if args.len() == 1 {
                    self.take_dataref_meta(l, n, &args[0]);
                }
                FollowUp::Done
            },
            Route::UserViewDisplay => {
                if let Some(i) = display_args(args) {
                    self.user_views.display(i);
                }
                FollowUp::Done
            },
            Route::UserLayerHide => {
                if let Some((i, z, b)) = layer_flag_args(args) {
                    self.user_views.set_layer_hidden(i, z, b);
                }
                FollowUp::Done
            },
            Route::UserLayerXor => {
                if let Some((i, z, b)) = layer_flag_args(args) {
                    self.user_views.set_layer_xor(i, z, b);
                }
                FollowUp::Done
            },
            Route::UserLayerRedraw => {
                if let Some((i, z)) = layer_redraw_args(args) {
                    self.user_views.set_layer_dirty(i, z);
                }
                FollowUp::Done
            },
            Route::Malformed => FollowUp::Malformed,
            Route::Ignored => FollowUp::Done,
        }
    }
}

} // verus!

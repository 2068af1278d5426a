//! The OSC messages the controller sends to the runner, and the work it hands
//! to its caller.
use vstd::prelude::*;

verus! {

pub const INST_UNLOAD_ADDR: &'static str = "/rnbo/inst/control/unload";
pub const INST_LOAD_ADDR: &'static str = "/rnbo/inst/control/load";
pub const SET_LOAD_ADDR: &'static str = "/rnbo/inst/control/sets/load";
pub const SET_CURRENT_ADDR: &'static str = "/rnbo/inst/control/sets/current/name";
pub const SET_PRESETS_LOAD_ADDR: &'static str = "/rnbo/inst/control/sets/presets/load";
pub const SET_PRESETS_SAVE_ADDR: &'static str = "/rnbo/inst/control/sets/presets/save";
pub const SET_PRESETS_RENAME_ADDR: &'static str = "/rnbo/inst/control/sets/presets/rename";
pub const SET_PRESETS_DELETE_ADDR: &'static str = "/rnbo/inst/control/sets/presets/destroy";
pub const SET_PRESETS_LOADED_ADDR: &'static str = "/rnbo/inst/control/sets/presets/loaded";
pub const SET_VIEWS_LIST_ADDR: &'static str = "/rnbo/inst/control/sets/views/list";
pub const SET_VIEWS_ORDER_ADDR: &'static str = "/rnbo/inst/control/sets/views/order";
pub const SET_VIEW_DISPLAY: &'static str = "/rnboctl/view/display";
pub const SET_VIEW_PAGE_DISPLAY: &'static str = "/rnboctl/view/page";
pub const TRANSPORT_ROLLING_ADDR: &'static str = "/rnbo/jack/transport/rolling";
pub const TRANSPORT_BPM_ADDR: &'static str = "/rnbo/jack/transport/bpm";
pub const PARAM_DELTA_ADDR: &'static str = "/rnboctl/param/delta";
pub const REDRAW_ADDR: &'static str = "/rnboctl/redraw";
pub const DISPLAY_COUNT_ADDR: &'static str = "/rnboctl/display/count";
pub const DISPLAY_INFO_ADDR: &'static str = "/rnboctl/display/info";
pub const DEVICE_PARAMS_ADDR: &'static str = "/rnboctl/device/params";
pub const DEVICE_DATA_ADDR: &'static str = "/rnboctl/device/data";
pub const USERVIEW_DISPLAY_ADDR: &'static str = "/rnboctl/userview/display";
pub const USERVIEW_LAYER_HIDE_ADDR: &'static str = "/rnboctl/userview/layer/hide";
pub const USERVIEW_LAYER_XOR_ADDR: &'static str = "/rnboctl/userview/layer/xor";
pub const USERVIEW_LAYER_REDRAW_ADDR: &'static str = "/rnboctl/userview/layer/redraw";

/// An argument of an OSC message.
pub enum OscArg {
    Int(i32),
    Str(String),
    Bool(bool),
    /// An argument of another type, which the controller does not read.
    Other,
}

/// An argument as a value.
pub enum ArgView {
    Int(i32),
    Str(Seq<char>),
    Bool(bool),
    Other,
}

impl View for OscArg {
    type V = ArgView;

    open spec fn view(&self) -> ArgView {
        match self {
            OscArg::Int(i) => ArgView::Int(*i),
            OscArg::Str(s) => ArgView::Str(s@),
            OscArg::Bool(b) => ArgView::Bool(*b),
            OscArg::Other => ArgView::Other,
        }
    }
}

/// An OSC message: an address and its arguments.
pub struct OscMsg {
    pub addr: String,
    pub args: Vec<OscArg>,
}

impl View for OscMsg {
    type V = (Seq<char>, Seq<ArgView>);

    open spec fn view(&self) -> (Seq<char>, Seq<ArgView>) {
        (self.addr@, self.args@.map_values(|a: OscArg| a@))
    }
}

/// What the controller hands its caller after carrying out a command.
pub enum Outgoing {
    /// A message for the runner.
    Osc(OscMsg),
    /// Step the parameter at this position of the parameter list by so many
    /// steps, and send its new normalized value.
    OffsetParam(usize, isize),
    /// Step the tempo by so many steps and send it.
    OffsetTempo(isize),
    /// Make tempo steps coarse (five times as large) or fine.
    MulTempoOffset(bool),
    /// List the data files, hand them to `set_datafile_list`, and carry on.
    ListDataFiles,
}

/// What the controller hands out, as values.
pub enum OutView {
    Osc(Seq<char>, Seq<ArgView>),
    OffsetParam(usize, isize),
    OffsetTempo(isize),
    MulTempoOffset(bool),
    ListDataFiles,
}

impl View for Outgoing {
    type V = OutView;

    open spec fn view(&self) -> OutView {
        match self {
            Outgoing::Osc(m) => OutView::Osc(m@.0, m@.1),
            Outgoing::OffsetParam(i, o) => OutView::OffsetParam(*i, *o),
            Outgoing::OffsetTempo(o) => OutView::OffsetTempo(*o),
            Outgoing::MulTempoOffset(b) => OutView::MulTempoOffset(*b),
            Outgoing::ListDataFiles => OutView::ListDataFiles,
        }
    }
}

/// The values of a list of outgoing items.
pub open spec fn out_views(s: Seq<Outgoing>) -> Seq<OutView> {
    s.map_values(|o: Outgoing| o@)
}

/// A message with one string argument.
pub fn msg_str(addr: &str, s: String) -> (m: OscMsg)
    ensures
        m@.0 == addr@,
        m@.1 == seq![ArgView::Str(s@)],
{
    let mut args: Vec<OscArg> = Vec::new();
    args.push(OscArg::Str(s));
    let m = OscMsg { addr: addr.to_owned(), args };
    assert(m@.1 =~= seq![ArgView::Str(s@)]);
    m
}

/// A message with one integer argument.
pub fn msg_int(addr: &str, i: i32) -> (m: OscMsg)
    ensures
        m@.0 == addr@,
        m@.1 == seq![ArgView::Int(i)],
{
    let mut args: Vec<OscArg> = Vec::new();
    args.push(OscArg::Int(i));
    let m = OscMsg { addr: addr.to_owned(), args };
    assert(m@.1 =~= seq![ArgView::Int(i)]);
    m
}

/// A message with one boolean argument.
pub fn msg_bool(addr: &str, b: bool) -> (m: OscMsg)
    ensures
        m@.0 == addr@,
        m@.1 == seq![ArgView::Bool(b)],
{
    let mut args: Vec<OscArg> = Vec::new();
    args.push(OscArg::Bool(b));
    let m = OscMsg { addr: addr.to_owned(), args };
    assert(m@.1 =~= seq![ArgView::Bool(b)]);
    m
}

/// The display's details as `/rnboctl/display/info` answers them: its index,
/// its width and height in pixels, its colour format (0: one bit per pixel)
/// and its frame period in milliseconds.
pub open spec fn display_info_args() -> Seq<ArgView> {
    seq![ArgView::Int(0), ArgView::Int(128), ArgView::Int(64), ArgView::Int(0), ArgView::Int(23)]
}

/// The answer to `/rnboctl/display/info` for the one display.
pub fn display_info_msg() -> (m: OscMsg)
    ensures
        m@.0 == DISPLAY_INFO_ADDR@,
        m@.1 == display_info_args(),
{
    let mut args: Vec<OscArg> = Vec::new();
    args.push(OscArg::Int(0));
    args.push(OscArg::Int(128));
    args.push(OscArg::Int(64));
    args.push(OscArg::Int(0));
    args.push(OscArg::Int(23));
    let m = OscMsg { addr: DISPLAY_INFO_ADDR.to_owned(), args };
    assert(m@.1 =~= display_info_args());
    m
}

/// A message with two arguments.
pub fn msg_two(addr: &str, a: OscArg, b: OscArg) -> (m: OscMsg)
    ensures
        m@.0 == addr@,
        m@.1 == seq![a@, b@],
{
    let mut args: Vec<OscArg> = Vec::new();
    let ghost av = a@;
    let ghost bv = b@;
    args.push(a);
    args.push(b);
    let m = OscMsg { addr: addr.to_owned(), args };
    assert(m@.1 =~= seq![av, bv]);
    m
}

} // verus!

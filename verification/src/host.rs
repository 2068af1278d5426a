//! Decisions the program around the controller takes: which audio server
//! connections to undo, and which runner notifications call for a new query.
use vstd::prelude::*;
use crate::incoming::{capture, regex_capture};
use crate::json::{json_str_at, json_str_in, json_string, json_string_in};
use crate::osc::{SET_LOAD_ADDR, SET_PRESETS_LOAD_ADDR};

verus! {

/// A connection from port `a` to port `b` that nobody but the controller may
/// make: into the device display from elsewhere, from the controller's
/// display port elsewhere, from the device's MIDI out elsewhere, or into the
/// controller's MIDI in from elsewhere. Only new connections are undone.
pub fn refuse_connection(
    are_connected: bool,
    a_is_display: bool,
    b_is_system_display: bool,
    a_is_system_midi_out: bool,
    b_is_midi_in: bool,
) -> (r: bool)
    ensures
        r == (are_connected && ((!a_is_display && b_is_system_display) || (a_is_display
            && !b_is_system_display) || (a_is_system_midi_out && !b_is_midi_in) || (
        !a_is_system_midi_out && b_is_midi_in))),
{
    are_connected && ((!a_is_display && b_is_system_display) || (a_is_display
        && !b_is_system_display) || (a_is_system_midi_out && !b_is_midi_in) || (!a_is_system_midi_out
        && b_is_midi_in))
}

/// The path of an instance.
pub const INST_PATH_PATTERN: &'static str = r"^/rnbo/inst/\d+$";

/// The path of a view.
pub const SET_VIEW_PATH_PATTERN: &'static str = r"^/rnbo/inst/control/sets/views/list/\d+$";

/// What an added or removed path calls for.
#[derive(Copy, Clone, Debug, PartialEq, Eq, Structural)]
pub enum PathChange {
    /// Query the instances again.
    Instances,
    /// Query the views again, a little later.
    Views,
    Other,
}

/// Whether `pattern` matches somewhere in `text`.
pub open spec fn matches_pattern(pattern: Seq<char>, text: Seq<char>) -> bool {
    regex_capture(pattern, text, 0) is Some
}

/// What an added or removed path calls for: an instance path asks for the
/// instances, a view path for the views.
pub open spec fn spec_path_change(path: Seq<char>) -> PathChange {
    if matches_pattern(INST_PATH_PATTERN@, path) {
        PathChange::Instances
    } else if matches_pattern(SET_VIEW_PATH_PATTERN@, path) {
        PathChange::Views
    } else {
        PathChange::Other
    }
}

/// What an added or removed path calls for.
pub fn path_change(path: &str) -> (r: PathChange)
    ensures
        r == spec_path_change(path@),
{
    if capture(INST_PATH_PATTERN, path, 0).is_some() {
        PathChange::Instances
    } else if capture(SET_VIEW_PATH_PATTERN, path, 0).is_some() {
        PathChange::Views
    } else {
        PathChange::Other
    }
}

/// Which list a changed attribute replaces.
#[derive(Copy, Clone, Debug, PartialEq, Eq, Structural)]
pub enum AttributeChange {
    SetNames,
    SetPresetNames,
    Other,
}

/// Which list a change of the attributes at `full_path` replaces.
pub open spec fn spec_attribute_change(full_path: Seq<char>) -> AttributeChange {
    if full_path == SET_LOAD_ADDR@ {
        AttributeChange::SetNames
    } else if full_path == SET_PRESETS_LOAD_ADDR@ {
        AttributeChange::SetPresetNames
    } else {
        AttributeChange::Other
    }
}

/// Which list a change of the attributes at `full_path` replaces.
pub fn attribute_change(full_path: &String) -> (r: AttributeChange)
    ensures
        r == spec_attribute_change(full_path@),
{
    if *full_path == SET_LOAD_ADDR.to_owned() {
        AttributeChange::SetNames
    } else if *full_path == SET_PRESETS_LOAD_ADDR.to_owned() {
        AttributeChange::SetPresetNames
    } else {
        AttributeChange::Other
    }
}

pub const ATTRIBUTES_CHANGED: &'static str = "ATTRIBUTES_CHANGED";
pub const PATH_ADDED: &'static str = "PATH_ADDED";
pub const PATH_REMOVED: &'static str = "PATH_REMOVED";

/// What a notification on the runner's websocket calls for.
#[derive(Copy, Clone, Debug, PartialEq, Eq, Structural)]
pub enum Notification {
    /// The attributes at a path changed; the list it names, if any, is
    /// replaced by the one the notification carries.
    Attributes(AttributeChange),
    /// A path was added or removed.
    Path(PathChange),
    Ignored,
}

/// What a notification calls for, given its command, the full path in its
/// data object, and its data when that is a string: changed attributes go
/// by their full path, added and removed paths by the path.
pub open spec fn spec_notification(
    command: Option<Seq<char>>,
    full_path: Option<Seq<char>>,
    path: Option<Seq<char>>,
) -> Notification {
    match command {
        Some(c) => if c == ATTRIBUTES_CHANGED@ {
            match full_path {
                Some(p) => Notification::Attributes(spec_attribute_change(p)),
                None => Notification::Ignored,
            }
        } else if c == PATH_ADDED@ || c == PATH_REMOVED@ {
            match path {
                Some(p) => Notification::Path(spec_path_change(p)),
                None => Notification::Ignored,
            }
        } else {
            Notification::Ignored
        },
        None => Notification::Ignored,
    }
}

/// What a notification calls for, given what was read of it (see
/// `spec_notification`).
pub fn notification_of(command: &Option<String>, full_path: &Option<String>, path: &Option<String>) -> (n: Notification)
    ensures
        n == spec_notification(
            match command {
                Some(s) => Some(s@),
                None => None,
            },
            match full_path {
                Some(s) => Some(s@),
                None => None,
            },
            match path {
                Some(s) => Some(s@),
                None => None,
            },
        ),
{
    match command {
        Some(c) => if *c == ATTRIBUTES_CHANGED.to_owned() {
            match full_path {
                Some(p) => Notification::Attributes(attribute_change(p)),
                None => Notification::Ignored,
            }
        } else if *c == PATH_ADDED.to_owned() || *c == PATH_REMOVED.to_owned() {
            match path {
                Some(p) => Notification::Path(path_change(p.as_str())),
                None => Notification::Ignored,
            }
        } else {
            Notification::Ignored
        },
        None => Notification::Ignored,
    }
}

/// What the text of a websocket notification calls for: its "COMMAND", the
/// "FULL_PATH" of its "DATA", and its "DATA" as a string are read and
/// weighed as `spec_notification` says.
pub fn notification(text: &str) -> (n: Notification)
    ensures
        n == spec_notification(
            json_str_at(text@, "COMMAND"@),
            json_str_in(text@, "DATA"@, "FULL_PATH"@),
            json_str_at(text@, "DATA"@),
        ),
{
    let command = json_string(text, "COMMAND");
    let full_path = json_string_in(text, "DATA", "FULL_PATH");
    let path = json_string(text, "DATA");
    notification_of(&command, &full_path, &path)
}

/// The lists the controller queries the runner for over HTTP.
#[derive(Copy, Clone, Debug, PartialEq, Eq, Structural)]
pub enum Query {
    Instances,
    /// The graph names and the preset names.
    Sets,
    Views,
    SetCurrent,
}

/// What calls for new queries.
#[derive(Copy, Clone, Debug, PartialEq, Eq, Structural)]
pub enum QueryTrigger {
    /// The websocket to the runner is up.
    Connected,
    /// The instances were read: the views, which name them, follow.
    InstancesLoaded,
    /// A path was added or removed.
    Changed(PathChange),
}

/// Milliseconds to let the runner settle before the first queries.
pub const INITIAL_QUERY_DELAY_MS: u64 = 500;

/// The queries a trigger calls for, each with how many milliseconds from
/// now it is due.
pub open spec fn spec_query_plan(t: QueryTrigger) -> Seq<(Query, u64)> {
    match t {
        QueryTrigger::Connected => seq![
            (Query::Instances, 500u64),
            (Query::Sets, 500u64),
            (Query::Views, 1000u64),
            (Query::SetCurrent, 500u64),
        ],
        QueryTrigger::InstancesLoaded => seq![(Query::Views, 500u64)],
        QueryTrigger::Changed(PathChange::Instances) => seq![(Query::Instances, 0u64)],
        QueryTrigger::Changed(PathChange::Views) => seq![(Query::Views, 100u64)],
        QueryTrigger::Changed(PathChange::Other) => Seq::empty(),
    }
}

/// The queries a trigger calls for, and when.
pub fn query_plan(t: QueryTrigger) -> (plan: Vec<(Query, u64)>)
    ensures
        plan@ == spec_query_plan(t),
{
    let mut plan: Vec<(Query, u64)> = Vec::new();
    match t {
        QueryTrigger::Connected => {
            plan.push((Query::Instances, INITIAL_QUERY_DELAY_MS));
            plan.push((Query::Sets, INITIAL_QUERY_DELAY_MS));
            plan.push((Query::Views, 2 * INITIAL_QUERY_DELAY_MS));
            plan.push((Query::SetCurrent, INITIAL_QUERY_DELAY_MS));
        },
        QueryTrigger::InstancesLoaded => {
            plan.push((Query::Views, INITIAL_QUERY_DELAY_MS));
        },
        QueryTrigger::Changed(PathChange::Instances) => {
            plan.push((Query::Instances, 0));
        },
        QueryTrigger::Changed(PathChange::Views) => {
            plan.push((Query::Views, 100));
        },
        QueryTrigger::Changed(PathChange::Other) => {},
    }
    assert(plan@ =~= spec_query_plan(t));
    plan
}

} // verus!

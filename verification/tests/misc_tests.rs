use rnbo_move_control::config::{Config, DEFAULT_OSC_PORT};
use rnbo_move_control::display::MoveDisplay;
use rnbo_move_control::host::{
    attribute_change, notification, path_change, query_plan, refuse_connection, AttributeChange, Notification,
    PathChange, Query, QueryTrigger,
};
use rnbo_move_control::incoming::meta_hidden;
use rnbo_move_control::instances::{param_names, DatarefRef, Instance};
use rnbo_move_control::userview::view_data;
use rnbo_move_control::names::{less, sort_by, Order};
use rnbo_move_control::popup::Popup;
use rnbo_move_control::text::decimal_string;

#[test]
fn config_defaults() {
    let c = Config::default();
    assert_eq!(c.volume, 178);
    assert_eq!(c.oscport(), DEFAULT_OSC_PORT);
    assert_eq!(c.param_step_detents(), 1);
    let c = Config { volume: 0, oscport: None, param_step_detents: Some(0) };
    assert_eq!(c.oscport(), 2345);
    assert_eq!(c.param_step_detents(), 1);
    let c = Config { volume: 0, oscport: Some(9000), param_step_detents: Some(4) };
    assert_eq!(c.oscport(), 9000);
    assert_eq!(c.param_step_detents(), 4);
}

#[test]
fn display_pixels() {
    let mut d = MoveDisplay::new();
    assert_eq!(&d.framebuffer()[0..8], b"MOVEDISP");
    assert!(d.draw_if().is_some());
    assert!(d.draw_if().is_none());
    d.draw_pixel(3, 9, true);
    assert_eq!(d.framebuffer()[8 + 3 + 128], 0b10);
    d.draw_pixel(3, 9, false);
    assert_eq!(d.framebuffer()[8 + 3 + 128], 0);
    d.draw_pixel(-1, 0, true);
    d.draw_pixel(128, 0, true);
    d.draw_pixel(0, 64, true);
    assert!(d.framebuffer()[8..].iter().all(|b| *b == 0));
    d.clear(true);
    assert!(d.framebuffer()[8..].iter().all(|b| *b == 0xFF));
    assert_eq!(&d.framebuffer()[0..8], b"MOVEDISP");
}

#[test]
fn connections_to_protect() {
    assert!(refuse_connection(true, false, true, false, false));
    assert!(refuse_connection(true, true, false, false, false));
    assert!(!refuse_connection(true, true, true, false, false));
    assert!(refuse_connection(true, false, false, true, false));
    assert!(!refuse_connection(true, false, false, true, true));
    assert!(refuse_connection(true, false, false, false, true));
    assert!(!refuse_connection(false, false, true, false, false));
    assert!(!refuse_connection(true, false, false, false, false));
}

#[test]
fn runner_paths() {
    assert_eq!(path_change("/rnbo/inst/3"), PathChange::Instances);
    assert_eq!(path_change("/rnbo/inst/3/params"), PathChange::Other);
    assert_eq!(path_change("/rnbo/inst/control/sets/views/list/0"), PathChange::Views);
    assert_eq!(path_change("/rnbo/inst/x"), PathChange::Other);
    assert_eq!(attribute_change(&"/rnbo/inst/control/sets/load".to_string()), AttributeChange::SetNames);
    assert_eq!(
        attribute_change(&"/rnbo/inst/control/sets/presets/load".to_string()),
        AttributeChange::SetPresetNames
    );
    assert_eq!(attribute_change(&"/other".to_string()), AttributeChange::Other);
}

#[test]
fn name_orders() {
    let v = sort_by(Order::Bytes, vec!["b".to_string(), "B".to_string(), "a".to_string(), "ä".to_string()]);
    assert_eq!(v, vec!["B".to_string(), "a".to_string(), "b".to_string(), "ä".to_string()]);
    assert!(less(Order::Presets, &"initial".to_string(), &"A".to_string()));
    assert!(!less(Order::Presets, &"B".to_string(), &"a".to_string()));
    assert!(less(Order::Presets, &"a".to_string(), &"B".to_string()));
    assert!(!less(Order::Presets, &"Straße".to_string(), &"STRASSE".to_string()));
    assert!(!less(Order::Presets, &"STRASSE".to_string(), &"Straße".to_string()));
    assert!(less(Order::Bytes, &"ab".to_string(), &"abc".to_string()));
    assert!(!less(Order::Bytes, &"abc".to_string(), &"abc".to_string()));
}

#[test]
fn presets_that_fold_alike_keep_their_order() {
    let v = sort_by(
        Order::Presets,
        vec!["B".to_string(), "a".to_string(), "b".to_string(), "A".to_string(), "initial".to_string()],
    );
    assert_eq!(
        v,
        vec!["initial".to_string(), "a".to_string(), "A".to_string(), "B".to_string(), "b".to_string()]
    );
}

#[test]
fn decimals() {
    assert_eq!(decimal_string(0), "0");
    assert_eq!(decimal_string(7), "7");
    assert_eq!(decimal_string(1234567890), "1234567890");
    assert_eq!(decimal_string(usize::MAX), usize::MAX.to_string());
}

#[test]
fn popups_keep_their_text() {
    let p = Popup::new("T".to_string(), "C".to_string());
    assert_eq!(p.title(), "T");
    assert_eq!(p.content(), "C");
    assert!(!p.timed_out());
    let e = Popup::empty();
    assert_eq!(e.title(), "");
}

#[test]
fn query_plans() {
    assert_eq!(
        query_plan(QueryTrigger::Connected),
        vec![(Query::Instances, 500), (Query::Sets, 500), (Query::Views, 1000), (Query::SetCurrent, 500)]
    );
    assert_eq!(query_plan(QueryTrigger::InstancesLoaded), vec![(Query::Views, 500)]);
    assert_eq!(query_plan(QueryTrigger::Changed(PathChange::Instances)), vec![(Query::Instances, 0)]);
    assert_eq!(query_plan(QueryTrigger::Changed(PathChange::Views)), vec![(Query::Views, 100)]);
    assert_eq!(query_plan(QueryTrigger::Changed(PathChange::Other)), vec![]);
}

#[test]
fn websocket_notifications() {
    let n = notification(r#"{"COMMAND": "PATH_ADDED", "DATA": "/rnbo/inst/3"}"#);
    assert_eq!(n, Notification::Path(PathChange::Instances));
    let n = notification(r#"{"COMMAND": "PATH_REMOVED", "DATA": "/rnbo/inst/control/sets/views/list/2"}"#);
    assert_eq!(n, Notification::Path(PathChange::Views));
    let n = notification(r#"{"COMMAND": "PATH_ADDED", "DATA": "/rnbo/jack"}"#);
    assert_eq!(n, Notification::Path(PathChange::Other));
    let n = notification(r#"{"COMMAND": "ATTRIBUTES_CHANGED", "DATA": {"FULL_PATH": "/rnbo/inst/control/sets/load"}}"#);
    assert_eq!(n, Notification::Attributes(AttributeChange::SetNames));
    let n = notification(
        r#"{"COMMAND": "ATTRIBUTES_CHANGED", "DATA": {"FULL_PATH": "/rnbo/inst/control/sets/presets/load"}}"#,
    );
    assert_eq!(n, Notification::Attributes(AttributeChange::SetPresetNames));
    assert_eq!(notification(r#"{"COMMAND": "ATTRIBUTES_CHANGED", "DATA": {}}"#), Notification::Ignored);
    assert_eq!(notification(r#"{"COMMAND": "PATH_ADDED", "DATA": {}}"#), Notification::Ignored);
    assert_eq!(notification(r#"{"COMMAND": "OTHER", "DATA": "/rnbo/inst/3"}"#), Notification::Ignored);
    assert_eq!(notification("garbage"), Notification::Ignored);
}

#[test]
fn meta_flags_and_view_data() {
    assert!(meta_hidden(r#"{"hidden": true}"#));
    assert!(!meta_hidden(r#"{"hidden": false}"#));
    assert!(!meta_hidden(r#"{"hidden": "yes"}"#));
    assert!(!meta_hidden("[]"));
    let vd = view_data(r#"{"view": 3, "viewname": "foo", "z": 1, "viewhidden": true, "viewxor": true, "paramview": "pv"}"#)
        .unwrap();
    assert_eq!(vd.view_index, 3);
    assert_eq!(vd.view_name, Some("foo".to_string()));
    assert_eq!(vd.view_z, Some(1));
    assert!(vd.view_hidden && vd.view_xor);
    assert_eq!(vd.param_view_name, Some("pv".to_string()));
    assert_eq!(vd.shm_name, None);
    let vd = view_data(r#"{"view": 0, "z": 1000}"#).unwrap();
    assert_eq!(vd.view_z, None);
    assert!(!vd.view_hidden);
    assert!(view_data(r#"{"view": -1}"#).is_none());
    assert!(view_data(r#"{"z": 1}"#).is_none());
}

#[test]
fn parameter_names_from_addresses() {
    let (name, norm) = param_names("/rnbo/inst/0/params/cutoff").unwrap();
    assert_eq!(name, "cutoff");
    assert_eq!(norm, "/rnbo/inst/0/params/cutoff/normalized");
    let (name, _) = param_names("/rnbo/inst/0/params/poly/params/gain").unwrap();
    assert_eq!(name, "poly");
    let (name, _) = param_names("/rnbo/inst/0/params/").unwrap();
    assert_eq!(name, "");
    assert!(param_names("/rnbo/inst/0/data_refs/buf").is_none());
}

#[test]
fn instance_visible_datarefs() {
    let d = |n: &str, hidden: bool| DatarefRef { name: n.to_string(), mapping: None, hidden };
    let i = Instance::new(3, "synth".to_string(), None, vec![], vec![d("a", false), d("b", true), d("c", false)]);
    assert_eq!(i.visible_datarefs, vec!["a".to_string(), "c".to_string()]);
    assert_eq!(i.datarefs.len(), 3);
    assert_eq!(i.index, 3);
}

use rnbo_move_control::config::Config;
use rnbo_move_control::controller::Controller;
use rnbo_move_control::events::Cmd;
use rnbo_move_control::instances::{Instance, ParamRef};
use rnbo_move_control::machines::{TopState, ViewState};
use rnbo_move_control::nav::ParamPage;
use rnbo_move_control::osc::{OscArg, Outgoing};
use rnbo_move_control::view::{parse_usize, ParamView};

#[test]
fn parse_param_pairs() {
    assert_eq!(ParamView::parse_param_s("1:2"), Ok((1, 2)));
    assert_eq!(ParamView::parse_param_s("+1:+2"), Ok((1, 2)));
    assert_eq!(ParamView::parse_param_s("10:20:30"), Ok((10, 20)));
    assert_eq!(ParamView::parse_param_s("1"), Err(()));
    assert_eq!(ParamView::parse_param_s(""), Err(()));
    assert_eq!(ParamView::parse_param_s(":2"), Err(()));
    assert_eq!(ParamView::parse_param_s("1:"), Err(()));
    assert_eq!(ParamView::parse_param_s("a:2"), Err(()));
    assert_eq!(ParamView::parse_param_s("-1:2"), Err(()));
    assert_eq!(ParamView::parse_param_s("1: 2"), Err(()));
    assert_eq!(ParamView::parse_param_s("99999999999999999999999:1"), Err(()));
}

#[test]
fn parse_numbers_like_str_parse() {
    for s in ["0", "7", "+7", "0012", "18446744073709551615", "", "+", "-1", "1a", "18446744073709551616"] {
        assert_eq!(parse_usize(s.as_bytes()), s.parse::<usize>().ok(), "{}", s);
    }
}

#[test]
fn view_accessors() {
    let mut v = ParamView::new("Mix".to_string(), vec![(0, 1)], 3);
    assert_eq!(v.index(), 3);
    assert_eq!(v.name(), "Mix");
    assert_eq!(v.params(), &vec![(0, 1)]);
    v.set_name("Other".to_string());
    v.set_params(vec![(2, 3), (4, 5)]);
    assert_eq!(v.name(), "Other");
    assert_eq!(v.params(), &vec![(2, 3), (4, 5)]);
}

#[test]
fn views_from_entries_skip_bad_ones() {
    let views = ParamView::from_entries(vec![
        (0, "A".to_string(), vec!["0:1".to_string()]),
        (1, "B".to_string(), vec!["0:1".to_string(), "x".to_string()]),
        (2, "C".to_string(), vec![]),
    ]);
    assert_eq!(views.len(), 2);
    assert_eq!(views[0].name(), "A");
    assert_eq!(views[1].index(), 2);
    assert!(views[1].params().is_empty());
}

fn param(instance_index: usize, index: usize, hidden: bool) -> ParamRef {
    ParamRef {
        instance_index,
        index,
        name: format!("p{}", index),
        addr: format!("/rnbo/inst/{}/params/p{}", instance_index, index),
        addr_norm: format!("/rnbo/inst/{}/params/p{}/normalized", instance_index, index),
        hidden,
    }
}

fn loaded() -> Controller {
    let mut c = Controller::new(Config::default(), None, true);
    let inst = Instance {
        index: 0,
        name: "synth".to_string(),
        alias: None,
        params: (0..10).map(|i| param(0, i, i == 1)).collect(),
        datarefs: vec![],
        visible_datarefs: vec![],
    };
    c.set_instances(vec![(0, inst)]);
    c
}

#[test]
fn views_are_sorted_and_resolved() {
    let mut c = loaded();
    c.set_view_order(&vec![OscArg::Int(5), OscArg::Int(-1), OscArg::Int(3)]);
    assert_eq!(c.views.order, vec![5, 3]);
    c.set_param_views(vec![
        ParamView::new("three".to_string(), vec![(0, 0), (0, 2)], 3),
        ParamView::new("nine".to_string(), vec![(9, 9)], 9),
        ParamView::new("five".to_string(), vec![(0, 3)], 5),
    ]);
    let order: Vec<usize> = c.views.param_views.iter().map(|v| v.index()).collect();
    assert_eq!(order, vec![5, 3, 9]);
    assert_eq!(c.views.names, vec!["five".to_string(), "three".to_string()]);
    // a pair names an instance and a parameter index; parameter 1 is hidden
    assert_eq!(c.views.params, vec![vec![3], vec![0, 2]]);
    assert_eq!(c.ctx.common.param_view_pages, vec![1, 1]);
    assert_eq!(c.views.lookup, vec![(5, 0), (3, 1), (9, 2)]);
}

#[test]
fn no_views_give_a_default_one() {
    let mut c = loaded();
    c.set_param_views(vec![]);
    assert_eq!(c.views.param_views.len(), 1);
    assert_eq!(c.views.param_views[0].name(), "Default");
    assert_eq!(c.views.param_views[0].params().len(), 9);
    assert_eq!(c.views.names, vec!["Default".to_string()]);
    assert_eq!(c.views.params[0], vec![0, 2, 3, 4, 5, 6, 7, 8, 9]);
    // a single view opens directly
    assert_eq!(c.menus.view, ViewState::ViewParams(ParamPage { index: 0, page: 0, focused: None }));
}

#[test]
fn view_params_message_changes_a_view() {
    let mut c = loaded();
    c.set_param_views(vec![ParamView::new("v".to_string(), vec![(0, 0)], 7)]);
    assert!(!c.set_view_params(8, &vec![OscArg::Str("0:2".to_string())]));
    assert!(!c.set_view_params(7, &vec![OscArg::Str("bad".to_string())]));
    assert!(c.set_view_params(7, &vec![OscArg::Str("0:2".to_string()), OscArg::Str("0:3".to_string())]));
    assert_eq!(c.views.param_views[0].params(), &vec![(0, 2), (0, 3)]);
    assert_eq!(c.views.params, vec![vec![2, 3]]);
    // a hidden parameter is left out of a view
    assert!(c.set_view_params(7, &vec![OscArg::Str("0:1".to_string()), OscArg::Str("0:3".to_string())]));
    assert_eq!(c.views.params, vec![vec![3]]);
    c.handle_osc(
        &"/rnbo/inst/control/sets/views/list/7/params".to_string(),
        &vec![OscArg::Str("0:4".to_string())],
    );
    assert_eq!(c.views.param_views[0].params(), &vec![(0, 4)]);
}

#[test]
fn view_display_clamps() {
    let mut c = loaded();
    c.set_param_views(vec![
        ParamView::new("a".to_string(), (0..10).map(|i| (0, i)).collect(), 0),
        ParamView::new("b".to_string(), vec![(0, 0)], 1),
    ]);
    c.handle_midi(&[0xBF, 0x32, 127]);
    assert_eq!(c.menus.top, TopState::Main);
    c.select_view(7, 9);
    assert_eq!(c.menus.top, TopState::ParamViews);
    assert_eq!(c.menus.view, ViewState::ViewParams(ParamPage { index: 1, page: 0, focused: None }));
    c.select_view(0, 5);
    assert_eq!(c.menus.view, ViewState::ViewParams(ParamPage { index: 0, page: 1, focused: None }));
    c.select_view_page(0);
    assert_eq!(c.menus.view, ViewState::ViewParams(ParamPage { index: 0, page: 0, focused: None }));
    c.select_view_page(9);
    assert_eq!(c.menus.view, ViewState::ViewParams(ParamPage { index: 0, page: 1, focused: None }));
    let out = c.process_cmds();
    assert!(out.iter().all(|o| matches!(o, Outgoing::Osc(_))));
    assert!(c.ctx.queue.is_empty());
    let _ = Cmd::ToggleTransport;
}

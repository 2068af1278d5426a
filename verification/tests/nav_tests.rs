use rnbo_move_control::nav::{
    all_enabled, default_indicator, param_pages, Caps, DataLoad, DataSel, InstSel, InstSelType,
    ParamPage, PresetListOp, PresetListState, ITEM_INDICATOR,
};
use rnbo_move_control::events::Cmd;

#[test]
fn pages_round_up() {
    assert_eq!(param_pages(0), 0);
    assert_eq!(param_pages(1), 1);
    assert_eq!(param_pages(8), 1);
    assert_eq!(param_pages(9), 2);
    assert_eq!(param_pages(16), 2);
    assert_eq!(param_pages(17), 3);
}

#[test]
fn menu_defaults() {
    assert!(all_enabled(3));
    assert_eq!(default_indicator(0), ITEM_INDICATOR);
}

#[test]
fn preset_list_state_moves() {
    let s = PresetListState::new(PresetListOp::Delete);
    assert_eq!(s.op(), PresetListOp::Delete);
    assert_eq!(s.selected(), 0);
    assert!(!s.can_go_prev());
    assert_eq!(s.prev().selected(), 0);
    let n = s.next().next();
    assert_eq!(n.selected(), 2);
    assert!(n.can_go_prev());
    assert_eq!(n.prev().selected(), 1);
    assert_eq!(n.prev().op(), PresetListOp::Delete);
}

#[test]
fn instance_selection_stays_in_range() {
    let s = InstSel::enter(InstSelType::Params, 2);
    assert_eq!(s.selected(), 0);
    assert_eq!(s.typ(), InstSelType::Params);
    assert!(s.can_go_next());
    assert!(!s.can_go_prev());
    let n = s.next();
    assert_eq!(n.selected(), 1);
    assert!(!n.can_go_next());
    assert_eq!(n.next().selected(), 1);
    assert_eq!(n.prev().selected(), 0);
    assert_eq!(s.prev().selected(), 0);
    assert_eq!(InstSel::new(InstSelType::Datarefs, 1, 3).restart().selected(), 0);
}

#[test]
fn param_page_offsets() {
    let p = ParamPage { index: 1, page: 2, focused: None };
    assert_eq!(p.offset_page(1), 3);
    assert_eq!(p.offset_page(-1), 1);
    assert_eq!(p.offset_page(-5), 0);
    assert_eq!(p.with_offset_page(-3).page, 0);
    assert_eq!(p.with_offset_page(2).page, 4);
    assert_eq!(p.with_focus(5).focused, Some(5));
    assert_eq!(p.with_focus(5).page, 2);
}

#[test]
fn dataref_pickers() {
    let d = DataSel::new(1, 3);
    assert_eq!(d.instance(), 1);
    assert_eq!(d.selected(), 0);
    assert!(d.can_go_next());
    assert!(!d.can_go_prev());
    let d2 = d.next().next();
    assert_eq!(d2.selected(), 2);
    assert!(!d2.can_go_next());
    assert_eq!(d2.next().selected(), 2);
    assert_eq!(d2.prev().selected(), 1);
    let l = DataLoad::new(d2, 4);
    assert_eq!(l.selected(), 0);
    assert_eq!(l.next().selected(), 1);
    assert_eq!(l.prev().selected(), 0);
    assert_eq!(l.next().dataload_cmd(), Cmd::LoadDataref(1, 2, 1));
    assert_eq!(l.dataref().selected(), 2);
    assert!(!DataLoad::new(d, 1).can_go_next());
}

#[test]
fn capabilities() {
    assert!(Caps { memlock: true, rtprio: true }.all());
    assert!(!Caps { memlock: true, rtprio: false }.all());
}

#[test]
fn file_picker_moves_keep_dataref() {
    let d = DataSel::new(3, 4);
    let d = d.next();
    let mut l = DataLoad::new(d, 3);
    for step in [true, true, true, false, true, false, false, false] {
        l = if step { l.next() } else { l.prev() };
        assert_eq!(l.dataref(), d);
        assert!(l.selected() < 3);
    }
    assert_eq!(l.selected(), 0);
}

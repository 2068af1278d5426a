use rnbo_move_control::config::Config;
use rnbo_move_control::controller::Controller;
use rnbo_move_control::events::{Button, Cmd, Events};
use rnbo_move_control::incoming::{FollowUp, Route};
use rnbo_move_control::input::{BACK_MIDI, MENU_MIDI};
use rnbo_move_control::instances::{DatarefRef, Instance, ParamRef};
use rnbo_move_control::machines::{MainState, TopState, ViewState};
use rnbo_move_control::midi::MoveColor;
use rnbo_move_control::nav::ParamPage;
use rnbo_move_control::osc::{OscArg, Outgoing};

fn controller() -> Controller {
    Controller::new(Config::default(), Some("1.2.3".to_string()), true)
}

fn names(v: &[&str]) -> Vec<String> {
    v.iter().map(|s| s.to_string()).collect()
}

fn osc(out: &Outgoing) -> (String, Vec<String>) {
    match out {
        Outgoing::Osc(m) => (
            m.addr.clone(),
            m.args
                .iter()
                .map(|a| match a {
                    OscArg::Int(i) => format!("i{}", i),
                    OscArg::Str(s) => format!("s{}", s),
                    OscArg::Bool(b) => format!("b{}", b),
                    OscArg::Other => "other".to_string(),
                })
                .collect(),
        ),
        _ => panic!("not an OSC message"),
    }
}

fn press(c: &mut Controller, num: u8) -> bool {
    c.handle_midi(&[0xBF, num, 127])
}

fn jog_right(c: &mut Controller) {
    c.handle_midi(&[0xBF, 0x0e, 1]);
}

fn jog_left(c: &mut Controller) {
    c.handle_midi(&[0xBF, 0x0e, 127]);
}

fn jog_press(c: &mut Controller) -> bool {
    c.handle_midi(&[0xBF, 0x03, 127])
}

fn param(instance_index: usize, index: usize, name: &str, hidden: bool) -> ParamRef {
    ParamRef {
        instance_index,
        index,
        name: name.to_string(),
        addr: format!("/rnbo/inst/{}/params/{}", instance_index, name),
        addr_norm: format!("/rnbo/inst/{}/params/{}/normalized", instance_index, name),
        hidden,
    }
}

fn instance(index: usize, name: &str, params: Vec<ParamRef>, datarefs: &[&str]) -> Instance {
    Instance {
        index,
        name: name.to_string(),
        alias: None,
        params,
        datarefs: datarefs
            .iter()
            .map(|d| DatarefRef { name: d.to_string(), mapping: None, hidden: false })
            .collect(),
        visible_datarefs: names(datarefs),
    }
}

#[test]
fn starts_on_the_start_screen() {
    let c = controller();
    assert_eq!(c.menus.top, TopState::Init);
    assert_eq!(c.menus.main, MainState::Menu(0));
    assert_eq!(c.menus.view, ViewState::ParamViewMenu(0));
    assert_eq!(c.midi_out.len(), 2);
    assert_eq!(c.midi_out[0].bytes(), &[0xFF]);
    assert_eq!(c.midi_out[1].bytes(), &[0xBF, 0x55, 123]);
    assert!(!c.exit);
    assert_eq!(c.status.config.volume, 178);
    assert_eq!(c.status.package_version, Some("1.2.3".to_string()));
}

#[test]
fn menu_button_leaves_start_screen_and_toggles() {
    let mut c = controller();
    press(&mut c, MENU_MIDI);
    assert_eq!(c.menus.top, TopState::Main);
    press(&mut c, MENU_MIDI);
    assert_eq!(c.menus.top, TopState::ParamViews);
    press(&mut c, MENU_MIDI);
    assert_eq!(c.menus.top, TopState::Main);
}

#[test]
fn graph_names_sorted_after_empty_entry() {
    let mut c = controller();
    c.set_set_names(names(&["b", "a", "C"]));
    let got: Vec<&str> = c.lists.set_names.iter().map(|s| s.as_str()).collect();
    assert_eq!(got, vec!["<empty>", "C", "a", "b"]);
    assert_eq!(c.ctx.common.sets_count, 4);
    c.set_set_current_name(Some("a".to_string()));
    assert_eq!(c.lists.set_current_index, Some(2));
    c.set_set_current_name(Some("zz".to_string()));
    assert_eq!(c.lists.set_current_index, None);
    c.set_set_current_name(None);
    assert_eq!(c.lists.set_current_index, None);
}

#[test]
fn presets_initial_first_then_without_case() {
    let mut c = controller();
    c.set_set_preset_names(names(&["b", "a", "initial", "A", "Zed"]));
    let got: Vec<&str> = c.lists.set_preset_names.iter().map(|s| s.as_str()).collect();
    assert_eq!(got, vec!["initial", "a", "A", "b", "Zed"]);
    assert_eq!(c.ctx.common.set_presets_count, 5);
}

#[test]
fn choosing_a_graph_loads_it() {
    let mut c = controller();
    c.set_set_names(names(&["b", "a"]));
    press(&mut c, MENU_MIDI);
    jog_right(&mut c);
    jog_right(&mut c);
    assert_eq!(c.menus.main, MainState::Menu(2));
    jog_press(&mut c);
    assert_eq!(c.menus.main, MainState::SetsList(0));
    jog_right(&mut c);
    jog_press(&mut c);
    assert_eq!(c.ctx.queue, vec![Cmd::LoadSet(1)]);
    let out = c.process_cmds();
    assert_eq!(out.len(), 1);
    assert_eq!(osc(&out[0]), ("/rnbo/inst/control/sets/load".to_string(), vec!["sa".to_string()]));
    assert!(c.ctx.queue.is_empty());
    jog_left(&mut c);
    jog_press(&mut c);
    let out = c.process_cmds();
    assert_eq!(osc(&out[0]), ("/rnbo/inst/control/unload".to_string(), vec!["i-1".to_string()]));
    press(&mut c, BACK_MIDI);
    assert_eq!(c.menus.main, MainState::Menu(2));
}

#[test]
fn long_power_press_powers_off() {
    let mut c = controller();
    c.handle_midi(&[0xF0, 0x00, 0x21]);
    c.handle_midi(&[0x1d, 0x01, 0x01]);
    c.handle_midi(&[0x3a, 0x10, 0xF7]);
    assert_eq!(c.menus.top, TopState::PowerOff);
    let n = c.midi_out.len();
    assert_eq!(c.midi_out[n - 3].bytes(), &[0xF0, 0x00, 0x21]);
    assert_eq!(c.midi_out[n - 2].bytes(), &[0x1D, 0x01, 0x01]);
    assert_eq!(c.midi_out[n - 1].bytes(), &[0x39, 1, 0xF7]);
    let before = c.midi_out.len();
    let out = c.process_cmds();
    assert!(out.is_empty());
    // the long press is cleared
    assert_eq!(c.midi_out[before + 2].bytes(), &[0x39, 5, 0xF7]);
}

#[test]
fn launch_move_exits() {
    let mut c = controller();
    c.handle_midi(&[0xF0, 0x00, 0x21]);
    c.handle_midi(&[0x1d, 0x01, 0x01]);
    c.handle_midi(&[0x3a, 0x08, 0xF7]);
    assert_eq!(c.menus.top, TopState::PromptExit(0));
    jog_right(&mut c);
    assert_eq!(c.menus.top, TopState::PromptExit(1));
    jog_right(&mut c);
    assert_eq!(c.menus.top, TopState::PromptExit(1));
    assert!(jog_press(&mut c));
    assert_eq!(c.menus.top, TopState::LaunchMove);
    assert!(c.exit);
}

#[test]
fn back_leaves_exit_prompt_unless_a_program_failed() {
    let mut c = controller();
    c.handle_midi(&[0xF0, 0x00, 0x21]);
    c.handle_midi(&[0x1d, 0x01, 0x01]);
    c.handle_midi(&[0x3a, 0x08, 0xF7]);
    press(&mut c, BACK_MIDI);
    assert_eq!(c.menus.top, TopState::Main);
    c.display_child_process_error("/usr/bin/app".to_string());
    assert_eq!(c.menus.top, TopState::DisplayChildProcessError);
    assert!(!c.ctx.common.can_exit_powermenu);
    c.handle_midi(&[0xF0, 0x00, 0x21]);
    c.handle_midi(&[0x1d, 0x01, 0x01]);
    c.handle_midi(&[0x3a, 0x08, 0xF7]);
    assert_eq!(c.menus.top, TopState::PromptExit(0));
    press(&mut c, BACK_MIDI);
    assert_eq!(c.menus.top, TopState::PromptExit(0));
}

#[test]
fn volume_steps_and_stays_in_range() {
    let mut c = controller();
    c.handle_midi(&[0xBF, 0x4f, 1]);
    assert_eq!(c.menus.top, TopState::VolumeEditor(rnbo_move_control::machines::LastView::Main));
    c.process_cmds();
    assert_eq!(c.status.config.volume, 179);
    for _ in 0..100 {
        c.handle_midi(&[0xBF, 0x4f, 1]);
    }
    c.process_cmds();
    assert_eq!(c.status.config.volume, 255);
    c.process_cmd(Cmd::OffsetVolume(-300));
    assert_eq!(c.status.config.volume, 0);
    press(&mut c, BACK_MIDI);
    assert_eq!(c.menus.top, TopState::Main);
}

#[test]
fn transport_lights_play_and_toggles() {
    let mut c = controller();
    let changed = c.set_transport(&vec![OscArg::Bool(true)]);
    assert!(changed);
    assert!(c.status.rolling);
    assert_eq!(c.midi_out.last().unwrap().bytes(), &[0xBF, 0x55, 126]);
    assert!(!c.set_transport(&vec![OscArg::Bool(true)]));
    assert!(!c.set_transport(&vec![OscArg::Int(1)]));
    press(&mut c, 0x55);
    let out = c.process_cmds();
    assert_eq!(osc(&out[0]), ("/rnbo/jack/transport/rolling".to_string(), vec!["bfalse".to_string()]));
}

#[test]
fn osc_routes() {
    let mut c = controller();
    assert!(matches!(c.handle_osc(&"/rnbo/jack/transport/bpm".to_string(), &vec![OscArg::Other]), FollowUp::Tempo));
    // integer arguments are read here; floating-point ones are left to the caller
    assert!(matches!(c.handle_osc(&"/rnboctl/view/display".to_string(), &vec![OscArg::Int(1)]), FollowUp::Done));
    assert!(matches!(c.handle_osc(&"/rnboctl/view/display".to_string(), &vec![OscArg::Other]), FollowUp::ViewDisplay));
    assert!(matches!(
        c.handle_osc(&"/rnboctl/view/display".to_string(), &vec![OscArg::Int(1), OscArg::Other]),
        FollowUp::ViewDisplay
    ));
    assert!(matches!(c.handle_osc(&"/rnboctl/view/page".to_string(), &vec![OscArg::Int(1)]), FollowUp::Done));
    assert!(matches!(c.handle_osc(&"/rnboctl/view/page".to_string(), &vec![OscArg::Other]), FollowUp::ViewPageDisplay));
    assert!(matches!(c.handle_osc(&"/nothing/here".to_string(), &vec![]), FollowUp::Done));
    assert!(matches!(
        c.handle_osc(&"/rnbo/inst//config/name_alias".to_string(), &vec![]),
        FollowUp::Malformed
    ));
    match c.handle_osc(&"/rnbo/inst/3/params/gain/meta".to_string(), &vec![OscArg::Str("{}".to_string())]) {
        FollowUp::ParamMeta(i, n) => {
            assert_eq!(i, 3);
            assert_eq!(n, "gain");
        }
        _ => panic!("expected parameter meta"),
    }
    c.handle_osc(&"/rnbo/inst/control/sets/current/name".to_string(), &vec![OscArg::Str("x".to_string())]);
    assert_eq!(c.lists.set_current_name, Some("x".to_string()));
    c.handle_osc(&"/rnbo/inst/control/sets/presets/loaded".to_string(), &vec![OscArg::Int(3)]);
    assert_eq!(c.lists.set_preset_loaded_name, None);
}

#[test]
fn instances_build_the_lists() {
    let mut c = controller();
    let a = instance(2, "synth", vec![param(2, 0, "cutoff", false), param(2, 1, "hide", true)], &["buf"]);
    let b = instance(0, "drums", (0..9).map(|i| param(0, i, &format!("p{}", i), false)).collect(), &[]);
    c.set_instances(vec![(2, a), (0, b)]);
    assert_eq!(c.book.instances[0].index, 0);
    assert_eq!(c.book.instances[1].index, 2);
    assert_eq!(c.book.params.len(), 11);
    assert_eq!(c.book.params_instance_names, names(&["0: drums", "2: synth"]));
    assert_eq!(c.book.datarefs_instance_names, names(&["2: synth"]));
    assert_eq!(c.book.instance_params, vec![(0..9).collect::<Vec<usize>>(), vec![9]]);
    assert_eq!(c.ctx.common.instance_param_pages, vec![2, 1]);
    assert_eq!(c.ctx.common.params_instances_count, 2);
    assert_eq!(c.ctx.common.datarefs_instances_count, 1);
    assert_eq!(c.ctx.common.dataref_count, vec![1]);
    match c.handle_osc(&"/rnbo/inst/2/params/cutoff".to_string(), &vec![OscArg::Other]) {
        FollowUp::Param(p) => assert_eq!(p, 9),
        _ => panic!("expected a parameter"),
    }
    match c.handle_osc(&"/rnbo/inst/2/params/cutoff/normalized".to_string(), &vec![OscArg::Other]) {
        FollowUp::ParamNorm(p) => assert_eq!(p, 9),
        _ => panic!("expected a normalized parameter"),
    }
    // alias
    c.handle_osc(&"/rnbo/inst/2/config/name_alias".to_string(), &vec![OscArg::Str("lead".to_string())]);
    assert_eq!(c.book.params_instance_names, names(&["0: drums", "lead"]));
    assert_eq!(c.instance_title(2), "lead");
    assert_eq!(c.instance_title(7), "inst: 7");
    // hide the cutoff: the synth has nothing visible left
    assert!(c.set_param_hidden(2, &"cutoff".to_string(), true));
    assert_eq!(c.book.params_instance_names, names(&["0: drums"]));
    assert_eq!(c.ctx.common.params_instances_count, 1);
    assert!(!c.set_param_hidden(2, &"cutoff".to_string(), true));
    // dataref mapping
    c.handle_osc(&"/rnbo/inst/2/data_refs/buf".to_string(), &vec![OscArg::Str("kick.wav".to_string())]);
    assert_eq!(c.book.instances[1].datarefs[0].mapping, Some("kick.wav".to_string()));
    assert!(c.set_dataref_hidden(1, &"buf".to_string(), true));
    assert!(!c.set_dataref_hidden(1, &"nope".to_string(), true));
    // the meta data message sets the hidden flag from its JSON text
    let meta = "/rnbo/inst/2/data_refs/buf/meta".to_string();
    c.handle_osc(&meta, &vec![OscArg::Str(r#"{"hidden": false}"#.to_string())]);
    assert!(!c.book.instances[1].datarefs[0].hidden);
    c.handle_osc(&meta, &vec![OscArg::Str(r#"{"hidden": true}"#.to_string())]);
    assert!(c.book.instances[1].datarefs[0].hidden);
    c.handle_osc(&meta, &vec![OscArg::Str("not json".to_string())]);
    assert!(!c.book.instances[1].datarefs[0].hidden);
    c.handle_osc(&meta, &vec![OscArg::Str(r#"{"hidden": 1, "view": 0}"#.to_string())]);
    assert!(!c.book.instances[1].datarefs[0].hidden);
    assert_eq!(c.user_views.views.len(), 1);
}

#[test]
fn device_params_pages_and_leds() {
    let mut c = controller();
    let b = instance(0, "drums", (0..9).map(|i| param(0, i, &format!("p{}", i), false)).collect(), &[]);
    c.set_instances(vec![(0, b)]);
    press(&mut c, MENU_MIDI);
    jog_press(&mut c);
    assert_eq!(c.menus.main, MainState::PatcherParams(ParamPage { index: 0, page: 0, focused: None }));
    assert_eq!(c.page_params(), (0..8).collect::<Vec<usize>>());
    c.handle_midi(&[0x9F, 2, 127]);
    assert_eq!(c.focused_param(), Some(2));
    jog_right(&mut c);
    assert_eq!(c.page_params(), vec![8]);
    assert_eq!(c.focused_param(), None);
    c.handle_midi(&[0xBF, 71, 1]);
    let out = c.process_cmds();
    assert!(matches!(out[0], Outgoing::OffsetParam(8, 1)));
    let before = c.midi_out.len();
    let mut values = [(0u8, 0u8, 0u8); 8];
    values[0] = (10, 20, 30);
    c.render_params(values);
    // every LED changes from white: eight sysex of six messages each
    assert_eq!(c.midi_out.len(), before + 48);
    c.render_params(values);
    assert_eq!(c.midi_out.len(), before + 48);
}

#[test]
fn buttons_lit_once_per_screen() {
    let mut c = controller();
    c.refresh_buttons();
    assert_eq!(c.lights.menu, Some(MoveColor::LightGray));
    assert_eq!(c.lights.back, Some(MoveColor::LightGray));
    let n = c.midi_out.len();
    c.refresh_buttons();
    assert_eq!(c.midi_out.len(), n);
    press(&mut c, MENU_MIDI);
    assert_eq!(c.line_token, 0);
    c.refresh_buttons();
    assert_eq!(c.lights.menu, Some(MoveColor::LightGray));
    assert_eq!(c.lights.back, Some(MoveColor::Black));
    assert_eq!(c.midi_out.last().unwrap().bytes(), &[0xBF, BACK_MIDI, 0]);
}

#[test]
fn preset_commands() {
    let mut c = controller();
    c.set_set_preset_names(names(&["initial", "mine"]));
    let out = c.process_cmd(Cmd::SetInitialSetPreset(1)).0;
    assert_eq!(osc(&out[0]), ("/rnbo/inst/control/sets/presets/destroy".to_string(), vec!["sinitial".to_string()]));
    assert_eq!(
        osc(&out[1]),
        ("/rnbo/inst/control/sets/presets/rename".to_string(), vec!["smine".to_string(), "sinitial".to_string()])
    );
    assert_eq!(c.status.popup.content(), "mine -> initial");
    assert!(c.process_cmd(Cmd::SetInitialSetPreset(0)).0.is_empty());
    let out = c.process_cmd(Cmd::DeleteSetPreset(1)).0;
    assert_eq!(osc(&out[0]).1, vec!["smine".to_string()]);
    assert_eq!(c.status.popup.title(), "Preset Deleted");
    let out = c.process_cmd(Cmd::OverwriteSetPreset(0)).0;
    assert_eq!(osc(&out[0]), ("/rnbo/inst/control/sets/presets/save".to_string(), vec!["sinitial".to_string()]));
    assert!(c.process_cmd(Cmd::LoadSetPreset(7)).0.is_empty());
    let out = c.process_cmd(Cmd::SaveSetPreset).0;
    let (addr, args) = osc(&out[0]);
    assert_eq!(addr, "/rnbo/inst/control/sets/presets/save");
    assert_eq!(args[0].len(), 1 + 17);
    let name: Vec<char> = args[0][1..].chars().collect();
    for (i, ch) in name.iter().enumerate() {
        match i {
            2 | 5 => assert_eq!(*ch, '-'),
            8 => assert_eq!(*ch, ' '),
            11 | 14 => assert_eq!(*ch, ':'),
            _ => assert!(ch.is_ascii_digit()),
        }
    }
    assert_eq!(c.status.popup.title(), "Preset Saved");
    assert_eq!(c.status.popup.content(), &args[0][1..]);
}

#[test]
fn patcher_load_unloads_first() {
    let mut c = controller();
    c.set_patcher_names(names(&["two", "one"]));
    assert_eq!(c.lists.patcher_names, names(&["one", "two"]));
    let out = c.process_cmd(Cmd::LoadPatcher(1)).0;
    assert_eq!(osc(&out[0]), ("/rnbo/inst/control/unload".to_string(), vec!["i-1".to_string()]));
    assert_eq!(
        osc(&out[1]),
        ("/rnbo/inst/control/load".to_string(), vec!["i-1".to_string(), "stwo".to_string()])
    );
    let out = c.process_cmd(Cmd::LoadPatcher(5)).0;
    assert_eq!(out.len(), 1);
}

#[test]
fn data_files_and_dataref_loading() {
    let mut c = controller();
    let a = instance(4, "sampler", vec![], &["buf"]);
    c.set_instances(vec![(4, a)]);
    let (out, go_on) = c.process_cmd(Cmd::UpdateDataFileList);
    assert!(!go_on);
    assert!(matches!(out[0], Outgoing::ListDataFiles));
    c.set_datafile_list(names(&["b.wav", "a.wav"]));
    assert_eq!(c.lists.datafile_menu, names(&["(empty)", "a.wav", "b.wav"]));
    assert_eq!(c.ctx.common.datafile_count, 3);
    let (out, go_on) = c.process_cmd(Cmd::LoadDataref(0, 0, 2));
    assert!(go_on);
    assert_eq!(osc(&out[0]), ("/rnbo/inst/4/data_refs/buf".to_string(), vec!["sb.wav".to_string()]));
    let (out, _) = c.process_cmd(Cmd::LoadDataref(0, 0, 0));
    assert_eq!(osc(&out[0]).1, vec!["s".to_string()]);
    let (out, go_on) = c.process_cmd(Cmd::LoadDataref(0, 0, 9));
    assert!(!go_on);
    assert!(out.is_empty());
}

#[test]
fn report_view_page() {
    let mut c = controller();
    let out = c.process_cmd(Cmd::ReportViewParamPage(2, 1)).0;
    assert_eq!(osc(&out[0]), ("/rnboctl/view/display".to_string(), vec!["i2".to_string(), "i1".to_string()]));
}

#[test]
fn events_reach_the_menus() {
    let mut c = controller();
    c.handle_event(Events::BtnDown(Button::Menu));
    assert_eq!(c.menus.top, TopState::Main);
    c.handle_event(Events::PopupRequested);
    assert_eq!(c.menus.top, TopState::Popup(rnbo_move_control::machines::LastView::Main));
    c.handle_event(Events::PopupTimeout);
    assert_eq!(c.menus.top, TopState::Main);
}

#[test]
fn host_requests_answered() {
    let mut c = controller();
    match c.handle_osc(&"/rnboctl/display/count".to_string(), &vec![]) {
        FollowUp::Reply(m) => {
            assert_eq!(m.addr, "/rnboctl/display/count");
            assert!(matches!(m.args.as_slice(), [OscArg::Int(1)]));
        }
        _ => panic!("expected an answer"),
    }
    match c.handle_osc(&"/rnboctl/display/info".to_string(), &vec![OscArg::Int(0)]) {
        FollowUp::Reply(m) => {
            assert_eq!(m.addr, "/rnboctl/display/info");
            let got: Vec<i32> = m
                .args
                .iter()
                .map(|a| match a {
                    OscArg::Int(i) => *i,
                    _ => panic!("expected integers"),
                })
                .collect();
            assert_eq!(got, vec![0, 128, 64, 0, 23]);
        }
        _ => panic!("expected an answer"),
    }
    assert!(matches!(c.handle_osc(&"/rnboctl/display/info".to_string(), &vec![OscArg::Int(1)]), FollowUp::Done));
    assert!(matches!(c.handle_osc(&"/rnboctl/display/info".to_string(), &vec![]), FollowUp::Done));
    assert!(matches!(c.handle_osc(&"/rnboctl/param/delta".to_string(), &vec![]), FollowUp::ParamDelta));
    assert!(matches!(c.handle_osc(&"/rnboctl/device/params".to_string(), &vec![OscArg::Int(0)]), FollowUp::Done));
    assert!(matches!(c.handle_osc(&"/rnboctl/device/params".to_string(), &vec![OscArg::Other]), FollowUp::DeviceParams));
    assert!(matches!(c.handle_osc(&"/rnboctl/device/data".to_string(), &vec![OscArg::Int(0)]), FollowUp::Done));
    assert!(matches!(c.handle_osc(&"/rnboctl/device/data".to_string(), &vec![OscArg::Other]), FollowUp::DeviceData));
}

#[test]
fn redraw_sends_the_lights_again() {
    let mut c = controller();
    press(&mut c, MENU_MIDI);
    c.refresh_buttons();
    let lit = c.midi_out.len();
    c.refresh_buttons();
    assert_eq!(c.midi_out.len(), lit);
    assert!(matches!(c.handle_osc(&"/rnboctl/redraw".to_string(), &vec![]), FollowUp::Done));
    // the play light goes out again
    assert_eq!(c.midi_out.len(), lit + 1);
    assert_eq!(c.midi_out[lit].bytes(), &[0xBF, 0x55, MoveColor::LightGray.value()]);
    assert_eq!(c.line_token, 0);
    // the menu button (light gray) and the back button (black) are both sent
    c.refresh_buttons();
    assert_eq!(c.midi_out.len(), lit + 3);
    // every LED is sent, white ones too
    let before = c.midi_out.len();
    c.render_params([(255u8, 255u8, 255u8); 8]);
    assert_eq!(c.midi_out.len(), before + 48);
    c.render_params([(255u8, 255u8, 255u8); 8]);
    assert_eq!(c.midi_out.len(), before + 48);
}

#[test]
fn host_selects_an_instance() {
    let mut c = controller();
    let a = instance(2, "synth", vec![param(2, 0, "cutoff", false)], &["buf", "wave"]);
    let b = instance(0, "drums", (0..9).map(|i| param(0, i, &format!("p{}", i), false)).collect(), &[]);
    c.set_instances(vec![(2, a), (0, b)]);
    press(&mut c, MENU_MIDI);
    // runner index 0 is the first listed instance; page 5 is limited to its last page
    c.select_device_params(0, 5);
    assert_eq!(c.menus.top, TopState::Main);
    assert_eq!(c.menus.main, MainState::PatcherParams(ParamPage { index: 0, page: 1, focused: None }));
    c.select_device_params(2, 0);
    assert_eq!(c.menus.main, MainState::PatcherParams(ParamPage { index: 1, page: 0, focused: None }));
    // an index nobody has changes nothing
    c.select_device_params(7, 0);
    assert_eq!(c.menus.main, MainState::PatcherParams(ParamPage { index: 1, page: 0, focused: None }));
    // from the views
    press(&mut c, MENU_MIDI);
    assert_eq!(c.menus.top, TopState::ParamViews);
    c.select_device_data(2);
    assert_eq!(c.menus.top, TopState::Main);
    match c.menus.main {
        MainState::PatcherDatarefs(d) => {
            assert_eq!(d.instance, 0);
            assert_eq!(d.selected, 0);
            assert_eq!(d.count, 2);
        }
        _ => panic!("expected the datarefs"),
    }
    let out = c.process_cmds();
    assert!(matches!(out.last(), Some(Outgoing::ListDataFiles)));
}

#[test]
fn default_view_lists_every_visible_param() {
    let mut c = controller();
    let a = instance(0, "synth", vec![param(0, 0, "h", true), param(0, 1, "a", false), param(0, 2, "b", false)], &[]);
    c.set_instances(vec![(0, a)]);
    c.set_param_views(vec![]);
    assert_eq!(c.views.names, names(&["Default"]));
    assert_eq!(c.views.params, vec![vec![1usize, 2]]);
}

#[test]
fn view_display_from_any_screen() {
    let mut c = controller();
    let b = instance(0, "drums", (0..9).map(|i| param(0, i, &format!("p{}", i), false)).collect(), &[]);
    c.set_instances(vec![(0, b)]);
    c.set_param_views(vec![]);
    // still on the start screen
    assert_eq!(c.menus.top, TopState::Init);
    c.select_view(0, 9);
    assert_eq!(c.menus.top, TopState::ParamViews);
    assert_eq!(c.menus.view, ViewState::ViewParams(ParamPage { index: 0, page: 1, focused: None }));
    // from the exit prompt
    c.handle_midi(&[0xF0, 0x00, 0x21]);
    c.handle_midi(&[0x1D, 0x01, 0x01]);
    c.handle_midi(&[0x3A, 0x08, 0xF7]);
    assert_eq!(c.menus.top, TopState::PromptExit(0));
    c.select_device_params(0, 0);
    assert_eq!(c.menus.top, TopState::Main);
    assert_eq!(c.menus.main, MainState::PatcherParams(ParamPage { index: 0, page: 0, focused: None }));
}

#[test]
fn short_power_press_then_launch_move_exits() {
    let mut c = controller();
    assert!(!c.handle_midi(&[0xF0, 0x00, 0x21]));
    assert!(!c.handle_midi(&[0x1D, 0x01, 0x01]));
    assert!(!c.handle_midi(&[0x3A, 0x08, 0xF7]));
    assert_eq!(c.menus.top, TopState::PromptExit(0));
    assert!(!c.handle_midi(&[0xBF, 0x0E, 0x01]));
    assert_eq!(c.menus.top, TopState::PromptExit(1));
    assert!(c.handle_midi(&[0xBF, 0x03, 0x7F]));
    assert_eq!(c.menus.top, TopState::LaunchMove);
}

#[test]
fn view_display_message_with_integers() {
    let mut c = controller();
    let b = instance(0, "drums", (0..9).map(|i| param(0, i, &format!("p{}", i), false)).collect(), &[]);
    c.set_instances(vec![(0, b)]);
    c.set_param_views(vec![]);
    press(&mut c, MENU_MIDI);
    assert_eq!(c.menus.top, TopState::Main);
    c.handle_osc(&"/rnboctl/view/display".to_string(), &vec![OscArg::Int(-4), OscArg::Int(7)]);
    assert_eq!(c.menus.top, TopState::ParamViews);
    assert_eq!(c.menus.view, ViewState::ViewParams(ParamPage { index: 0, page: 1, focused: None }));
    c.handle_osc(&"/rnboctl/view/page".to_string(), &vec![OscArg::Int(0)]);
    assert_eq!(c.menus.view, ViewState::ViewParams(ParamPage { index: 0, page: 0, focused: None }));
    c.handle_osc(&"/rnboctl/device/params".to_string(), &vec![OscArg::Int(0), OscArg::Int(1)]);
    assert_eq!(c.menus.top, TopState::Main);
    assert_eq!(c.menus.main, MainState::PatcherParams(ParamPage { index: 0, page: 1, focused: None }));
}

#[test]
fn routing_takes_the_captures() {
    let c = controller();
    let a = "/rnbo/inst/3/config/name_alias".to_string();
    assert!(matches!(c.route_captured(&a, Some(Some(3)), None, None), Route::InstanceAlias(3)));
    assert!(matches!(c.route_captured(&a, Some(None), None, None), Route::Malformed));
    assert!(matches!(c.route_osc(&a), Route::InstanceAlias(3)));
    let m = "/rnbo/inst/2/params/gain/meta".to_string();
    match c.route_captured(&m, None, Some(Some(2)), Some("gain".to_string())) {
        Route::ParamMeta(i, n) => assert_eq!((i, n.as_str()), (2, "gain")),
        _ => panic!("expected parameter meta"),
    }
    assert!(matches!(c.route_captured(&m, None, Some(Some(2)), None), Route::Malformed));
}

#[test]
fn user_view_routes() {
    let mut c = controller();
    let s = |v: &str| v.to_string();
    // a buffer's meta data declares its view
    let meta = r#"{"view": 2, "viewname": "scope", "z": 1, "viewhidden": false, "hidden": true}"#;
    c.take_dataref_meta(0, s("wave"), &OscArg::Str(meta.to_string()));
    let meta = r#"{"view": 2, "z": -3}"#;
    c.take_dataref_meta(0, s("grid"), &OscArg::Str(meta.to_string()));
    c.take_dataref_meta(0, s("plain"), &OscArg::Str(r#"{"hidden": true}"#.to_string()));
    assert_eq!(c.user_views.views.len(), 1);
    assert_eq!(c.user_views.views[0].0, 2);
    let order: Vec<&str> = c.user_views.views[0].1.layers.iter().map(|l| l.buffer.as_str()).collect();
    assert_eq!(order, vec!["grid", "wave"]);
    assert_eq!(c.user_views.views[0].1.name_or_default(2), "scope");
    assert_eq!(c.user_views.shown, None);

    assert!(matches!(c.handle_osc(&s("/rnboctl/userview/display"), &vec![OscArg::Int(5)]), FollowUp::Done));
    assert_eq!(c.user_views.shown, None);
    assert!(matches!(c.handle_osc(&s("/rnboctl/userview/display"), &vec![OscArg::Int(2)]), FollowUp::Done));
    assert_eq!(c.user_views.shown, Some(2));
    c.handle_osc(&s("/rnboctl/userview/layer/hide"), &vec![OscArg::Int(2), OscArg::Int(-3), OscArg::Int(1)]);
    assert!(c.user_views.views[0].1.layers[0].hidden);
    c.handle_osc(&s("/rnboctl/userview/layer/hide"), &vec![OscArg::Int(2), OscArg::Int(-3), OscArg::Bool(false)]);
    assert!(!c.user_views.views[0].1.layers[0].hidden);
    // a layer index out of the z range, or a missing flag, does nothing
    c.handle_osc(&s("/rnboctl/userview/layer/hide"), &vec![OscArg::Int(2), OscArg::Int(300), OscArg::Int(1)]);
    c.handle_osc(&s("/rnboctl/userview/layer/xor"), &vec![OscArg::Int(2), OscArg::Int(1)]);
    assert!(!c.user_views.views[0].1.layers[1].hidden);
    assert!(!c.user_views.views[0].1.layers[1].do_xor);
    c.handle_osc(&s("/rnboctl/userview/layer/xor"), &vec![OscArg::Int(2), OscArg::Int(1), OscArg::Int(1)]);
    assert!(c.user_views.views[0].1.layers[1].do_xor);
    c.user_views.views[0].1.layers[1].dirty = false;
    c.handle_osc(&s("/rnboctl/userview/layer/redraw"), &vec![OscArg::Int(2), OscArg::Int(1)]);
    assert!(c.user_views.views[0].1.layers[1].dirty);
    assert!(matches!(c.route_osc(&s("/rnboctl/userview/display")), Route::UserViewDisplay));
}

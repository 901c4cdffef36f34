use marcontroller::agent::{
    build_speed_discovery_payload, parse_speed_command, speed_payload, speed_reply,
    availability_payload, availability_reply, build_discovery_payload, clone_state, command_is_off, command_is_on,
    effects_reply, is_ha_birth, plan_on_write, prepare_command, same_state, state_from_mode,
    state_reply, update_saved_on_from_state, AgentState, ApplyOutcome, HaLightCommand,
    HaLightState, HaRgb, HidReply, SavedOn, Topics,
};
use marcontroller::config::AppConfig;
use marcontroller::effects::build_effect_catalog;
use marcontroller::error::KeyboardError;
use marcontroller::vialrgb::Mode;

fn mode(mode: u16, h: u8, s: u8, v: u8) -> Mode {
    Mode { mode, speed: 0, h, s, v }
}

fn cmd(state: Option<&str>, brightness: Option<u8>, color: Option<HaRgb>, effect: Option<&str>) -> HaLightCommand {
    HaLightCommand {
        state: state.map(|s| s.to_owned()),
        brightness,
        color,
        effect: effect.map(|s| s.to_owned()),
    }
}

fn on_state(v: u8, effect: Option<&str>) -> HaLightState {
    HaLightState {
        state: "ON".to_owned(),
        brightness: Some(v),
        color_mode: Some("rgb".to_owned()),
        color: Some(HaRgb { r: 1, g: 2, b: 3 }),
        effect: effect.map(|s| s.to_owned()),
    }
}

#[test]
fn state_of_an_effect_mode() {
    let st = state_from_mode(mode(2, 0, 255, 255));
    assert_eq!(st.state, "ON");
    assert_eq!(st.brightness, Some(255));
    assert_eq!(st.color_mode.as_deref(), Some("rgb"));
    assert_eq!(st.color, Some(HaRgb { r: 255, g: 0, b: 0 }));
    assert_eq!(st.effect.as_deref(), Some("Solid Color"));
}

#[test]
fn state_of_direct_mode_has_no_effect() {
    let st = state_from_mode(mode(1, 85, 255, 255));
    assert_eq!(st.state, "ON");
    assert_eq!(st.color, Some(HaRgb { r: 3, g: 255, b: 0 }));
    assert_eq!(st.effect, None);
}

#[test]
fn state_of_off_or_dark_mode_is_off() {
    for m in [mode(0, 10, 10, 10), mode(6, 10, 10, 0)] {
        let st = state_from_mode(m);
        assert_eq!(st.state, "OFF");
        assert_eq!(st.brightness, None);
        assert_eq!(st.color_mode, None);
        assert_eq!(st.color, None);
        assert_eq!(st.effect, None);
    }
}

#[test]
fn off_and_on_commands() {
    assert!(command_is_off(&cmd(Some("OFF"), None, None, None)));
    assert!(command_is_off(&cmd(Some("off"), None, None, None)));
    assert!(!command_is_off(&cmd(Some("Off"), None, None, None)));
    assert!(command_is_on(&cmd(None, None, None, None)));
    assert!(command_is_on(&cmd(Some("on"), None, None, None)));
    assert!(!command_is_on(&cmd(Some("toggle"), None, None, None)));
}

#[test]
fn on_write_uses_command_values() {
    let c = cmd(Some("ON"), Some(50), None, Some("Breathing"));
    let m = plan_on_write(&c, Some((1, 2, 3)), mode(9, 9, 9, 9));
    assert_eq!(m, Mode { mode: 6, speed: 0, h: 1, s: 2, v: 50 });
}

#[test]
fn on_write_keeps_current_colour_and_defaults_to_solid() {
    let c = cmd(Some("ON"), None, None, None);
    let m = plan_on_write(&c, None, mode(9, 10, 20, 30));
    assert_eq!(m, Mode { mode: 2, speed: 0, h: 10, s: 20, v: 30 });
    let bad = cmd(None, None, None, Some("no such effect"));
    let m = plan_on_write(&bad, None, mode(9, 10, 20, 30));
    assert_eq!(m.mode, 2);
}

#[test]
fn bare_on_command_takes_saved_settings() {
    let saved = SavedOn::initial();
    let c = prepare_command(cmd(Some("ON"), None, None, None), &saved);
    assert_eq!(c.brightness, Some(128));
    assert_eq!(c.color, Some(HaRgb { r: 255, g: 0, b: 0 }));
    assert_eq!(c.effect, None);
}

#[test]
fn off_command_is_not_filled_in() {
    let saved = SavedOn::initial();
    let c = prepare_command(cmd(Some("OFF"), None, None, None), &saved);
    assert_eq!(c.brightness, None);
    assert_eq!(c.color, None);
}

#[test]
fn on_state_updates_saved_settings() {
    let mut saved = SavedOn::initial();
    update_saved_on_from_state(&mut saved, &on_state(77, Some("Riverflow")));
    assert_eq!(saved.brightness, 77);
    assert_eq!(saved.color, HaRgb { r: 1, g: 2, b: 3 });
    assert_eq!(saved.effect.as_deref(), Some("Riverflow"));
    update_saved_on_from_state(&mut saved, &HaLightState::off());
    assert_eq!(saved.brightness, 77);
    let c = prepare_command(cmd(None, Some(5), None, None), &saved);
    assert_eq!(c.brightness, Some(5));
    assert_eq!(c.effect.as_deref(), Some("Riverflow"));
}

#[test]
fn start_publishes_off_when_nothing_is_known() {
    let (agent, st) = AgentState::start(false, None);
    assert!(!agent.kb_online);
    assert_eq!(st.state, "OFF");
    let (agent, st) = AgentState::start(true, Some(on_state(40, None)));
    assert!(agent.kb_online);
    assert_eq!(st.brightness, Some(40));
    assert_eq!(agent.saved_on.brightness, 40);
}

#[test]
fn sync_publishes_changes_only() {
    let (mut agent, _) = AgentState::start(true, Some(on_state(40, None)));
    assert!(agent.on_fetched_state(on_state(40, None)).is_none());
    let p = agent.on_fetched_state(on_state(41, None));
    assert_eq!(p.map(|s| s.brightness), Some(Some(41)));
    assert!(agent.on_fetched_state(on_state(41, None)).is_none());
}

#[test]
fn probe_going_offline_publishes_off_once() {
    let (mut agent, _) = AgentState::start(true, Some(on_state(40, None)));
    let p = agent.on_probe(false);
    assert_eq!(p.availability, Some(false));
    assert_eq!(p.state.map(|s| s.state), Some("OFF".to_owned()));
    assert!(!p.fetch_state);
    let p = agent.on_probe(false);
    assert_eq!(p.availability, None);
    assert!(p.state.is_none());
    let p = agent.on_probe(true);
    assert_eq!(p.availability, Some(true));
    assert!(p.state.is_none());
    assert!(p.fetch_state);
    let p = agent.on_probe(true);
    assert_eq!(p.availability, None);
    assert!(p.fetch_state);
}

#[test]
fn applied_on_command_is_echoed_and_remembered() {
    let (mut agent, _) = AgentState::start(false, None);
    let c = agent.prepare(cmd(Some("ON"), Some(99), None, Some("Splash")));
    let p = agent.on_command_applied(&c, ApplyOutcome::Applied);
    assert_eq!(p.availability, Some(true));
    let st = p.state.unwrap();
    assert_eq!(st.state, "ON");
    assert_eq!(st.brightness, Some(99));
    assert_eq!(st.color, Some(HaRgb { r: 255, g: 0, b: 0 }));
    assert_eq!(st.effect.as_deref(), Some("Splash"));
    assert_eq!(agent.saved_on.brightness, 99);
    assert_eq!(agent.saved_on.effect.as_deref(), Some("Splash"));
    assert!(agent.kb_online);
}

#[test]
fn applied_off_command_publishes_off() {
    let (mut agent, _) = AgentState::start(true, Some(on_state(40, None)));
    let p = agent.on_command_applied(&cmd(Some("OFF"), None, None, None), ApplyOutcome::Applied);
    assert_eq!(p.availability, None);
    assert_eq!(p.state.map(|s| s.state), Some("OFF".to_owned()));
    assert_eq!(agent.saved_on.brightness, 40);
}

#[test]
fn offline_and_failed_outcomes() {
    let (mut agent, _) = AgentState::start(true, Some(on_state(40, None)));
    let p = agent.on_command_applied(&cmd(Some("ON"), None, None, None), ApplyOutcome::Failed);
    assert!(p.availability.is_none() && p.state.is_none());
    assert!(agent.kb_online);
    let p = agent.on_command_applied(&cmd(Some("ON"), None, None, None), ApplyOutcome::Offline);
    assert_eq!(p.availability, Some(false));
    assert!(p.state.is_none());
    assert!(!agent.kb_online);
    let p = agent.on_command_applied(&cmd(Some("ON"), None, None, None), ApplyOutcome::Offline);
    assert_eq!(p.availability, None);
}

#[test]
fn ha_birth_republishes_availability_and_state() {
    let (mut agent, _) = AgentState::start(true, None);
    let p = agent.on_ha_birth_probe(true);
    assert_eq!(p.availability, Some(true));
    assert!(p.fetch_state);
    let st = agent.on_ha_birth_state(on_state(12, None));
    assert_eq!(st.brightness, Some(12));
    assert_eq!(agent.saved_on.brightness, 12);
    let p = agent.on_ha_birth_probe(false);
    assert_eq!(p.availability, Some(false));
    assert!(!p.fetch_state);
}

#[test]
fn ha_birth_message() {
    assert!(is_ha_birth("online", true));
    assert!(is_ha_birth("  online\n", true));
    assert!(!is_ha_birth("online", false));
    assert!(!is_ha_birth("offline", true));
    assert_eq!(availability_payload(true), "online");
    assert_eq!(availability_payload(false), "offline");
}

#[test]
fn states_compare_by_value() {
    let a = on_state(3, Some("Splash"));
    let b = clone_state(&a);
    assert!(same_state(&a, &b));
    assert!(!same_state(&a, &on_state(3, None)));
}

#[test]
fn hid_replies_sort_offline_from_failure() {
    let no_dev = KeyboardError::NoDevice { vid: 1, pid: 2 };
    assert!(matches!(state_reply(Err(no_dev.clone())), Ok(HidReply::State(None))));
    assert!(matches!(availability_reply(Err(no_dev)), Ok(HidReply::Availability(false))));
    assert!(matches!(availability_reply(Ok(())), Ok(HidReply::Availability(true))));
    let other = KeyboardError::AmbiguousInterface;
    assert_eq!(state_reply(Err(other.clone())).err(), Some(other));
    assert!(matches!(effects_reply(Ok(vec![2, 3])), Ok(HidReply::SupportedEffects(Some(v))) if v == vec![2, 3]));
}

#[test]
fn topics_from_default_config() {
    let cfg = AppConfig::default();
    let t = Topics::from_cfg(&cfg);
    assert_eq!(t.discovery_topic, "homeassistant/light/marcontroller_keyboard/config");
    assert_eq!(t.command_topic, "kb/pc01/light/set");
    assert_eq!(t.state_topic, "kb/pc01/light/state");
    assert_eq!(t.availability_topic, "kb/pc01/availability");
    assert_eq!(t.ha_status_topic, "homeassistant/status");
}

#[test]
fn topics_drop_trailing_slashes() {
    let mut cfg = AppConfig::default();
    cfg.ha.discovery_prefix = "ha//".to_owned();
    cfg.ha.base_topic = "home/kb/".to_owned();
    let t = Topics::from_cfg(&cfg);
    assert_eq!(t.discovery_topic, "ha/light/marcontroller_keyboard/config");
    assert_eq!(t.command_topic, "home/kb/set");
    assert_eq!(t.availability_topic, "home/availability");
    cfg.ha.base_topic = "light".to_owned();
    let t = Topics::from_cfg(&cfg);
    assert_eq!(t.state_topic, "light/state");
    assert_eq!(t.availability_topic, "light/availability");
}

#[test]
fn discovery_payload_fields() {
    let cfg = AppConfig::default();
    let t = Topics::from_cfg(&cfg);
    let cat = build_effect_catalog(vec![0, 1, 2, 6]);
    let p = build_discovery_payload(&cfg, &t, Some(&cat), "1.2.3");
    assert_eq!(p.name, "Teclado");
    assert_eq!(p.unique_id, "marcontroller_keyboard");
    assert_eq!(p.schema, "json");
    assert_eq!(p.command_topic, "kb/pc01/light/set");
    assert!(p.brightness);
    assert_eq!(p.supported_color_modes, vec!["rgb".to_owned()]);
    assert_eq!(p.effect, Some(true));
    assert_eq!(p.effect_list, Some(vec!["Solid Color".to_owned(), "Breathing".to_owned()]));
    assert_eq!(p.device.identifiers, vec!["marcontroller_keyboard".to_owned()]);
    assert_eq!(p.device.manufacturer, "QMK/Vial");
    assert_eq!(p.device.sw_version, "1.2.3");
    assert_eq!(p.origin.name, "MARCOntroller");
}

#[test]
fn discovery_without_effects() {
    let cfg = AppConfig::default();
    let t = Topics::from_cfg(&cfg);
    let p = build_discovery_payload(&cfg, &t, None, "0");
    assert_eq!(p.effect, None);
    assert_eq!(p.effect_list, None);
    let empty = build_effect_catalog(vec![0, 1]);
    let p = build_discovery_payload(&cfg, &t, Some(&empty), "0");
    assert_eq!(p.effect, None);
    assert_eq!(p.effect_list, None);
}

#[test]
fn speed_commands_and_payloads() {
    assert_eq!(parse_speed_command("120"), Some(120));
    assert_eq!(parse_speed_command(" 7\n"), Some(7));
    assert_eq!(parse_speed_command("+5"), Some(5));
    assert_eq!(parse_speed_command("255"), Some(255));
    assert_eq!(parse_speed_command("256"), None);
    assert_eq!(parse_speed_command("-1"), None);
    assert_eq!(parse_speed_command("fast"), None);
    assert_eq!(parse_speed_command(""), None);
    assert_eq!(speed_payload(120), "120");
    assert_eq!(speed_payload(0), "0");
    for v in [0u8, 9, 10, 99, 100, 255] {
        assert_eq!(parse_speed_command(&speed_payload(v)), Some(v));
    }
}

#[test]
fn speed_topics_and_discovery() {
    let cfg = AppConfig::default();
    let t = Topics::from_cfg(&cfg);
    assert_eq!(t.speed_discovery_topic, "homeassistant/number/marcontroller_keyboard_effect_speed/config");
    assert_eq!(t.speed_command_topic, "kb/pc01/light/effect_speed/set");
    assert_eq!(t.speed_state_topic, "kb/pc01/light/effect_speed/state");
    let p = build_speed_discovery_payload(&cfg, &t, "2.0");
    assert_eq!(p.name, "Effect speed");
    assert_eq!(p.unique_id, "marcontroller_keyboard_effect_speed");
    assert_eq!(p.command_topic, "kb/pc01/light/effect_speed/set");
    assert_eq!(p.state_topic, "kb/pc01/light/effect_speed/state");
    assert_eq!(p.availability_topic, "kb/pc01/availability");
    assert_eq!((p.min, p.max, p.step), (0, 255, 1));
    assert_eq!(p.device.identifiers, vec!["marcontroller_keyboard".to_owned()]);
    assert_eq!(p.origin.sw_version, "2.0");
}

#[test]
fn speed_is_published_on_change_and_echoed_when_applied() {
    let (mut agent, _) = AgentState::start(true, None);
    assert_eq!(agent.on_fetched_speed(40), Some(40));
    assert_eq!(agent.on_fetched_speed(40), None);
    assert_eq!(agent.on_fetched_speed(41), Some(41));
    let p = agent.on_speed_applied(200, ApplyOutcome::Applied);
    assert_eq!(p.speed, Some(200));
    assert_eq!(p.availability, None);
    assert_eq!(agent.on_fetched_speed(200), None);
    let p = agent.on_speed_applied(10, ApplyOutcome::Failed);
    assert_eq!(p.speed, None);
    assert_eq!(agent.last_speed, Some(200));
    let p = agent.on_speed_applied(10, ApplyOutcome::Offline);
    assert_eq!(p.availability, Some(false));
    assert_eq!(p.speed, None);
    assert_eq!(agent.on_ha_birth_speed(33), 33);
    assert_eq!(agent.last_speed, Some(33));
}

#[test]
fn speed_replies() {
    assert!(matches!(speed_reply(Ok(9)), Ok(HidReply::Speed(Some(9)))));
    assert!(matches!(speed_reply(Err(KeyboardError::NoDevice { vid: 1, pid: 1 })), Ok(HidReply::Speed(None))));
    assert_eq!(speed_reply(Err(KeyboardError::AmbiguousInterface)).err(), Some(KeyboardError::AmbiguousInterface));
}

#[test]
fn published_state_sent_back_selects_the_same_effect() {
    for id in [2u16, 6, 33, 46, 47, 300] {
        let m = mode(id, 100, 200, 90);
        let st = state_from_mode(m);
        let c = cmd(Some("ON"), st.brightness, None, st.effect.as_deref());
        let w = plan_on_write(&c, Some((1, 2, 3)), mode(2, 0, 0, 0));
        assert_eq!(w.mode, id);
        assert_eq!(w.v, 90);
    }
}

#[test]
fn errors_mentioning_no_device_mean_offline() {
    let hid = KeyboardError::Hid { cause: "hid_error: no_device attached".to_owned() };
    assert!(hid.is_offline());
    assert!(matches!(availability_reply(Err(hid.clone())), Ok(HidReply::Availability(false))));
    assert!(matches!(state_reply(Err(hid.clone())), Ok(HidReply::State(None))));
    assert!(matches!(effects_reply(Err(hid.clone())), Ok(HidReply::SupportedEffects(None))));
    assert!(matches!(speed_reply(Err(hid)), Ok(HidReply::Speed(None))));
    assert!(KeyboardError::NoDevice { vid: 0xFEED, pid: 0 }.is_offline());
    let other = KeyboardError::Hid { cause: "broken pipe".to_owned() };
    assert!(!other.is_offline());
    assert!(availability_reply(Err(other)).is_err());
}

#[test]
fn off_and_failed_commands_keep_saved_settings() {
    let (mut agent, _) = AgentState::start(true, Some(on_state(40, Some("Splash"))));
    let off = cmd(Some("OFF"), Some(200), Some(HaRgb { r: 1, g: 2, b: 3 }), None);
    agent.on_command_applied(&off, ApplyOutcome::Applied);
    assert_eq!(agent.saved_on.brightness, 40);
    assert_eq!(agent.saved_on.color, HaRgb { r: 1, g: 2, b: 3 });
    let on = cmd(Some("ON"), Some(99), None, Some("Riverflow"));
    agent.on_command_applied(&on, ApplyOutcome::Failed);
    agent.on_command_applied(&on, ApplyOutcome::Offline);
    assert_eq!(agent.saved_on.brightness, 40);
    assert_eq!(agent.saved_on.effect.as_deref(), Some("Splash"));
}

use marcontroller::cli::{
    seeded_config, classify_hid_error, config_init_allowed, command_needs_device, normalise_hex_str, parse_hex_u16, Command,
    ConfigCommand, HidErrorKind,
};
use marcontroller::config::AppConfig;
use marcontroller::error::KeyboardError;
use marcontroller::hid::{select_interface, CandidateInfo, DeviceEntry, SelectError, USAGE, USAGE_PAGE};
use marcontroller::locale::{detect_lang, locale_of_lowered, normalise_locale};
use marcontroller::logging::resolve_service_log_dir;
use marcontroller::ui::{serial_from_text, should_fire, DirectLedError, UiModel, DEBOUNCE_MS};
use marcontroller::vialrgb::{Info, Mode};

#[test]
fn hex_arguments() {
    assert_eq!(parse_hex_u16("0xFEED").unwrap(), 0xFEED);
    assert_eq!(parse_hex_u16(" feed ").unwrap(), 0xFEED);
    assert_eq!(parse_hex_u16("0X00ff").unwrap(), 0x00FF);
    assert_eq!(parse_hex_u16("0x0xff").unwrap(), 0xFF);
    assert_eq!(parse_hex_u16("+1f").unwrap(), 0x1F);
    assert_eq!(parse_hex_u16("zz").unwrap_err().value, "zz");
    assert!(parse_hex_u16("10000").is_err());
    assert!(parse_hex_u16("0x").is_err());
    assert!(parse_hex_u16("0X0xFF").is_err());
}

#[test]
fn hex_normalisation() {
    assert_eq!(normalise_hex_str("0xfeed"), "FEED");
    assert_eq!(normalise_hex_str("  0Xab12 "), "AB12");
    assert_eq!(normalise_hex_str("FEED"), "FEED");
}

#[test]
fn hid_error_classes() {
    assert!(matches!(classify_hid_error("no_device vid=FEED pid=0000"), HidErrorKind::NoDevice));
    assert!(matches!(classify_hid_error("ambiguous_interface"), HidErrorKind::AmbiguousInterface));
    assert!(matches!(classify_hid_error("unexpected_response bytes=[1]"), HidErrorKind::UnexpectedResponse));
    match classify_hid_error("fastset_too_many got=12") {
        HidErrorKind::FastsetTooMany { got } => assert_eq!(got, "12"),
        _ => panic!("expected FastsetTooMany"),
    }
    match classify_hid_error("fastset_too_many a=1 b=2") {
        HidErrorKind::FastsetTooMany { got } => assert_eq!(got, "2"),
        _ => panic!("expected FastsetTooMany"),
    }
    assert!(matches!(classify_hid_error("write: broken pipe"), HidErrorKind::Other));
}

#[test]
fn keyboard_error_texts_classify_back() {
    let e = KeyboardError::NoDevice { vid: 0xFEED, pid: 0 };
    assert!(matches!(classify_hid_error(&e.message()), HidErrorKind::NoDevice));
    let e = KeyboardError::FastsetTooMany { got: 12 };
    match classify_hid_error(&e.message()) {
        HidErrorKind::FastsetTooMany { got } => assert_eq!(got, "12"),
        _ => panic!("expected FastsetTooMany"),
    }
}

#[test]
fn which_commands_need_the_keyboard() {
    assert!(command_needs_device(&Command::GetInfo));
    assert!(command_needs_device(&Command::SetBrightness { v: 3 }));
    assert!(!command_needs_device(&Command::List));
    assert!(!command_needs_device(&Command::Agent));
    assert!(!command_needs_device(&Command::Ui));
    assert!(!command_needs_device(&Command::Config { cmd: ConfigCommand::Path }));
}

#[test]
fn locale_normalisation() {
    assert_eq!(normalise_locale("es"), "es");
    assert_eq!(normalise_locale("es-ES"), "es");
    assert_eq!(normalise_locale("es_ES.UTF-8"), "es");
    assert_eq!(normalise_locale("en-US"), "en");
    assert_eq!(normalise_locale("English_United States"), "en");
    assert_eq!(normalise_locale("Spanish_Spain.1252"), "es");
    assert_eq!(normalise_locale("  ES@euro "), "es");
    assert_eq!(normalise_locale("fr_FR"), "en");
    assert_eq!(normalise_locale(""), "en");
}

#[test]
fn lowered_locale_choice() {
    assert_eq!(locale_of_lowered("es"), "es");
    assert_eq!(locale_of_lowered("en"), "en");
    assert_eq!(locale_of_lowered("es-mx"), "es");
    assert_eq!(locale_of_lowered("spanish_spain.1252"), "es");
    assert_eq!(locale_of_lowered("Spanish"), "en");
    assert_eq!(locale_of_lowered("de_de@euro"), "en");
    assert_eq!(locale_of_lowered(&locale_of_lowered("spanish")), "es");
}

#[test]
fn locale_sources_in_priority_order() {
    let none: Vec<Option<String>> = vec![None, None, None, None];
    assert_eq!(detect_lang(Some("es"), Some("en"), &none, Some("en")), "es");
    assert_eq!(detect_lang(None, Some(" es_ES "), &none, Some("en")), "es");
    assert_eq!(detect_lang(None, Some("   "), &none, Some("es-MX")), "es");
    let posix = vec![None, Some(" ".to_owned()), Some("es_ES.UTF-8".to_owned()), Some("en".to_owned())];
    assert_eq!(detect_lang(None, None, &posix, Some("en")), "es");
    assert_eq!(detect_lang(None, None, &none, None), "en");
}

#[test]
fn service_log_directory() {
    assert_eq!(resolve_service_log_dir(Some("/etc/marc/config.toml"), None), "/etc/marc/logs");
    assert_eq!(resolve_service_log_dir(None, Some("/home/u/.config/marc/config.toml")), "/home/u/.config/marc/logs");
    assert_eq!(resolve_service_log_dir(None, None), "logs");
    assert_eq!(resolve_service_log_dir(Some("/"), None), "logs");
}

#[test]
fn default_configuration() {
    let c = AppConfig::default();
    assert_eq!(c.hid.vid, "FEED");
    assert_eq!(c.hid.pid, "0000");
    assert_eq!(c.hid.serial, None);
    assert_eq!(c.mqtt.host, "127.0.0.1");
    assert_eq!(c.mqtt.port, 1883);
    assert_eq!(c.mqtt.username.as_deref(), Some(""));
    assert_eq!(c.mqtt.client_id, "marcontroller-pc");
    assert_eq!(c.mqtt.keep_alive_secs, 30);
    assert!(c.mqtt.retain_discovery && c.mqtt.retain_state);
    assert_eq!(c.ha.discovery_prefix, "homeassistant");
    assert_eq!(c.ha.object_id, "marcontroller_keyboard");
    assert_eq!(c.ha.name, "Teclado");
    assert_eq!(c.ha.base_topic, "kb/pc01/light");
    assert!(c.ha.publish_discovery_on_start && c.ha.republish_on_ha_birth);
}

fn entry(vid: u16, pid: u16, interface: i32, page: u16, usage: u16, serial: Option<&str>, path: &str) -> DeviceEntry {
    DeviceEntry {
        vendor_id: vid,
        product_id: pid,
        info: CandidateInfo {
            interface,
            usage_page: page,
            usage,
            serial: serial.map(|s| s.to_owned()),
            product: None,
            path: path.to_owned(),
        },
    }
}

#[test]
fn interface_selection_prefers_raw_hid_usage() {
    let list = vec![
        entry(0xFEED, 0, 1, 1, 6, None, "a"),
        entry(0xFEED, 0, 0, USAGE_PAGE, USAGE, None, "b"),
        entry(0x1234, 0, 1, USAGE_PAGE, USAGE, None, "c"),
    ];
    assert_eq!(select_interface(&list, 0xFEED, 0, None), Ok(1));
}

#[test]
fn interface_selection_fallbacks() {
    let by_number = vec![entry(1, 2, 0, 1, 6, None, "x"), entry(1, 2, 1, 1, 6, None, "y")];
    assert_eq!(select_interface(&by_number, 1, 2, None), Ok(1));
    let by_path = vec![entry(1, 2, 0, 1, 6, None, "x"), entry(1, 2, 3, 1, 6, None, "hid#vid_1&pid_2&MI_01#")];
    assert_eq!(select_interface(&by_path, 1, 2, None), Ok(1));
    let single = vec![entry(9, 9, 0, 0, 0, None, "z"), entry(1, 2, 0, 1, 6, None, "x")];
    assert_eq!(select_interface(&single, 1, 2, None), Ok(1));
    let ambiguous = vec![entry(1, 2, 0, 1, 6, None, "x"), entry(1, 2, 2, 1, 6, None, "y")];
    assert_eq!(select_interface(&ambiguous, 1, 2, None), Err(SelectError::Ambiguous));
    assert_eq!(select_interface(&ambiguous, 7, 7, None), Err(SelectError::NoDevice));
}

#[test]
fn interface_selection_filters_by_serial() {
    let list = vec![
        entry(1, 2, 1, USAGE_PAGE, USAGE, Some("AAA"), "x"),
        entry(1, 2, 1, USAGE_PAGE, USAGE, Some("BBB"), "y"),
        entry(1, 2, 1, USAGE_PAGE, USAGE, None, "z"),
    ];
    assert_eq!(select_interface(&list, 1, 2, Some("BBB")), Ok(1));
    assert_eq!(select_interface(&list, 1, 2, Some("CCC")), Err(SelectError::NoDevice));
}

#[test]
fn ui_model_starts_with_defaults() {
    let m = UiModel::new(true, None);
    assert!(m.auto_apply);
    assert_eq!(m.solid_rgb, [255, 0, 0]);
    assert_eq!(m.solid_brightness, 128);
    assert_eq!(m.effect_id, 2);
    assert_eq!(m.direct_rgb, [255, 255, 255]);
    assert_eq!(m.direct_brightness, 64);
    assert_eq!(m.led_index_max(), 255);
    assert!(m.should_start_agent());
    assert!(!UiModel::new(false, Some("bad config".to_owned())).should_start_agent());
}

#[test]
fn ui_model_follows_keyboard_readings() {
    let mut m = UiModel::new(true, None);
    m.apply_mode_reading(Mode { mode: 6, speed: 3, h: 0, s: 255, v: 200 });
    assert_eq!(m.effect_id, 6);
    assert_eq!(m.effect_speed, 3);
    assert_eq!(m.solid_brightness, 200);
    assert_eq!(m.solid_rgb, [200, 0, 0]);
    m.effect_dirty = true;
    m.apply_mode_reading(Mode { mode: 0, speed: 0, h: 0, s: 0, v: 50 });
    assert_eq!(m.effect_id, 6);
    assert_eq!(m.solid_brightness, 0);
    assert_eq!(m.solid_rgb, [200, 0, 0]);
}

#[test]
fn ui_model_probes() {
    let mut m = UiModel::new(true, Some("old".to_owned()));
    let info = Info { protocol_version: 1, max_brightness: 255 };
    assert!(m.record_probe(Ok(info), false));
    assert_eq!(m.last_error.as_deref(), Some("old"));
    assert!(m.record_probe(Ok(info), true));
    assert_eq!(m.last_error, None);
    assert!(!m.record_probe(Err(KeyboardError::AmbiguousInterface), true));
    assert!(!m.kb_online);
    assert!(m.last_error.is_some());
}

#[test]
fn ui_model_led_selection() {
    let mut m = UiModel::new(true, None);
    m.led_index = 40;
    m.set_led_count(10);
    assert_eq!(m.led_index, 9);
    assert_eq!(m.led_index_max(), 9);
    assert_eq!(m.check_direct_led(10), Ok(()));
    assert_eq!(m.check_direct_led(5), Err(DirectLedError::LedIndexOutOfRange));
    assert_eq!(m.check_direct_led(0), Err(DirectLedError::NoLeds));
    m.set_led_count(0);
    assert_eq!(m.led_index, 0);
    assert_eq!(m.led_index_max(), 0);
}

#[test]
fn ui_model_effect_writes() {
    let mut m = UiModel::new(true, None);
    m.effect_id = 40;
    m.effect_speed = 9;
    m.effect_dirty = true;
    assert_eq!(m.effect_hsv((10, 20)), (10, 20, 128));
    m.mark_effect_applied((10, 20));
    assert!(!m.effect_dirty);
    assert_eq!(m.last_mode, Some(Mode { mode: 40, speed: 9, h: 10, s: 20, v: 128 }));
    assert_eq!(m.effect_hsv((1, 1)), (10, 20, 128));
}

#[test]
fn debounce_and_serial_field() {
    assert!(should_fire(true, true, DEBOUNCE_MS));
    assert!(!should_fire(true, true, DEBOUNCE_MS - 1));
    assert!(!should_fire(false, true, 10_000));
    assert!(!should_fire(true, false, 10_000));
    assert_eq!(serial_from_text("   ".to_owned()), None);
    assert_eq!(serial_from_text(" ABC ".to_owned()), Some(" ABC ".to_owned()));
}

#[test]
fn saving_the_config_restarts_the_agent() {
    let mut m = UiModel::new(false, None);
    assert!(!m.should_start_agent());
    m.on_config_saved();
    assert!(m.should_start_agent());
    m.agent_started = true;
    assert!(!m.should_start_agent());
    m.on_config_saved();
    assert!(m.should_start_agent());
}

#[test]
fn config_init_seeds_hid_fields() {
    let c = seeded_config(" 0xfeed ", "0X1a2b", Some("vial:f64c2b3c".to_owned()));
    assert_eq!(c.hid.vid, "FEED");
    assert_eq!(c.hid.pid, "1A2B");
    assert_eq!(c.hid.serial.as_deref(), Some("vial:f64c2b3c"));
    assert_eq!(c.mqtt.port, 1883);
    assert_eq!(c.ha.base_topic, "kb/pc01/light");
}

#[test]
fn ui_tick_plans() {
    let mut m = UiModel::new(true, None);
    let p = m.plan_probes(0);
    assert!(p.initial && !p.periodic);
    let f = m.after_probe(true, false);
    assert!(f.read_mode && !f.refresh_leds);
    assert!(m.did_initial_sync && m.last_online);
    assert!(!m.plan_probes(1999).periodic);
    assert!(m.plan_probes(2000).periodic);
    m.last_online = false;
    let f = m.after_probe(true, true);
    assert!(f.refresh_leds);
    m.set_led_count(5);
    m.last_online = false;
    assert!(!m.after_probe(true, true).refresh_leds);
    assert!(!m.after_probe(false, true).read_mode);

    m.kb_online = true;
    m.solid_dirty = true;
    m.effect_dirty = true;
    let w = m.plan_writes(DEBOUNCE_MS, DEBOUNCE_MS - 1, DEBOUNCE_MS);
    assert!(w.solid && !w.effect && !w.direct);
    m.kb_online = false;
    assert!(!m.plan_writes(10_000, 10_000, 10_000).solid);
}

#[test]
fn normalised_locale_is_stable() {
    for c in ["es_ES.UTF-8", "English_United States", "fr", "", "  ES@euro "] {
        let once = normalise_locale(c);
        assert_eq!(normalise_locale(&once), once);
    }
}

#[test]
fn config_init_refuses_existing_file_without_force() {
    assert!(config_init_allowed(false, false));
    assert!(config_init_allowed(false, true));
    assert!(!config_init_allowed(true, false));
    assert!(config_init_allowed(true, true));
}

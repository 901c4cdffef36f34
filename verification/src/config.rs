//! Persistent configuration (stored as TOML by the application).
use vstd::prelude::*;

verus! {

broadcast use vstd::string::group_string_axioms;

/// The whole configuration.
#[derive(Debug, Clone)]
pub struct AppConfig {
    pub hid: HidConfig,
    pub mqtt: MqttConfig,
    pub ha: HaConfig,
}

/// Which keyboard to talk to.
#[derive(Debug, Clone)]
pub struct HidConfig {
    /// Vendor ID as hex string (e.g. "FEED").
    pub vid: String,
    /// Product ID as hex string (e.g. "0000").
    pub pid: String,
    /// Optional serial filter (useful when multiple identical keyboards exist).
    pub serial: Option<String>,
}

/// The MQTT broker connection.
#[derive(Debug, Clone)]
pub struct MqttConfig {
    pub host: String,
    pub port: u16,
    pub username: Option<String>,
    pub password: Option<String>,
    pub client_id: String,
    pub keep_alive_secs: u16,
    pub retain_discovery: bool,
    pub retain_state: bool,
}

/// Home Assistant integration.
#[derive(Debug, Clone)]
pub struct HaConfig {
    /// Discovery prefix; Home Assistant's default is "homeassistant".
    pub discovery_prefix: String,
    pub object_id: String,
    pub name: String,
    pub unique_id: String,
    /// Base topic for set/state/availability, e.g. "kb/pc01/light".
    pub base_topic: String,
    pub publish_discovery_on_start: bool,
    pub republish_on_ha_birth: bool,
}

/// The default HID settings: the Vial default VID/PID, no serial filter.
pub open spec fn is_default_hid(h: HidConfig) -> bool {
    &&& h.vid@ == "FEED"@
    &&& h.pid@ == "0000"@
    &&& h.serial is None
}

/// The default MQTT settings: a local broker without credentials.
pub open spec fn is_default_mqtt(m: MqttConfig) -> bool {
    &&& m.host@ == "127.0.0.1"@
    &&& m.port == 1883
    &&& m.username matches Some(u) && u@ == Seq::<char>::empty()
    &&& m.password matches Some(p) && p@ == Seq::<char>::empty()
    &&& m.client_id@ == "marcontroller-pc"@
    &&& m.keep_alive_secs == 30
    &&& m.retain_discovery
    &&& m.retain_state
}

/// The default Home Assistant settings.
pub open spec fn is_default_ha(h: HaConfig) -> bool {
    &&& h.discovery_prefix@ == "homeassistant"@
    &&& h.object_id@ == "marcontroller_keyboard"@
    &&& h.name@ == "Teclado"@
    &&& h.unique_id@ == "marcontroller_keyboard"@
    &&& h.base_topic@ == "kb/pc01/light"@
    &&& h.publish_discovery_on_start
    &&& h.republish_on_ha_birth
}

/// The default configuration's values.
pub open spec fn is_default_config(c: AppConfig) -> bool {
    &&& is_default_hid(c.hid)
    &&& is_default_mqtt(c.mqtt)
    &&& is_default_ha(c.ha)
}

impl Default for AppConfig {
    fn default() -> (r: Self)
        ensures
            is_default_config(r),
    {
        AppConfig {
            hid: HidConfig { vid: "FEED".to_owned(), pid: "0000".to_owned(), serial: None },
            mqtt: MqttConfig {
                host: "127.0.0.1".to_owned(),
                port: 1883,
                username: Some(String::new()),
                password: Some(String::new()),
                client_id: "marcontroller-pc".to_owned(),
                keep_alive_secs: 30,
                retain_discovery: true,
                retain_state: true,
            },
            ha: HaConfig {
                discovery_prefix: "homeassistant".to_owned(),
                object_id: "marcontroller_keyboard".to_owned(),
                name: "Teclado".to_owned(),
                unique_id: "marcontroller_keyboard".to_owned(),
                base_topic: "kb/pc01/light".to_owned(),
                publish_discovery_on_start: true,
                republish_on_ha_birth: true,
            },
        }
    }
}

} // verus!

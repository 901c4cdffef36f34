//! Home Assistant MQTT light integration: the payload model, the topics,
//! the keyboard operations the agent performs, and the agent's decisions.
//!
//! The application runs the MQTT event loop and the HID worker; every choice
//! of what to send to the keyboard and what to publish is made here.
use vstd::prelude::*;

use hidapi::HidApi;

use crate::color::{hsv_to_rgb, hsv_to_rgb_spec};
use crate::config::AppConfig;
use crate::effects::{
    catalog_names, effect_id_for_ha_name, effect_id_for_token, ha_effect_name,
    ha_effect_name_for_id, name_token, names_view, EffectCatalog,
};
use crate::error::{means_offline, KeyboardError};
use crate::hid::{
    clone_opt_string, frame_of, freshly_selected, hid_device_entries, open_device, select_error,
    select_spec, serial_view, Keyboard,
};
use crate::text::{
    chars_of, decimal, eq_lit, last_index_of_char, last_index_of_char_exec, parse_u16_radix,
    parse_u16_spec, push_all, push_decimal, push_str, string_from_chars, strip_all_suffix_char,
    strip_all_suffix_char_chars, sub_vec, trim, trim_chars,
};
use crate::vialrgb::{
    all_echoed, echoed_exchange, law_set_mode_report_layout, read_le16, get_info, get_mode, get_supported_effects, lemma_answered_step,
    lemma_read_then_set, lists_supported, mode_of, new_reply, no_filler, packet, read_then_set,
    set_mode, set_mode_packet, Mode, EFFECT_DIRECT, EFFECT_OFF, EFFECT_SOLID_COLOR,
    ID_LIGHTING_GET_VALUE, ID_LIGHTING_SET_VALUE, VIALRGB_GET_INFO, VIALRGB_GET_MODE,
    VIALRGB_SET_MODE,
};

verus! {

broadcast use vstd::string::group_string_axioms;

// ── HA JSON payload types ───────────────────────────────────────────────────

/// An RGB colour as Home Assistant sends and receives it.
#[derive(Debug, Clone, Copy, PartialEq, Eq, Structural)]
pub struct HaRgb {
    pub r: u8,
    pub g: u8,
    pub b: u8,
}

/// A command received on the command topic (MQTT Light JSON schema).
#[derive(Debug, Clone)]
pub struct HaLightCommand {
    pub state: Option<String>,
    pub brightness: Option<u8>,
    pub color: Option<HaRgb>,
    pub effect: Option<String>,
}

/// A state published on the state topic.
#[derive(Debug, Clone)]
pub struct HaLightState {
    pub state: String,
    pub brightness: Option<u8>,
    pub color_mode: Option<String>,
    pub color: Option<HaRgb>,
    pub effect: Option<String>,
}

/// The view of an optional string.
pub open spec fn opt_view(o: Option<String>) -> Option<Seq<char>> {
    match o {
        Some(s) => Some(s@),
        None => None,
    }
}

/// A state as plain values; two states are the same when their views are.
pub open spec fn state_view(st: HaLightState) -> (Seq<char>, Option<u8>, Option<Seq<char>>, Option<HaRgb>, Option<Seq<char>>) {
    (st.state@, st.brightness, opt_view(st.color_mode), st.color, opt_view(st.effect))
}

/// A command as plain values.
pub open spec fn command_view(c: HaLightCommand) -> (Option<Seq<char>>, Option<u8>, Option<HaRgb>, Option<Seq<char>>) {
    (opt_view(c.state), c.brightness, c.color, opt_view(c.effect))
}

/// The OFF state: state "OFF" and nothing else.
pub open spec fn is_off_state(st: HaLightState) -> bool {
    state_view(st) == ("OFF"@, None::<u8>, None::<Seq<char>>, None::<HaRgb>, None::<Seq<char>>)
}

impl HaLightState {
    /// The OFF state.
    pub fn off() -> (r: Self)
        ensures
            is_off_state(r),
    {
        Self { state: "OFF".to_owned(), brightness: None, color_mode: None, color: None, effect: None }
    }
}

/// Whether two optional strings hold the same text.
fn same_opt_string(a: &Option<String>, b: &Option<String>) -> (r: bool)
    ensures
        r == (opt_view(*a) == opt_view(*b)),
{
    match (a, b) {
        (None, None) => true,
        (Some(x), Some(y)) => x.eq(y),
        _ => false,
    }
}

/// Whether two optional colours are equal.
fn same_opt_rgb(a: &Option<HaRgb>, b: &Option<HaRgb>) -> (r: bool)
    ensures
        r == (*a == *b),
{
    match (a, b) {
        (None, None) => true,
        (Some(x), Some(y)) => x.r == y.r && x.g == y.g && x.b == y.b,
        _ => false,
    }
}

/// Whether two states are the same.
pub fn same_state(a: &HaLightState, b: &HaLightState) -> (r: bool)
    ensures
        r == (state_view(*a) == state_view(*b)),
{
    a.state == b.state && a.brightness == b.brightness && same_opt_string(&a.color_mode, &b.color_mode)
        && same_opt_rgb(&a.color, &b.color) && same_opt_string(&a.effect, &b.effect)
}

/// A copy of a state.
pub fn clone_state(st: &HaLightState) -> (r: HaLightState)
    ensures
        state_view(r) == state_view(*st),
{
    HaLightState {
        state: st.state.clone(),
        brightness: st.brightness,
        color_mode: clone_opt_string(&st.color_mode),
        color: st.color,
        effect: clone_opt_string(&st.effect),
    }
}

// ── Keyboard state as Home Assistant sees it ────────────────────────────────

/// The Home Assistant state of a keyboard mode: OFF when the effect is OFF or
/// the brightness is 0; otherwise ON with the brightness, the RGB colour of
/// the HSV, and the effect's name unless it is DIRECT.
pub open spec fn state_of_mode(m: Mode) -> (Seq<char>, Option<u8>, Option<Seq<char>>, Option<HaRgb>, Option<Seq<char>>) {
    if m.mode == EFFECT_OFF || m.v == 0 {
        ("OFF"@, None, None, None, None)
    } else {
        let (r, g, b) = hsv_to_rgb_spec(m.h, m.s, m.v);
        (
            "ON"@,
            Some(m.v),
            Some("rgb"@),
            Some(HaRgb { r: r as u8, g: g as u8, b: b as u8 }),
            if m.mode == EFFECT_DIRECT {
                None
            } else {
                Some(ha_effect_name(m.mode))
            },
        )
    }
}

/// The Home Assistant state of a keyboard mode (see `state_of_mode`).
pub fn state_from_mode(m: Mode) -> (r: HaLightState)
    ensures
        state_view(r) == state_of_mode(m),
{
    if m.mode == EFFECT_OFF || m.v == 0 {
        return HaLightState::off();
    }
    let rgb = hsv_to_rgb(m.h, m.s, m.v);
    let effect = if m.mode == EFFECT_DIRECT {
        None
    } else {
        Some(ha_effect_name_for_id(m.mode))
    };
    HaLightState {
        state: "ON".to_owned(),
        brightness: Some(m.v),
        color_mode: Some("rgb".to_owned()),
        color: Some(HaRgb { r: rgb[0], g: rgb[1], b: rgb[2] }),
        effect,
    }
}

// ── Commands ────────────────────────────────────────────────────────────────

/// The command turns the light off: its state is "OFF" or "off".
pub open spec fn is_off_command(c: HaLightCommand) -> bool {
    c.state matches Some(s) && (s@ == "OFF"@ || s@ == "off"@)
}

/// The command turns the light on or updates it: its state is "ON", "on",
/// or absent.
pub open spec fn is_on_command(c: HaLightCommand) -> bool {
    match c.state {
        Some(s) => s@ == "ON"@ || s@ == "on"@,
        None => true,
    }
}

/// Whether the command turns the light off.
pub fn command_is_off(c: &HaLightCommand) -> (r: bool)
    ensures
        r == is_off_command(*c),
{
    match &c.state {
        Some(s) => {
            let v = chars_of(s.as_str());
            eq_lit(&v, "OFF") || eq_lit(&v, "off")
        },
        None => false,
    }
}

/// Whether the command turns the light on (or leaves the state alone).
pub fn command_is_on(c: &HaLightCommand) -> (r: bool)
    ensures
        r == is_on_command(*c),
{
    match &c.state {
        Some(s) => {
            let v = chars_of(s.as_str());
            eq_lit(&v, "ON") || eq_lit(&v, "on")
        },
        None => true,
    }
}

/// The lighting the agent writes for an ON/update command: the colour's HSV
/// (or the keyboard's current HSV when the command has no colour), the
/// command's brightness in place of V when given, and the named effect
/// (SOLID_COLOR when there is none or the name is unknown). Speed is 0.
pub open spec fn on_write(c: HaLightCommand, color_hsv: Option<(u8, u8, u8)>, current: Mode) -> Mode {
    let (h, s, v0) = match color_hsv {
        Some(hsv) => hsv,
        None => (current.h, current.s, current.v),
    };
    let v = match c.brightness {
        Some(b) => b,
        None => v0,
    };
    let mode = match c.effect {
        Some(name) => match effect_id_for_token(name_token(name@)) {
            Some(id) => id,
            None => EFFECT_SOLID_COLOR,
        },
        None => EFFECT_SOLID_COLOR,
    };
    Mode { mode, speed: 0, h, s, v }
}

/// The lighting write for an ON/update command (see `on_write`).
pub fn plan_on_write(c: &HaLightCommand, color_hsv: Option<(u8, u8, u8)>, current: Mode) -> (r: Mode)
    ensures
        r == on_write(*c, color_hsv, current),
{
    let (h, s, v0) = match color_hsv {
        Some(hsv) => hsv,
        None => (current.h, current.s, current.v),
    };
    let v = match c.brightness {
        Some(b) => b,
        None => v0,
    };
    let mode = match &c.effect {
        Some(name) => match effect_id_for_ha_name(name.as_str()) {
            Some(id) => id,
            None => EFFECT_SOLID_COLOR,
        },
        None => EFFECT_SOLID_COLOR,
    };
    Mode { mode, speed: 0, h, s, v }
}

/// Sending a published state back as a command selects the same effect and
/// brightness: for a keyboard mode that shows as ON with an effect, a
/// command carrying that state's brightness and effect name writes the
/// mode's effect and brightness, whatever colour it carries.
pub proof fn law_published_state_writes_back(m: Mode, c: HaLightCommand, color_hsv: Option<(u8, u8, u8)>, current: Mode)
    requires
        state_of_mode(m).4 is Some,
        c.brightness == state_of_mode(m).1,
        opt_view(c.effect) == state_of_mode(m).4,
    ensures
        on_write(c, color_hsv, current).mode == m.mode,
        on_write(c, color_hsv, current).v == m.v,
{
    crate::effects::law_effect_name_round_trip(m.mode);
}

/// The last "ON" settings, used when Home Assistant turns the light on
/// without saying how.
pub struct SavedOn {
    pub brightness: u8,
    pub color: HaRgb,
    pub effect: Option<String>,
}

impl SavedOn {
    /// The settings before anything is known: brightness 128, red, no effect.
    pub fn initial() -> (r: SavedOn)
        ensures
            r.brightness == 128,
            r.color == (HaRgb { r: 255, g: 0, b: 0 }),
            r.effect is None,
    {
        SavedOn { brightness: 128, color: HaRgb { r: 255, g: 0, b: 0 }, effect: None }
    }
}

/// `new` is `old` after remembering the settings of `st`: an ON state's
/// brightness, colour and effect replace the saved ones where it has them;
/// any other state changes nothing.
pub open spec fn remembers(old: SavedOn, new: SavedOn, st: HaLightState) -> bool {
    if st.state@ == "ON"@ {
        &&& new.brightness == match st.brightness {
            Some(b) => b,
            None => old.brightness,
        }
        &&& new.color == match st.color {
            Some(c) => c,
            None => old.color,
        }
        &&& opt_view(new.effect) == match st.effect {
            Some(e) => Some(e@),
            None => opt_view(old.effect),
        }
    } else {
        new.brightness == old.brightness && new.color == old.color && opt_view(new.effect)
            == opt_view(old.effect)
    }
}

/// Remembers the settings of an ON state; any other state changes nothing.
pub fn update_saved_on_from_state(saved_on: &mut SavedOn, st: &HaLightState)
    ensures
        st.state@ == "ON"@ ==> {
            &&& final(saved_on).brightness == match st.brightness {
                Some(b) => b,
                None => old(saved_on).brightness,
            }
            &&& final(saved_on).color == match st.color {
                Some(c) => c,
                None => old(saved_on).color,
            }
            &&& opt_view(final(saved_on).effect) == match st.effect {
                Some(e) => Some(e@),
                None => opt_view(old(saved_on).effect),
            }
        },
        st.state@ != "ON"@ ==> final(saved_on).brightness == old(saved_on).brightness
            && final(saved_on).color == old(saved_on).color && opt_view(final(saved_on).effect)
            == opt_view(old(saved_on).effect),
{
    let s = chars_of(st.state.as_str());
    if eq_lit(&s, "ON") {
        if let Some(b) = st.brightness {
            saved_on.brightness = b;
        }
        if let Some(c) = st.color {
            saved_on.color = c;
        }
        if let Some(eff) = &st.effect {
            saved_on.effect = Some(eff.clone());
        }
    }
}

/// The command as it is applied: an ON (or state-less) command that lacks
/// brightness, colour or effect takes the saved ones; any other command is
/// unchanged.
pub open spec fn prepared(c: HaLightCommand, saved: SavedOn) -> (Option<Seq<char>>, Option<u8>, Option<HaRgb>, Option<Seq<char>>) {
    if !is_off_command(c) && is_on_command(c) {
        (
            opt_view(c.state),
            Some(
                match c.brightness {
                    Some(b) => b,
                    None => saved.brightness,
                },
            ),
            Some(
                match c.color {
                    Some(x) => x,
                    None => saved.color,
                },
            ),
            match c.effect {
                Some(e) => Some(e@),
                None => opt_view(saved.effect),
            },
        )
    } else {
        command_view(c)
    }
}

/// Fills in an ON command from the saved settings (see `prepared`).
pub fn prepare_command(cmd: HaLightCommand, saved_on: &SavedOn) -> (r: HaLightCommand)
    ensures
        command_view(r) == prepared(cmd, *saved_on),
{
    let mut cmd = cmd;
    if !command_is_off(&cmd) && command_is_on(&cmd) {
        if cmd.brightness.is_none() {
            cmd.brightness = Some(saved_on.brightness);
        }
        if cmd.color.is_none() {
            cmd.color = Some(saved_on.color);
        }
        if cmd.effect.is_none() {
            cmd.effect = clone_opt_string(&saved_on.effect);
        }
    }
    cmd
}

/// The state published after an ON command was applied: ON with what the
/// command carried, colour mode "rgb".
pub open spec fn echoed_state(c: HaLightCommand) -> (Seq<char>, Option<u8>, Option<Seq<char>>, Option<HaRgb>, Option<Seq<char>>) {
    ("ON"@, c.brightness, Some("rgb"@), c.color, opt_view(c.effect))
}

// ── Keyboard operations of the agent ────────────────────────────────────────

/// An error of the transport or of the VialRGB exchange, once a device is
/// open.
pub open spec fn transport_error(e: KeyboardError) -> bool {
    e is Hid || e is WriteShort || e is ReadShort || e is UnexpectedResponse
}

/// How a keyboard operation that opens the device first turns out: when no
/// interface is chosen (see `select_spec`), it fails with the selection's
/// error; once one is chosen, it can only fail to open it or fail in the
/// exchange (also by a stalled effect listing when `may_stall`).
pub open spec fn opened_outcome<T>(
    api: HidApi,
    vid: u16,
    pid: u16,
    serial: Option<Seq<char>>,
    may_stall: bool,
    r: Result<T, KeyboardError>,
) -> bool {
    match select_spec(hid_device_entries(api), vid, pid, serial) {
        Err(e) => r == Err::<T, KeyboardError>(select_error(e, vid, pid)),
        Ok(_) => r matches Err(e) ==> (e is Open || transport_error(e) || (may_stall
            && e is SupportedStalled)),
    }
}

/// The keyboard is "online" if it can be opened and answers GET_INFO.
pub fn probe_once(api: &HidApi, vid: u16, pid: u16, serial: Option<&str>) -> (r: Result<(), KeyboardError>)
    ensures
        opened_outcome(*api, vid, pid, serial_view(serial), false, r),
        r is Ok ==> exists|k0: Keyboard, k1: Keyboard|
            freshly_selected(k0, *api, vid, pid, serial_view(serial)) && #[trigger] echoed_exchange(
                k0,
                k1,
                packet(ID_LIGHTING_GET_VALUE, VIALRGB_GET_INFO, Seq::empty()),
                ID_LIGHTING_GET_VALUE,
                VIALRGB_GET_INFO,
            ),
        r matches Err(KeyboardError::NoDevice { vid: v, pid: p }) ==> v == vid && p == pid,
{
    let mut kb = open_device(api, vid, pid, serial)?;
    let ghost k0 = kb;
    let _ = get_info(&mut kb)?;
    proof {
        assert(echoed_exchange(
            k0,
            kb,
            packet(ID_LIGHTING_GET_VALUE, VIALRGB_GET_INFO, Seq::empty()),
            ID_LIGHTING_GET_VALUE,
            VIALRGB_GET_INFO,
        ));
    }
    Ok(())
}

/// Reads the keyboard's mode and turns it into a Home Assistant state.
pub fn get_state_once(api: &HidApi, vid: u16, pid: u16, serial: Option<&str>) -> (r: Result<HaLightState, KeyboardError>)
    ensures
        opened_outcome(*api, vid, pid, serial_view(serial), false, r),
        r matches Ok(st) ==> exists|k0: Keyboard, k1: Keyboard|
            freshly_selected(k0, *api, vid, pid, serial_view(serial)) && #[trigger] echoed_exchange(
                k0,
                k1,
                packet(ID_LIGHTING_GET_VALUE, VIALRGB_GET_MODE, Seq::empty()),
                ID_LIGHTING_GET_VALUE,
                VIALRGB_GET_MODE,
            ) && state_view(st) == state_of_mode(mode_of(new_reply(k0, k1)->0)),
        r matches Err(KeyboardError::NoDevice { vid: v, pid: p }) ==> v == vid && p == pid,
{
    let mut kb = open_device(api, vid, pid, serial)?;
    let ghost k0 = kb;
    let m = get_mode(&mut kb)?;
    let st = state_from_mode(m);
    proof {
        assert(echoed_exchange(
            k0,
            kb,
            packet(ID_LIGHTING_GET_VALUE, VIALRGB_GET_MODE, Seq::empty()),
            ID_LIGHTING_GET_VALUE,
            VIALRGB_GET_MODE,
        ));
    }
    Ok(st)
}

/// Lists the effects the keyboard supports.
pub fn get_supported_effects_once(api: &HidApi, vid: u16, pid: u16, serial: Option<&str>) -> (r: Result<Vec<u16>, KeyboardError>)
    ensures
        opened_outcome(*api, vid, pid, serial_view(serial), true, r),
        r matches Ok(ids) ==> no_filler(ids@),
        r matches Ok(ids) ==> exists|k0: Keyboard, k1: Keyboard|
            freshly_selected(k0, *api, vid, pid, serial_view(serial)) && #[trigger] lists_supported(
                k0,
                k1,
                ids@,
            ),
        r matches Err(KeyboardError::NoDevice { vid: v, pid: p }) ==> v == vid && p == pid,
{
    let mut kb = open_device(api, vid, pid, serial)?;
    let ghost k0 = kb;
    let ids = get_supported_effects(&mut kb)?;
    proof {
        assert(lists_supported(k0, kb, ids@));
    }
    Ok(ids)
}

/// The mode written for a command that is not OFF, given the HSV of its
/// colour or, without one, the mode the keyboard reports (see `on_write`).
pub open spec fn command_write(c: HaLightCommand, color_hsv: Option<(u8, u8, u8)>) -> spec_fn(Mode) -> Mode {
    |m: Mode| on_write(c, color_hsv, m)
}

/// The effect of applying `c` on an open keyboard, when it succeeded: an
/// OFF command writes the OFF effect with zero speed and HSV; a command with
/// a colour writes `on_write` of that colour; a command without one reads
/// the mode and writes `on_write` of it. Every reply echoed.
pub open spec fn applied(old: Keyboard, new: Keyboard, c: HaLightCommand, color_hsv: Option<(u8, u8, u8)>) -> bool {
    if is_off_command(c) {
        echoed_exchange(
            old,
            new,
            set_mode_packet(Mode { mode: EFFECT_OFF, speed: 0, h: 0, s: 0, v: 0 }),
            ID_LIGHTING_SET_VALUE,
            VIALRGB_SET_MODE,
        )
    } else if color_hsv is Some {
        echoed_exchange(
            old,
            new,
            set_mode_packet(on_write(c, color_hsv, Mode { mode: 0, speed: 0, h: 0, s: 0, v: 0 })),
            ID_LIGHTING_SET_VALUE,
            VIALRGB_SET_MODE,
        )
    } else {
        read_then_set(old, new, command_write(c, None))
    }
}

/// Applies a command to an open keyboard (see `applied`). `color_hsv` is
/// the HSV of the command's colour, given exactly when it has one.
pub fn apply_command(kb: &mut Keyboard, cmd: &HaLightCommand, color_hsv: Option<(u8, u8, u8)>) -> (r: Result<(), KeyboardError>)
    requires
        color_hsv is Some <==> cmd.color is Some,
    ensures
        r is Ok ==> applied(*old(kb), *final(kb), *cmd, color_hsv),
        r is Ok <==> all_echoed(*old(kb), *final(kb)),
        r matches Err(e) ==> transport_error(e),
{
    let ghost k0 = *kb;
    if command_is_off(cmd) {
        let set = set_mode(kb, EFFECT_OFF, 0, 0, 0, 0);
        proof {
            lemma_answered_step(k0, k0, *kb, set_mode_packet(Mode { mode: EFFECT_OFF, speed: 0, h: 0, s: 0, v: 0 }), set);
        }
        set?;
        return Ok(());
    }
    match color_hsv {
        Some(_) => {
            let w = plan_on_write(cmd, color_hsv, Mode { mode: 0, speed: 0, h: 0, s: 0, v: 0 });
            let set = set_mode(kb, w.mode, w.speed, w.h, w.s, w.v);
            proof {
                assert(w == (Mode { mode: w.mode, speed: w.speed, h: w.h, s: w.s, v: w.v }));
                lemma_answered_step(k0, k0, *kb, set_mode_packet(w), set);
            }
            set?;
            Ok(())
        },
        None => {
            let got = get_mode(kb);
            proof {
                lemma_answered_step(k0, k0, *kb, packet(ID_LIGHTING_GET_VALUE, VIALRGB_GET_MODE, Seq::empty()), got);
            }
            let current = got?;
            let ghost k1 = *kb;
            let w = plan_on_write(cmd, color_hsv, current);
            let set = set_mode(kb, w.mode, w.speed, w.h, w.s, w.v);
            proof {
                assert(w == (Mode { mode: w.mode, speed: w.speed, h: w.h, s: w.s, v: w.v }));
                lemma_answered_step(k0, k1, *kb, set_mode_packet(w), set);
            }
            set?;
            proof {
                assert(command_write(*cmd, None)(mode_of(new_reply(k0, k1)->0)) == w);
                lemma_read_then_set(k0, k1, *kb, command_write(*cmd, None));
            }
            Ok(())
        },
    }
}

/// What applying a command writes, byte by byte. An OFF command writes one
/// SET_MODE report with the OFF effect and zero speed, H, S and V. A
/// command with a colour writes one SET_MODE report with speed 0, the H and
/// S of the colour's HSV, and the command's brightness as V, else the
/// colour's V. A command without a colour reads the mode, then writes a
/// SET_MODE report with speed 0 that keeps the H and S the keyboard reported
/// (bytes 5 and 6 of its reply), with the command's brightness as V, else
/// the reported V. Without an effect name the effect is SOLID_COLOR.
pub proof fn law_apply_writes(old: Keyboard, new: Keyboard, c: HaLightCommand, color_hsv: Option<(u8, u8, u8)>)
    requires
        applied(old, new, c, color_hsv),
    ensures
        is_off_command(c) ==> new.written@.len() == old.written@.len() + 1 && read_le16(
            new.written@.last(),
            3,
        ) == EFFECT_OFF && new.written@.last()[5] == 0 && new.written@.last()[6] == 0
            && new.written@.last()[7] == 0 && new.written@.last()[8] == 0,
        color_hsv matches Some((ch, cs, cv)) ==> !is_off_command(c) ==> new.written@.len()
            == old.written@.len() + 1 && new.written@.last()[5] == 0 && new.written@.last()[6] == ch
            && new.written@.last()[7] == cs && new.written@.last()[8] == (match c.brightness {
            Some(b) => b,
            None => cv,
        }),
        !is_off_command(c) && color_hsv is None ==> new.written@.len() == old.written@.len() + 2
            && new.written@.last()[5] == 0 && new.written@.last()[6] == new.replies@[old.replies@.len() as int][5]
            && new.written@.last()[7] == new.replies@[old.replies@.len() as int][6]
            && new.written@.last()[8] == (match c.brightness {
            Some(b) => b,
            None => new.replies@[old.replies@.len() as int][7],
        }),
        !is_off_command(c) && c.effect is None ==> read_le16(new.written@.last(), 3) == EFFECT_SOLID_COLOR,
        !is_off_command(c) ==> (c.effect matches Some(name) ==> read_le16(new.written@.last(), 3) == (
        match effect_id_for_token(name_token(name@)) {
            Some(id) => id,
            None => EFFECT_SOLID_COLOR,
        })),
        !is_off_command(c) && color_hsv is None ==> new.written@[old.written@.len() as int][1]
            == ID_LIGHTING_GET_VALUE && new.written@[old.written@.len() as int][2] == VIALRGB_GET_MODE,
{
    if is_off_command(c) {
        law_set_mode_report_layout(Mode { mode: EFFECT_OFF, speed: 0, h: 0, s: 0, v: 0 });
    } else if color_hsv is Some {
        law_set_mode_report_layout(on_write(c, color_hsv, Mode { mode: 0, speed: 0, h: 0, s: 0, v: 0 }));
    } else {
        let rep = new.replies@[old.replies@.len() as int];
        law_set_mode_report_layout(command_write(c, None)(mode_of(rep)));
        assert(new.written@.last() == frame_of(set_mode_packet(command_write(c, None)(mode_of(rep)))));
        assert(new.written@[old.written@.len() as int] == frame_of(
            packet(ID_LIGHTING_GET_VALUE, VIALRGB_GET_MODE, Seq::empty()),
        ));
    }
}

/// Applies a command to the keyboard: opens it, then `apply_command`.
pub fn apply_once(
    api: &HidApi,
    vid: u16,
    pid: u16,
    serial: Option<&str>,
    cmd: &HaLightCommand,
    color_hsv: Option<(u8, u8, u8)>,
) -> (r: Result<(), KeyboardError>)
    requires
        color_hsv is Some <==> cmd.color is Some,
    ensures
        opened_outcome(*api, vid, pid, serial_view(serial), false, r),
        r is Ok ==> exists|k0: Keyboard, k1: Keyboard|
            freshly_selected(k0, *api, vid, pid, serial_view(serial)) && #[trigger] applied(
                k0,
                k1,
                *cmd,
                color_hsv,
            ),
        r matches Err(KeyboardError::NoDevice { vid: v, pid: p }) ==> v == vid && p == pid,
{
    let mut kb = open_device(api, vid, pid, serial)?;
    let ghost k0 = kb;
    apply_command(&mut kb, cmd, color_hsv)?;
    proof {
        assert(applied(k0, kb, *cmd, color_hsv));
    }
    Ok(())
}

/// Reads the keyboard's effect speed.
pub fn get_speed_once(api: &HidApi, vid: u16, pid: u16, serial: Option<&str>) -> (r: Result<u8, KeyboardError>)
    ensures
        opened_outcome(*api, vid, pid, serial_view(serial), false, r),
        r matches Ok(sp) ==> exists|k0: Keyboard, k1: Keyboard|
            freshly_selected(k0, *api, vid, pid, serial_view(serial)) && #[trigger] echoed_exchange(
                k0,
                k1,
                packet(ID_LIGHTING_GET_VALUE, VIALRGB_GET_MODE, Seq::empty()),
                ID_LIGHTING_GET_VALUE,
                VIALRGB_GET_MODE,
            ) && sp == mode_of(new_reply(k0, k1)->0).speed,
        r matches Err(KeyboardError::NoDevice { vid: v, pid: p }) ==> v == vid && p == pid,
{
    let mut kb = open_device(api, vid, pid, serial)?;
    let ghost k0 = kb;
    let m = get_mode(&mut kb)?;
    proof {
        assert(echoed_exchange(
            k0,
            kb,
            packet(ID_LIGHTING_GET_VALUE, VIALRGB_GET_MODE, Seq::empty()),
            ID_LIGHTING_GET_VALUE,
            VIALRGB_GET_MODE,
        ));
    }
    Ok(m.speed)
}

/// The mode `m` with its speed replaced.
pub open spec fn with_speed(speed: u8) -> spec_fn(Mode) -> Mode {
    |m: Mode| Mode { mode: m.mode, speed, h: m.h, s: m.s, v: m.v }
}

/// Sets the effect speed of an open keyboard, keeping its effect and HSV:
/// the mode is read and written back with the new speed.
pub fn set_speed(kb: &mut Keyboard, speed: u8) -> (r: Result<(), KeyboardError>)
    ensures
        r is Ok ==> read_then_set(*old(kb), *final(kb), with_speed(speed)),
        r is Ok <==> all_echoed(*old(kb), *final(kb)),
        r matches Err(e) ==> transport_error(e),
{
    let ghost k0 = *kb;
    let got = get_mode(kb);
    proof {
        lemma_answered_step(k0, k0, *kb, packet(ID_LIGHTING_GET_VALUE, VIALRGB_GET_MODE, Seq::empty()), got);
    }
    let cur = got?;
    let ghost k1 = *kb;
    let set = set_mode(kb, cur.mode, speed, cur.h, cur.s, cur.v);
    proof {
        lemma_answered_step(k0, k1, *kb, set_mode_packet(Mode { mode: cur.mode, speed, h: cur.h, s: cur.s, v: cur.v }), set);
    }
    set?;
    proof {
        lemma_read_then_set(k0, k1, *kb, with_speed(speed));
    }
    Ok(())
}

/// Sets the keyboard's effect speed: opens it, then `set_speed`.
pub fn set_speed_once(api: &HidApi, vid: u16, pid: u16, serial: Option<&str>, speed: u8) -> (r: Result<(), KeyboardError>)
    ensures
        opened_outcome(*api, vid, pid, serial_view(serial), false, r),
        r is Ok ==> exists|k0: Keyboard, k1: Keyboard|
            freshly_selected(k0, *api, vid, pid, serial_view(serial)) && #[trigger] read_then_set(
                k0,
                k1,
                with_speed(speed),
            ),
        r matches Err(KeyboardError::NoDevice { vid: v, pid: p }) ==> v == vid && p == pid,
{
    let mut kb = open_device(api, vid, pid, serial)?;
    let ghost k0 = kb;
    set_speed(&mut kb, speed)?;
    proof {
        assert(read_then_set(k0, kb, with_speed(speed)));
    }
    Ok(())
}

// ── HID worker replies ──────────────────────────────────────────────────────

/// What the HID worker answers a request with.
pub enum HidReply {
    Availability(bool),
    State(Option<HaLightState>),
    SupportedEffects(Option<Vec<u16>>),
    Speed(Option<u8>),
}

/// A probe or apply: success is online, an error that means offline (`means_offline`) is offline, any other
/// error stays an error.
pub fn availability_reply(r: Result<(), KeyboardError>) -> (out: Result<HidReply, KeyboardError>)
    ensures
        r is Ok ==> (out matches Ok(HidReply::Availability(b)) && b),
        r matches Err(e) ==> (means_offline(e) ==> (out matches Ok(HidReply::Availability(b)) && !b)),
        r matches Err(e) ==> (!means_offline(e) ==> out == Err::<HidReply, KeyboardError>(e)),
{
    match r {
        Ok(()) => Ok(HidReply::Availability(true)),
        Err(e) => if e.is_offline() {
            Ok(HidReply::Availability(false))
        } else {
            Err(e)
        },
    }
}

/// A state read: an error that means offline is no state, any other error stays an error.
pub fn state_reply(r: Result<HaLightState, KeyboardError>) -> (out: Result<HidReply, KeyboardError>)
    ensures
        r matches Ok(st) ==> (out matches Ok(HidReply::State(Some(s))) && state_view(s) == state_view(st)),
        r matches Err(e) ==> (means_offline(e) ==> out matches Ok(HidReply::State(None))),
        r matches Err(e) ==> (!means_offline(e) ==> out == Err::<HidReply, KeyboardError>(e)),
{
    match r {
        Ok(st) => Ok(HidReply::State(Some(st))),
        Err(e) => if e.is_offline() {
            Ok(HidReply::State(None))
        } else {
            Err(e)
        },
    }
}

/// An effects listing: an error that means offline is no list, any other error stays an error.
pub fn effects_reply(r: Result<Vec<u16>, KeyboardError>) -> (out: Result<HidReply, KeyboardError>)
    ensures
        r matches Ok(ids) ==> (out matches Ok(HidReply::SupportedEffects(Some(v))) && v@ == ids@),
        r matches Err(e) ==> (means_offline(e) ==> out matches Ok(HidReply::SupportedEffects(None))),
        r matches Err(e) ==> (!means_offline(e) ==> out == Err::<HidReply, KeyboardError>(e)),
{
    match r {
        Ok(ids) => Ok(HidReply::SupportedEffects(Some(ids))),
        Err(e) => if e.is_offline() {
            Ok(HidReply::SupportedEffects(None))
        } else {
            Err(e)
        },
    }
}

/// An effect-speed read: an error that means offline is no speed, any other error stays an
/// error.
pub fn speed_reply(r: Result<u8, KeyboardError>) -> (out: Result<HidReply, KeyboardError>)
    ensures
        r matches Ok(v) ==> (out matches Ok(HidReply::Speed(Some(x))) && x == v),
        r matches Err(e) ==> (means_offline(e) ==> out matches Ok(HidReply::Speed(None))),
        r matches Err(e) ==> (!means_offline(e) ==> out == Err::<HidReply, KeyboardError>(e)),
{
    match r {
        Ok(v) => Ok(HidReply::Speed(Some(v))),
        Err(e) => if e.is_offline() {
            Ok(HidReply::Speed(None))
        } else {
            Err(e)
        },
    }
}

// ── Agent decisions ─────────────────────────────────────────────────────────

/// How applying a command to the keyboard went.
#[derive(Debug, Clone, Copy, PartialEq, Eq, Structural)]
pub enum ApplyOutcome {
    /// The keyboard took the command.
    Applied,
    /// The keyboard is not connected.
    Offline,
    /// The HID layer failed.
    Failed,
}

/// What the agent publishes after an event.
pub struct Publications {
    /// New availability to publish, if any.
    pub availability: Option<bool>,
    /// State to publish, if any.
    pub state: Option<HaLightState>,
    /// Effect speed to publish, if any.
    pub speed: Option<u8>,
    /// Whether the keyboard's current state and effect speed must be read
    /// next (and then handed to `on_fetched_state` and `on_fetched_speed`).
    pub fetch_state: bool,
}

/// What the agent remembers between events.
pub struct AgentState {
    /// Whether the keyboard was last seen online.
    pub kb_online: bool,
    /// The last "ON" settings.
    pub saved_on: SavedOn,
    /// The state last published by the periodic sync, to publish only
    /// changes.
    pub last_published: Option<HaLightState>,
    /// The effect speed last published, to publish only changes.
    pub last_speed: Option<u8>,
}

/// The last published state, as plain values.
pub open spec fn last_view(a: AgentState) -> Option<StateView> {
    match a.last_published {
        Some(st) => Some(state_view(st)),
        None => None,
    }
}

/// The OFF state as plain values.
pub open spec fn off_view() -> StateView {
    ("OFF"@, None, None, None, None)
}

/// A state view, as compared and published.
pub type StateView = (Seq<char>, Option<u8>, Option<Seq<char>>, Option<HaRgb>, Option<Seq<char>>);

/// Whether the sync publishes `st` after `last` was published.
pub open spec fn sync_publishes(last: Option<StateView>, st: StateView) -> bool {
    last != Some(st)
}

/// The availability a probe publishes.
pub open spec fn probe_availability(was_online: bool, online_now: bool) -> Option<bool> {
    if online_now != was_online {
        Some(online_now)
    } else {
        None
    }
}

/// The last published state after a probe: OFF when the keyboard just went
/// offline, else unchanged.
pub open spec fn probe_last(last: Option<StateView>, was_online: bool, online_now: bool) -> Option<StateView> {
    if was_online && !online_now {
        Some(off_view())
    } else {
        last
    }
}

/// Whether a probe publishes OFF.
pub open spec fn probe_publishes_off(last: Option<StateView>, was_online: bool, online_now: bool) -> bool {
    was_online && !online_now && last != Some(off_view())
}

/// Reading the same keyboard state twice in a row publishes it at most
/// once: after a state is published (or found unchanged) it is the last
/// published state, and the same reading then publishes nothing.
pub proof fn law_sync_publishes_changes_only(st: StateView)
    ensures
        !sync_publishes(Some(st), st),
{
}

/// Repeating a probe result publishes nothing more: neither availability
/// nor a state.
pub proof fn law_probe_idempotent(last: Option<StateView>, was_online: bool, online_now: bool)
    ensures
        probe_availability(online_now, online_now) is None,
        !probe_publishes_off(probe_last(last, was_online, online_now), online_now, online_now),
        probe_last(probe_last(last, was_online, online_now), online_now, online_now) == probe_last(
            last,
            was_online,
            online_now,
        ),
{
}

impl AgentState {
    /// The state at start-up, given whether the keyboard answered the probe
    /// and, when online, the state read from it. Returns the state to publish
    /// first: the keyboard's state when known, else OFF (so that Home
    /// Assistant never shows "unknown").
    pub fn start(kb_online: bool, fetched: Option<HaLightState>) -> (r: (AgentState, HaLightState))
        ensures
            r.0.kb_online == kb_online,
            r.0.last_speed is None,
            last_view(r.0) == Some(state_view(r.1)),
            kb_online && fetched is Some ==> state_view(r.1) == state_view(fetched->0),
            !(kb_online && fetched is Some) ==> state_view(r.1) == off_view(),
    {
        let mut saved_on = SavedOn::initial();
        let st = match fetched {
            Some(st) if kb_online => {
                update_saved_on_from_state(&mut saved_on, &st);
                st
            },
            _ => HaLightState::off(),
        };
        let published = clone_state(&st);
        (AgentState { kb_online, saved_on, last_published: Some(st), last_speed: None }, published)
    }

    /// Records `st` as published unless it equals the last published state;
    /// returns it when it is to be published.
    fn publish_if_changed(&mut self, st: HaLightState) -> (r: Option<HaLightState>)
        ensures
            last_view(*final(self)) == Some(state_view(st)),
            r is None <==> last_view(*old(self)) == Some(state_view(st)),
            r matches Some(p) ==> state_view(p) == state_view(st),
            final(self).kb_online == old(self).kb_online,
            final(self).saved_on == old(self).saved_on,
            final(self).last_speed == old(self).last_speed,
    {
        let unchanged = match &self.last_published {
            Some(last) => same_state(last, &st),
            None => false,
        };
        if unchanged {
            None
        } else {
            let out = clone_state(&st);
            self.last_published = Some(st);
            Some(out)
        }
    }

    /// Periodic probe result. A change of availability is published; going
    /// offline publishes OFF if that is new; whenever the keyboard is online
    /// its state is to be read next.
    pub fn on_probe(&mut self, online_now: bool) -> (r: Publications)
        ensures
            final(self).kb_online == online_now,
            r.availability == probe_availability(old(self).kb_online, online_now),
            last_view(*final(self)) == probe_last(last_view(*old(self)), old(self).kb_online, online_now),
            r.state is Some <==> probe_publishes_off(last_view(*old(self)), old(self).kb_online, online_now),
            r.fetch_state == online_now,
            r.speed is None,
            final(self).last_speed == old(self).last_speed,
            online_now ==> r.state is None && last_view(*final(self)) == last_view(*old(self)),
            !online_now && old(self).kb_online ==> last_view(*final(self)) == Some(off_view())
                && (r.state is None <==> last_view(*old(self)) == Some(off_view()))
                && (r.state matches Some(s) ==> state_view(s) == off_view()),
            !online_now && !old(self).kb_online ==> r.state is None && last_view(*final(self))
                == last_view(*old(self)),
            final(self).saved_on == old(self).saved_on,
    {
        if online_now != self.kb_online {
            self.kb_online = online_now;
            if online_now {
                Publications { availability: Some(true), state: None, speed: None, fetch_state: true }
            } else {
                let state = self.publish_if_changed(HaLightState::off());
                Publications { availability: Some(false), state, speed: None, fetch_state: false }
            }
        } else {
            Publications { availability: None, state: None, speed: None, fetch_state: online_now }
        }
    }

    /// The keyboard's state, read after a probe found it online: its ON
    /// settings are remembered, and it is published if it differs from the
    /// last published state.
    pub fn on_fetched_state(&mut self, st: HaLightState) -> (r: Option<HaLightState>)
        ensures
            last_view(*final(self)) == Some(state_view(st)),
            r is Some <==> sync_publishes(last_view(*old(self)), state_view(st)),
            r matches Some(p) ==> state_view(p) == state_view(st),
            final(self).kb_online == old(self).kb_online,
            final(self).last_speed == old(self).last_speed,
    {
        update_saved_on_from_state(&mut self.saved_on, &st);
        self.publish_if_changed(st)
    }

    /// The command to apply for a received command (see `prepared`).
    pub fn prepare(&self, cmd: HaLightCommand) -> (r: HaLightCommand)
        ensures
            command_view(r) == prepared(cmd, self.saved_on),
    {
        prepare_command(cmd, &self.saved_on)
    }

    /// Outcome of applying `cmd` (already prepared). Applied marks the
    /// keyboard online (publishing availability if that is new) and
    /// publishes OFF for an OFF command, or remembers the command's settings
    /// and echoes them for an ON command. Offline marks the keyboard offline
    /// (publishing availability if that is new). Failure changes nothing.
    pub fn on_command_applied(&mut self, cmd: &HaLightCommand, outcome: ApplyOutcome) -> (r: Publications)
        ensures
            r.fetch_state == false,
            r.speed is None,
            final(self).last_speed == old(self).last_speed,
            outcome == ApplyOutcome::Failed ==> r.availability is None && r.state is None
                && final(self).kb_online == old(self).kb_online,
            outcome == ApplyOutcome::Offline ==> final(self).kb_online == false && r.state is None
                && r.availability == (if old(self).kb_online {
                Some(false)
            } else {
                None::<bool>
            }),
            outcome == ApplyOutcome::Applied ==> final(self).kb_online && r.availability == (if old(
                self,
            ).kb_online {
                None::<bool>
            } else {
                Some(true)
            }),
            outcome == ApplyOutcome::Applied && is_off_command(*cmd) ==> (r.state matches Some(s)
                && state_view(s) == off_view()),
            (outcome != ApplyOutcome::Applied || is_off_command(*cmd)) ==> final(self).saved_on
                == old(self).saved_on,
            outcome == ApplyOutcome::Applied && !is_off_command(*cmd) ==> (r.state matches Some(s)
                && state_view(s) == echoed_state(*cmd)),
            outcome == ApplyOutcome::Applied && !is_off_command(*cmd) ==> {
                &&& final(self).saved_on.brightness == match cmd.brightness {
                    Some(b) => b,
                    None => old(self).saved_on.brightness,
                }
                &&& final(self).saved_on.color == match cmd.color {
                    Some(c) => c,
                    None => old(self).saved_on.color,
                }
                &&& opt_view(final(self).saved_on.effect) == match cmd.effect {
                    Some(e) => Some(e@),
                    None => opt_view(old(self).saved_on.effect),
                }
            },
            last_view(*final(self)) == last_view(*old(self)),
    {
        match outcome {
            ApplyOutcome::Failed => Publications { availability: None, state: None, speed: None, fetch_state: false },
            ApplyOutcome::Offline => {
                let availability = if self.kb_online {
                    Some(false)
                } else {
                    None
                };
                self.kb_online = false;
                Publications { availability, state: None, speed: None, fetch_state: false }
            },
            ApplyOutcome::Applied => {
                let availability = if self.kb_online {
                    None
                } else {
                    Some(true)
                };
                self.kb_online = true;
                if command_is_off(cmd) {
                    return Publications { availability, state: Some(HaLightState::off()), speed: None, fetch_state: false };
                }
                if let Some(b) = cmd.brightness {
                    self.saved_on.brightness = b;
                }
                if let Some(c) = cmd.color {
                    self.saved_on.color = c;
                }
                if let Some(eff) = &cmd.effect {
                    self.saved_on.effect = Some(eff.clone());
                }
                let st = HaLightState {
                    state: "ON".to_owned(),
                    brightness: cmd.brightness,
                    color_mode: Some("rgb".to_owned()),
                    color: cmd.color,
                    effect: clone_opt_string(&cmd.effect),
                };
                Publications { availability, state: Some(st), speed: None, fetch_state: false }
            },
        }
    }

    /// After Home Assistant's birth message: the probe result replaces the
    /// availability, which is always republished, and the keyboard's state
    /// is to be read when online.
    pub fn on_ha_birth_probe(&mut self, online_now: bool) -> (r: Publications)
        ensures
            final(self).kb_online == online_now,
            r.availability == Some(online_now),
            r.state is None,
            r.speed is None,
            final(self).last_speed == old(self).last_speed,
            r.fetch_state == online_now,
            last_view(*final(self)) == last_view(*old(self)),
            final(self).saved_on == old(self).saved_on,
    {
        self.kb_online = online_now;
        Publications { availability: Some(online_now), state: None, speed: None, fetch_state: online_now }
    }

    /// The state read after Home Assistant's birth message: its ON settings
    /// are remembered and it is republished as is.
    pub fn on_ha_birth_state(&mut self, st: HaLightState) -> (r: HaLightState)
        ensures
            state_view(r) == state_view(st),
            remembers(old(self).saved_on, final(self).saved_on, st),
            final(self).kb_online == old(self).kb_online,
            last_view(*final(self)) == last_view(*old(self)),
            final(self).last_speed == old(self).last_speed,
    {
        update_saved_on_from_state(&mut self.saved_on, &st);
        st
    }

    /// The keyboard's effect speed, read after a probe found it online: it
    /// is published if it differs from the last published speed.
    pub fn on_fetched_speed(&mut self, speed: u8) -> (r: Option<u8>)
        ensures
            final(self).last_speed == Some(speed),
            r is Some <==> old(self).last_speed != Some(speed),
            r matches Some(x) ==> x == speed,
            final(self).kb_online == old(self).kb_online,
            last_view(*final(self)) == last_view(*old(self)),
            final(self).saved_on == old(self).saved_on,
    {
        let changed = match self.last_speed {
            Some(last) => last != speed,
            None => true,
        };
        self.last_speed = Some(speed);
        if changed {
            Some(speed)
        } else {
            None
        }
    }

    /// Outcome of writing the effect speed requested on the speed command
    /// topic. Availability changes as for a light command; once applied,
    /// the speed is echoed and remembered.
    pub fn on_speed_applied(&mut self, speed: u8, outcome: ApplyOutcome) -> (r: Publications)
        ensures
            r.fetch_state == false,
            r.state is None,
            outcome == ApplyOutcome::Failed ==> r.availability is None && r.speed is None
                && final(self).kb_online == old(self).kb_online
                && final(self).last_speed == old(self).last_speed,
            outcome == ApplyOutcome::Offline ==> final(self).kb_online == false && r.speed is None
                && final(self).last_speed == old(self).last_speed
                && r.availability == (if old(self).kb_online {
                Some(false)
            } else {
                None::<bool>
            }),
            outcome == ApplyOutcome::Applied ==> final(self).kb_online && r.speed == Some(speed)
                && final(self).last_speed == Some(speed) && r.availability == (if old(
                self,
            ).kb_online {
                None::<bool>
            } else {
                Some(true)
            }),
            last_view(*final(self)) == last_view(*old(self)),
            final(self).saved_on == old(self).saved_on,
    {
        match outcome {
            ApplyOutcome::Failed => Publications { availability: None, state: None, speed: None, fetch_state: false },
            ApplyOutcome::Offline => {
                let availability = if self.kb_online {
                    Some(false)
                } else {
                    None
                };
                self.kb_online = false;
                Publications { availability, state: None, speed: None, fetch_state: false }
            },
            ApplyOutcome::Applied => {
                let availability = if self.kb_online {
                    None
                } else {
                    Some(true)
                };
                self.kb_online = true;
                self.last_speed = Some(speed);
                Publications { availability, state: None, speed: Some(speed), fetch_state: false }
            },
        }
    }

    /// The effect speed read after Home Assistant's birth message: it is
    /// remembered and republished as is.
    pub fn on_ha_birth_speed(&mut self, speed: u8) -> (r: u8)
        ensures
            r == speed,
            final(self).last_speed == Some(speed),
            final(self).kb_online == old(self).kb_online,
            last_view(*final(self)) == last_view(*old(self)),
            final(self).saved_on == old(self).saved_on,
    {
        self.last_speed = Some(speed);
        speed
    }
}

/// Home Assistant's status payload announces its (re)start, and the
/// configuration asks to republish then.
pub fn is_ha_birth(payload: &str, republish_on_ha_birth: bool) -> (r: bool)
    ensures
        r == (republish_on_ha_birth && trim(payload@) == "online"@),
{
    let p = chars_of(payload);
    let t = trim_chars(&p);
    republish_on_ha_birth && eq_lit(&t, "online")
}

/// The availability payload.
pub fn availability_payload(online: bool) -> (r: &'static str)
    ensures
        r@ == (if online {
            "online"@
        } else {
            "offline"@
        }),
{
    if online {
        "online"
    } else {
        "offline"
    }
}

/// The speed a speed command asks for: its text, without surrounding
/// whitespace, is a decimal number from 0 to 255.
pub open spec fn speed_command_value(payload: Seq<char>) -> Option<u8> {
    match parse_u16_spec(trim(payload), 10) {
        Some(v) => if v <= 255 {
            Some(v as u8)
        } else {
            None
        },
        None => None,
    }
}

/// The speed a command on the speed command topic asks for, if it is one.
pub fn parse_speed_command(payload: &str) -> (r: Option<u8>)
    ensures
        r == speed_command_value(payload@),
{
    let t = trim_chars(&chars_of(payload));
    match parse_u16_radix(&t, 10) {
        Some(v) => if v <= 255 {
            Some(v as u8)
        } else {
            None
        },
        None => None,
    }
}

/// The speed state payload: the speed in decimal.
pub fn speed_payload(speed: u8) -> (r: String)
    ensures
        r@ == decimal(speed as nat),
{
    let mut out: Vec<char> = Vec::new();
    push_decimal(&mut out, speed as u32);
    string_from_chars(&out)
}

// ── Topics ──────────────────────────────────────────────────────────────────

/// The MQTT topics of the light.
pub struct Topics {
    pub discovery_topic: String,
    pub command_topic: String,
    pub state_topic: String,
    pub availability_topic: String,
    pub ha_status_topic: String,
    /// Discovery of the effect-speed number entity.
    pub speed_discovery_topic: String,
    pub speed_command_topic: String,
    pub speed_state_topic: String,
}

/// `<prefix>/light/<object_id>/config`, the prefix without trailing slashes.
pub open spec fn discovery_topic_of(cfg: AppConfig) -> Seq<char> {
    strip_all_suffix_char(cfg.ha.discovery_prefix@, '/') + "/light/"@ + cfg.ha.object_id@
        + "/config"@
}

/// `<prefix>/number/<object_id>_effect_speed/config`, the prefix without
/// trailing slashes.
pub open spec fn speed_discovery_topic_of(cfg: AppConfig) -> Seq<char> {
    strip_all_suffix_char(cfg.ha.discovery_prefix@, '/') + "/number/"@ + cfg.ha.object_id@
        + "_effect_speed/config"@
}

/// The base topic without trailing slashes, followed by `suffix`.
pub open spec fn base_topic_with(cfg: AppConfig, suffix: Seq<char>) -> Seq<char> {
    strip_all_suffix_char(cfg.ha.base_topic@, '/') + suffix
}

/// The availability topic belongs to the device rather than to the light:
/// the base topic (without trailing slashes) loses its last level, then
/// `/availability` follows; a base topic of one level keeps it.
pub open spec fn availability_topic_of(cfg: AppConfig) -> Seq<char> {
    let b = strip_all_suffix_char(cfg.ha.base_topic@, '/');
    match last_index_of_char(b, '/') {
        Some(i) => b.take(i) + "/availability"@,
        None => b + "/availability"@,
    }
}

impl Topics {
    /// The topics for a configuration: discovery under the discovery prefix;
    /// `/set` and `/state` under the base topic; `/availability` one level
    /// above it (see `availability_topic_of`); Home Assistant's status on
    /// `homeassistant/status`.
    pub fn from_cfg(cfg: &AppConfig) -> (r: Self)
        ensures
            r.discovery_topic@ == discovery_topic_of(*cfg),
            r.command_topic@ == base_topic_with(*cfg, "/set"@),
            r.state_topic@ == base_topic_with(*cfg, "/state"@),
            r.availability_topic@ == availability_topic_of(*cfg),
            r.ha_status_topic@ == "homeassistant/status"@,
            r.speed_discovery_topic@ == speed_discovery_topic_of(*cfg),
            r.speed_command_topic@ == base_topic_with(*cfg, "/effect_speed/set"@),
            r.speed_state_topic@ == base_topic_with(*cfg, "/effect_speed/state"@),
    {
        let prefix = chars_of(cfg.ha.discovery_prefix.as_str());
        let prefix = strip_all_suffix_char_chars(&prefix, '/');
        let mut d: Vec<char> = Vec::new();
        push_all(&mut d, &prefix);
        push_str(&mut d, "/light/");
        push_str(&mut d, cfg.ha.object_id.as_str());
        push_str(&mut d, "/config");
        let mut sd: Vec<char> = Vec::new();
        push_all(&mut sd, &prefix);
        push_str(&mut sd, "/number/");
        push_str(&mut sd, cfg.ha.object_id.as_str());
        push_str(&mut sd, "_effect_speed/config");
        let base = chars_of(cfg.ha.base_topic.as_str());
        let base = strip_all_suffix_char_chars(&base, '/');
        let mut c: Vec<char> = Vec::new();
        push_all(&mut c, &base);
        push_str(&mut c, "/set");
        let mut s: Vec<char> = Vec::new();
        push_all(&mut s, &base);
        push_str(&mut s, "/state");
        let mut a: Vec<char> = match last_index_of_char_exec(&base, '/') {
            Some(i) => sub_vec(&base, 0, i),
            None => base.clone(),
        };
        push_str(&mut a, "/availability");
        let mut ss: Vec<char> = Vec::new();
        push_all(&mut ss, &base);
        push_str(&mut ss, "/effect_speed/set");
        let mut st: Vec<char> = Vec::new();
        push_all(&mut st, &base);
        push_str(&mut st, "/effect_speed/state");
        Topics {
            discovery_topic: string_from_chars(&d),
            command_topic: string_from_chars(&c),
            state_topic: string_from_chars(&s),
            availability_topic: string_from_chars(&a),
            ha_status_topic: "homeassistant/status".to_owned(),
            speed_discovery_topic: string_from_chars(&sd),
            speed_command_topic: string_from_chars(&ss),
            speed_state_topic: string_from_chars(&st),
        }
    }
}

// ── Discovery payload ───────────────────────────────────────────────────────

/// The device block of the discovery payload.
pub struct DiscoveryDevice {
    pub identifiers: Vec<String>,
    pub name: String,
    pub manufacturer: String,
    pub model: String,
    pub sw_version: String,
}

/// The origin block of the discovery payload.
pub struct DiscoveryOrigin {
    pub name: String,
    pub sw_version: String,
}

/// The Home Assistant discovery payload (MQTT Light, JSON schema), field by
/// field in the order it is serialised.
pub struct DiscoveryPayload {
    pub name: String,
    pub unique_id: String,
    pub schema: String,
    pub command_topic: String,
    pub state_topic: String,
    pub availability_topic: String,
    pub payload_available: String,
    pub payload_not_available: String,
    pub brightness: bool,
    pub supported_color_modes: Vec<String>,
    pub effect: Option<bool>,
    pub effect_list: Option<Vec<String>>,
    pub device: DiscoveryDevice,
    pub origin: DiscoveryOrigin,
}

/// The effect list is offered only when the catalogue names at least one
/// effect.
pub open spec fn effects_offered(effects: Option<&EffectCatalog>) -> bool {
    effects matches Some(e) && e.ha_names@.len() > 0
}

/// Copies a list of strings.
fn clone_strings(v: &Vec<String>) -> (r: Vec<String>)
    ensures
        names_view(r@) == names_view(v@),
{
    let mut r: Vec<String> = Vec::new();
    let mut i: usize = 0;
    while i < v.len()
        invariant
            i <= v@.len(),
            r@.len() == i,
            forall|k: int| 0 <= k < i ==> (#[trigger] r@[k])@ == v@[k]@,
        decreases v@.len() - i,
    {
        let c = v[i].clone();
        r.push(c);
        i += 1;
    }
    assert(names_view(r@) =~= names_view(v@));
    r
}

/// Builds the discovery payload for the configuration, its topics and the
/// keyboard's effects; `sw_version` is this program's version.
pub fn build_discovery_payload(
    cfg: &AppConfig,
    topics: &Topics,
    effects: Option<&EffectCatalog>,
    sw_version: &str,
) -> (r: DiscoveryPayload)
    ensures
        r.name@ == cfg.ha.name@,
        r.unique_id@ == cfg.ha.unique_id@,
        r.schema@ == "json"@,
        r.command_topic@ == topics.command_topic@,
        r.state_topic@ == topics.state_topic@,
        r.availability_topic@ == topics.availability_topic@,
        r.payload_available@ == "online"@,
        r.payload_not_available@ == "offline"@,
        r.brightness,
        names_view(r.supported_color_modes@) == seq!["rgb"@],
        r.effect == (if effects_offered(effects) {
            Some(true)
        } else {
            None::<bool>
        }),
        effects_offered(effects) <==> r.effect_list is Some,
        r.effect_list matches Some(l) ==> names_view(l@) == names_view(effects->0.ha_names@),
        names_view(r.device.identifiers@) == seq![cfg.ha.unique_id@],
        r.device.name@ == cfg.ha.name@,
        r.device.manufacturer@ == "QMK/Vial"@,
        r.device.model@ == "VialRGB keyboard"@,
        r.device.sw_version@ == sw_version@,
        r.origin.name@ == "MARCOntroller"@,
        r.origin.sw_version@ == sw_version@,
{
    let (effect, effect_list) = match effects {
        Some(e) => if e.ha_names.len() > 0 {
            (Some(true), Some(clone_strings(&e.ha_names)))
        } else {
            (None, None)
        },
        None => (None, None),
    };
    let mut modes: Vec<String> = Vec::new();
    modes.push("rgb".to_owned());
    assert(names_view(modes@) =~= seq!["rgb"@]);
    let mut ids: Vec<String> = Vec::new();
    ids.push(cfg.ha.unique_id.clone());
    assert(names_view(ids@) =~= seq![cfg.ha.unique_id@]);
    DiscoveryPayload {
        name: cfg.ha.name.clone(),
        unique_id: cfg.ha.unique_id.clone(),
        schema: "json".to_owned(),
        command_topic: topics.command_topic.clone(),
        state_topic: topics.state_topic.clone(),
        availability_topic: topics.availability_topic.clone(),
        payload_available: "online".to_owned(),
        payload_not_available: "offline".to_owned(),
        brightness: true,
        supported_color_modes: modes,
        effect,
        effect_list,
        device: DiscoveryDevice {
            identifiers: ids,
            name: cfg.ha.name.clone(),
            manufacturer: "QMK/Vial".to_owned(),
            model: "VialRGB keyboard".to_owned(),
            sw_version: sw_version.to_owned(),
        },
        origin: DiscoveryOrigin { name: "MARCOntroller".to_owned(), sw_version: sw_version.to_owned() },
    }
}

/// The Home Assistant discovery payload of the effect-speed number entity,
/// field by field in the order it is serialised.
pub struct SpeedDiscoveryPayload {
    pub name: String,
    pub unique_id: String,
    pub command_topic: String,
    pub state_topic: String,
    pub availability_topic: String,
    pub payload_available: String,
    pub payload_not_available: String,
    pub min: u8,
    pub max: u8,
    pub step: u8,
    pub device: DiscoveryDevice,
    pub origin: DiscoveryOrigin,
}

/// Builds the discovery payload of the effect-speed number entity: a
/// 0–255 slider on the speed topics, with the light's availability and
/// device, so that Home Assistant shows it beside the light.
pub fn build_speed_discovery_payload(cfg: &AppConfig, topics: &Topics, sw_version: &str) -> (r: SpeedDiscoveryPayload)
    ensures
        r.name@ == "Effect speed"@,
        r.unique_id@ == cfg.ha.unique_id@ + "_effect_speed"@,
        r.command_topic@ == topics.speed_command_topic@,
        r.state_topic@ == topics.speed_state_topic@,
        r.availability_topic@ == topics.availability_topic@,
        r.payload_available@ == "online"@,
        r.payload_not_available@ == "offline"@,
        r.min == 0 && r.max == 255 && r.step == 1,
        names_view(r.device.identifiers@) == seq![cfg.ha.unique_id@],
        r.device.name@ == cfg.ha.name@,
        r.device.manufacturer@ == "QMK/Vial"@,
        r.device.model@ == "VialRGB keyboard"@,
        r.device.sw_version@ == sw_version@,
        r.origin.name@ == "MARCOntroller"@,
        r.origin.sw_version@ == sw_version@,
{
    let mut uid: Vec<char> = Vec::new();
    push_str(&mut uid, cfg.ha.unique_id.as_str());
    push_str(&mut uid, "_effect_speed");
    let mut ids: Vec<String> = Vec::new();
    ids.push(cfg.ha.unique_id.clone());
    assert(names_view(ids@) =~= seq![cfg.ha.unique_id@]);
    SpeedDiscoveryPayload {
        name: "Effect speed".to_owned(),
        unique_id: string_from_chars(&uid),
        command_topic: topics.speed_command_topic.clone(),
        state_topic: topics.speed_state_topic.clone(),
        availability_topic: topics.availability_topic.clone(),
        payload_available: "online".to_owned(),
        payload_not_available: "offline".to_owned(),
        min: 0,
        max: 255,
        step: 1,
        device: DiscoveryDevice {
            identifiers: ids,
            name: cfg.ha.name.clone(),
            manufacturer: "QMK/Vial".to_owned(),
            model: "VialRGB keyboard".to_owned(),
            sw_version: sw_version.to_owned(),
        },
        origin: DiscoveryOrigin { name: "MARCOntroller".to_owned(), sw_version: sw_version.to_owned() },
    }
}

} // verus!

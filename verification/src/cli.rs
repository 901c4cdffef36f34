//! The command line: its commands, the hex arguments, and running the
//! keyboard commands.
use vstd::prelude::*;


use crate::config::{is_default_ha, is_default_mqtt, AppConfig};
use crate::error::KeyboardError;
use crate::text::{
    chars_of, has_prefix, parse_u16_radix, parse_u16_spec, starts_with_lit, strip_all_prefix,
    strip_all_prefix_chars, string_from_chars, sub_vec, to_uppercase_string, trim, trim_chars,
    unicode_uppercase, index_of_char, ascii_upper_seq, is_ascii_text, lemma_strip_all_prefix_ascii,
    lemma_trim_ascii,
};
use crate::hid::{frame_of, Keyboard};
use crate::vialrgb::{
    direct_fastset, direct_set_all, echoes, exchanged, fastset_packet, fills_all, get_info,
    get_led_count, get_led_info, get_mode, get_supported_effects, info_of, le16,
    all_echoed, last_page_stalls, law_set_mode_report_layout, lemma_answered_step, lemma_read_then_set, led_info_of, lists_supported, mode_of, new_reply, packet, read_le16,
    read_then_set, set_mode, set_mode_packet, Info, LedInfo, Mode, EFFECT_OFF,
    EFFECT_SOLID_COLOR, ID_LIGHTING_GET_VALUE, ID_LIGHTING_SET_VALUE, VIALRGB_DIRECT_FASTSET,
    VIALRGB_GET_INFO, VIALRGB_GET_LED_INFO, VIALRGB_GET_MODE, VIALRGB_GET_NUMBER_LEDS,
    VIALRGB_SET_MODE,
};

verus! {

broadcast use vstd::string::group_string_axioms;

// ── Commands ────────────────────────────────────────────────────────────────

/// Global options and the command.
pub struct Cli {
    /// Vendor ID (hex).
    pub vid: String,
    /// Product ID (hex).
    pub pid: String,
    /// Serial number filter.
    pub serial: Option<String>,
    /// Path to config.toml.
    pub config: Option<String>,
    /// UI language.
    pub lang: Option<String>,
    pub cmd: Command,
}

/// Configuration commands.
#[derive(Debug, Clone, Copy, PartialEq, Eq, Structural)]
pub enum ConfigCommand {
    /// Print the resolved config path.
    Path,
    /// Create a default config.toml (seeding VID/PID/serial from the flags).
    Init { force: bool },
    /// Show the current config.toml contents.
    Show,
}

/// The commands.
#[derive(Debug, Clone, Copy, PartialEq, Eq, Structural)]
pub enum Command {
    Config { cmd: ConfigCommand },
    List,
    GetInfo,
    GetMode,
    Supported,
    Off,
    SetEffect { id: u16, speed: u8, h: u8, s: u8, v: u8 },
    SolidHsv { h: u8, s: u8, v: u8, speed: u8 },
    SolidRgb { r: u8, g: u8, b: u8, v: Option<u8>, speed: u8 },
    SetBrightness { v: u8 },
    GetLedCount,
    GetLedInfo { index: u16 },
    DirectAllHsv { h: u8, s: u8, v: u8, speed: u8 },
    DirectLedHsv { index: u16, h: u8, s: u8, v: u8 },
    Agent,
    Service,
    ServiceInstall,
    ServiceStart,
    ServiceStop,
    ServiceUninstall,
    Ui,
}

/// The command talks to the keyboard directly.
pub open spec fn is_device_command(c: Command) -> bool {
    !(c is Config || c is List || c is Agent || c is Service || c is ServiceInstall
        || c is ServiceStart || c is ServiceStop || c is ServiceUninstall || c is Ui)
}

/// Whether the command talks to the keyboard directly.
pub fn command_needs_device(c: &Command) -> (r: bool)
    ensures
        r == is_device_command(*c),
{
    match c {
        Command::Config { .. } | Command::List | Command::Agent | Command::Service
        | Command::ServiceInstall | Command::ServiceStart | Command::ServiceStop
        | Command::ServiceUninstall | Command::Ui => false,
        _ => true,
    }
}

// ── Hex arguments ───────────────────────────────────────────────────────────

/// A hex argument without surrounding whitespace and without any leading
/// `0x` and then `0X` prefixes.
pub open spec fn hex_digits_of(s: Seq<char>) -> Seq<char> {
    strip_all_prefix(strip_all_prefix(trim(s), "0x"@), "0X"@)
}

/// A hex argument that does not parse.
#[derive(Debug, Clone)]
pub struct HexError {
    /// The argument as given.
    pub value: String,
}

fn hex_digits(s: &str) -> (r: Vec<char>)
    ensures
        r@ == hex_digits_of(s@),
{
    proof {
        reveal_strlit("0x");
        reveal_strlit("0X");
    }
    let t = trim_chars(&chars_of(s));
    let a = strip_all_prefix_chars(&t, &chars_of("0x"));
    strip_all_prefix_chars(&a, &chars_of("0X"))
}

/// Parse a hex string (with or without "0x" prefix) into a `u16`.
pub fn parse_hex_u16(s: &str) -> (r: Result<u16, HexError>)
    ensures
        match parse_u16_spec(hex_digits_of(s@), 16) {
            Some(v) => r matches Ok(x) && x == v,
            None => r matches Err(e) && e.value@ == s@,
        },
{
    let d = hex_digits(s);
    match parse_u16_radix(&d, 16) {
        Some(v) => Ok(v),
        None => Err(HexError { value: s.to_owned() }),
    }
}

/// Normalise a hex string (with or without "0x") to upper case without
/// prefix: "0xfeed" becomes "FEED".
pub fn normalise_hex_str(s: &str) -> (r: String)
    ensures
        r@ == unicode_uppercase(hex_digits_of(s@)),
        is_ascii_text(s@) ==> r@ == ascii_upper_seq(hex_digits_of(s@)),
{
    let d = hex_digits(s);
    let ds = string_from_chars(&d);
    proof {
        if is_ascii_text(s@) {
            lemma_trim_ascii(s@);
            lemma_strip_all_prefix_ascii(trim(s@), "0x"@);
            lemma_strip_all_prefix_ascii(strip_all_prefix(trim(s@), "0x"@), "0X"@);
        }
    }
    to_uppercase_string(ds.as_str())
}

/// Whether `config init` may write the file: only when it does not exist
/// yet, or when `--force` is given.
pub fn config_init_allowed(file_exists: bool, force: bool) -> (r: bool)
    ensures
        r == (!file_exists || force),
{
    !file_exists || force
}

/// The configuration that `config init` writes: the defaults, with the HID
/// fields seeded from the `--vid`, `--pid` and `--serial` flags (the hex
/// values normalised as by `normalise_hex_str`).
pub fn seeded_config(vid: &str, pid: &str, serial: Option<String>) -> (r: AppConfig)
    ensures
        r.hid.vid@ == unicode_uppercase(hex_digits_of(vid@)),
        r.hid.pid@ == unicode_uppercase(hex_digits_of(pid@)),
        is_ascii_text(vid@) ==> r.hid.vid@ == ascii_upper_seq(hex_digits_of(vid@)),
        is_ascii_text(pid@) ==> r.hid.pid@ == ascii_upper_seq(hex_digits_of(pid@)),
        r.hid.serial == serial,
        is_default_mqtt(r.mqtt),
        is_default_ha(r.ha),
{
    let mut cfg = AppConfig::default();
    cfg.hid.vid = normalise_hex_str(vid);
    cfg.hid.pid = normalise_hex_str(pid);
    cfg.hid.serial = serial;
    cfg
}

// ── HID error messages ──────────────────────────────────────────────────────

/// Which localised message an error text gets.
pub enum HidErrorKind {
    NoDevice,
    AmbiguousInterface,
    UnexpectedResponse,
    /// Carries what follows the last `=` of the text (the count).
    FastsetTooMany { got: String },
    /// Shown as is.
    Other,
}

/// The text after the last `=` of `s`, or all of `s` when it has none.
pub open spec fn after_last_eq(s: Seq<char>) -> Seq<char>
    decreases s.len(),
{
    match index_of_char(s, '=') {
        Some(i) => if 0 <= i < s.len() {
            after_last_eq(s.skip(i + 1))
        } else {
            s
        },
        None => s,
    }
}

proof fn lemma_index_bound(s: Seq<char>, c: char)
    ensures
        index_of_char(s, c) matches Some(i) ==> 0 <= i < s.len(),
    decreases s.len(),
{
    if s.len() > 0 && s[0] != c {
        lemma_index_bound(s.drop_first(), c);
    }
}

fn after_last_eq_chars(s: &[char]) -> (r: Vec<char>)
    ensures
        r@ == after_last_eq(s@),
{
    let mut start: usize = 0;
    let n = s.len();
    assert(s@.skip(0) =~= s@);
    loop
        invariant
            n == s@.len(),
            start <= s@.len(),
            after_last_eq(s@) == after_last_eq(s@.skip(start as int)),
        decreases s@.len() - start,
    {
        match crate::text::index_of_char_from(s, start, '=') {
            Some(e) => {
                assert(s@.skip(start as int).skip(e - start + 1) =~= s@.skip(e + 1));
                start = e + 1;
            },
            None => {
                let tl = s.len();
                let r = sub_vec(s, start, tl);
                assert(r@ =~= s@.skip(start as int));
                return r;
            },
        }
    }
}

/// Which message an error text gets, by its prefix.
pub open spec fn hid_error_kind_of(raw: Seq<char>) -> int {
    if has_prefix(raw, "no_device"@) {
        0
    } else if has_prefix(raw, "ambiguous_interface"@) {
        1
    } else if has_prefix(raw, "unexpected_response"@) {
        2
    } else if has_prefix(raw, "fastset_too_many"@) {
        3
    } else {
        4
    }
}

/// Classifies an error text for localisation.
pub fn classify_hid_error(raw: &str) -> (r: HidErrorKind)
    ensures
        hid_error_kind_of(raw@) == 0 <==> r is NoDevice,
        hid_error_kind_of(raw@) == 1 <==> r is AmbiguousInterface,
        hid_error_kind_of(raw@) == 2 <==> r is UnexpectedResponse,
        hid_error_kind_of(raw@) == 3 <==> r is FastsetTooMany,
        r matches HidErrorKind::FastsetTooMany { got } ==> got@ == after_last_eq(raw@),
{
    let s = chars_of(raw);
    if starts_with_lit(&s, "no_device") {
        HidErrorKind::NoDevice
    } else if starts_with_lit(&s, "ambiguous_interface") {
        HidErrorKind::AmbiguousInterface
    } else if starts_with_lit(&s, "unexpected_response") {
        HidErrorKind::UnexpectedResponse
    } else if starts_with_lit(&s, "fastset_too_many") {
        let g = after_last_eq_chars(&s);
        HidErrorKind::FastsetTooMany { got: string_from_chars(&g) }
    } else {
        HidErrorKind::Other
    }
}

// ── Running keyboard commands ───────────────────────────────────────────────

/// What a keyboard command did, for the application to report.
pub enum DeviceOutcome {
    Info(Info),
    Mode(Mode),
    Supported(Vec<u16>),
    Off,
    SetEffect { id: u16, speed: u8, h: u8, s: u8, v: u8 },
    SolidHsv { h: u8, s: u8, v: u8, speed: u8 },
    SolidColor { r: u8, g: u8, b: u8, h: u8, s: u8, v: u8, speed: u8 },
    Brightness { v: u8, previous: Mode },
    LedCount(u16),
    LedInfo { index: u16, info: LedInfo },
    DirectAll { n: u16, h: u8, s: u8, v: u8, speed: u8 },
    DirectLed { index: u16, h: u8, s: u8, v: u8 },
}

/// One exchange of `p` whose result is `outcome` of the reply when the
/// reply echoes `cmd`/`sub`, and an error otherwise.
pub open spec fn one_exchange(
    old: Keyboard,
    new: Keyboard,
    r: Result<DeviceOutcome, KeyboardError>,
    p: Seq<u8>,
    cmd: u8,
    sub: u8,
    outcome: spec_fn(Seq<u8>) -> DeviceOutcome,
) -> bool {
    &&& exchanged(old, new, p)
    &&& match new_reply(old, new) {
        Some(rep) => if echoes(rep, cmd, sub) {
            r == Ok::<DeviceOutcome, KeyboardError>(outcome(rep))
        } else {
            r is Err
        },
        None => r is Err,
    }
}

/// A SET_MODE exchange of `m` that reports `o` once echoed.
pub open spec fn one_set(old: Keyboard, new: Keyboard, r: Result<DeviceOutcome, KeyboardError>, m: Mode, o: DeviceOutcome) -> bool {
    one_exchange(old, new, r, set_mode_packet(m), ID_LIGHTING_SET_VALUE, VIALRGB_SET_MODE, |rep: Seq<u8>| o)
}

/// What running command `c` does on the keyboard and returns.
///
/// GET-INFO, GET-MODE, GET-LED-COUNT and GET-LED-INFO make one exchange and
/// report what the reply decodes to. OFF, SET-EFFECT, SOLID-HSV and
/// SOLID-RGB make one SET_MODE exchange: OFF with zero speed and HSV,
/// SOLID-HSV and SOLID-RGB with SOLID_COLOR (SOLID-RGB with the colour's
/// HSV `rgb_hsv`, its V replaced by the `v` argument when given).
/// DIRECT-LED-HSV makes one fastset exchange for that LED. When it succeeds,
/// SUPPORTED has made a complete listing, SET-BRIGHTNESS has read the mode
/// and written it back with only V changed, and DIRECT-ALL-HSV has painted
/// every LED (`fills_all`).
pub open spec fn ran(
    c: Command,
    rgb_hsv: Option<(u8, u8, u8)>,
    old: Keyboard,
    new: Keyboard,
    r: Result<DeviceOutcome, KeyboardError>,
) -> bool {
    match c {
        Command::GetInfo => one_exchange(
            old,
            new,
            r,
            packet(ID_LIGHTING_GET_VALUE, VIALRGB_GET_INFO, Seq::empty()),
            ID_LIGHTING_GET_VALUE,
            VIALRGB_GET_INFO,
            |rep: Seq<u8>| DeviceOutcome::Info(info_of(rep)),
        ),
        Command::GetMode => one_exchange(
            old,
            new,
            r,
            packet(ID_LIGHTING_GET_VALUE, VIALRGB_GET_MODE, Seq::empty()),
            ID_LIGHTING_GET_VALUE,
            VIALRGB_GET_MODE,
            |rep: Seq<u8>| DeviceOutcome::Mode(mode_of(rep)),
        ),
        Command::Supported => r matches Ok(o) ==> (o matches DeviceOutcome::Supported(ids)
            && lists_supported(old, new, ids@)),
        Command::Off => one_set(
            old,
            new,
            r,
            Mode { mode: EFFECT_OFF, speed: 0, h: 0, s: 0, v: 0 },
            DeviceOutcome::Off,
        ),
        Command::SetEffect { id, speed, h, s, v } => one_set(
            old,
            new,
            r,
            Mode { mode: id, speed, h, s, v },
            DeviceOutcome::SetEffect { id, speed, h, s, v },
        ),
        Command::SolidHsv { h, s, v, speed } => one_set(
            old,
            new,
            r,
            Mode { mode: EFFECT_SOLID_COLOR, speed, h, s, v },
            DeviceOutcome::SolidHsv { h, s, v, speed },
        ),
        Command::SolidRgb { r: cr, g, b, v, speed } => match rgb_hsv {
            Some((h8, s8, v8)) => {
                let vv = match v {
                    Some(x) => x,
                    None => v8,
                };
                one_set(
                    old,
                    new,
                    r,
                    Mode { mode: EFFECT_SOLID_COLOR, speed, h: h8, s: s8, v: vv },
                    DeviceOutcome::SolidColor { r: cr, g, b, h: h8, s: s8, v: vv, speed },
                )
            },
            None => false,
        },
        Command::SetBrightness { v } => r matches Ok(o) ==> (o matches DeviceOutcome::Brightness {
            v: v2,
            previous,
        } && v2 == v && previous == mode_of(new.replies@[old.replies@.len() as int])
            && read_then_set(old, new, with_value(v))),
        Command::GetLedCount => one_exchange(
            old,
            new,
            r,
            packet(ID_LIGHTING_GET_VALUE, VIALRGB_GET_NUMBER_LEDS, Seq::empty()),
            ID_LIGHTING_GET_VALUE,
            VIALRGB_GET_NUMBER_LEDS,
            |rep: Seq<u8>| DeviceOutcome::LedCount(read_le16(rep, 2)),
        ),
        Command::GetLedInfo { index } => one_exchange(
            old,
            new,
            r,
            packet(ID_LIGHTING_GET_VALUE, VIALRGB_GET_LED_INFO, le16(index)),
            ID_LIGHTING_GET_VALUE,
            VIALRGB_GET_LED_INFO,
            |rep: Seq<u8>| DeviceOutcome::LedInfo { index, info: led_info_of(rep) },
        ),
        Command::DirectAllHsv { h, s, v, speed } => r matches Ok(o) ==> (o matches DeviceOutcome::DirectAll {
            n,
            h: h2,
            s: s2,
            v: v2,
            speed: sp2,
        } && h2 == h && s2 == s && v2 == v && sp2 == speed && fills_all(old, new, speed, h, s, v, n)),
        Command::DirectLedHsv { index, h, s, v } => one_exchange(
            old,
            new,
            r,
            fastset_packet(index, seq![(h, s, v)]),
            ID_LIGHTING_SET_VALUE,
            VIALRGB_DIRECT_FASTSET,
            |rep: Seq<u8>| DeviceOutcome::DirectLed { index, h, s, v },
        ),
        _ => false,
    }
}

/// The mode `m` with its V replaced.
pub open spec fn with_value(v: u8) -> spec_fn(Mode) -> Mode {
    |m: Mode| Mode { mode: m.mode, speed: m.speed, h: m.h, s: m.s, v }
}

/// What the lighting commands write when they succeed, byte by byte (see
/// `law_set_mode_report_layout`). OFF writes the OFF effect with zero speed,
/// H, S and V; SET-EFFECT and SOLID-HSV write their arguments (SOLID-HSV
/// with SOLID_COLOR); SOLID-RGB writes SOLID_COLOR with the given speed, the
/// H and S of the colour's HSV, and as V the `--v` override when given, else
/// the colour's V. SET-BRIGHTNESS reads the mode and writes back the effect,
/// speed, H and S that the keyboard reported (bytes 2 to 6 of its reply),
/// with only V replaced.
pub proof fn law_lighting_writes(
    c: Command,
    rgb_hsv: Option<(u8, u8, u8)>,
    old: Keyboard,
    new: Keyboard,
    r: Result<DeviceOutcome, KeyboardError>,
)
    requires
        ran(c, rgb_hsv, old, new, r),
        r is Ok,
    ensures
        c is Off ==> new.written@.len() == old.written@.len() + 1 && read_le16(new.written@.last(), 3)
            == EFFECT_OFF && new.written@.last()[5] == 0 && new.written@.last()[6] == 0
            && new.written@.last()[7] == 0 && new.written@.last()[8] == 0,
        c matches Command::SetEffect { id, speed, h, s, v } ==> new.written@.len() == old.written@.len() + 1
            && read_le16(new.written@.last(), 3) == id && new.written@.last()[5] == speed
            && new.written@.last()[6] == h && new.written@.last()[7] == s && new.written@.last()[8] == v,
        c matches Command::SolidHsv { h, s, v, speed } ==> new.written@.len() == old.written@.len() + 1
            && read_le16(new.written@.last(), 3) == EFFECT_SOLID_COLOR && new.written@.last()[5] == speed
            && new.written@.last()[6] == h && new.written@.last()[7] == s && new.written@.last()[8] == v,
        c matches Command::SolidRgb { v: v_override, speed, .. } ==> rgb_hsv matches Some((h8, s8, v8))
            ==> new.written@.len() == old.written@.len() + 1 && read_le16(new.written@.last(), 3)
            == EFFECT_SOLID_COLOR && new.written@.last()[5] == speed && new.written@.last()[6] == h8
            && new.written@.last()[7] == s8 && new.written@.last()[8] == (match v_override {
            Some(x) => x,
            None => v8,
        }),
        c matches Command::SetBrightness { v } ==> new.written@.len() == old.written@.len() + 2 && read_le16(
            new.written@.last(),
            3,
        ) == read_le16(new.replies@[old.replies@.len() as int], 2) && new.written@.last()[5]
            == new.replies@[old.replies@.len() as int][4] && new.written@.last()[6]
            == new.replies@[old.replies@.len() as int][5] && new.written@.last()[7]
            == new.replies@[old.replies@.len() as int][6] && new.written@.last()[8] == v
            && new.written@[old.written@.len() as int][1] == ID_LIGHTING_GET_VALUE
            && new.written@[old.written@.len() as int][2] == VIALRGB_GET_MODE,
{
    match c {
        Command::Off => {
            law_set_mode_report_layout(Mode { mode: EFFECT_OFF, speed: 0, h: 0, s: 0, v: 0 });
        },
        Command::SetEffect { id, speed, h, s, v } => {
            law_set_mode_report_layout(Mode { mode: id, speed, h, s, v });
        },
        Command::SolidHsv { h, s, v, speed } => {
            law_set_mode_report_layout(Mode { mode: EFFECT_SOLID_COLOR, speed, h, s, v });
        },
        Command::SolidRgb { r: cr, g, b, v, speed } => {
            if let Some((h8, s8, v8)) = rgb_hsv {
                let written_v = if v is Some { v->0 } else { v8 };
                law_set_mode_report_layout(Mode { mode: EFFECT_SOLID_COLOR, speed, h: h8, s: s8, v: written_v });
            }
        },
        Command::SetBrightness { v } => {
            let rep = new.replies@[old.replies@.len() as int];
            let m = with_value(v)(mode_of(rep));
            law_set_mode_report_layout(m);
            assert(new.written@.last() == frame_of(set_mode_packet(m)));
            assert(new.written@[old.written@.len() as int] == frame_of(
                packet(ID_LIGHTING_GET_VALUE, VIALRGB_GET_MODE, Seq::empty()),
            ));
        },
        _ => {},
    }
}

/// Runs a keyboard command on an open keyboard (see `ran`).
pub fn run_device_command(kb: &mut Keyboard, cmd: &Command, rgb_hsv: Option<(u8, u8, u8)>) -> (r: Result<DeviceOutcome, KeyboardError>)
    requires
        is_device_command(*cmd),
        cmd is SolidRgb ==> rgb_hsv is Some,
    ensures
        ran(*cmd, rgb_hsv, *old(kb), *final(kb), r),
        !(cmd is Supported) ==> (r is Ok <==> all_echoed(*old(kb), *final(kb))),
        cmd is Supported ==> (r is Ok ==> all_echoed(*old(kb), *final(kb))) && (r matches Err(e)
            ==> !all_echoed(*old(kb), *final(kb)) || (e is SupportedStalled && last_page_stalls(
            *final(kb),
        ))),
        r matches Err(e) ==> e is Hid || e is WriteShort || e is ReadShort
            || e is UnexpectedResponse || e is SupportedStalled,
{
    let ghost k0 = *kb;
    match cmd {
        Command::GetInfo => {
            let got = get_info(kb);
            proof {
                lemma_answered_step(k0, k0, *kb, packet(ID_LIGHTING_GET_VALUE, VIALRGB_GET_INFO, Seq::empty()), got);
            }
            Ok(DeviceOutcome::Info(got?))
        },
        Command::GetMode => {
            let got = get_mode(kb);
            proof {
                lemma_answered_step(k0, k0, *kb, packet(ID_LIGHTING_GET_VALUE, VIALRGB_GET_MODE, Seq::empty()), got);
            }
            Ok(DeviceOutcome::Mode(got?))
        },
        Command::Supported => Ok(DeviceOutcome::Supported(get_supported_effects(kb)?)),
        Command::Off => {
            let set = set_mode(kb, EFFECT_OFF, 0, 0, 0, 0);
            proof {
                lemma_answered_step(k0, k0, *kb, set_mode_packet(Mode { mode: EFFECT_OFF, speed: 0, h: 0, s: 0, v: 0 }), set);
            }
            set?;
            Ok(DeviceOutcome::Off)
        },
        Command::SetEffect { id, speed, h, s, v } => {
            let set = set_mode(kb, *id, *speed, *h, *s, *v);
            proof {
                lemma_answered_step(k0, k0, *kb, set_mode_packet(Mode { mode: *id, speed: *speed, h: *h, s: *s, v: *v }), set);
            }
            set?;
            Ok(DeviceOutcome::SetEffect { id: *id, speed: *speed, h: *h, s: *s, v: *v })
        },
        Command::SolidHsv { h, s, v, speed } => {
            let set = set_mode(kb, EFFECT_SOLID_COLOR, *speed, *h, *s, *v);
            proof {
                lemma_answered_step(k0, k0, *kb, set_mode_packet(Mode { mode: EFFECT_SOLID_COLOR, speed: *speed, h: *h, s: *s, v: *v }), set);
            }
            set?;
            Ok(DeviceOutcome::SolidHsv { h: *h, s: *s, v: *v, speed: *speed })
        },
        Command::SolidRgb { r, g, b, v, speed } => {
            let (h8, s8, v_rgb) = match rgb_hsv {
                Some(hsv) => hsv,
                None => (0, 0, 0),
            };
            let v8 = match v {
                Some(x) => *x,
                None => v_rgb,
            };
            let set = set_mode(kb, EFFECT_SOLID_COLOR, *speed, h8, s8, v8);
            proof {
                lemma_answered_step(k0, k0, *kb, set_mode_packet(Mode { mode: EFFECT_SOLID_COLOR, speed: *speed, h: h8, s: s8, v: v8 }), set);
            }
            set?;
            Ok(DeviceOutcome::SolidColor { r: *r, g: *g, b: *b, h: h8, s: s8, v: v8, speed: *speed })
        },
        Command::SetBrightness { v } => {
            let got = get_mode(kb);
            proof {
                lemma_answered_step(k0, k0, *kb, packet(ID_LIGHTING_GET_VALUE, VIALRGB_GET_MODE, Seq::empty()), got);
            }
            let cur = got?;
            let ghost k1 = *kb;
            let set = set_mode(kb, cur.mode, cur.speed, cur.h, cur.s, *v);
            proof {
                lemma_answered_step(k0, k1, *kb, set_mode_packet(Mode { mode: cur.mode, speed: cur.speed, h: cur.h, s: cur.s, v: *v }), set);
            }
            set?;
            proof {
                lemma_read_then_set(k0, k1, *kb, with_value(*v));
                assert(kb.replies@[k0.replies@.len() as int] == k1.replies@.last());
            }
            Ok(DeviceOutcome::Brightness { v: *v, previous: cur })
        },
        Command::GetLedCount => {
            let got = get_led_count(kb);
            proof {
                lemma_answered_step(k0, k0, *kb, packet(ID_LIGHTING_GET_VALUE, VIALRGB_GET_NUMBER_LEDS, Seq::empty()), got);
            }
            Ok(DeviceOutcome::LedCount(got?))
        },
        Command::GetLedInfo { index } => {
            let got = get_led_info(kb, *index);
            proof {
                lemma_answered_step(k0, k0, *kb, packet(ID_LIGHTING_GET_VALUE, VIALRGB_GET_LED_INFO, le16(*index)), got);
            }
            let info = got?;
            Ok(DeviceOutcome::LedInfo { index: *index, info })
        },
        Command::DirectAllHsv { h, s, v, speed } => {
            let n = direct_set_all(kb, *speed, *h, *s, *v)?;
            Ok(DeviceOutcome::DirectAll { n, h: *h, s: *s, v: *v, speed: *speed })
        },
        Command::DirectLedHsv { index, h, s, v } => {
            let one: Vec<(u8, u8, u8)> = vec![(*h, *s, *v)];
            assert(one@ =~= seq![(*h, *s, *v)]);
            let sent = direct_fastset(kb, *index, &one);
            proof {
                lemma_answered_step(k0, k0, *kb, fastset_packet(*index, one@), sent);
            }
            sent?;
            Ok(DeviceOutcome::DirectLed { index: *index, h: *h, s: *s, v: *v })
        },
        _ => {
            assert(false);
            Ok(DeviceOutcome::Off)
        },
    }
}

} // verus!

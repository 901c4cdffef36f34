//! Names of the VialRGB lighting effects, for Home Assistant and the UI.
//!
//! Home Assistant knows effects by name while VialRGB uses numeric IDs. The
//! known RGB Matrix effects (2..=46) get readable names; any other ID is
//! named `Effect <id>`. Names are read back leniently: readable names,
//! lower-case aliases with underscores, and the `vialrgb_<id>` and
//! `effect_<id>` forms are all accepted.
use vstd::prelude::*;

use crate::text::{
    all_digits, ascii_lower, ascii_lower_chars, ascii_lower_seq, chars_of, decimal, dec_char,
    digit_value, digits_value, eq_lit, has_prefix, is_ws, occurs_at, parse_u16_radix,
    parse_u16_spec, push_decimal, push_str, string_from_chars, sub_vec, trim, trim_chars,
    trim_end, trim_start, unsigned_digits, starts_with,
};
use crate::vialrgb::{EFFECT_DIRECT, EFFECT_OFF};

verus! {

broadcast use vstd::string::group_string_axioms;

/// Readable name of a known effect (2..=46).
pub open spec fn effect_label(id: u16) -> Seq<char> {
    if id == 2 {
        "Solid Color"@
    } else if id == 3 {
        "Alpha Mods"@
    } else if id == 4 {
        "Gradient Up Down"@
    } else if id == 5 {
        "Gradient Left Right"@
    } else if id == 6 {
        "Breathing"@
    } else if id == 7 {
        "Band Sat"@
    } else if id == 8 {
        "Band Val"@
    } else if id == 9 {
        "Band Pinwheel Sat"@
    } else if id == 10 {
        "Band Pinwheel Val"@
    } else if id == 11 {
        "Band Spiral Sat"@
    } else if id == 12 {
        "Band Spiral Val"@
    } else if id == 13 {
        "Cycle All"@
    } else if id == 14 {
        "Cycle Left Right"@
    } else if id == 15 {
        "Cycle Up Down"@
    } else if id == 16 {
        "Rainbow Moving Chevron"@
    } else if id == 17 {
        "Cycle Out In"@
    } else if id == 18 {
        "Cycle Out In Dual"@
    } else if id == 19 {
        "Cycle Pinwheel"@
    } else if id == 20 {
        "Cycle Spiral"@
    } else if id == 21 {
        "Dual Beacon"@
    } else if id == 22 {
        "Rainbow Beacon"@
    } else if id == 23 {
        "Rainbow Pinwheels"@
    } else if id == 24 {
        "Flower Blooming"@
    } else if id == 25 {
        "Raindrops"@
    } else if id == 26 {
        "Jellybean Raindrops"@
    } else if id == 27 {
        "Hue Breathing"@
    } else if id == 28 {
        "Hue Pendulum"@
    } else if id == 29 {
        "Hue Wave"@
    } else if id == 30 {
        "Pixel Rain"@
    } else if id == 31 {
        "Pixel Flow"@
    } else if id == 32 {
        "Pixel Fractal"@
    } else if id == 33 {
        "Typing Heatmap"@
    } else if id == 34 {
        "Digital Rain"@
    } else if id == 35 {
        "Solid Reactive Simple"@
    } else if id == 36 {
        "Solid Reactive"@
    } else if id == 37 {
        "Solid Reactive Wide"@
    } else if id == 38 {
        "Solid Reactive Cross"@
    } else if id == 39 {
        "Solid Reactive Nexus"@
    } else if id == 40 {
        "Splash"@
    } else if id == 41 {
        "Solid Splash"@
    } else if id == 42 {
        "Starlight Smooth"@
    } else if id == 43 {
        "Starlight"@
    } else if id == 44 {
        "Starlight Dual Sat"@
    } else if id == 45 {
        "Starlight Dual Hue"@
    } else if id == 46 {
        "Riverflow"@
    } else {
        Seq::empty()
    }
}

/// Lower-case alias of a known effect (2..=46).
pub open spec fn effect_token(id: u16) -> Seq<char> {
    if id == 2 {
        "solid_color"@
    } else if id == 3 {
        "alpha_mods"@
    } else if id == 4 {
        "gradient_up_down"@
    } else if id == 5 {
        "gradient_left_right"@
    } else if id == 6 {
        "breathing"@
    } else if id == 7 {
        "band_sat"@
    } else if id == 8 {
        "band_val"@
    } else if id == 9 {
        "band_pinwheel_sat"@
    } else if id == 10 {
        "band_pinwheel_val"@
    } else if id == 11 {
        "band_spiral_sat"@
    } else if id == 12 {
        "band_spiral_val"@
    } else if id == 13 {
        "cycle_all"@
    } else if id == 14 {
        "cycle_left_right"@
    } else if id == 15 {
        "cycle_up_down"@
    } else if id == 16 {
        "rainbow_moving_chevron"@
    } else if id == 17 {
        "cycle_out_in"@
    } else if id == 18 {
        "cycle_out_in_dual"@
    } else if id == 19 {
        "cycle_pinwheel"@
    } else if id == 20 {
        "cycle_spiral"@
    } else if id == 21 {
        "dual_beacon"@
    } else if id == 22 {
        "rainbow_beacon"@
    } else if id == 23 {
        "rainbow_pinwheels"@
    } else if id == 24 {
        "flower_blooming"@
    } else if id == 25 {
        "raindrops"@
    } else if id == 26 {
        "jellybean_raindrops"@
    } else if id == 27 {
        "hue_breathing"@
    } else if id == 28 {
        "hue_pendulum"@
    } else if id == 29 {
        "hue_wave"@
    } else if id == 30 {
        "pixel_rain"@
    } else if id == 31 {
        "pixel_flow"@
    } else if id == 32 {
        "pixel_fractal"@
    } else if id == 33 {
        "typing_heatmap"@
    } else if id == 34 {
        "digital_rain"@
    } else if id == 35 {
        "solid_reactive_simple"@
    } else if id == 36 {
        "solid_reactive"@
    } else if id == 37 {
        "solid_reactive_wide"@
    } else if id == 38 {
        "solid_reactive_cross"@
    } else if id == 39 {
        "solid_reactive_nexus"@
    } else if id == 40 {
        "splash"@
    } else if id == 41 {
        "solid_splash"@
    } else if id == 42 {
        "starlight_smooth"@
    } else if id == 43 {
        "starlight"@
    } else if id == 44 {
        "starlight_dual_sat"@
    } else if id == 45 {
        "starlight_dual_hue"@
    } else if id == 46 {
        "riverflow"@
    } else {
        Seq::empty()
    }
}

/// An effect that has a readable name.
pub open spec fn is_known_effect(id: u16) -> bool {
    2 <= id <= 46
}

/// The Home Assistant name of effect `id`.
pub open spec fn ha_effect_name(id: u16) -> Seq<char> {
    if is_known_effect(id) {
        effect_label(id)
    } else {
        "Effect "@ + decimal(id as nat)
    }
}

/// The name the UI shows for effect `id`: like Home Assistant's, plus
/// `OFF` and `DIRECT` for effects 0 and 1.
pub open spec fn ui_effect_name(id: u16) -> Seq<char> {
    if id == 0 {
        "OFF"@
    } else if id == 1 {
        "DIRECT"@
    } else {
        ha_effect_name(id)
    }
}

/// The readable name of a known effect.
fn effect_label_str(id: u16) -> (r: &'static str)
    requires
        is_known_effect(id),
    ensures
        r@ == effect_label(id),
{
    match id {
        2 => "Solid Color",
        3 => "Alpha Mods",
        4 => "Gradient Up Down",
        5 => "Gradient Left Right",
        6 => "Breathing",
        7 => "Band Sat",
        8 => "Band Val",
        9 => "Band Pinwheel Sat",
        10 => "Band Pinwheel Val",
        11 => "Band Spiral Sat",
        12 => "Band Spiral Val",
        13 => "Cycle All",
        14 => "Cycle Left Right",
        15 => "Cycle Up Down",
        16 => "Rainbow Moving Chevron",
        17 => "Cycle Out In",
        18 => "Cycle Out In Dual",
        19 => "Cycle Pinwheel",
        20 => "Cycle Spiral",
        21 => "Dual Beacon",
        22 => "Rainbow Beacon",
        23 => "Rainbow Pinwheels",
        24 => "Flower Blooming",
        25 => "Raindrops",
        26 => "Jellybean Raindrops",
        27 => "Hue Breathing",
        28 => "Hue Pendulum",
        29 => "Hue Wave",
        30 => "Pixel Rain",
        31 => "Pixel Flow",
        32 => "Pixel Fractal",
        33 => "Typing Heatmap",
        34 => "Digital Rain",
        35 => "Solid Reactive Simple",
        36 => "Solid Reactive",
        37 => "Solid Reactive Wide",
        38 => "Solid Reactive Cross",
        39 => "Solid Reactive Nexus",
        40 => "Splash",
        41 => "Solid Splash",
        42 => "Starlight Smooth",
        43 => "Starlight",
        44 => "Starlight Dual Sat",
        45 => "Starlight Dual Hue",
        46 => "Riverflow",
        _ => "Riverflow",
    }
}

/// Name of a VialRGB effect as Home Assistant shows it.
pub fn ha_effect_name_for_id(id: u16) -> (r: String)
    ensures
        r@ == ha_effect_name(id),
{
    if 2 <= id && id <= 46 {
        effect_label_str(id).to_owned()
    } else {
        let mut out: Vec<char> = Vec::new();
        push_str(&mut out, "Effect ");
        push_decimal(&mut out, id as u32);
        string_from_chars(&out)
    }
}

/// Name of a VialRGB effect as the UI shows it.
pub fn ui_effect_name_for_id(id: u16) -> (r: String)
    ensures
        r@ == ui_effect_name(id),
{
    if id == 0 {
        "OFF".to_owned()
    } else if id == 1 {
        "DIRECT".to_owned()
    } else {
        ha_effect_name_for_id(id)
    }
}

/// The effects the UI offers, in order: every known effect, 2..=46.
pub fn ui_effect_ids() -> (r: Vec<u16>)
    ensures
        r@ == Seq::new(45, |i: int| (i + 2) as u16),
{
    let mut r: Vec<u16> = Vec::new();
    let mut id: u16 = 2;
    while id <= 46
        invariant
            2 <= id <= 47,
            r@ == Seq::new((id - 2) as nat, |i: int| (i + 2) as u16),
        decreases 47 - id,
    {
        r.push(id);
        id += 1;
        assert(r@ =~= Seq::new((id - 2) as nat, |i: int| (i + 2) as u16));
    }
    r
}

// ── Reading names back ──────────────────────────────────────────────────────

/// `_` in place of each space, `-` and `/`.
pub open spec fn sep_to_underscore(c: char) -> char {
    if c == ' ' || c == '-' || c == '/' {
        '_'
    } else {
        c
    }
}

/// The token a name is matched by: trimmed, ASCII lower-case, with spaces,
/// dashes and slashes turned into underscores.
pub open spec fn name_token(name: Seq<char>) -> Seq<char> {
    ascii_lower_seq(trim(name)).map_values(|c: char| sep_to_underscore(c))
}

/// The effect a token names: a known alias, else `vialrgb_<id>` or
/// `effect_<id>` with a decimal `u16`.
pub open spec fn effect_id_for_token(t: Seq<char>) -> Option<u16> {
    if t == "solid_color"@ {
        Some(2u16)
    } else if t == "alpha_mods"@ {
        Some(3u16)
    } else if t == "gradient_up_down"@ {
        Some(4u16)
    } else if t == "gradient_left_right"@ {
        Some(5u16)
    } else if t == "breathing"@ {
        Some(6u16)
    } else if t == "band_sat"@ {
        Some(7u16)
    } else if t == "band_val"@ {
        Some(8u16)
    } else if t == "band_pinwheel_sat"@ {
        Some(9u16)
    } else if t == "band_pinwheel_val"@ {
        Some(10u16)
    } else if t == "band_spiral_sat"@ {
        Some(11u16)
    } else if t == "band_spiral_val"@ {
        Some(12u16)
    } else if t == "cycle_all"@ {
        Some(13u16)
    } else if t == "cycle_left_right"@ {
        Some(14u16)
    } else if t == "cycle_up_down"@ {
        Some(15u16)
    } else if t == "rainbow_moving_chevron"@ {
        Some(16u16)
    } else if t == "cycle_out_in"@ {
        Some(17u16)
    } else if t == "cycle_out_in_dual"@ {
        Some(18u16)
    } else if t == "cycle_pinwheel"@ {
        Some(19u16)
    } else if t == "cycle_spiral"@ {
        Some(20u16)
    } else if t == "dual_beacon"@ {
        Some(21u16)
    } else if t == "rainbow_beacon"@ {
        Some(22u16)
    } else if t == "rainbow_pinwheels"@ {
        Some(23u16)
    } else if t == "flower_blooming"@ {
        Some(24u16)
    } else if t == "raindrops"@ {
        Some(25u16)
    } else if t == "jellybean_raindrops"@ {
        Some(26u16)
    } else if t == "hue_breathing"@ {
        Some(27u16)
    } else if t == "hue_pendulum"@ {
        Some(28u16)
    } else if t == "hue_wave"@ {
        Some(29u16)
    } else if t == "pixel_rain"@ {
        Some(30u16)
    } else if t == "pixel_flow"@ {
        Some(31u16)
    } else if t == "pixel_fractal"@ {
        Some(32u16)
    } else if t == "typing_heatmap"@ {
        Some(33u16)
    } else if t == "digital_rain"@ {
        Some(34u16)
    } else if t == "solid_reactive_simple"@ {
        Some(35u16)
    } else if t == "solid_reactive"@ {
        Some(36u16)
    } else if t == "solid_reactive_wide"@ {
        Some(37u16)
    } else if t == "solid_reactive_cross"@ {
        Some(38u16)
    } else if t == "solid_reactive_nexus"@ {
        Some(39u16)
    } else if t == "splash"@ {
        Some(40u16)
    } else if t == "solid_splash"@ {
        Some(41u16)
    } else if t == "starlight_smooth"@ {
        Some(42u16)
    } else if t == "starlight"@ {
        Some(43u16)
    } else if t == "starlight_dual_sat"@ {
        Some(44u16)
    } else if t == "starlight_dual_hue"@ {
        Some(45u16)
    } else if t == "riverflow"@ {
        Some(46u16)
    } else if has_prefix(t, "vialrgb_"@) {
        parse_u16_spec(t.skip(8), 10)
    } else if has_prefix(t, "effect_"@) {
        parse_u16_spec(t.skip(7), 10)
    } else {
        None
    }
}

/// The token of `name` (see `name_token`).
pub fn name_token_chars(name: &[char]) -> (r: Vec<char>)
    ensures
        r@ == name_token(name@),
{
    let t = trim_chars(name);
    let l = ascii_lower_chars(&t);
    let mut r: Vec<char> = Vec::new();
    let mut i: usize = 0;
    while i < l.len()
        invariant
            i <= l@.len(),
            r@ == l@.take(i as int).map_values(|c: char| sep_to_underscore(c)),
        decreases l@.len() - i,
    {
        let c = l[i];
        r.push(if c == ' ' || c == '-' || c == '/' { '_' } else { c });
        i += 1;
        assert(r@ =~= l@.take(i as int).map_values(|c: char| sep_to_underscore(c)));
    }
    assert(l@.take(l@.len() as int) =~= l@);
    r
}

/// The VialRGB effect that a Home Assistant effect name designates, if any.
pub fn effect_id_for_ha_name(name: &str) -> (r: Option<u16>)
    ensures
        r == effect_id_for_token(name_token(name@)),
{
    let n = chars_of(name);
    let t = name_token_chars(&n);
    if eq_lit(&t, "solid_color") {
        return Some(2);
    }
    if eq_lit(&t, "alpha_mods") {
        return Some(3);
    }
    if eq_lit(&t, "gradient_up_down") {
        return Some(4);
    }
    if eq_lit(&t, "gradient_left_right") {
        return Some(5);
    }
    if eq_lit(&t, "breathing") {
        return Some(6);
    }
    if eq_lit(&t, "band_sat") {
        return Some(7);
    }
    if eq_lit(&t, "band_val") {
        return Some(8);
    }
    if eq_lit(&t, "band_pinwheel_sat") {
        return Some(9);
    }
    if eq_lit(&t, "band_pinwheel_val") {
        return Some(10);
    }
    if eq_lit(&t, "band_spiral_sat") {
        return Some(11);
    }
    if eq_lit(&t, "band_spiral_val") {
        return Some(12);
    }
    if eq_lit(&t, "cycle_all") {
        return Some(13);
    }
    if eq_lit(&t, "cycle_left_right") {
        return Some(14);
    }
    if eq_lit(&t, "cycle_up_down") {
        return Some(15);
    }
    if eq_lit(&t, "rainbow_moving_chevron") {
        return Some(16);
    }
    if eq_lit(&t, "cycle_out_in") {
        return Some(17);
    }
    if eq_lit(&t, "cycle_out_in_dual") {
        return Some(18);
    }
    if eq_lit(&t, "cycle_pinwheel") {
        return Some(19);
    }
    if eq_lit(&t, "cycle_spiral") {
        return Some(20);
    }
    if eq_lit(&t, "dual_beacon") {
        return Some(21);
    }
    if eq_lit(&t, "rainbow_beacon") {
        return Some(22);
    }
    if eq_lit(&t, "rainbow_pinwheels") {
        return Some(23);
    }
    if eq_lit(&t, "flower_blooming") {
        return Some(24);
    }
    if eq_lit(&t, "raindrops") {
        return Some(25);
    }
    if eq_lit(&t, "jellybean_raindrops") {
        return Some(26);
    }
    if eq_lit(&t, "hue_breathing") {
        return Some(27);
    }
    if eq_lit(&t, "hue_pendulum") {
        return Some(28);
    }
    if eq_lit(&t, "hue_wave") {
        return Some(29);
    }
    if eq_lit(&t, "pixel_rain") {
        return Some(30);
    }
    if eq_lit(&t, "pixel_flow") {
        return Some(31);
    }
    if eq_lit(&t, "pixel_fractal") {
        return Some(32);
    }
    if eq_lit(&t, "typing_heatmap") {
        return Some(33);
    }
    if eq_lit(&t, "digital_rain") {
        return Some(34);
    }
    if eq_lit(&t, "solid_reactive_simple") {
        return Some(35);
    }
    if eq_lit(&t, "solid_reactive") {
        return Some(36);
    }
    if eq_lit(&t, "solid_reactive_wide") {
        return Some(37);
    }
    if eq_lit(&t, "solid_reactive_cross") {
        return Some(38);
    }
    if eq_lit(&t, "solid_reactive_nexus") {
        return Some(39);
    }
    if eq_lit(&t, "splash") {
        return Some(40);
    }
    if eq_lit(&t, "solid_splash") {
        return Some(41);
    }
    if eq_lit(&t, "starlight_smooth") {
        return Some(42);
    }
    if eq_lit(&t, "starlight") {
        return Some(43);
    }
    if eq_lit(&t, "starlight_dual_sat") {
        return Some(44);
    }
    if eq_lit(&t, "starlight_dual_hue") {
        return Some(45);
    }
    if eq_lit(&t, "riverflow") {
        return Some(46);
    }
    let vp = chars_of("vialrgb_");
    proof {
        reveal_strlit("vialrgb_");
        reveal_strlit("effect_");
    }
    if starts_with(&t, &vp) {
        let suffix = sub_vec(&t, 8, t.len());
        assert(suffix@ =~= t@.skip(8));
        return parse_u16_radix(&suffix, 10);
    }
    let ep = chars_of("effect_");
    if starts_with(&t, &ep) {
        let suffix = sub_vec(&t, 7, t.len());
        assert(suffix@ =~= t@.skip(7));
        return parse_u16_radix(&suffix, 10);
    }
    None
}

// ── Catalogue ───────────────────────────────────────────────────────────────

/// Whether Home Assistant is offered effect `id`: all but OFF and DIRECT.
pub open spec fn is_ha_exposed(id: u16) -> bool {
    id != EFFECT_OFF && id != EFFECT_DIRECT
}

/// The Home Assistant names of the exposed effects among `ids`, in order.
pub open spec fn catalog_names(ids: Seq<u16>) -> Seq<Seq<char>>
    decreases ids.len(),
{
    if ids.len() == 0 {
        Seq::empty()
    } else if is_ha_exposed(ids.last()) {
        catalog_names(ids.drop_last()).push(ha_effect_name(ids.last()))
    } else {
        catalog_names(ids.drop_last())
    }
}

/// The effects that Home Assistant is offered, by name.
pub struct EffectCatalog {
    pub ha_names: Vec<String>,
}

/// The names as character sequences.
pub open spec fn names_view(v: Seq<String>) -> Seq<Seq<char>> {
    v.map_values(|s: String| s@)
}

/// Names the supported effects for Home Assistant, leaving out OFF and
/// DIRECT.
pub fn build_effect_catalog(ids: Vec<u16>) -> (r: EffectCatalog)
    ensures
        names_view(r.ha_names@) == catalog_names(ids@),
{
    let mut ha_names: Vec<String> = Vec::new();
    let mut i: usize = 0;
    while i < ids.len()
        invariant
            i <= ids@.len(),
            names_view(ha_names@) == catalog_names(ids@.take(i as int)),
        decreases ids@.len() - i,
    {
        let id = ids[i];
        assert(ids@.take(i + 1).drop_last() =~= ids@.take(i as int));
        if id != EFFECT_OFF && id != EFFECT_DIRECT {
            let name = ha_effect_name_for_id(id);
            ha_names.push(name);
            assert(names_view(ha_names@) =~= catalog_names(ids@.take(i + 1)));
        } else {
            assert(names_view(ha_names@) =~= catalog_names(ids@.take(i + 1)));
        }
        i += 1;
    }
    assert(ids@.take(ids@.len() as int) =~= ids@);
    EffectCatalog { ha_names }
}


// ── The name round trip ─────────────────────────────────────────────────────

proof fn lemma_decimal_digits(n: nat)
    ensures
        decimal(n).len() >= 1,
        all_digits(decimal(n), 10),
        digits_value(decimal(n), 10) == n,
        forall|i: int| 0 <= i < decimal(n).len() ==> '0' <= #[trigger] decimal(n)[i] <= '9',
    decreases n,
{
    if n >= 10 {
        lemma_decimal_digits(n / 10);
        let d = decimal(n / 10);
        let e = decimal(n);
        assert(e == d.push(dec_char(n % 10)));
        assert(e.drop_last() =~= d);
        assert(digit_value(dec_char(n % 10), 10) == Some(n % 10));
        assert(digits_value(e, 10) == digits_value(d, 10) * 10 + n % 10);
        assert forall|i: int| 0 <= i < e.len() implies (#[trigger] digit_value(e[i], 10)) is Some by {
            if i < d.len() {
                assert(e[i] == d[i]);
                assert(digit_value(d[i], 10) is Some);
            }
        }
        assert forall|i: int| 0 <= i < e.len() implies '0' <= #[trigger] e[i] <= '9' by {
            if i < d.len() {
                assert(e[i] == d[i]);
            }
        }
    } else {
        assert(decimal(n).drop_last() =~= Seq::<char>::empty());
        assert(digit_value(dec_char(n), 10) == Some(n));
        assert(digits_value(decimal(n), 10) == digits_value(Seq::<char>::empty(), 10) * 10 + n);
    }
}

proof fn lemma_parse_decimal(n: u16)
    ensures
        parse_u16_spec(decimal(n as nat), 10) == Some(n),
{
    lemma_decimal_digits(n as nat);
    assert(unsigned_digits(decimal(n as nat)) == decimal(n as nat));
}

proof fn lemma_generic_name_token(n: u16)
    ensures
        name_token("Effect "@ + decimal(n as nat)) == "effect_"@ + decimal(n as nat),
{
    reveal_strlit("Effect ");
    reveal_strlit("effect_");
    lemma_decimal_digits(n as nat);
    let s = "Effect "@ + decimal(n as nat);
    assert(trim_start(s) == s);
    assert(!is_ws(s.last()));
    assert(trim_end(s) == s);
    assert(name_token(s) =~= "effect_"@ + decimal(n as nat));
}

proof fn lemma_generic_lookup(n: u16)
    ensures
        effect_id_for_token("effect_"@ + decimal(n as nat)) == Some(n),
{
    reveal_strlit("effect_");
    reveal_strlit("vialrgb_");
    reveal_strlit("solid_color");
    reveal_strlit("alpha_mods");
    reveal_strlit("gradient_up_down");
    reveal_strlit("gradient_left_right");
    reveal_strlit("breathing");
    reveal_strlit("band_sat");
    reveal_strlit("band_val");
    reveal_strlit("band_pinwheel_sat");
    reveal_strlit("band_pinwheel_val");
    reveal_strlit("band_spiral_sat");
    reveal_strlit("band_spiral_val");
    reveal_strlit("cycle_all");
    reveal_strlit("cycle_left_right");
    reveal_strlit("cycle_up_down");
    reveal_strlit("rainbow_moving_chevron");
    reveal_strlit("cycle_out_in");
    reveal_strlit("cycle_out_in_dual");
    reveal_strlit("cycle_pinwheel");
    reveal_strlit("cycle_spiral");
    reveal_strlit("dual_beacon");
    reveal_strlit("rainbow_beacon");
    reveal_strlit("rainbow_pinwheels");
    reveal_strlit("flower_blooming");
    reveal_strlit("raindrops");
    reveal_strlit("jellybean_raindrops");
    reveal_strlit("hue_breathing");
    reveal_strlit("hue_pendulum");
    reveal_strlit("hue_wave");
    reveal_strlit("pixel_rain");
    reveal_strlit("pixel_flow");
    reveal_strlit("pixel_fractal");
    reveal_strlit("typing_heatmap");
    reveal_strlit("digital_rain");
    reveal_strlit("solid_reactive_simple");
    reveal_strlit("solid_reactive");
    reveal_strlit("solid_reactive_wide");
    reveal_strlit("solid_reactive_cross");
    reveal_strlit("solid_reactive_nexus");
    reveal_strlit("splash");
    reveal_strlit("solid_splash");
    reveal_strlit("starlight_smooth");
    reveal_strlit("starlight");
    reveal_strlit("starlight_dual_sat");
    reveal_strlit("starlight_dual_hue");
    reveal_strlit("riverflow");
    let t = "effect_"@ + decimal(n as nat);
    assert(t[0] == 'e');
    assert(!has_prefix(t, "vialrgb_"@)) by {
        assert(t.subrange(0, 8)[0] == 'e');
    }
    assert(has_prefix(t, "effect_"@)) by {
        assert(t.subrange(0, 7) =~= "effect_"@);
    }
    assert(t.skip(7) =~= decimal(n as nat));
    lemma_parse_decimal(n);
}

proof fn lemma_known_round_trip_2()
    ensures
        effect_id_for_token(name_token(effect_label(2))) == Some(2u16),
{
    reveal_strlit("Solid Color");
    reveal_strlit("solid_color");
    let lab = effect_label(2);
    assert(trim_start(lab) == lab);
    assert(trim_end(lab) == lab);
    assert(name_token(lab) =~= effect_token(2));
}

proof fn lemma_known_round_trip_3()
    ensures
        effect_id_for_token(name_token(effect_label(3))) == Some(3u16),
{
    reveal_strlit("Alpha Mods");
    reveal_strlit("solid_color");
    reveal_strlit("alpha_mods");
    let lab = effect_label(3);
    assert(trim_start(lab) == lab);
    assert(trim_end(lab) == lab);
    assert(name_token(lab) =~= effect_token(3));
}

proof fn lemma_known_round_trip_4()
    ensures
        effect_id_for_token(name_token(effect_label(4))) == Some(4u16),
{
    reveal_strlit("Gradient Up Down");
    reveal_strlit("solid_color");
    reveal_strlit("alpha_mods");
    reveal_strlit("gradient_up_down");
    let lab = effect_label(4);
    assert(trim_start(lab) == lab);
    assert(trim_end(lab) == lab);
    assert(name_token(lab) =~= effect_token(4));
}

proof fn lemma_known_round_trip_5()
    ensures
        effect_id_for_token(name_token(effect_label(5))) == Some(5u16),
{
    reveal_strlit("Gradient Left Right");
    reveal_strlit("solid_color");
    reveal_strlit("alpha_mods");
    reveal_strlit("gradient_up_down");
    reveal_strlit("gradient_left_right");
    let lab = effect_label(5);
    assert(trim_start(lab) == lab);
    assert(trim_end(lab) == lab);
    assert(name_token(lab) =~= effect_token(5));
}

proof fn lemma_known_round_trip_6()
    ensures
        effect_id_for_token(name_token(effect_label(6))) == Some(6u16),
{
    reveal_strlit("Breathing");
    reveal_strlit("solid_color");
    reveal_strlit("alpha_mods");
    reveal_strlit("gradient_up_down");
    reveal_strlit("gradient_left_right");
    reveal_strlit("breathing");
    let lab = effect_label(6);
    assert(trim_start(lab) == lab);
    assert(trim_end(lab) == lab);
    assert(name_token(lab) =~= effect_token(6));
}

proof fn lemma_known_round_trip_7()
    ensures
        effect_id_for_token(name_token(effect_label(7))) == Some(7u16),
{
    reveal_strlit("Band Sat");
    reveal_strlit("solid_color");
    reveal_strlit("alpha_mods");
    reveal_strlit("gradient_up_down");
    reveal_strlit("gradient_left_right");
    reveal_strlit("breathing");
    reveal_strlit("band_sat");
    let lab = effect_label(7);
    assert(trim_start(lab) == lab);
    assert(trim_end(lab) == lab);
    assert(name_token(lab) =~= effect_token(7));
}

proof fn lemma_known_round_trip_8()
    ensures
        effect_id_for_token(name_token(effect_label(8))) == Some(8u16),
{
    reveal_strlit("Band Val");
    reveal_strlit("solid_color");
    reveal_strlit("alpha_mods");
    reveal_strlit("gradient_up_down");
    reveal_strlit("gradient_left_right");
    reveal_strlit("breathing");
    reveal_strlit("band_sat");
    reveal_strlit("band_val");
    assert(effect_token(7)[5] != effect_token(8)[5]);
    let lab = effect_label(8);
    assert(trim_start(lab) == lab);
    assert(trim_end(lab) == lab);
    assert(name_token(lab) =~= effect_token(8));
}

proof fn lemma_known_round_trip_9()
    ensures
        effect_id_for_token(name_token(effect_label(9))) == Some(9u16),
{
    reveal_strlit("Band Pinwheel Sat");
    reveal_strlit("solid_color");
    reveal_strlit("alpha_mods");
    reveal_strlit("gradient_up_down");
    reveal_strlit("gradient_left_right");
    reveal_strlit("breathing");
    reveal_strlit("band_sat");
    reveal_strlit("band_val");
    reveal_strlit("band_pinwheel_sat");
    let lab = effect_label(9);
    assert(trim_start(lab) == lab);
    assert(trim_end(lab) == lab);
    assert(name_token(lab) =~= effect_token(9));
}

proof fn lemma_known_round_trip_10()
    ensures
        effect_id_for_token(name_token(effect_label(10))) == Some(10u16),
{
    reveal_strlit("Band Pinwheel Val");
    reveal_strlit("solid_color");
    reveal_strlit("alpha_mods");
    reveal_strlit("gradient_up_down");
    reveal_strlit("gradient_left_right");
    reveal_strlit("breathing");
    reveal_strlit("band_sat");
    reveal_strlit("band_val");
    reveal_strlit("band_pinwheel_sat");
    reveal_strlit("band_pinwheel_val");
    assert(effect_token(9)[14] != effect_token(10)[14]);
    let lab = effect_label(10);
    assert(trim_start(lab) == lab);
    assert(trim_end(lab) == lab);
    assert(name_token(lab) =~= effect_token(10));
}

proof fn lemma_known_round_trip_11()
    ensures
        effect_id_for_token(name_token(effect_label(11))) == Some(11u16),
{
    reveal_strlit("Band Spiral Sat");
    reveal_strlit("solid_color");
    reveal_strlit("alpha_mods");
    reveal_strlit("gradient_up_down");
    reveal_strlit("gradient_left_right");
    reveal_strlit("breathing");
    reveal_strlit("band_sat");
    reveal_strlit("band_val");
    reveal_strlit("band_pinwheel_sat");
    reveal_strlit("band_pinwheel_val");
    reveal_strlit("band_spiral_sat");
    let lab = effect_label(11);
    assert(trim_start(lab) == lab);
    assert(trim_end(lab) == lab);
    assert(name_token(lab) =~= effect_token(11));
}

proof fn lemma_known_round_trip_12()
    ensures
        effect_id_for_token(name_token(effect_label(12))) == Some(12u16),
{
    reveal_strlit("Band Spiral Val");
    reveal_strlit("solid_color");
    reveal_strlit("alpha_mods");
    reveal_strlit("gradient_up_down");
    reveal_strlit("gradient_left_right");
    reveal_strlit("breathing");
    reveal_strlit("band_sat");
    reveal_strlit("band_val");
    reveal_strlit("band_pinwheel_sat");
    reveal_strlit("band_pinwheel_val");
    reveal_strlit("band_spiral_sat");
    reveal_strlit("band_spiral_val");
    assert(effect_token(11)[12] != effect_token(12)[12]);
    let lab = effect_label(12);
    assert(trim_start(lab) == lab);
    assert(trim_end(lab) == lab);
    assert(name_token(lab) =~= effect_token(12));
}

proof fn lemma_known_round_trip_13()
    ensures
        effect_id_for_token(name_token(effect_label(13))) == Some(13u16),
{
    reveal_strlit("Cycle All");
    reveal_strlit("solid_color");
    reveal_strlit("alpha_mods");
    reveal_strlit("gradient_up_down");
    reveal_strlit("gradient_left_right");
    reveal_strlit("breathing");
    reveal_strlit("band_sat");
    reveal_strlit("band_val");
    reveal_strlit("band_pinwheel_sat");
    reveal_strlit("band_pinwheel_val");
    reveal_strlit("band_spiral_sat");
    reveal_strlit("band_spiral_val");
    reveal_strlit("cycle_all");
    assert(effect_token(6)[0] != effect_token(13)[0]);
    let lab = effect_label(13);
    assert(trim_start(lab) == lab);
    assert(trim_end(lab) == lab);
    assert(name_token(lab) =~= effect_token(13));
}

proof fn lemma_known_round_trip_14()
    ensures
        effect_id_for_token(name_token(effect_label(14))) == Some(14u16),
{
    reveal_strlit("Cycle Left Right");
    reveal_strlit("solid_color");
    reveal_strlit("alpha_mods");
    reveal_strlit("gradient_up_down");
    reveal_strlit("gradient_left_right");
    reveal_strlit("breathing");
    reveal_strlit("band_sat");
    reveal_strlit("band_val");
    reveal_strlit("band_pinwheel_sat");
    reveal_strlit("band_pinwheel_val");
    reveal_strlit("band_spiral_sat");
    reveal_strlit("band_spiral_val");
    reveal_strlit("cycle_all");
    reveal_strlit("cycle_left_right");
    assert(effect_token(4)[0] != effect_token(14)[0]);
    let lab = effect_label(14);
    assert(trim_start(lab) == lab);
    assert(trim_end(lab) == lab);
    assert(name_token(lab) =~= effect_token(14));
}

proof fn lemma_known_round_trip_15()
    ensures
        effect_id_for_token(name_token(effect_label(15))) == Some(15u16),
{
    reveal_strlit("Cycle Up Down");
    reveal_strlit("solid_color");
    reveal_strlit("alpha_mods");
    reveal_strlit("gradient_up_down");
    reveal_strlit("gradient_left_right");
    reveal_strlit("breathing");
    reveal_strlit("band_sat");
    reveal_strlit("band_val");
    reveal_strlit("band_pinwheel_sat");
    reveal_strlit("band_pinwheel_val");
    reveal_strlit("band_spiral_sat");
    reveal_strlit("band_spiral_val");
    reveal_strlit("cycle_all");
    reveal_strlit("cycle_left_right");
    reveal_strlit("cycle_up_down");
    let lab = effect_label(15);
    assert(trim_start(lab) == lab);
    assert(trim_end(lab) == lab);
    assert(name_token(lab) =~= effect_token(15));
}

proof fn lemma_known_round_trip_16()
    ensures
        effect_id_for_token(name_token(effect_label(16))) == Some(16u16),
{
    reveal_strlit("Rainbow Moving Chevron");
    reveal_strlit("solid_color");
    reveal_strlit("alpha_mods");
    reveal_strlit("gradient_up_down");
    reveal_strlit("gradient_left_right");
    reveal_strlit("breathing");
    reveal_strlit("band_sat");
    reveal_strlit("band_val");
    reveal_strlit("band_pinwheel_sat");
    reveal_strlit("band_pinwheel_val");
    reveal_strlit("band_spiral_sat");
    reveal_strlit("band_spiral_val");
    reveal_strlit("cycle_all");
    reveal_strlit("cycle_left_right");
    reveal_strlit("cycle_up_down");
    reveal_strlit("rainbow_moving_chevron");
    let lab = effect_label(16);
    assert(trim_start(lab) == lab);
    assert(trim_end(lab) == lab);
    assert(name_token(lab) =~= effect_token(16));
}

proof fn lemma_known_round_trip_17()
    ensures
        effect_id_for_token(name_token(effect_label(17))) == Some(17u16),
{
    reveal_strlit("Cycle Out In");
    reveal_strlit("solid_color");
    reveal_strlit("alpha_mods");
    reveal_strlit("gradient_up_down");
    reveal_strlit("gradient_left_right");
    reveal_strlit("breathing");
    reveal_strlit("band_sat");
    reveal_strlit("band_val");
    reveal_strlit("band_pinwheel_sat");
    reveal_strlit("band_pinwheel_val");
    reveal_strlit("band_spiral_sat");
    reveal_strlit("band_spiral_val");
    reveal_strlit("cycle_all");
    reveal_strlit("cycle_left_right");
    reveal_strlit("cycle_up_down");
    reveal_strlit("rainbow_moving_chevron");
    reveal_strlit("cycle_out_in");
    let lab = effect_label(17);
    assert(trim_start(lab) == lab);
    assert(trim_end(lab) == lab);
    assert(name_token(lab) =~= effect_token(17));
}

proof fn lemma_known_round_trip_18()
    ensures
        effect_id_for_token(name_token(effect_label(18))) == Some(18u16),
{
    reveal_strlit("Cycle Out In Dual");
    reveal_strlit("solid_color");
    reveal_strlit("alpha_mods");
    reveal_strlit("gradient_up_down");
    reveal_strlit("gradient_left_right");
    reveal_strlit("breathing");
    reveal_strlit("band_sat");
    reveal_strlit("band_val");
    reveal_strlit("band_pinwheel_sat");
    reveal_strlit("band_pinwheel_val");
    reveal_strlit("band_spiral_sat");
    reveal_strlit("band_spiral_val");
    reveal_strlit("cycle_all");
    reveal_strlit("cycle_left_right");
    reveal_strlit("cycle_up_down");
    reveal_strlit("rainbow_moving_chevron");
    reveal_strlit("cycle_out_in");
    reveal_strlit("cycle_out_in_dual");
    assert(effect_token(9)[0] != effect_token(18)[0]);
    assert(effect_token(10)[0] != effect_token(18)[0]);
    let lab = effect_label(18);
    assert(trim_start(lab) == lab);
    assert(trim_end(lab) == lab);
    assert(name_token(lab) =~= effect_token(18));
}

proof fn lemma_known_round_trip_19()
    ensures
        effect_id_for_token(name_token(effect_label(19))) == Some(19u16),
{
    reveal_strlit("Cycle Pinwheel");
    reveal_strlit("solid_color");
    reveal_strlit("alpha_mods");
    reveal_strlit("gradient_up_down");
    reveal_strlit("gradient_left_right");
    reveal_strlit("breathing");
    reveal_strlit("band_sat");
    reveal_strlit("band_val");
    reveal_strlit("band_pinwheel_sat");
    reveal_strlit("band_pinwheel_val");
    reveal_strlit("band_spiral_sat");
    reveal_strlit("band_spiral_val");
    reveal_strlit("cycle_all");
    reveal_strlit("cycle_left_right");
    reveal_strlit("cycle_up_down");
    reveal_strlit("rainbow_moving_chevron");
    reveal_strlit("cycle_out_in");
    reveal_strlit("cycle_out_in_dual");
    reveal_strlit("cycle_pinwheel");
    let lab = effect_label(19);
    assert(trim_start(lab) == lab);
    assert(trim_end(lab) == lab);
    assert(name_token(lab) =~= effect_token(19));
}

proof fn lemma_known_round_trip_20()
    ensures
        effect_id_for_token(name_token(effect_label(20))) == Some(20u16),
{
    reveal_strlit("Cycle Spiral");
    reveal_strlit("solid_color");
    reveal_strlit("alpha_mods");
    reveal_strlit("gradient_up_down");
    reveal_strlit("gradient_left_right");
    reveal_strlit("breathing");
    reveal_strlit("band_sat");
    reveal_strlit("band_val");
    reveal_strlit("band_pinwheel_sat");
    reveal_strlit("band_pinwheel_val");
    reveal_strlit("band_spiral_sat");
    reveal_strlit("band_spiral_val");
    reveal_strlit("cycle_all");
    reveal_strlit("cycle_left_right");
    reveal_strlit("cycle_up_down");
    reveal_strlit("rainbow_moving_chevron");
    reveal_strlit("cycle_out_in");
    reveal_strlit("cycle_out_in_dual");
    reveal_strlit("cycle_pinwheel");
    reveal_strlit("cycle_spiral");
    assert(effect_token(17)[6] != effect_token(20)[6]);
    let lab = effect_label(20);
    assert(trim_start(lab) == lab);
    assert(trim_end(lab) == lab);
    assert(name_token(lab) =~= effect_token(20));
}

proof fn lemma_known_round_trip_21()
    ensures
        effect_id_for_token(name_token(effect_label(21))) == Some(21u16),
{
    reveal_strlit("Dual Beacon");
    reveal_strlit("solid_color");
    reveal_strlit("alpha_mods");
    reveal_strlit("gradient_up_down");
    reveal_strlit("gradient_left_right");
    reveal_strlit("breathing");
    reveal_strlit("band_sat");
    reveal_strlit("band_val");
    reveal_strlit("band_pinwheel_sat");
    reveal_strlit("band_pinwheel_val");
    reveal_strlit("band_spiral_sat");
    reveal_strlit("band_spiral_val");
    reveal_strlit("cycle_all");
    reveal_strlit("cycle_left_right");
    reveal_strlit("cycle_up_down");
    reveal_strlit("rainbow_moving_chevron");
    reveal_strlit("cycle_out_in");
    reveal_strlit("cycle_out_in_dual");
    reveal_strlit("cycle_pinwheel");
    reveal_strlit("cycle_spiral");
    reveal_strlit("dual_beacon");
    assert(effect_token(2)[0] != effect_token(21)[0]);
    let lab = effect_label(21);
    assert(trim_start(lab) == lab);
    assert(trim_end(lab) == lab);
    assert(name_token(lab) =~= effect_token(21));
}

proof fn lemma_known_round_trip_22()
    ensures
        effect_id_for_token(name_token(effect_label(22))) == Some(22u16),
{
    reveal_strlit("Rainbow Beacon");
    reveal_strlit("solid_color");
    reveal_strlit("alpha_mods");
    reveal_strlit("gradient_up_down");
    reveal_strlit("gradient_left_right");
    reveal_strlit("breathing");
    reveal_strlit("band_sat");
    reveal_strlit("band_val");
    reveal_strlit("band_pinwheel_sat");
    reveal_strlit("band_pinwheel_val");
    reveal_strlit("band_spiral_sat");
    reveal_strlit("band_spiral_val");
    reveal_strlit("cycle_all");
    reveal_strlit("cycle_left_right");
    reveal_strlit("cycle_up_down");
    reveal_strlit("rainbow_moving_chevron");
    reveal_strlit("cycle_out_in");
    reveal_strlit("cycle_out_in_dual");
    reveal_strlit("cycle_pinwheel");
    reveal_strlit("cycle_spiral");
    reveal_strlit("dual_beacon");
    reveal_strlit("rainbow_beacon");
    assert(effect_token(19)[0] != effect_token(22)[0]);
    let lab = effect_label(22);
    assert(trim_start(lab) == lab);
    assert(trim_end(lab) == lab);
    assert(name_token(lab) =~= effect_token(22));
}

proof fn lemma_known_round_trip_23()
    ensures
        effect_id_for_token(name_token(effect_label(23))) == Some(23u16),
{
    reveal_strlit("Rainbow Pinwheels");
    reveal_strlit("solid_color");
    reveal_strlit("alpha_mods");
    reveal_strlit("gradient_up_down");
    reveal_strlit("gradient_left_right");
    reveal_strlit("breathing");
    reveal_strlit("band_sat");
    reveal_strlit("band_val");
    reveal_strlit("band_pinwheel_sat");
    reveal_strlit("band_pinwheel_val");
    reveal_strlit("band_spiral_sat");
    reveal_strlit("band_spiral_val");
    reveal_strlit("cycle_all");
    reveal_strlit("cycle_left_right");
    reveal_strlit("cycle_up_down");
    reveal_strlit("rainbow_moving_chevron");
    reveal_strlit("cycle_out_in");
    reveal_strlit("cycle_out_in_dual");
    reveal_strlit("cycle_pinwheel");
    reveal_strlit("cycle_spiral");
    reveal_strlit("dual_beacon");
    reveal_strlit("rainbow_beacon");
    reveal_strlit("rainbow_pinwheels");
    assert(effect_token(9)[0] != effect_token(23)[0]);
    assert(effect_token(10)[0] != effect_token(23)[0]);
    assert(effect_token(18)[0] != effect_token(23)[0]);
    let lab = effect_label(23);
    assert(trim_start(lab) == lab);
    assert(trim_end(lab) == lab);
    assert(name_token(lab) =~= effect_token(23));
}

proof fn lemma_known_round_trip_24()
    ensures
        effect_id_for_token(name_token(effect_label(24))) == Some(24u16),
{
    reveal_strlit("Flower Blooming");
    reveal_strlit("solid_color");
    reveal_strlit("alpha_mods");
    reveal_strlit("gradient_up_down");
    reveal_strlit("gradient_left_right");
    reveal_strlit("breathing");
    reveal_strlit("band_sat");
    reveal_strlit("band_val");
    reveal_strlit("band_pinwheel_sat");
    reveal_strlit("band_pinwheel_val");
    reveal_strlit("band_spiral_sat");
    reveal_strlit("band_spiral_val");
    reveal_strlit("cycle_all");
    reveal_strlit("cycle_left_right");
    reveal_strlit("cycle_up_down");
    reveal_strlit("rainbow_moving_chevron");
    reveal_strlit("cycle_out_in");
    reveal_strlit("cycle_out_in_dual");
    reveal_strlit("cycle_pinwheel");
    reveal_strlit("cycle_spiral");
    reveal_strlit("dual_beacon");
    reveal_strlit("rainbow_beacon");
    reveal_strlit("rainbow_pinwheels");
    reveal_strlit("flower_blooming");
    assert(effect_token(11)[0] != effect_token(24)[0]);
    assert(effect_token(12)[0] != effect_token(24)[0]);
    let lab = effect_label(24);
    assert(trim_start(lab) == lab);
    assert(trim_end(lab) == lab);
    assert(name_token(lab) =~= effect_token(24));
}

proof fn lemma_known_round_trip_25()
    ensures
        effect_id_for_token(name_token(effect_label(25))) == Some(25u16),
{
    reveal_strlit("Raindrops");
    reveal_strlit("solid_color");
    reveal_strlit("alpha_mods");
    reveal_strlit("gradient_up_down");
    reveal_strlit("gradient_left_right");
    reveal_strlit("breathing");
    reveal_strlit("band_sat");
    reveal_strlit("band_val");
    reveal_strlit("band_pinwheel_sat");
    reveal_strlit("band_pinwheel_val");
    reveal_strlit("band_spiral_sat");
    reveal_strlit("band_spiral_val");
    reveal_strlit("cycle_all");
    reveal_strlit("cycle_left_right");
    reveal_strlit("cycle_up_down");
    reveal_strlit("rainbow_moving_chevron");
    reveal_strlit("cycle_out_in");
    reveal_strlit("cycle_out_in_dual");
    reveal_strlit("cycle_pinwheel");
    reveal_strlit("cycle_spiral");
    reveal_strlit("dual_beacon");
    reveal_strlit("rainbow_beacon");
    reveal_strlit("rainbow_pinwheels");
    reveal_strlit("flower_blooming");
    reveal_strlit("raindrops");
    assert(effect_token(6)[0] != effect_token(25)[0]);
    assert(effect_token(13)[0] != effect_token(25)[0]);
    let lab = effect_label(25);
    assert(trim_start(lab) == lab);
    assert(trim_end(lab) == lab);
    assert(name_token(lab) =~= effect_token(25));
}

proof fn lemma_known_round_trip_26()
    ensures
        effect_id_for_token(name_token(effect_label(26))) == Some(26u16),
{
    reveal_strlit("Jellybean Raindrops");
    reveal_strlit("solid_color");
    reveal_strlit("alpha_mods");
    reveal_strlit("gradient_up_down");
    reveal_strlit("gradient_left_right");
    reveal_strlit("breathing");
    reveal_strlit("band_sat");
    reveal_strlit("band_val");
    reveal_strlit("band_pinwheel_sat");
    reveal_strlit("band_pinwheel_val");
    reveal_strlit("band_spiral_sat");
    reveal_strlit("band_spiral_val");
    reveal_strlit("cycle_all");
    reveal_strlit("cycle_left_right");
    reveal_strlit("cycle_up_down");
    reveal_strlit("rainbow_moving_chevron");
    reveal_strlit("cycle_out_in");
    reveal_strlit("cycle_out_in_dual");
    reveal_strlit("cycle_pinwheel");
    reveal_strlit("cycle_spiral");
    reveal_strlit("dual_beacon");
    reveal_strlit("rainbow_beacon");
    reveal_strlit("rainbow_pinwheels");
    reveal_strlit("flower_blooming");
    reveal_strlit("raindrops");
    reveal_strlit("jellybean_raindrops");
    assert(effect_token(5)[0] != effect_token(26)[0]);
    let lab = effect_label(26);
    assert(trim_start(lab) == lab);
    assert(trim_end(lab) == lab);
    assert(name_token(lab) =~= effect_token(26));
}

proof fn lemma_known_round_trip_27()
    ensures
        effect_id_for_token(name_token(effect_label(27))) == Some(27u16),
{
    reveal_strlit("Hue Breathing");
    reveal_strlit("solid_color");
    reveal_strlit("alpha_mods");
    reveal_strlit("gradient_up_down");
    reveal_strlit("gradient_left_right");
    reveal_strlit("breathing");
    reveal_strlit("band_sat");
    reveal_strlit("band_val");
    reveal_strlit("band_pinwheel_sat");
    reveal_strlit("band_pinwheel_val");
    reveal_strlit("band_spiral_sat");
    reveal_strlit("band_spiral_val");
    reveal_strlit("cycle_all");
    reveal_strlit("cycle_left_right");
    reveal_strlit("cycle_up_down");
    reveal_strlit("rainbow_moving_chevron");
    reveal_strlit("cycle_out_in");
    reveal_strlit("cycle_out_in_dual");
    reveal_strlit("cycle_pinwheel");
    reveal_strlit("cycle_spiral");
    reveal_strlit("dual_beacon");
    reveal_strlit("rainbow_beacon");
    reveal_strlit("rainbow_pinwheels");
    reveal_strlit("flower_blooming");
    reveal_strlit("raindrops");
    reveal_strlit("jellybean_raindrops");
    reveal_strlit("hue_breathing");
    assert(effect_token(15)[0] != effect_token(27)[0]);
    let lab = effect_label(27);
    assert(trim_start(lab) == lab);
    assert(trim_end(lab) == lab);
    assert(name_token(lab) =~= effect_token(27));
}

proof fn lemma_known_round_trip_28()
    ensures
        effect_id_for_token(name_token(effect_label(28))) == Some(28u16),
{
    reveal_strlit("Hue Pendulum");
    reveal_strlit("solid_color");
    reveal_strlit("alpha_mods");
    reveal_strlit("gradient_up_down");
    reveal_strlit("gradient_left_right");
    reveal_strlit("breathing");
    reveal_strlit("band_sat");
    reveal_strlit("band_val");
    reveal_strlit("band_pinwheel_sat");
    reveal_strlit("band_pinwheel_val");
    reveal_strlit("band_spiral_sat");
    reveal_strlit("band_spiral_val");
    reveal_strlit("cycle_all");
    reveal_strlit("cycle_left_right");
    reveal_strlit("cycle_up_down");
    reveal_strlit("rainbow_moving_chevron");
    reveal_strlit("cycle_out_in");
    reveal_strlit("cycle_out_in_dual");
    reveal_strlit("cycle_pinwheel");
    reveal_strlit("cycle_spiral");
    reveal_strlit("dual_beacon");
    reveal_strlit("rainbow_beacon");
    reveal_strlit("rainbow_pinwheels");
    reveal_strlit("flower_blooming");
    reveal_strlit("raindrops");
    reveal_strlit("jellybean_raindrops");
    reveal_strlit("hue_breathing");
    reveal_strlit("hue_pendulum");
    assert(effect_token(17)[0] != effect_token(28)[0]);
    assert(effect_token(20)[0] != effect_token(28)[0]);
    let lab = effect_label(28);
    assert(trim_start(lab) == lab);
    assert(trim_end(lab) == lab);
    assert(name_token(lab) =~= effect_token(28));
}

proof fn lemma_known_round_trip_29()
    ensures
        effect_id_for_token(name_token(effect_label(29))) == Some(29u16),
{
    reveal_strlit("Hue Wave");
    reveal_strlit("solid_color");
    reveal_strlit("alpha_mods");
    reveal_strlit("gradient_up_down");
    reveal_strlit("gradient_left_right");
    reveal_strlit("breathing");
    reveal_strlit("band_sat");
    reveal_strlit("band_val");
    reveal_strlit("band_pinwheel_sat");
    reveal_strlit("band_pinwheel_val");
    reveal_strlit("band_spiral_sat");
    reveal_strlit("band_spiral_val");
    reveal_strlit("cycle_all");
    reveal_strlit("cycle_left_right");
    reveal_strlit("cycle_up_down");
    reveal_strlit("rainbow_moving_chevron");
    reveal_strlit("cycle_out_in");
    reveal_strlit("cycle_out_in_dual");
    reveal_strlit("cycle_pinwheel");
    reveal_strlit("cycle_spiral");
    reveal_strlit("dual_beacon");
    reveal_strlit("rainbow_beacon");
    reveal_strlit("rainbow_pinwheels");
    reveal_strlit("flower_blooming");
    reveal_strlit("raindrops");
    reveal_strlit("jellybean_raindrops");
    reveal_strlit("hue_breathing");
    reveal_strlit("hue_pendulum");
    reveal_strlit("hue_wave");
    assert(effect_token(7)[0] != effect_token(29)[0]);
    assert(effect_token(8)[0] != effect_token(29)[0]);
    let lab = effect_label(29);
    assert(trim_start(lab) == lab);
    assert(trim_end(lab) == lab);
    assert(name_token(lab) =~= effect_token(29));
}

proof fn lemma_known_round_trip_30()
    ensures
        effect_id_for_token(name_token(effect_label(30))) == Some(30u16),
{
    reveal_strlit("Pixel Rain");
    reveal_strlit("solid_color");
    reveal_strlit("alpha_mods");
    reveal_strlit("gradient_up_down");
    reveal_strlit("gradient_left_right");
    reveal_strlit("breathing");
    reveal_strlit("band_sat");
    reveal_strlit("band_val");
    reveal_strlit("band_pinwheel_sat");
    reveal_strlit("band_pinwheel_val");
    reveal_strlit("band_spiral_sat");
    reveal_strlit("band_spiral_val");
    reveal_strlit("cycle_all");
    reveal_strlit("cycle_left_right");
    reveal_strlit("cycle_up_down");
    reveal_strlit("rainbow_moving_chevron");
    reveal_strlit("cycle_out_in");
    reveal_strlit("cycle_out_in_dual");
    reveal_strlit("cycle_pinwheel");
    reveal_strlit("cycle_spiral");
    reveal_strlit("dual_beacon");
    reveal_strlit("rainbow_beacon");
    reveal_strlit("rainbow_pinwheels");
    reveal_strlit("flower_blooming");
    reveal_strlit("raindrops");
    reveal_strlit("jellybean_raindrops");
    reveal_strlit("hue_breathing");
    reveal_strlit("hue_pendulum");
    reveal_strlit("hue_wave");
    reveal_strlit("pixel_rain");
    assert(effect_token(3)[0] != effect_token(30)[0]);
    let lab = effect_label(30);
    assert(trim_start(lab) == lab);
    assert(trim_end(lab) == lab);
    assert(name_token(lab) =~= effect_token(30));
}

proof fn lemma_known_round_trip_31()
    ensures
        effect_id_for_token(name_token(effect_label(31))) == Some(31u16),
{
    reveal_strlit("Pixel Flow");
    reveal_strlit("solid_color");
    reveal_strlit("alpha_mods");
    reveal_strlit("gradient_up_down");
    reveal_strlit("gradient_left_right");
    reveal_strlit("breathing");
    reveal_strlit("band_sat");
    reveal_strlit("band_val");
    reveal_strlit("band_pinwheel_sat");
    reveal_strlit("band_pinwheel_val");
    reveal_strlit("band_spiral_sat");
    reveal_strlit("band_spiral_val");
    reveal_strlit("cycle_all");
    reveal_strlit("cycle_left_right");
    reveal_strlit("cycle_up_down");
    reveal_strlit("rainbow_moving_chevron");
    reveal_strlit("cycle_out_in");
    reveal_strlit("cycle_out_in_dual");
    reveal_strlit("cycle_pinwheel");
    reveal_strlit("cycle_spiral");
    reveal_strlit("dual_beacon");
    reveal_strlit("rainbow_beacon");
    reveal_strlit("rainbow_pinwheels");
    reveal_strlit("flower_blooming");
    reveal_strlit("raindrops");
    reveal_strlit("jellybean_raindrops");
    reveal_strlit("hue_breathing");
    reveal_strlit("hue_pendulum");
    reveal_strlit("hue_wave");
    reveal_strlit("pixel_rain");
    reveal_strlit("pixel_flow");
    assert(effect_token(3)[0] != effect_token(31)[0]);
    assert(effect_token(30)[6] != effect_token(31)[6]);
    let lab = effect_label(31);
    assert(trim_start(lab) == lab);
    assert(trim_end(lab) == lab);
    assert(name_token(lab) =~= effect_token(31));
}

proof fn lemma_known_round_trip_32()
    ensures
        effect_id_for_token(name_token(effect_label(32))) == Some(32u16),
{
    reveal_strlit("Pixel Fractal");
    reveal_strlit("solid_color");
    reveal_strlit("alpha_mods");
    reveal_strlit("gradient_up_down");
    reveal_strlit("gradient_left_right");
    reveal_strlit("breathing");
    reveal_strlit("band_sat");
    reveal_strlit("band_val");
    reveal_strlit("band_pinwheel_sat");
    reveal_strlit("band_pinwheel_val");
    reveal_strlit("band_spiral_sat");
    reveal_strlit("band_spiral_val");
    reveal_strlit("cycle_all");
    reveal_strlit("cycle_left_right");
    reveal_strlit("cycle_up_down");
    reveal_strlit("rainbow_moving_chevron");
    reveal_strlit("cycle_out_in");
    reveal_strlit("cycle_out_in_dual");
    reveal_strlit("cycle_pinwheel");
    reveal_strlit("cycle_spiral");
    reveal_strlit("dual_beacon");
    reveal_strlit("rainbow_beacon");
    reveal_strlit("rainbow_pinwheels");
    reveal_strlit("flower_blooming");
    reveal_strlit("raindrops");
    reveal_strlit("jellybean_raindrops");
    reveal_strlit("hue_breathing");
    reveal_strlit("hue_pendulum");
    reveal_strlit("hue_wave");
    reveal_strlit("pixel_rain");
    reveal_strlit("pixel_flow");
    reveal_strlit("pixel_fractal");
    assert(effect_token(15)[0] != effect_token(32)[0]);
    assert(effect_token(27)[0] != effect_token(32)[0]);
    let lab = effect_label(32);
    assert(trim_start(lab) == lab);
    assert(trim_end(lab) == lab);
    assert(name_token(lab) =~= effect_token(32));
}

proof fn lemma_known_round_trip_33()
    ensures
        effect_id_for_token(name_token(effect_label(33))) == Some(33u16),
{
    reveal_strlit("Typing Heatmap");
    reveal_strlit("solid_color");
    reveal_strlit("alpha_mods");
    reveal_strlit("gradient_up_down");
    reveal_strlit("gradient_left_right");
    reveal_strlit("breathing");
    reveal_strlit("band_sat");
    reveal_strlit("band_val");
    reveal_strlit("band_pinwheel_sat");
    reveal_strlit("band_pinwheel_val");
    reveal_strlit("band_spiral_sat");
    reveal_strlit("band_spiral_val");
    reveal_strlit("cycle_all");
    reveal_strlit("cycle_left_right");
    reveal_strlit("cycle_up_down");
    reveal_strlit("rainbow_moving_chevron");
    reveal_strlit("cycle_out_in");
    reveal_strlit("cycle_out_in_dual");
    reveal_strlit("cycle_pinwheel");
    reveal_strlit("cycle_spiral");
    reveal_strlit("dual_beacon");
    reveal_strlit("rainbow_beacon");
    reveal_strlit("rainbow_pinwheels");
    reveal_strlit("flower_blooming");
    reveal_strlit("raindrops");
    reveal_strlit("jellybean_raindrops");
    reveal_strlit("hue_breathing");
    reveal_strlit("hue_pendulum");
    reveal_strlit("hue_wave");
    reveal_strlit("pixel_rain");
    reveal_strlit("pixel_flow");
    reveal_strlit("pixel_fractal");
    reveal_strlit("typing_heatmap");
    assert(effect_token(19)[0] != effect_token(33)[0]);
    assert(effect_token(22)[0] != effect_token(33)[0]);
    let lab = effect_label(33);
    assert(trim_start(lab) == lab);
    assert(trim_end(lab) == lab);
    assert(name_token(lab) =~= effect_token(33));
}

proof fn lemma_known_round_trip_34()
    ensures
        effect_id_for_token(name_token(effect_label(34))) == Some(34u16),
{
    reveal_strlit("Digital Rain");
    reveal_strlit("solid_color");
    reveal_strlit("alpha_mods");
    reveal_strlit("gradient_up_down");
    reveal_strlit("gradient_left_right");
    reveal_strlit("breathing");
    reveal_strlit("band_sat");
    reveal_strlit("band_val");
    reveal_strlit("band_pinwheel_sat");
    reveal_strlit("band_pinwheel_val");
    reveal_strlit("band_spiral_sat");
    reveal_strlit("band_spiral_val");
    reveal_strlit("cycle_all");
    reveal_strlit("cycle_left_right");
    reveal_strlit("cycle_up_down");
    reveal_strlit("rainbow_moving_chevron");
    reveal_strlit("cycle_out_in");
    reveal_strlit("cycle_out_in_dual");
    reveal_strlit("cycle_pinwheel");
    reveal_strlit("cycle_spiral");
    reveal_strlit("dual_beacon");
    reveal_strlit("rainbow_beacon");
    reveal_strlit("rainbow_pinwheels");
    reveal_strlit("flower_blooming");
    reveal_strlit("raindrops");
    reveal_strlit("jellybean_raindrops");
    reveal_strlit("hue_breathing");
    reveal_strlit("hue_pendulum");
    reveal_strlit("hue_wave");
    reveal_strlit("pixel_rain");
    reveal_strlit("pixel_flow");
    reveal_strlit("pixel_fractal");
    reveal_strlit("typing_heatmap");
    reveal_strlit("digital_rain");
    assert(effect_token(17)[0] != effect_token(34)[0]);
    assert(effect_token(20)[0] != effect_token(34)[0]);
    assert(effect_token(28)[0] != effect_token(34)[0]);
    let lab = effect_label(34);
    assert(trim_start(lab) == lab);
    assert(trim_end(lab) == lab);
    assert(name_token(lab) =~= effect_token(34));
}

proof fn lemma_known_round_trip_35()
    ensures
        effect_id_for_token(name_token(effect_label(35))) == Some(35u16),
{
    reveal_strlit("Solid Reactive Simple");
    reveal_strlit("solid_color");
    reveal_strlit("alpha_mods");
    reveal_strlit("gradient_up_down");
    reveal_strlit("gradient_left_right");
    reveal_strlit("breathing");
    reveal_strlit("band_sat");
    reveal_strlit("band_val");
    reveal_strlit("band_pinwheel_sat");
    reveal_strlit("band_pinwheel_val");
    reveal_strlit("band_spiral_sat");
    reveal_strlit("band_spiral_val");
    reveal_strlit("cycle_all");
    reveal_strlit("cycle_left_right");
    reveal_strlit("cycle_up_down");
    reveal_strlit("rainbow_moving_chevron");
    reveal_strlit("cycle_out_in");
    reveal_strlit("cycle_out_in_dual");
    reveal_strlit("cycle_pinwheel");
    reveal_strlit("cycle_spiral");
    reveal_strlit("dual_beacon");
    reveal_strlit("rainbow_beacon");
    reveal_strlit("rainbow_pinwheels");
    reveal_strlit("flower_blooming");
    reveal_strlit("raindrops");
    reveal_strlit("jellybean_raindrops");
    reveal_strlit("hue_breathing");
    reveal_strlit("hue_pendulum");
    reveal_strlit("hue_wave");
    reveal_strlit("pixel_rain");
    reveal_strlit("pixel_flow");
    reveal_strlit("pixel_fractal");
    reveal_strlit("typing_heatmap");
    reveal_strlit("digital_rain");
    reveal_strlit("solid_reactive_simple");
    let lab = effect_label(35);
    assert(trim_start(lab) == lab);
    assert(trim_end(lab) == lab);
    assert(name_token(lab) =~= effect_token(35));
}

proof fn lemma_known_round_trip_36()
    ensures
        effect_id_for_token(name_token(effect_label(36))) == Some(36u16),
{
    reveal_strlit("Solid Reactive");
    reveal_strlit("solid_color");
    reveal_strlit("alpha_mods");
    reveal_strlit("gradient_up_down");
    reveal_strlit("gradient_left_right");
    reveal_strlit("breathing");
    reveal_strlit("band_sat");
    reveal_strlit("band_val");
    reveal_strlit("band_pinwheel_sat");
    reveal_strlit("band_pinwheel_val");
    reveal_strlit("band_spiral_sat");
    reveal_strlit("band_spiral_val");
    reveal_strlit("cycle_all");
    reveal_strlit("cycle_left_right");
    reveal_strlit("cycle_up_down");
    reveal_strlit("rainbow_moving_chevron");
    reveal_strlit("cycle_out_in");
    reveal_strlit("cycle_out_in_dual");
    reveal_strlit("cycle_pinwheel");
    reveal_strlit("cycle_spiral");
    reveal_strlit("dual_beacon");
    reveal_strlit("rainbow_beacon");
    reveal_strlit("rainbow_pinwheels");
    reveal_strlit("flower_blooming");
    reveal_strlit("raindrops");
    reveal_strlit("jellybean_raindrops");
    reveal_strlit("hue_breathing");
    reveal_strlit("hue_pendulum");
    reveal_strlit("hue_wave");
    reveal_strlit("pixel_rain");
    reveal_strlit("pixel_flow");
    reveal_strlit("pixel_fractal");
    reveal_strlit("typing_heatmap");
    reveal_strlit("digital_rain");
    reveal_strlit("solid_reactive_simple");
    reveal_strlit("solid_reactive");
    assert(effect_token(19)[0] != effect_token(36)[0]);
    assert(effect_token(22)[0] != effect_token(36)[0]);
    assert(effect_token(33)[0] != effect_token(36)[0]);
    let lab = effect_label(36);
    assert(trim_start(lab) == lab);
    assert(trim_end(lab) == lab);
    assert(name_token(lab) =~= effect_token(36));
}

proof fn lemma_known_round_trip_37()
    ensures
        effect_id_for_token(name_token(effect_label(37))) == Some(37u16),
{
    reveal_strlit("Solid Reactive Wide");
    reveal_strlit("solid_color");
    reveal_strlit("alpha_mods");
    reveal_strlit("gradient_up_down");
    reveal_strlit("gradient_left_right");
    reveal_strlit("breathing");
    reveal_strlit("band_sat");
    reveal_strlit("band_val");
    reveal_strlit("band_pinwheel_sat");
    reveal_strlit("band_pinwheel_val");
    reveal_strlit("band_spiral_sat");
    reveal_strlit("band_spiral_val");
    reveal_strlit("cycle_all");
    reveal_strlit("cycle_left_right");
    reveal_strlit("cycle_up_down");
    reveal_strlit("rainbow_moving_chevron");
    reveal_strlit("cycle_out_in");
    reveal_strlit("cycle_out_in_dual");
    reveal_strlit("cycle_pinwheel");
    reveal_strlit("cycle_spiral");
    reveal_strlit("dual_beacon");
    reveal_strlit("rainbow_beacon");
    reveal_strlit("rainbow_pinwheels");
    reveal_strlit("flower_blooming");
    reveal_strlit("raindrops");
    reveal_strlit("jellybean_raindrops");
    reveal_strlit("hue_breathing");
    reveal_strlit("hue_pendulum");
    reveal_strlit("hue_wave");
    reveal_strlit("pixel_rain");
    reveal_strlit("pixel_flow");
    reveal_strlit("pixel_fractal");
    reveal_strlit("typing_heatmap");
    reveal_strlit("digital_rain");
    reveal_strlit("solid_reactive_simple");
    reveal_strlit("solid_reactive");
    reveal_strlit("solid_reactive_wide");
    assert(effect_token(5)[0] != effect_token(37)[0]);
    assert(effect_token(26)[0] != effect_token(37)[0]);
    let lab = effect_label(37);
    assert(trim_start(lab) == lab);
    assert(trim_end(lab) == lab);
    assert(name_token(lab) =~= effect_token(37));
}

proof fn lemma_known_round_trip_38()
    ensures
        effect_id_for_token(name_token(effect_label(38))) == Some(38u16),
{
    reveal_strlit("Solid Reactive Cross");
    reveal_strlit("solid_color");
    reveal_strlit("alpha_mods");
    reveal_strlit("gradient_up_down");
    reveal_strlit("gradient_left_right");
    reveal_strlit("breathing");
    reveal_strlit("band_sat");
    reveal_strlit("band_val");
    reveal_strlit("band_pinwheel_sat");
    reveal_strlit("band_pinwheel_val");
    reveal_strlit("band_spiral_sat");
    reveal_strlit("band_spiral_val");
    reveal_strlit("cycle_all");
    reveal_strlit("cycle_left_right");
    reveal_strlit("cycle_up_down");
    reveal_strlit("rainbow_moving_chevron");
    reveal_strlit("cycle_out_in");
    reveal_strlit("cycle_out_in_dual");
    reveal_strlit("cycle_pinwheel");
    reveal_strlit("cycle_spiral");
    reveal_strlit("dual_beacon");
    reveal_strlit("rainbow_beacon");
    reveal_strlit("rainbow_pinwheels");
    reveal_strlit("flower_blooming");
    reveal_strlit("raindrops");
    reveal_strlit("jellybean_raindrops");
    reveal_strlit("hue_breathing");
    reveal_strlit("hue_pendulum");
    reveal_strlit("hue_wave");
    reveal_strlit("pixel_rain");
    reveal_strlit("pixel_flow");
    reveal_strlit("pixel_fractal");
    reveal_strlit("typing_heatmap");
    reveal_strlit("digital_rain");
    reveal_strlit("solid_reactive_simple");
    reveal_strlit("solid_reactive");
    reveal_strlit("solid_reactive_wide");
    reveal_strlit("solid_reactive_cross");
    let lab = effect_label(38);
    assert(trim_start(lab) == lab);
    assert(trim_end(lab) == lab);
    assert(name_token(lab) =~= effect_token(38));
}

proof fn lemma_known_round_trip_39()
    ensures
        effect_id_for_token(name_token(effect_label(39))) == Some(39u16),
{
    reveal_strlit("Solid Reactive Nexus");
    reveal_strlit("solid_color");
    reveal_strlit("alpha_mods");
    reveal_strlit("gradient_up_down");
    reveal_strlit("gradient_left_right");
    reveal_strlit("breathing");
    reveal_strlit("band_sat");
    reveal_strlit("band_val");
    reveal_strlit("band_pinwheel_sat");
    reveal_strlit("band_pinwheel_val");
    reveal_strlit("band_spiral_sat");
    reveal_strlit("band_spiral_val");
    reveal_strlit("cycle_all");
    reveal_strlit("cycle_left_right");
    reveal_strlit("cycle_up_down");
    reveal_strlit("rainbow_moving_chevron");
    reveal_strlit("cycle_out_in");
    reveal_strlit("cycle_out_in_dual");
    reveal_strlit("cycle_pinwheel");
    reveal_strlit("cycle_spiral");
    reveal_strlit("dual_beacon");
    reveal_strlit("rainbow_beacon");
    reveal_strlit("rainbow_pinwheels");
    reveal_strlit("flower_blooming");
    reveal_strlit("raindrops");
    reveal_strlit("jellybean_raindrops");
    reveal_strlit("hue_breathing");
    reveal_strlit("hue_pendulum");
    reveal_strlit("hue_wave");
    reveal_strlit("pixel_rain");
    reveal_strlit("pixel_flow");
    reveal_strlit("pixel_fractal");
    reveal_strlit("typing_heatmap");
    reveal_strlit("digital_rain");
    reveal_strlit("solid_reactive_simple");
    reveal_strlit("solid_reactive");
    reveal_strlit("solid_reactive_wide");
    reveal_strlit("solid_reactive_cross");
    reveal_strlit("solid_reactive_nexus");
    assert(effect_token(38)[15] != effect_token(39)[15]);
    let lab = effect_label(39);
    assert(trim_start(lab) == lab);
    assert(trim_end(lab) == lab);
    assert(name_token(lab) =~= effect_token(39));
}

proof fn lemma_known_round_trip_40()
    ensures
        effect_id_for_token(name_token(effect_label(40))) == Some(40u16),
{
    reveal_strlit("Splash");
    reveal_strlit("solid_color");
    reveal_strlit("alpha_mods");
    reveal_strlit("gradient_up_down");
    reveal_strlit("gradient_left_right");
    reveal_strlit("breathing");
    reveal_strlit("band_sat");
    reveal_strlit("band_val");
    reveal_strlit("band_pinwheel_sat");
    reveal_strlit("band_pinwheel_val");
    reveal_strlit("band_spiral_sat");
    reveal_strlit("band_spiral_val");
    reveal_strlit("cycle_all");
    reveal_strlit("cycle_left_right");
    reveal_strlit("cycle_up_down");
    reveal_strlit("rainbow_moving_chevron");
    reveal_strlit("cycle_out_in");
    reveal_strlit("cycle_out_in_dual");
    reveal_strlit("cycle_pinwheel");
    reveal_strlit("cycle_spiral");
    reveal_strlit("dual_beacon");
    reveal_strlit("rainbow_beacon");
    reveal_strlit("rainbow_pinwheels");
    reveal_strlit("flower_blooming");
    reveal_strlit("raindrops");
    reveal_strlit("jellybean_raindrops");
    reveal_strlit("hue_breathing");
    reveal_strlit("hue_pendulum");
    reveal_strlit("hue_wave");
    reveal_strlit("pixel_rain");
    reveal_strlit("pixel_flow");
    reveal_strlit("pixel_fractal");
    reveal_strlit("typing_heatmap");
    reveal_strlit("digital_rain");
    reveal_strlit("solid_reactive_simple");
    reveal_strlit("solid_reactive");
    reveal_strlit("solid_reactive_wide");
    reveal_strlit("solid_reactive_cross");
    reveal_strlit("solid_reactive_nexus");
    reveal_strlit("splash");
    let lab = effect_label(40);
    assert(trim_start(lab) == lab);
    assert(trim_end(lab) == lab);
    assert(name_token(lab) =~= effect_token(40));
}

proof fn lemma_known_round_trip_41()
    ensures
        effect_id_for_token(name_token(effect_label(41))) == Some(41u16),
{
    reveal_strlit("Solid Splash");
    reveal_strlit("solid_color");
    reveal_strlit("alpha_mods");
    reveal_strlit("gradient_up_down");
    reveal_strlit("gradient_left_right");
    reveal_strlit("breathing");
    reveal_strlit("band_sat");
    reveal_strlit("band_val");
    reveal_strlit("band_pinwheel_sat");
    reveal_strlit("band_pinwheel_val");
    reveal_strlit("band_spiral_sat");
    reveal_strlit("band_spiral_val");
    reveal_strlit("cycle_all");
    reveal_strlit("cycle_left_right");
    reveal_strlit("cycle_up_down");
    reveal_strlit("rainbow_moving_chevron");
    reveal_strlit("cycle_out_in");
    reveal_strlit("cycle_out_in_dual");
    reveal_strlit("cycle_pinwheel");
    reveal_strlit("cycle_spiral");
    reveal_strlit("dual_beacon");
    reveal_strlit("rainbow_beacon");
    reveal_strlit("rainbow_pinwheels");
    reveal_strlit("flower_blooming");
    reveal_strlit("raindrops");
    reveal_strlit("jellybean_raindrops");
    reveal_strlit("hue_breathing");
    reveal_strlit("hue_pendulum");
    reveal_strlit("hue_wave");
    reveal_strlit("pixel_rain");
    reveal_strlit("pixel_flow");
    reveal_strlit("pixel_fractal");
    reveal_strlit("typing_heatmap");
    reveal_strlit("digital_rain");
    reveal_strlit("solid_reactive_simple");
    reveal_strlit("solid_reactive");
    reveal_strlit("solid_reactive_wide");
    reveal_strlit("solid_reactive_cross");
    reveal_strlit("solid_reactive_nexus");
    reveal_strlit("splash");
    reveal_strlit("solid_splash");
    assert(effect_token(17)[0] != effect_token(41)[0]);
    assert(effect_token(20)[0] != effect_token(41)[0]);
    assert(effect_token(28)[0] != effect_token(41)[0]);
    assert(effect_token(34)[0] != effect_token(41)[0]);
    let lab = effect_label(41);
    assert(trim_start(lab) == lab);
    assert(trim_end(lab) == lab);
    assert(name_token(lab) =~= effect_token(41));
}

proof fn lemma_known_round_trip_42()
    ensures
        effect_id_for_token(name_token(effect_label(42))) == Some(42u16),
{
    reveal_strlit("Starlight Smooth");
    reveal_strlit("solid_color");
    reveal_strlit("alpha_mods");
    reveal_strlit("gradient_up_down");
    reveal_strlit("gradient_left_right");
    reveal_strlit("breathing");
    reveal_strlit("band_sat");
    reveal_strlit("band_val");
    reveal_strlit("band_pinwheel_sat");
    reveal_strlit("band_pinwheel_val");
    reveal_strlit("band_spiral_sat");
    reveal_strlit("band_spiral_val");
    reveal_strlit("cycle_all");
    reveal_strlit("cycle_left_right");
    reveal_strlit("cycle_up_down");
    reveal_strlit("rainbow_moving_chevron");
    reveal_strlit("cycle_out_in");
    reveal_strlit("cycle_out_in_dual");
    reveal_strlit("cycle_pinwheel");
    reveal_strlit("cycle_spiral");
    reveal_strlit("dual_beacon");
    reveal_strlit("rainbow_beacon");
    reveal_strlit("rainbow_pinwheels");
    reveal_strlit("flower_blooming");
    reveal_strlit("raindrops");
    reveal_strlit("jellybean_raindrops");
    reveal_strlit("hue_breathing");
    reveal_strlit("hue_pendulum");
    reveal_strlit("hue_wave");
    reveal_strlit("pixel_rain");
    reveal_strlit("pixel_flow");
    reveal_strlit("pixel_fractal");
    reveal_strlit("typing_heatmap");
    reveal_strlit("digital_rain");
    reveal_strlit("solid_reactive_simple");
    reveal_strlit("solid_reactive");
    reveal_strlit("solid_reactive_wide");
    reveal_strlit("solid_reactive_cross");
    reveal_strlit("solid_reactive_nexus");
    reveal_strlit("splash");
    reveal_strlit("solid_splash");
    reveal_strlit("starlight_smooth");
    assert(effect_token(4)[0] != effect_token(42)[0]);
    assert(effect_token(14)[0] != effect_token(42)[0]);
    let lab = effect_label(42);
    assert(trim_start(lab) == lab);
    assert(trim_end(lab) == lab);
    assert(name_token(lab) =~= effect_token(42));
}

proof fn lemma_known_round_trip_43()
    ensures
        effect_id_for_token(name_token(effect_label(43))) == Some(43u16),
{
    reveal_strlit("Starlight");
    reveal_strlit("solid_color");
    reveal_strlit("alpha_mods");
    reveal_strlit("gradient_up_down");
    reveal_strlit("gradient_left_right");
    reveal_strlit("breathing");
    reveal_strlit("band_sat");
    reveal_strlit("band_val");
    reveal_strlit("band_pinwheel_sat");
    reveal_strlit("band_pinwheel_val");
    reveal_strlit("band_spiral_sat");
    reveal_strlit("band_spiral_val");
    reveal_strlit("cycle_all");
    reveal_strlit("cycle_left_right");
    reveal_strlit("cycle_up_down");
    reveal_strlit("rainbow_moving_chevron");
    reveal_strlit("cycle_out_in");
    reveal_strlit("cycle_out_in_dual");
    reveal_strlit("cycle_pinwheel");
    reveal_strlit("cycle_spiral");
    reveal_strlit("dual_beacon");
    reveal_strlit("rainbow_beacon");
    reveal_strlit("rainbow_pinwheels");
    reveal_strlit("flower_blooming");
    reveal_strlit("raindrops");
    reveal_strlit("jellybean_raindrops");
    reveal_strlit("hue_breathing");
    reveal_strlit("hue_pendulum");
    reveal_strlit("hue_wave");
    reveal_strlit("pixel_rain");
    reveal_strlit("pixel_flow");
    reveal_strlit("pixel_fractal");
    reveal_strlit("typing_heatmap");
    reveal_strlit("digital_rain");
    reveal_strlit("solid_reactive_simple");
    reveal_strlit("solid_reactive");
    reveal_strlit("solid_reactive_wide");
    reveal_strlit("solid_reactive_cross");
    reveal_strlit("solid_reactive_nexus");
    reveal_strlit("splash");
    reveal_strlit("solid_splash");
    reveal_strlit("starlight_smooth");
    reveal_strlit("starlight");
    assert(effect_token(6)[0] != effect_token(43)[0]);
    assert(effect_token(13)[0] != effect_token(43)[0]);
    assert(effect_token(25)[0] != effect_token(43)[0]);
    let lab = effect_label(43);
    assert(trim_start(lab) == lab);
    assert(trim_end(lab) == lab);
    assert(name_token(lab) =~= effect_token(43));
}

proof fn lemma_known_round_trip_44()
    ensures
        effect_id_for_token(name_token(effect_label(44))) == Some(44u16),
{
    reveal_strlit("Starlight Dual Sat");
    reveal_strlit("solid_color");
    reveal_strlit("alpha_mods");
    reveal_strlit("gradient_up_down");
    reveal_strlit("gradient_left_right");
    reveal_strlit("breathing");
    reveal_strlit("band_sat");
    reveal_strlit("band_val");
    reveal_strlit("band_pinwheel_sat");
    reveal_strlit("band_pinwheel_val");
    reveal_strlit("band_spiral_sat");
    reveal_strlit("band_spiral_val");
    reveal_strlit("cycle_all");
    reveal_strlit("cycle_left_right");
    reveal_strlit("cycle_up_down");
    reveal_strlit("rainbow_moving_chevron");
    reveal_strlit("cycle_out_in");
    reveal_strlit("cycle_out_in_dual");
    reveal_strlit("cycle_pinwheel");
    reveal_strlit("cycle_spiral");
    reveal_strlit("dual_beacon");
    reveal_strlit("rainbow_beacon");
    reveal_strlit("rainbow_pinwheels");
    reveal_strlit("flower_blooming");
    reveal_strlit("raindrops");
    reveal_strlit("jellybean_raindrops");
    reveal_strlit("hue_breathing");
    reveal_strlit("hue_pendulum");
    reveal_strlit("hue_wave");
    reveal_strlit("pixel_rain");
    reveal_strlit("pixel_flow");
    reveal_strlit("pixel_fractal");
    reveal_strlit("typing_heatmap");
    reveal_strlit("digital_rain");
    reveal_strlit("solid_reactive_simple");
    reveal_strlit("solid_reactive");
    reveal_strlit("solid_reactive_wide");
    reveal_strlit("solid_reactive_cross");
    reveal_strlit("solid_reactive_nexus");
    reveal_strlit("splash");
    reveal_strlit("solid_splash");
    reveal_strlit("starlight_smooth");
    reveal_strlit("starlight");
    reveal_strlit("starlight_dual_sat");
    let lab = effect_label(44);
    assert(trim_start(lab) == lab);
    assert(trim_end(lab) == lab);
    assert(name_token(lab) =~= effect_token(44));
}

proof fn lemma_known_round_trip_45()
    ensures
        effect_id_for_token(name_token(effect_label(45))) == Some(45u16),
{
    reveal_strlit("Starlight Dual Hue");
    reveal_strlit("solid_color");
    reveal_strlit("alpha_mods");
    reveal_strlit("gradient_up_down");
    reveal_strlit("gradient_left_right");
    reveal_strlit("breathing");
    reveal_strlit("band_sat");
    reveal_strlit("band_val");
    reveal_strlit("band_pinwheel_sat");
    reveal_strlit("band_pinwheel_val");
    reveal_strlit("band_spiral_sat");
    reveal_strlit("band_spiral_val");
    reveal_strlit("cycle_all");
    reveal_strlit("cycle_left_right");
    reveal_strlit("cycle_up_down");
    reveal_strlit("rainbow_moving_chevron");
    reveal_strlit("cycle_out_in");
    reveal_strlit("cycle_out_in_dual");
    reveal_strlit("cycle_pinwheel");
    reveal_strlit("cycle_spiral");
    reveal_strlit("dual_beacon");
    reveal_strlit("rainbow_beacon");
    reveal_strlit("rainbow_pinwheels");
    reveal_strlit("flower_blooming");
    reveal_strlit("raindrops");
    reveal_strlit("jellybean_raindrops");
    reveal_strlit("hue_breathing");
    reveal_strlit("hue_pendulum");
    reveal_strlit("hue_wave");
    reveal_strlit("pixel_rain");
    reveal_strlit("pixel_flow");
    reveal_strlit("pixel_fractal");
    reveal_strlit("typing_heatmap");
    reveal_strlit("digital_rain");
    reveal_strlit("solid_reactive_simple");
    reveal_strlit("solid_reactive");
    reveal_strlit("solid_reactive_wide");
    reveal_strlit("solid_reactive_cross");
    reveal_strlit("solid_reactive_nexus");
    reveal_strlit("splash");
    reveal_strlit("solid_splash");
    reveal_strlit("starlight_smooth");
    reveal_strlit("starlight");
    reveal_strlit("starlight_dual_sat");
    reveal_strlit("starlight_dual_hue");
    assert(effect_token(44)[15] != effect_token(45)[15]);
    let lab = effect_label(45);
    assert(trim_start(lab) == lab);
    assert(trim_end(lab) == lab);
    assert(name_token(lab) =~= effect_token(45));
}

proof fn lemma_known_round_trip_46()
    ensures
        effect_id_for_token(name_token(effect_label(46))) == Some(46u16),
{
    reveal_strlit("Riverflow");
    reveal_strlit("solid_color");
    reveal_strlit("alpha_mods");
    reveal_strlit("gradient_up_down");
    reveal_strlit("gradient_left_right");
    reveal_strlit("breathing");
    reveal_strlit("band_sat");
    reveal_strlit("band_val");
    reveal_strlit("band_pinwheel_sat");
    reveal_strlit("band_pinwheel_val");
    reveal_strlit("band_spiral_sat");
    reveal_strlit("band_spiral_val");
    reveal_strlit("cycle_all");
    reveal_strlit("cycle_left_right");
    reveal_strlit("cycle_up_down");
    reveal_strlit("rainbow_moving_chevron");
    reveal_strlit("cycle_out_in");
    reveal_strlit("cycle_out_in_dual");
    reveal_strlit("cycle_pinwheel");
    reveal_strlit("cycle_spiral");
    reveal_strlit("dual_beacon");
    reveal_strlit("rainbow_beacon");
    reveal_strlit("rainbow_pinwheels");
    reveal_strlit("flower_blooming");
    reveal_strlit("raindrops");
    reveal_strlit("jellybean_raindrops");
    reveal_strlit("hue_breathing");
    reveal_strlit("hue_pendulum");
    reveal_strlit("hue_wave");
    reveal_strlit("pixel_rain");
    reveal_strlit("pixel_flow");
    reveal_strlit("pixel_fractal");
    reveal_strlit("typing_heatmap");
    reveal_strlit("digital_rain");
    reveal_strlit("solid_reactive_simple");
    reveal_strlit("solid_reactive");
    reveal_strlit("solid_reactive_wide");
    reveal_strlit("solid_reactive_cross");
    reveal_strlit("solid_reactive_nexus");
    reveal_strlit("splash");
    reveal_strlit("solid_splash");
    reveal_strlit("starlight_smooth");
    reveal_strlit("starlight");
    reveal_strlit("starlight_dual_sat");
    reveal_strlit("starlight_dual_hue");
    reveal_strlit("riverflow");
    assert(effect_token(6)[0] != effect_token(46)[0]);
    assert(effect_token(13)[0] != effect_token(46)[0]);
    assert(effect_token(25)[1] != effect_token(46)[1]);
    assert(effect_token(43)[0] != effect_token(46)[0]);
    let lab = effect_label(46);
    assert(trim_start(lab) == lab);
    assert(trim_end(lab) == lab);
    assert(name_token(lab) =~= effect_token(46));
}

/// Reading back the Home Assistant name of any effect gives that effect.
pub proof fn law_effect_name_round_trip(id: u16)
    ensures
        effect_id_for_token(name_token(ha_effect_name(id))) == Some(id),
{
    if is_known_effect(id) {
        if id == 2 {
            lemma_known_round_trip_2();
        } else if id == 3 {
            lemma_known_round_trip_3();
        } else if id == 4 {
            lemma_known_round_trip_4();
        } else if id == 5 {
            lemma_known_round_trip_5();
        } else if id == 6 {
            lemma_known_round_trip_6();
        } else if id == 7 {
            lemma_known_round_trip_7();
        } else if id == 8 {
            lemma_known_round_trip_8();
        } else if id == 9 {
            lemma_known_round_trip_9();
        } else if id == 10 {
            lemma_known_round_trip_10();
        } else if id == 11 {
            lemma_known_round_trip_11();
        } else if id == 12 {
            lemma_known_round_trip_12();
        } else if id == 13 {
            lemma_known_round_trip_13();
        } else if id == 14 {
            lemma_known_round_trip_14();
        } else if id == 15 {
            lemma_known_round_trip_15();
        } else if id == 16 {
            lemma_known_round_trip_16();
        } else if id == 17 {
            lemma_known_round_trip_17();
        } else if id == 18 {
            lemma_known_round_trip_18();
        } else if id == 19 {
            lemma_known_round_trip_19();
        } else if id == 20 {
            lemma_known_round_trip_20();
        } else if id == 21 {
            lemma_known_round_trip_21();
        } else if id == 22 {
            lemma_known_round_trip_22();
        } else if id == 23 {
            lemma_known_round_trip_23();
        } else if id == 24 {
            lemma_known_round_trip_24();
        } else if id == 25 {
            lemma_known_round_trip_25();
        } else if id == 26 {
            lemma_known_round_trip_26();
        } else if id == 27 {
            lemma_known_round_trip_27();
        } else if id == 28 {
            lemma_known_round_trip_28();
        } else if id == 29 {
            lemma_known_round_trip_29();
        } else if id == 30 {
            lemma_known_round_trip_30();
        } else if id == 31 {
            lemma_known_round_trip_31();
        } else if id == 32 {
            lemma_known_round_trip_32();
        } else if id == 33 {
            lemma_known_round_trip_33();
        } else if id == 34 {
            lemma_known_round_trip_34();
        } else if id == 35 {
            lemma_known_round_trip_35();
        } else if id == 36 {
            lemma_known_round_trip_36();
        } else if id == 37 {
            lemma_known_round_trip_37();
        } else if id == 38 {
            lemma_known_round_trip_38();
        } else if id == 39 {
            lemma_known_round_trip_39();
        } else if id == 40 {
            lemma_known_round_trip_40();
        } else if id == 41 {
            lemma_known_round_trip_41();
        } else if id == 42 {
            lemma_known_round_trip_42();
        } else if id == 43 {
            lemma_known_round_trip_43();
        } else if id == 44 {
            lemma_known_round_trip_44();
        } else if id == 45 {
            lemma_known_round_trip_45();
        } else if id == 46 {
            lemma_known_round_trip_46();
        }
    } else {
        lemma_generic_name_token(id);
        lemma_generic_lookup(id);
    }
}
} // verus!

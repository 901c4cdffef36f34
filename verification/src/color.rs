//! Integer HSV → RGB conversion on the 0–255 scales that QMK uses.
use vstd::prelude::*;

verus! {

/// The sector of the colour wheel (0..=5) that hue `h` falls in.
pub open spec fn hue_region(h: u8) -> int {
    h as int / 43
}

/// Position of `h` inside its sector, scaled to 0..=252.
pub open spec fn hue_remainder(h: u8) -> int {
    (h as int - hue_region(h) * 43) * 6
}

/// `v * (255 - x) / 255`, the value scaled down by `x`.
pub open spec fn scale(v: u8, x: int) -> int {
    (v as int * (255 - x)) / 255
}

/// The conversion: grey when unsaturated; otherwise the common 8-bit
/// region/remainder formula with `p`, `q`, `t` as the three attenuated
/// components.
pub open spec fn hsv_to_rgb_spec(h: u8, s: u8, v: u8) -> (int, int, int) {
    if s == 0 {
        (v as int, v as int, v as int)
    } else {
        let rem = hue_remainder(h);
        let p = scale(v, s as int);
        let q = scale(v, (s as int * rem) / 255);
        let t = scale(v, (s as int * (255 - rem)) / 255);
        let vv = v as int;
        if hue_region(h) == 0 {
            (vv, t, p)
        } else if hue_region(h) == 1 {
            (q, vv, p)
        } else if hue_region(h) == 2 {
            (p, vv, t)
        } else if hue_region(h) == 3 {
            (p, q, vv)
        } else if hue_region(h) == 4 {
            (t, p, vv)
        } else {
            (vv, p, q)
        }
    }
}

proof fn lemma_scale_bounds(v: u8, x: int, y: int)
    requires
        0 <= x <= y <= 255,
    ensures
        0 <= scale(v, y) <= scale(v, x) <= v,
{
    assert(0 <= v as int * (255 - y) <= v as int * (255 - x) <= v as int * 255) by (nonlinear_arith)
        requires
            0 <= x <= y <= 255,
            0 <= v <= 255,
    ;
    assert((v as int * (255 - y)) / 255 <= (v as int * (255 - x)) / 255) by (nonlinear_arith)
        requires
            0 <= v as int * (255 - y) <= v as int * (255 - x),
    ;
    assert((v as int * (255 - x)) / 255 <= (v as int * 255) / 255) by (nonlinear_arith)
        requires
            v as int * (255 - x) <= v as int * 255,
    ;
    assert((v as int * 255) / 255 == v) by (nonlinear_arith);
}

proof fn lemma_attenuation_bounds(s: u8, rem: int)
    requires
        0 <= rem <= 252,
    ensures
        0 <= (s as int * rem) / 255 <= s,
        0 <= (s as int * (255 - rem)) / 255 <= s,
{
    assert(0 <= s as int * rem <= s as int * 255) by (nonlinear_arith)
        requires
            0 <= rem <= 252,
            0 <= s,
    ;
    assert(0 <= s as int * (255 - rem) <= s as int * 255) by (nonlinear_arith)
        requires
            0 <= rem <= 252,
            0 <= s,
    ;
    assert((s as int * rem) / 255 <= (s as int * 255) / 255) by (nonlinear_arith)
        requires
            0 <= s as int * rem <= s as int * 255,
    ;
    assert((s as int * (255 - rem)) / 255 <= (s as int * 255) / 255) by (nonlinear_arith)
        requires
            0 <= s as int * (255 - rem) <= s as int * 255,
    ;
    assert((s as int * 255) / 255 == s) by (nonlinear_arith);
    assert(0 <= (s as int * rem) / 255) by (nonlinear_arith)
        requires
            0 <= s as int * rem,
    ;
    assert(0 <= (s as int * (255 - rem)) / 255) by (nonlinear_arith)
        requires
            0 <= s as int * (255 - rem),
    ;
}

proof fn lemma_region_bounds(h: u8)
    ensures
        0 <= hue_region(h) <= 5,
        0 <= hue_remainder(h) <= 252,
{
}

/// Convert HSV (0–255) to RGB (0–255) using integer math.
pub fn hsv_to_rgb(h: u8, s: u8, v: u8) -> (r: [u8; 3])
    ensures
        r@[0] as int == hsv_to_rgb_spec(h, s, v).0,
        r@[1] as int == hsv_to_rgb_spec(h, s, v).1,
        r@[2] as int == hsv_to_rgb_spec(h, s, v).2,
{
    if s == 0 {
        return [v, v, v];
    }
    proof {
        lemma_region_bounds(h);
    }
    let region: u8 = h / 43;
    let remainder: u16 = ((h - (region * 43)) as u16) * 6;
    let v16 = v as u16;
    let s16 = s as u16;
    proof {
        lemma_attenuation_bounds(s, remainder as int);
        lemma_scale_bounds(v, 0, s as int);
        lemma_scale_bounds(v, 0, (s as int * remainder as int) / 255);
        lemma_scale_bounds(v, 0, (s as int * (255 - remainder as int)) / 255);
        assert(s16 * remainder <= 255 * 252) by (nonlinear_arith)
            requires
                s16 <= 255,
                remainder <= 252,
        ;
        assert(s16 * (255 - remainder) <= 255 * 255) by (nonlinear_arith)
            requires
                s16 <= 255,
                remainder <= 252,
        ;
    }
    let a1: u16 = (s16 * remainder) / 255;
    let a2: u16 = (s16 * (255 - remainder)) / 255;
    proof {
        assert(v16 * (255 - s16) <= 255 * 255) by (nonlinear_arith)
            requires
                v16 <= 255,
                s16 <= 255,
        ;
        assert(v16 * (255 - a1) <= 255 * 255) by (nonlinear_arith)
            requires
                v16 <= 255,
                a1 <= 255,
        ;
        assert(v16 * (255 - a2) <= 255 * 255) by (nonlinear_arith)
            requires
                v16 <= 255,
                a2 <= 255,
        ;
    }
    let p: u16 = (v16 * (255 - s16)) / 255;
    let q: u16 = (v16 * (255 - a1)) / 255;
    let t: u16 = (v16 * (255 - a2)) / 255;
    let (r, g, b) = match region {
        0 => (v16, t, p),
        1 => (q, v16, p),
        2 => (p, v16, t),
        3 => (p, q, v16),
        4 => (t, p, v16),
        _ => (v16, p, q),
    };
    [r as u8, g as u8, b as u8]
}

/// Unsaturated colours are grey at the given brightness.
pub proof fn law_unsaturated_is_grey(h: u8, v: u8)
    ensures
        hsv_to_rgb_spec(h, 0, v) == (v as int, v as int, v as int),
{
}

/// The brightest component is the value `v`, and no component exceeds it.
pub proof fn law_value_is_brightest(h: u8, s: u8, v: u8)
    ensures
        ({
            let (r, g, b) = hsv_to_rgb_spec(h, s, v);
            &&& 0 <= r <= v && 0 <= g <= v && 0 <= b <= v
            &&& r == v || g == v || b == v
        }),
{
    if s != 0 {
        lemma_region_bounds(h);
        let rem = hue_remainder(h);
        lemma_attenuation_bounds(s, rem);
        lemma_scale_bounds(v, 0, s as int);
        lemma_scale_bounds(v, 0, (s as int * rem) / 255);
        lemma_scale_bounds(v, 0, (s as int * (255 - rem)) / 255);
    }
}

/// The dimmest component is `v * (255 - s) / 255`.
pub proof fn law_darkest_component(h: u8, s: u8, v: u8)
    ensures
        ({
            let (r, g, b) = hsv_to_rgb_spec(h, s, v);
            let p = scale(v, s as int);
            &&& r >= p && g >= p && b >= p
            &&& r == p || g == p || b == p
        }),
{
    lemma_region_bounds(h);
    if s != 0 {
        let rem = hue_remainder(h);
        lemma_attenuation_bounds(s, rem);
        lemma_scale_bounds(v, (s as int * rem) / 255, s as int);
        lemma_scale_bounds(v, (s as int * (255 - rem)) / 255, s as int);
    } else {
        assert(scale(v, 0) == v) by {
            lemma_scale_bounds(v, 0, 0);
            assert((v as int * 255) / 255 == v) by (nonlinear_arith);
        }
    }
}

/// The colour wheel's order: for a saturated colour, each sixth of the hue
/// range has a fixed brightest component (at the value `v`), a fixed dimmest
/// one (at `v * (255 - s) / 255`), and the third in between. Red leads from
/// red to yellow, green from yellow to cyan, blue from cyan to magenta, and
/// red again to the end.
pub proof fn law_hue_sectors(h: u8, s: u8, v: u8)
    requires
        s > 0,
    ensures
        ({
            let (r, g, b) = hsv_to_rgb_spec(h, s, v);
            let p = scale(v, s as int);
            &&& h < 43 ==> r == v && b == p && p <= g <= v
            &&& 43 <= h < 86 ==> g == v && b == p && p <= r <= v
            &&& 86 <= h < 129 ==> g == v && r == p && p <= b <= v
            &&& 129 <= h < 172 ==> b == v && r == p && p <= g <= v
            &&& 172 <= h < 215 ==> b == v && g == p && p <= r <= v
            &&& 215 <= h ==> r == v && g == p && p <= b <= v
        }),
{
    lemma_region_bounds(h);
    let rem = hue_remainder(h);
    lemma_attenuation_bounds(s, rem);
    lemma_scale_bounds(v, (s as int * rem) / 255, s as int);
    lemma_scale_bounds(v, (s as int * (255 - rem)) / 255, s as int);
    lemma_scale_bounds(v, 0, (s as int * rem) / 255);
    lemma_scale_bounds(v, 0, (s as int * (255 - rem)) / 255);
}

/// From red to yellow, green rises with the hue while red stays at the value
/// and blue at the dimmest level.
pub proof fn law_green_rises_towards_yellow(h1: u8, h2: u8, s: u8, v: u8)
    requires
        h1 <= h2 < 43,
    ensures
        hsv_to_rgb_spec(h1, s, v).1 <= hsv_to_rgb_spec(h2, s, v).1,
{
    if s > 0 {
        let rem1 = hue_remainder(h1);
        let rem2 = hue_remainder(h2);
        assert(rem1 == h1 * 6 && rem2 == h2 * 6);
        lemma_attenuation_bounds(s, rem1);
        lemma_attenuation_bounds(s, rem2);
        assert((s as int * (255 - rem2)) / 255 <= (s as int * (255 - rem1)) / 255) by (nonlinear_arith)
            requires
                0 <= rem1 <= rem2 <= 252,
                0 <= s,
        ;
        lemma_scale_bounds(v, (s as int * (255 - rem2)) / 255, (s as int * (255 - rem1)) / 255);
    }
}

/// Within each sixth of the hue range the third component moves one way
/// only: it rises in the sixths that end at yellow, cyan and magenta (green,
/// blue, red) and falls in those that end at green, blue and red (red,
/// green, blue).
pub proof fn law_middle_component_direction(h1: u8, h2: u8, s: u8, v: u8)
    requires
        h1 <= h2,
        h1 / 43 == h2 / 43,
    ensures
        ({
            let (r1, g1, b1) = hsv_to_rgb_spec(h1, s, v);
            let (r2, g2, b2) = hsv_to_rgb_spec(h2, s, v);
            &&& h2 < 43 ==> g1 <= g2
            &&& 43 <= h1 && h2 < 86 ==> r1 >= r2
            &&& 86 <= h1 && h2 < 129 ==> b1 <= b2
            &&& 129 <= h1 && h2 < 172 ==> g1 >= g2
            &&& 172 <= h1 && h2 < 215 ==> r1 <= r2
            &&& 215 <= h1 ==> b1 >= b2
        }),
{
    if s > 0 {
        lemma_region_bounds(h1);
        lemma_region_bounds(h2);
        let rem1 = hue_remainder(h1);
        let rem2 = hue_remainder(h2);
        assert(hue_region(h1) == hue_region(h2));
        assert(rem1 <= rem2);
        lemma_attenuation_bounds(s, rem1);
        lemma_attenuation_bounds(s, rem2);
        assert((s as int * (255 - rem2)) / 255 <= (s as int * (255 - rem1)) / 255) by (nonlinear_arith)
            requires
                0 <= rem1 <= rem2 <= 252,
                0 <= s,
        ;
        assert((s as int * rem1) / 255 <= (s as int * rem2) / 255) by (nonlinear_arith)
            requires
                0 <= rem1 <= rem2 <= 252,
                0 <= s,
        ;
        lemma_scale_bounds(v, (s as int * (255 - rem2)) / 255, (s as int * (255 - rem1)) / 255);
        lemma_scale_bounds(v, (s as int * rem1) / 255, (s as int * rem2) / 255);
    }
}

} // verus!

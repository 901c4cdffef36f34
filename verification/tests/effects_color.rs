use marcontroller::color::hsv_to_rgb;
use marcontroller::effects::{
    build_effect_catalog, effect_id_for_ha_name, ha_effect_name_for_id, name_token_chars,
    ui_effect_ids, ui_effect_name_for_id,
};

#[test]
fn ha_names_of_known_effects() {
    assert_eq!(ha_effect_name_for_id(2), "Solid Color");
    assert_eq!(ha_effect_name_for_id(6), "Breathing");
    assert_eq!(ha_effect_name_for_id(46), "Riverflow");
}

#[test]
fn ha_names_of_unknown_effects_are_generic() {
    assert_eq!(ha_effect_name_for_id(0), "Effect 0");
    assert_eq!(ha_effect_name_for_id(1), "Effect 1");
    assert_eq!(ha_effect_name_for_id(47), "Effect 47");
    assert_eq!(ha_effect_name_for_id(65535), "Effect 65535");
}

#[test]
fn ui_names_add_off_and_direct() {
    assert_eq!(ui_effect_name_for_id(0), "OFF");
    assert_eq!(ui_effect_name_for_id(1), "DIRECT");
    assert_eq!(ui_effect_name_for_id(2), "Solid Color");
    assert_eq!(ui_effect_name_for_id(99), "Effect 99");
}

#[test]
fn ui_offers_every_known_effect_in_order() {
    let ids = ui_effect_ids();
    assert_eq!(ids.len(), 45);
    assert_eq!(ids[0], 2);
    assert_eq!(ids[44], 46);
    assert!(ids.windows(2).all(|w| w[1] == w[0] + 1));
}

#[test]
fn effect_names_are_accepted_in_every_spelling() {
    assert_eq!(effect_id_for_ha_name("Solid Color"), Some(2));
    assert_eq!(effect_id_for_ha_name("solid_color"), Some(2));
    assert_eq!(effect_id_for_ha_name("  SOLID-COLOR  "), Some(2));
    assert_eq!(effect_id_for_ha_name("Gradient Up/Down"), Some(4));
    assert_eq!(effect_id_for_ha_name("Riverflow"), Some(46));
}

#[test]
fn legacy_and_generic_effect_names() {
    assert_eq!(effect_id_for_ha_name("vialrgb_6"), Some(6));
    assert_eq!(effect_id_for_ha_name("effect_46"), Some(46));
    assert_eq!(effect_id_for_ha_name("Effect 46"), Some(46));
    assert_eq!(effect_id_for_ha_name("Effect 0"), Some(0));
    assert_eq!(effect_id_for_ha_name("effect_70000"), None);
    assert_eq!(effect_id_for_ha_name("effect_"), None);
    assert_eq!(effect_id_for_ha_name("bogus"), None);
    assert_eq!(effect_id_for_ha_name(""), None);
}

#[test]
fn every_name_reads_back_as_its_effect() {
    for id in [0u16, 1, 2, 3, 17, 35, 45, 46, 47, 500, 65535] {
        let name = ha_effect_name_for_id(id);
        assert_eq!(effect_id_for_ha_name(&name), Some(id), "name {name}");
    }
}

#[test]
fn name_token_replaces_separators() {
    let input: Vec<char> = "  Gradient Up/Down-X ".chars().collect();
    let t: String = name_token_chars(&input).into_iter().collect();
    assert_eq!(t, "gradient_up_down_x");
}

#[test]
fn catalog_leaves_out_off_and_direct() {
    let c = build_effect_catalog(vec![0, 1, 2, 99]);
    assert_eq!(c.ha_names, vec!["Solid Color".to_owned(), "Effect 99".to_owned()]);
    let empty = build_effect_catalog(vec![0, 1]);
    assert!(empty.ha_names.is_empty());
}

#[test]
fn hsv_grey_when_unsaturated() {
    assert_eq!(hsv_to_rgb(0, 0, 100), [100, 100, 100]);
    assert_eq!(hsv_to_rgb(200, 0, 7), [7, 7, 7]);
}

#[test]
fn hsv_primary_colours() {
    assert_eq!(hsv_to_rgb(0, 255, 255), [255, 0, 0]);
    assert_eq!(hsv_to_rgb(85, 255, 255), [3, 255, 0]);
    assert_eq!(hsv_to_rgb(170, 255, 255), [0, 9, 255]);
}

#[test]
fn hsv_other_regions() {
    assert_eq!(hsv_to_rgb(128, 128, 200), [99, 200, 199]);
    assert_eq!(hsv_to_rgb(255, 255, 255), [255, 0, 15]);
    assert_eq!(hsv_to_rgb(43, 200, 10), [10, 10, 2]);
}

#[test]
fn hsv_value_is_the_brightest_component() {
    for h in (0u16..=255).step_by(17) {
        for s in [1u8, 60, 255] {
            let v = 180u8;
            let rgb = hsv_to_rgb(h as u8, s, v);
            assert_eq!(*rgb.iter().max().unwrap(), v);
        }
    }
}

use aura_ctrl::aura::{
    AuraDevice, AuraEffect, AuraModeNum, AuraZone, Colour, LaptopLedData, LedBrightness,
    PowerZones,
};
use aura_ctrl::config::AuraConfig;
use aura_ctrl::controller::{CtrlKbdLed, HidRaw, KeyboardLed};
use aura_ctrl::mode_map::ModeMap;

fn caps(modes: Vec<AuraModeNum>, zones: Vec<AuraZone>) -> LaptopLedData {
    LaptopLedData {
        board_name: "GA401".to_owned(),
        layout_name: "ga401".to_owned(),
        basic_modes: modes,
        basic_zones: zones,
        advanced: false,
        power_zones: vec![PowerZones::Keyboard],
    }
}

#[test]
fn fresh_default_covers_every_supported_mode() {
    let support = caps(vec![AuraModeNum::Static, AuraModeNum::Rainbow], vec![]);
    let config = AuraConfig::from_default_support(AuraDevice::X19b6, &support);

    assert!(config.builtins.contains_key(&AuraModeNum::Static));
    assert!(config.builtins.contains_key(&AuraModeNum::Rainbow));
    assert!(!config.builtins.contains_key(&AuraModeNum::Laser));
    assert!(config.multizone.is_none());
    assert!(!config.multizone_on);
    assert_eq!(config.current_mode, AuraModeNum::Static);
    assert_eq!(config.brightness, LedBrightness::Med);
    assert_eq!(config.enabled, vec![PowerZones::Keyboard]);
}

#[test]
fn merge_keeps_loaded_entries_and_covers_exactly_the_supported_modes() {
    // the loaded configuration covers Static and Breathe; Static carries a
    // custom colour
    let loaded_support = caps(vec![AuraModeNum::Static, AuraModeNum::Breathe], vec![]);
    let mut loaded = AuraConfig::from_default_support(AuraDevice::X19b6, &loaded_support);
    let custom = AuraEffect {
        mode: AuraModeNum::Static,
        colour1: Colour {
            r: 0x12,
            g: 0x34,
            b: 0x56,
        },
        ..Default::default()
    };
    loaded.current_mode = AuraModeNum::Static;
    loaded.set_builtin(custom);
    loaded.brightness = LedBrightness::Low;

    // the device at hand supports Static and Laser instead
    let support = caps(vec![AuraModeNum::Static, AuraModeNum::Laser], vec![]);
    let merged = AuraConfig::merged(&support, Some(loaded));

    // exactly the supported modes: the loaded entry wins, the gap is filled,
    // the stale mode is dropped
    assert!(merged.builtins.contains_key(&AuraModeNum::Static));
    assert!(merged.builtins.contains_key(&AuraModeNum::Laser));
    assert!(!merged.builtins.contains_key(&AuraModeNum::Breathe));
    let kept = merged.builtins.get(&AuraModeNum::Static).unwrap();
    assert_eq!(
        kept.colour1,
        Colour {
            r: 0x12,
            g: 0x34,
            b: 0x56,
        }
    );
    // the other fields carry over from the loaded configuration
    assert_eq!(merged.brightness, LedBrightness::Low);
    assert_eq!(merged.current_mode, AuraModeNum::Static);
}

#[test]
fn merge_without_loaded_config_uses_fresh_defaults() {
    let support = caps(vec![AuraModeNum::Static], vec![]);
    let merged = AuraConfig::merged(&support, None);
    assert!(merged.builtins.contains_key(&AuraModeNum::Static));
    assert!(merged.multizone.is_none());
    assert_eq!(merged.brightness, LedBrightness::Med);
}

#[test]
fn merge_drops_multizone_sets_for_unsupported_modes() {
    let loaded_support = caps(
        vec![AuraModeNum::Static, AuraModeNum::Breathe],
        vec![AuraZone::Key1, AuraZone::Key2],
    );
    let mut loaded = AuraConfig::from_default_support(AuraDevice::X19b6, &loaded_support);

    let zone_effect = |zone: AuraZone| AuraEffect {
        zone,
        ..Default::default()
    };
    let mut mz: ModeMap<Vec<AuraEffect>> = ModeMap::new();
    mz.insert(
        AuraModeNum::Static,
        vec![zone_effect(AuraZone::Key1), zone_effect(AuraZone::Key2)],
    );
    mz.insert(
        AuraModeNum::Breathe,
        vec![zone_effect(AuraZone::Key1), zone_effect(AuraZone::Key2)],
    );
    loaded.multizone = Some(mz);

    // Breathe is no longer supported; its whole set is dropped
    let support = caps(
        vec![AuraModeNum::Static],
        vec![AuraZone::Key1, AuraZone::Key2],
    );
    let merged = AuraConfig::merged(&support, Some(loaded));

    let mz = merged.multizone.unwrap();
    assert!(mz.contains_key(&AuraModeNum::Static));
    assert!(!mz.contains_key(&AuraModeNum::Breathe));
    assert_eq!(mz.get(&AuraModeNum::Static).unwrap().len(), 2);
}

#[test]
fn merge_drops_multizone_sets_that_do_not_cover_every_zone() {
    let loaded_support = caps(vec![AuraModeNum::Static], vec![AuraZone::Key1, AuraZone::Key2]);
    let mut loaded = AuraConfig::from_default_support(AuraDevice::X19b6, &loaded_support);

    // the loaded set only covers one of the two zones
    let mut mz: ModeMap<Vec<AuraEffect>> = ModeMap::new();
    mz.insert(
        AuraModeNum::Static,
        vec![AuraEffect {
            zone: AuraZone::Key1,
            ..Default::default()
        }],
    );
    loaded.multizone = Some(mz);

    let support = caps(
        vec![AuraModeNum::Static],
        vec![AuraZone::Key1, AuraZone::Key2],
    );
    let merged = AuraConfig::merged(&support, Some(loaded));

    let mz = merged.multizone.unwrap();
    assert!(!mz.contains_key(&AuraModeNum::Static));
}

#[test]
fn controller_construction_fails_without_any_path() {
    let support = caps(vec![AuraModeNum::Static], vec![]);
    let r = CtrlKbdLed::new(None, KeyboardLed::default(), support, None);
    assert_eq!(
        r.unwrap_err().to_string(),
        "No supported Aura keyboard"
    );
}

#[test]
fn controller_construction_prefers_the_hid_path() {
    let support = caps(vec![AuraModeNum::Static], vec![]);
    let hid = HidRaw::new(AuraDevice::X1866);
    let controller = CtrlKbdLed::new(Some(hid), KeyboardLed::new(true, 1), support, None).unwrap();
    assert_eq!(controller.led_prod, AuraDevice::X1866);
    assert!(matches!(
        controller.led_node,
        aura_ctrl::controller::LEDNode::Rog(_)
    ));
    assert!(controller.config.builtins.contains_key(&AuraModeNum::Static));
}

#[test]
fn controller_construction_falls_back_to_the_sysfs_path() {
    let support = caps(vec![AuraModeNum::Static], vec![]);
    let controller =
        CtrlKbdLed::new(None, KeyboardLed::new(true, 1), support, None).unwrap();
    assert_eq!(controller.led_prod, AuraDevice::Unknown);
    assert!(matches!(
        controller.led_node,
        aura_ctrl::controller::LEDNode::KbdLed(_)
    ));
}

#[test]
fn get_supported_marks_tuf_when_sysfs_has_rgb_mode() {
    let support = caps(vec![AuraModeNum::Static], vec![]);
    let s = CtrlKbdLed::get_supported(Some(AuraDevice::X1866), true, true, support);
    assert_eq!(s.dev_id, AuraDevice::Tuf);
    assert!(s.brightness);

    let support = caps(vec![AuraModeNum::Static], vec![]);
    let s = CtrlKbdLed::get_supported(Some(AuraDevice::X1866), true, false, support);
    assert_eq!(s.dev_id, AuraDevice::X1866);

    let support = caps(vec![AuraModeNum::Static], vec![]);
    let s = CtrlKbdLed::get_supported(None, false, false, support);
    assert_eq!(s.dev_id, AuraDevice::Unknown);
}

#[test]
fn multizone_defaults_draw_from_opposite_palette_ends() {
    let support = caps(
        vec![AuraModeNum::Static],
        vec![AuraZone::Key1, AuraZone::Key2],
    );
    let config = AuraConfig::from_default_support(AuraDevice::X19b6, &support);
    let mut controller = CtrlKbdLed {
        led_prod: AuraDevice::X19b6,
        led_node: aura_ctrl::controller::LEDNode::NoDevice,
        kd_brightness: KeyboardLed::default(),
        supported_modes: support,
        flip_effect_write: false,
        per_key_mode_active: false,
        config,
    };
    controller.create_multizone_default().unwrap();
    let mz = controller.config.multizone.unwrap();
    let set = mz.get(&AuraModeNum::Static).unwrap();
    assert_eq!(set.len(), 2);
    // first entry: palette start forward, palette end backward
    assert_eq!(set[0].colour1, Colour { r: 0xff, g: 0x00, b: 0x00 });
    assert_eq!(set[0].colour2, Colour { r: 0x94, g: 0x00, b: 0xd3 });
    // second entry: one step forward, backward still at the far end
    assert_eq!(set[1].colour1, Colour { r: 0xff, g: 0x7f, b: 0x00 });
    assert_eq!(set[1].colour2, Colour { r: 0x94, g: 0x00, b: 0xd3 });
}

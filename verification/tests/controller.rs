use aura_ctrl::aura::{
    AuraDevice, AuraEffect, AuraModeNum, AuraZone, Colour, LaptopLedData, LedBrightness,
    PowerZones,
};
use aura_ctrl::config::AuraConfig;
use aura_ctrl::controller::{CtrlKbdLed, HidRaw, KeyboardLed, LEDNode};
use aura_ctrl::error::RogError;

fn nodevice_controller(supported_modes: LaptopLedData) -> CtrlKbdLed {
    let config = AuraConfig::from_default_support(AuraDevice::X19b6, &LaptopLedData::default());
    CtrlKbdLed {
        led_prod: AuraDevice::X19b6,
        led_node: LEDNode::NoDevice,
        kd_brightness: KeyboardLed::default(),
        supported_modes,
        flip_effect_write: false,
        per_key_mode_active: false,
        config,
    }
}

#[test]
fn check_set_mode_errors() {
    // Checking to ensure set_mode errors when unsupported modes are tried
    let supported_modes = LaptopLedData {
        board_name: String::new(),
        layout_name: "ga401".to_owned(),
        basic_modes: vec![AuraModeNum::Static],
        basic_zones: vec![],
        advanced: false,
        power_zones: vec![PowerZones::Keyboard, PowerZones::RearGlow],
    };
    let mut controller = nodevice_controller(supported_modes);

    let mut effect = AuraEffect {
        colour1: Colour {
            r: 0xff,
            g: 0x00,
            b: 0xff,
        },
        zone: AuraZone::NoZone,
        ..Default::default()
    };

    // This error comes from the write step because we don't have a keyboard
    // node stored
    assert_eq!(
        controller
            .set_effect(effect.clone())
            .unwrap_err()
            .to_string(),
        "No supported Aura keyboard"
    );

    effect.mode = AuraModeNum::Laser;
    assert_eq!(
        controller
            .set_effect(effect.clone())
            .unwrap_err()
            .to_string(),
        "Aura effect not supported"
    );

    effect.mode = AuraModeNum::Static;
    effect.zone = AuraZone::Key2;
    assert_eq!(
        controller
            .set_effect(effect.clone())
            .unwrap_err()
            .to_string(),
        "Aura effect not supported"
    );

    controller.supported_modes.basic_zones.push(AuraZone::Key2);
    assert_eq!(
        controller.set_effect(effect).unwrap_err().to_string(),
        "No supported Aura keyboard"
    );
}

#[test]
fn create_multizone_if_no_config() {
    // Checking to ensure set_mode errors when unsupported modes are tried
    let supported_modes = LaptopLedData {
        board_name: String::new(),
        layout_name: "ga401".to_owned(),
        basic_modes: vec![AuraModeNum::Static],
        basic_zones: vec![],
        advanced: false,
        power_zones: vec![PowerZones::Keyboard, PowerZones::RearGlow],
    };
    let mut controller = nodevice_controller(supported_modes);

    assert!(controller.config.multizone.is_none());
    assert!(controller.create_multizone_default().is_err());
    assert!(controller.config.multizone.is_none());

    controller.supported_modes.basic_zones.push(AuraZone::Key1);
    controller.supported_modes.basic_zones.push(AuraZone::Key2);
    assert!(controller.create_multizone_default().is_ok());
    assert!(controller.config.multizone.is_some());

    let m = controller.config.multizone.unwrap();
    assert!(m.contains_key(&AuraModeNum::Static));
    let e = m.get(&AuraModeNum::Static).unwrap();
    assert_eq!(e.len(), 2);
    assert_eq!(e[0].zone, AuraZone::Key1);
    assert_eq!(e[1].zone, AuraZone::Key2);
}

#[test]
fn next_mode_create_multizone_if_no_config() {
    // Checking to ensure set_mode errors when unsupported modes are tried
    let supported_modes = LaptopLedData {
        board_name: String::new(),
        layout_name: "ga401".to_owned(),
        basic_modes: vec![AuraModeNum::Static],
        basic_zones: vec![AuraZone::Key1, AuraZone::Key2],
        advanced: false,
        power_zones: vec![PowerZones::Keyboard, PowerZones::RearGlow],
    };
    let mut controller = nodevice_controller(supported_modes);

    assert!(controller.config.multizone.is_none());
    controller.config.multizone_on = true;
    // This is called in toggle_mode. It will error here because we have no
    // keyboard node in tests.
    assert_eq!(
        controller
            .write_current_config_mode()
            .unwrap_err()
            .to_string(),
        "No supported Aura keyboard"
    );
    assert!(controller.config.multizone.is_some());

    let m = controller.config.multizone.unwrap();
    assert!(m.contains_key(&AuraModeNum::Static));
    let e = m.get(&AuraModeNum::Static).unwrap();
    assert_eq!(e.len(), 2);
    assert_eq!(e[0].zone, AuraZone::Key1);
    assert_eq!(e[1].zone, AuraZone::Key2);
}

#[test]
fn brightness_wraps_both_ways() {
    let supported_modes = LaptopLedData {
        board_name: String::new(),
        layout_name: "ga401".to_owned(),
        basic_modes: vec![AuraModeNum::Static],
        basic_zones: vec![],
        advanced: false,
        power_zones: vec![],
    };
    let mut controller = nodevice_controller(supported_modes);

    controller.config.brightness = LedBrightness::High;
    controller.next_brightness().unwrap();
    assert_eq!(controller.config.brightness, LedBrightness::Off);
    assert_eq!(controller.get_brightness().unwrap(), 0);

    controller.prev_brightness().unwrap();
    assert_eq!(controller.config.brightness, LedBrightness::High);
    assert_eq!(controller.get_brightness().unwrap(), 3);

    controller.config.brightness = LedBrightness::Low;
    controller.next_brightness().unwrap();
    assert_eq!(controller.config.brightness, LedBrightness::Med);
    controller.prev_brightness().unwrap();
    assert_eq!(controller.config.brightness, LedBrightness::Low);
}

#[test]
fn toggle_mode_cycles_through_all_modes() {
    let supported_modes = LaptopLedData {
        board_name: String::new(),
        layout_name: "ga401".to_owned(),
        basic_modes: vec![
            AuraModeNum::Static,
            AuraModeNum::Breathe,
            AuraModeNum::Strobe,
        ],
        basic_zones: vec![],
        advanced: false,
        power_zones: vec![],
    };
    let mut config = AuraConfig::from_default_support(AuraDevice::X19b6, &supported_modes);
    config.current_mode = AuraModeNum::Breathe;
    let mut controller = nodevice_controller(supported_modes);
    controller.config = config;

    // the device write fails without a node, but the mode still advances
    let _ = controller.toggle_mode(false);
    assert_eq!(controller.config.current_mode, AuraModeNum::Strobe);
    let _ = controller.toggle_mode(false);
    assert_eq!(controller.config.current_mode, AuraModeNum::Static);
    let _ = controller.toggle_mode(false);
    assert_eq!(controller.config.current_mode, AuraModeNum::Breathe);
}

#[test]
fn toggle_mode_reverse_wraps_to_last() {
    let supported_modes = LaptopLedData {
        board_name: String::new(),
        layout_name: "ga401".to_owned(),
        basic_modes: vec![
            AuraModeNum::Static,
            AuraModeNum::Breathe,
            AuraModeNum::Strobe,
        ],
        basic_zones: vec![],
        advanced: false,
        power_zones: vec![],
    };
    let mut config = AuraConfig::from_default_support(AuraDevice::X19b6, &supported_modes);
    config.current_mode = AuraModeNum::Static;
    let mut controller = nodevice_controller(supported_modes);
    controller.config = config;

    let _ = controller.toggle_mode(true);
    assert_eq!(controller.config.current_mode, AuraModeNum::Strobe);
}

#[test]
fn toggle_mode_unknown_mode_is_a_no_op() {
    let supported_modes = LaptopLedData {
        board_name: String::new(),
        layout_name: "ga401".to_owned(),
        basic_modes: vec![AuraModeNum::Static],
        basic_zones: vec![],
        advanced: false,
        power_zones: vec![],
    };
    let mut controller = nodevice_controller(supported_modes);
    controller.config.current_mode = AuraModeNum::Laser;

    assert!(controller.toggle_mode(false).is_ok());
    assert_eq!(controller.config.current_mode, AuraModeNum::Laser);
}

#[test]
fn set_effect_stores_effect_and_raises_brightness() {
    let supported_modes = LaptopLedData {
        board_name: String::new(),
        layout_name: "ga401".to_owned(),
        basic_modes: vec![AuraModeNum::Static, AuraModeNum::Breathe],
        basic_zones: vec![],
        advanced: false,
        power_zones: vec![],
    };
    let mut controller = nodevice_controller(supported_modes);
    controller.led_node = LEDNode::Rog(HidRaw::new(AuraDevice::X19b6));
    controller.config.brightness = LedBrightness::Off;

    let effect = AuraEffect {
        mode: AuraModeNum::Breathe,
        colour1: Colour {
            r: 0x10,
            g: 0x20,
            b: 0x30,
        },
        ..Default::default()
    };
    controller.set_effect(effect).unwrap();

    // brightness off is raised to medium and applied
    assert_eq!(controller.config.brightness, LedBrightness::Med);
    assert_eq!(controller.get_brightness().unwrap(), 2);

    // the effect is stored under the active mode
    let stored = controller.current_effect().unwrap();
    assert_eq!(stored.mode, AuraModeNum::Breathe);
    assert_eq!(stored.colour1, Colour {
        r: 0x10,
        g: 0x20,
        b: 0x30,
    });
}

#[test]
fn error_messages() {
    assert_eq!(
        RogError::NoAuraKeyboard.to_string(),
        "No supported Aura keyboard"
    );
    assert_eq!(
        RogError::EffectNotSupported.to_string(),
        "Aura effect not supported"
    );
    assert_eq!(
        RogError::DeviceWriteFailed.to_string(),
        "Aura device write failed"
    );
    assert_eq!(
        RogError::ConfigLoadFailed.to_string(),
        "Aura config load failed"
    );
}

#[test]
fn enable_and_disable_zones_update_the_set() {
    let supported_modes = LaptopLedData {
        board_name: String::new(),
        layout_name: "ga401".to_owned(),
        basic_modes: vec![AuraModeNum::Static],
        basic_zones: vec![],
        advanced: false,
        power_zones: vec![],
    };
    let mut controller = nodevice_controller(supported_modes);
    controller.config.enabled = vec![];

    controller
        .enable_zones(&vec![
            PowerZones::Keyboard,
            PowerZones::Lid,
            PowerZones::Keyboard,
        ])
        .unwrap();
    assert_eq!(
        controller.config.enabled,
        vec![PowerZones::Keyboard, PowerZones::Lid]
    );

    controller.enable_zones(&vec![PowerZones::Logo]).unwrap();
    assert_eq!(
        controller.config.enabled,
        vec![PowerZones::Keyboard, PowerZones::Lid, PowerZones::Logo]
    );

    controller.disable_zones(&vec![PowerZones::Lid]).unwrap();
    assert_eq!(
        controller.config.enabled,
        vec![PowerZones::Keyboard, PowerZones::Logo]
    );

    assert_eq!(controller.enabled_zones().len(), 2);
    // bitset: keyboard is bit 0, logo is bit 1
    assert_eq!(controller.enabled_bytes(), vec![0b11, 0]);
}

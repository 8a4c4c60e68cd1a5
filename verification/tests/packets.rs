use aura_ctrl::aura::{
    AuraDevice, AuraEffect, AuraModeNum, AuraZone, Colour, Direction, LaptopLedData, LedBrightness,
    PowerZones, Speed,
};
use aura_ctrl::config::AuraConfig;
use aura_ctrl::controller::{CtrlKbdLed, HidRaw, KeyboardLed, LEDNode, SysfsLedWrite};

fn rog_controller(supported_modes: LaptopLedData) -> CtrlKbdLed {
    let config = AuraConfig::from_default_support(AuraDevice::X19b6, &supported_modes);
    CtrlKbdLed {
        led_prod: AuraDevice::X19b6,
        led_node: LEDNode::Rog(HidRaw::new(AuraDevice::X19b6)),
        kd_brightness: KeyboardLed::default(),
        supported_modes,
        flip_effect_write: false,
        per_key_mode_active: false,
        config,
    }
}

fn tuf_controller(supported_modes: LaptopLedData) -> CtrlKbdLed {
    let config = AuraConfig::from_default_support(AuraDevice::Tuf, &supported_modes);
    CtrlKbdLed {
        led_prod: AuraDevice::Tuf,
        led_node: LEDNode::KbdLed(KeyboardLed::new(true, 2)),
        kd_brightness: KeyboardLed::new(true, 2),
        supported_modes,
        flip_effect_write: false,
        per_key_mode_active: false,
        config,
    }
}

fn modes_only(modes: Vec<AuraModeNum>) -> LaptopLedData {
    LaptopLedData {
        board_name: String::new(),
        layout_name: "ga401".to_owned(),
        basic_modes: modes,
        basic_zones: vec![],
        advanced: true,
        power_zones: vec![],
    }
}

fn drain_hid(controller: &mut CtrlKbdLed) -> Vec<Vec<u8>> {
    match &mut controller.led_node {
        LEDNode::Rog(h) => h.take_queued(),
        _ => panic!("expected the raw-HID control path"),
    }
}

fn drain_tuf(controller: &mut CtrlKbdLed) -> Vec<SysfsLedWrite> {
    match &mut controller.led_node {
        LEDNode::KbdLed(k) => k.take_queued(),
        _ => panic!("expected the sysfs control path"),
    }
}

#[test]
fn hid_effect_write_has_fixed_layout() {
    let mut controller = rog_controller(modes_only(vec![AuraModeNum::Static]));
    let effect = AuraEffect {
        mode: AuraModeNum::Static,
        zone: AuraZone::NoZone,
        colour1: Colour {
            r: 0xff,
            g: 0x00,
            b: 0xff,
        },
        colour2: Colour {
            r: 0x11,
            g: 0x22,
            b: 0x33,
        },
        speed: Speed::Med,
        direction: Direction::Right,
    };
    controller.set_effect(effect).unwrap();

    let packets = drain_hid(&mut controller);
    assert_eq!(packets.len(), 3);
    assert_eq!(
        packets[0],
        vec![
            0x5d, 0xb3, 0x00, 0x00, 0xff, 0x00, 0xff, 0xeb, 0x00, 0x00, 0x11, 0x22, 0x33, 0x00,
            0x00, 0x00, 0x00
        ]
    );
    assert_eq!(packets[1], vec![0x5d, 0xb5, 0x00, 0x00, 0x00]);
    assert_eq!(packets[2], vec![0x5d, 0xb4, 0x00, 0x00, 0x00]);
}

#[test]
fn hid_effect_write_encodes_zone_speed_direction() {
    let mut controller = rog_controller(modes_only(vec![AuraModeNum::Breathe]));
    controller.supported_modes.basic_zones.push(AuraZone::Key3);
    let effect = AuraEffect {
        mode: AuraModeNum::Breathe,
        zone: AuraZone::Key3,
        colour1: Colour {
            r: 0x01,
            g: 0x02,
            b: 0x03,
        },
        colour2: Colour {
            r: 0x00,
            g: 0x00,
            b: 0x00,
        },
        speed: Speed::High,
        direction: Direction::Left,
    };
    controller.set_effect(effect).unwrap();

    let packets = drain_hid(&mut controller);
    // zone byte 3, mode byte 1, speed byte 0xf5, direction byte 1
    assert_eq!(packets[0][2], 0x03);
    assert_eq!(packets[0][3], 0x01);
    assert_eq!(packets[0][7], 0xf5);
    assert_eq!(packets[0][8], 0x01);
}

#[test]
fn tuf_effect_write_is_one_mode_buffer() {
    let mut controller = tuf_controller(modes_only(vec![AuraModeNum::Strobe]));
    let effect = AuraEffect {
        mode: AuraModeNum::Strobe,
        zone: AuraZone::NoZone,
        colour1: Colour {
            r: 0xaa,
            g: 0xbb,
            b: 0xcc,
        },
        colour2: Colour {
            r: 0x00,
            g: 0x00,
            b: 0x00,
        },
        speed: Speed::Low,
        direction: Direction::Right,
    };
    controller.set_effect(effect).unwrap();

    let writes = drain_tuf(&mut controller);
    assert_eq!(writes.len(), 1);
    match &writes[0] {
        SysfsLedWrite::Mode(buf) => {
            assert_eq!(buf, &vec![0x01, 0x02, 0xaa, 0xbb, 0xcc, 0xe1]);
        }
        SysfsLedWrite::State(_) => panic!("expected a mode-set write"),
    }
}

#[test]
fn hid_power_write_carries_zone_bitset() {
    let mut controller = rog_controller(modes_only(vec![AuraModeNum::Static]));
    controller
        .enable_zones(&vec![PowerZones::Keyboard, PowerZones::Lid])
        .unwrap();

    let packets = drain_hid(&mut controller);
    assert_eq!(packets.len(), 3);
    // keyboard is bit 0, lid is bit 3
    assert_eq!(packets[0], vec![0x5d, 0xbd, 0x01, 0b1001, 0x00, 0x00, 0x00]);
    assert_eq!(packets[1], vec![0x5d, 0xb5, 0x00, 0x00, 0x00]);
    assert_eq!(packets[2], vec![0x5d, 0xb4, 0x00, 0x00, 0x00]);
}

#[test]
fn tuf_power_write_is_on_off_bytes() {
    let mut controller = tuf_controller(modes_only(vec![AuraModeNum::Static]));
    controller.config.enabled = vec![PowerZones::Keyboard, PowerZones::Lightbar];
    controller.set_power_states().unwrap();

    let writes = drain_tuf(&mut controller);
    assert_eq!(writes.len(), 1);
    match &writes[0] {
        SysfsLedWrite::State(buf) => {
            assert_eq!(buf, &vec![0x01, 0x01, 0x00, 0x01, 0x00]);
        }
        SysfsLedWrite::Mode(_) => panic!("expected a power-state write"),
    }
}

#[test]
fn per_key_frame_sends_init_then_rows() {
    let mut controller = rog_controller(modes_only(vec![AuraModeNum::Static]));

    let mut row0 = vec![0u8; 64];
    row0[0] = 0x5d;
    row0[1] = 0xbc;
    let mut row1 = vec![0u8; 64];
    row1[0] = 0x5d;
    row1[1] = 0xbc;
    row1[9] = 0x7f;
    let frame = vec![row0.clone(), row1.clone()];

    assert!(!controller.per_key_mode_active);
    controller.write_effect_block(&frame).unwrap();
    assert!(controller.per_key_mode_active);
    assert!(controller.flip_effect_write);

    let packets = drain_hid(&mut controller);
    assert_eq!(packets.len(), 3);
    // the handshake packet opens the session
    let mut init = vec![0u8; 64];
    init[0] = 0x5d;
    init[1] = 0xbc;
    assert_eq!(packets[0], init);
    assert_eq!(packets[1], row0);
    assert_eq!(packets[2], row1);

    // a second frame skips the handshake
    controller.write_effect_block(&frame).unwrap();
    let packets = drain_hid(&mut controller);
    assert_eq!(packets.len(), 2);
    assert!(!controller.flip_effect_write);
}

#[test]
fn single_packet_frame_leaves_per_key_mode() {
    let mut controller = rog_controller(modes_only(vec![AuraModeNum::Static]));
    controller.per_key_mode_active = true;

    let mut row = vec![0u8; 64];
    row[0] = 0x5d;
    row[1] = 0xb3;
    controller.write_effect_block(&vec![row.clone()]).unwrap();

    assert!(!controller.per_key_mode_active);
    let packets = drain_hid(&mut controller);
    assert_eq!(packets.len(), 2);
    assert_eq!(packets[0], row);
    assert_eq!(packets[1], vec![0x5d, 0xb5, 0x00, 0x00, 0x00]);
}

#[test]
fn per_key_frame_on_tuf_degrades_to_colour_writes() {
    let mut controller = tuf_controller(modes_only(vec![AuraModeNum::Static]));

    let mut row = vec![0u8; 64];
    row[0] = 0x5d;
    row[1] = 0xbc;
    row[9] = 0x0a;
    row[10] = 0x0b;
    row[11] = 0x0c;
    controller.write_effect_block(&vec![row]).unwrap();

    let writes = drain_tuf(&mut controller);
    assert_eq!(writes.len(), 1);
    match &writes[0] {
        SysfsLedWrite::Mode(buf) => {
            assert_eq!(buf, &vec![0x00, 0x00, 0x0a, 0x0b, 0x0c, 0x00]);
        }
        SysfsLedWrite::State(_) => panic!("expected a mode-set write"),
    }
}

#[test]
fn write_effect_block_raises_brightness_from_off() {
    let mut controller = rog_controller(modes_only(vec![AuraModeNum::Static]));
    controller.config.brightness = LedBrightness::Off;

    let mut row = vec![0u8; 64];
    row[1] = 0xbc;
    controller.write_effect_block(&vec![row]).unwrap();
    assert_eq!(controller.config.brightness, LedBrightness::Med);
}

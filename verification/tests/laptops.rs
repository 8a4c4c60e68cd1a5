use aura_ctrl::laptops::{
    BREATHING, LEDModeGroup, LEDModes, LaptopBase, STATIC, STROBE, UsbDeviceId, match_laptop,
    select_1866_device,
};

fn mode_table() -> LEDModeGroup {
    LEDModeGroup {
        led_modes: vec![
            LEDModes {
                prod_family: "Zephyrus".to_owned(),
                board_names: vec!["GA401".to_owned(), "GA502".to_owned()],
                led_modes: vec![0x00, 0x01, 0x02, 0x0a],
            },
            LEDModes {
                prod_family: "TUF".to_owned(),
                board_names: vec!["FX505".to_owned()],
                led_modes: vec![0x00, 0x01],
            },
        ],
    }
}

#[test]
fn matcher_finds_the_board_by_substring() {
    // the probed strings carry more text than the table entries: a match is
    // by containment, not equality
    let modes = mode_table()
        .matcher("ROG Zephyrus G14", "GA401IV")
        .unwrap();
    assert_eq!(modes, vec![0x00, 0x01, 0x02, 0x0a]);
}

#[test]
fn matcher_needs_family_and_board_to_match() {
    // family matches, board does not
    assert!(mode_table().matcher("ROG Zephyrus G14", "GL504").is_none());
    // board matches, family does not
    assert!(mode_table().matcher("VivoBook", "GA401IV").is_none());
    // second entry matches
    let modes = mode_table().matcher("ASUS TUF Gaming", "FX505DT").unwrap();
    assert_eq!(modes, vec![0x00, 0x01]);
}

#[test]
fn select_1866_without_table_gives_minimal_support() {
    let laptop = select_1866_device("1866".to_owned(), "ROG Zephyrus G14", "GA401IV", None);
    assert_eq!(laptop.usb_product(), "1866");
    assert!(laptop.supported_modes().is_empty());
}

#[test]
fn select_1866_takes_modes_from_the_table() {
    let laptop = select_1866_device(
        "1866".to_owned(),
        "ROG Zephyrus G14",
        "GA401IV",
        Some(mode_table()),
    );
    assert_eq!(laptop.supported_modes(), &[0x00, 0x01, 0x02, 0x0a]);
}

#[test]
fn match_laptop_picks_the_first_recognized_device() {
    let devices = vec![
        UsbDeviceId {
            vendor_id: 0x046d,
            product_id: 0x1866,
        },
        UsbDeviceId {
            vendor_id: 0x0b05,
            product_id: 0x9999,
        },
        UsbDeviceId {
            vendor_id: 0x0b05,
            product_id: 0x1866,
        },
    ];
    let laptop = match_laptop(&devices, "ROG Zephyrus G14", "GA401IV", Some(mode_table()))
        .unwrap();
    assert_eq!(laptop.usb_product(), "1866");
    assert_eq!(laptop.supported_modes(), &[0x00, 0x01, 0x02, 0x0a]);
}

#[test]
fn match_laptop_knows_the_gl753_generation() {
    let devices = vec![UsbDeviceId {
        vendor_id: 0x0b05,
        product_id: 0x1854,
    }];
    let laptop: LaptopBase = match_laptop(&devices, "", "", None).unwrap();
    assert_eq!(laptop.usb_product(), "1854");
    assert_eq!(laptop.supported_modes(), &[STATIC, BREATHING, STROBE]);
}

#[test]
fn match_laptop_without_a_recognized_device_finds_nothing() {
    let devices = vec![UsbDeviceId {
        vendor_id: 0x046d,
        product_id: 0xc52b,
    }];
    assert!(match_laptop(&devices, "", "", None).is_none());
}

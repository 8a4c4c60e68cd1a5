use vstd::prelude::*;

use crate::aura::copy_list;

verus! {

/// Mode byte for the static colour effect.
pub const STATIC: u8 = 0x00;

/// Mode byte for the breathing effect.
pub const BREATHING: u8 = 0x01;

/// Mode byte for the strobe effect.
pub const STROBE: u8 = 0x02;

/// Whether `needle` occurs contiguously in `hay`.
pub open spec fn str_contains_spec(hay: Seq<char>, needle: Seq<char>) -> bool {
    exists|i: int|
        0 <= i && i + needle.len() <= hay.len() && #[trigger] hay.subrange(i, i + needle.len())
            == needle
}

/// Relies on str::contains with a &str pattern: true exactly when the
/// needle's characters occur contiguously in the haystack.
#[verifier::external_body]
fn str_contains(hay: &str, needle: &str) -> (r: bool)
    ensures
        r == str_contains_spec(hay@, needle@),
{
    hay.contains(needle)
}

/// A laptop matched by USB product, with the mode bytes its keyboard
/// supports.
#[derive(Debug)]
pub struct LaptopBase {
    usb_product: String,
    supported_modes: Vec<u8>,
}

impl LaptopBase {
    pub closed spec fn usb_product_spec(&self) -> Seq<char> {
        self.usb_product@
    }

    pub closed spec fn modes_spec(&self) -> Seq<u8> {
        self.supported_modes@
    }

    pub fn usb_product(&self) -> (r: &str)
        ensures
            r@ == self.usb_product_spec(),
    {
        self.usb_product.as_str()
    }

    pub fn supported_modes(&self) -> (r: &[u8])
        ensures
            r@ == self.modes_spec(),
    {
        self.supported_modes.as_slice()
    }
}

/// One entry of the LED-mode table: a product family, its board names, and
/// the mode bytes those boards support.
#[derive(Debug)]
pub struct LEDModes {
    pub prod_family: String,
    pub board_names: Vec<String>,
    pub led_modes: Vec<u8>,
}

/// The LED-mode table, as loaded from the mode configuration document by
/// the embedding program.
#[derive(Debug)]
pub struct LEDModeGroup {
    pub led_modes: Vec<LEDModes>,
}

/// Whether the entry's product family occurs in the probed family string.
pub open spec fn family_matches(g: LEDModes, prod_family: Seq<char>) -> bool {
    str_contains_spec(prod_family, g.prod_family@)
}

/// Whether one of the entry's board names occurs in the probed board name.
pub open spec fn board_matches(g: LEDModes, board_name: Seq<char>) -> bool {
    exists|j: int| 0 <= j < g.board_names@.len() && str_contains_spec(board_name, g.board_names@[j]@)
}

/// Whether the entry matches the probed machine.
pub open spec fn group_matches(g: LEDModes, prod_family: Seq<char>, board_name: Seq<char>) -> bool {
    family_matches(g, prod_family) && board_matches(g, board_name)
}

/// The mode bytes of the first table entry matching the probed machine.
pub open spec fn matcher_spec(
    groups: Seq<LEDModes>,
    prod_family: Seq<char>,
    board_name: Seq<char>,
) -> Option<Seq<u8>>
    decreases groups.len(),
{
    if groups.len() == 0 {
        None
    } else if group_matches(groups[0], prod_family, board_name) {
        Some(groups[0].led_modes@)
    } else {
        matcher_spec(groups.skip(1), prod_family, board_name)
    }
}

impl LEDModeGroup {
    /// The mode bytes of the first entry whose product family occurs in the
    /// probed family string and one of whose board names occurs in the
    /// probed board name. Consumes the table.
    pub fn matcher(self, prod_family: &str, board_name: &str) -> (r: Option<Vec<u8>>)
        ensures
            match r {
                Some(v) => matcher_spec(self.led_modes@, prod_family@, board_name@) == Some(v@),
                None => matcher_spec(self.led_modes@, prod_family@, board_name@) is None,
            },
    {
        let ghost all = self.led_modes@;
        let n = self.led_modes.len();
        let mut i: usize = 0;
        proof {
            assert(all.skip(0) =~= all);
        }
        while i < n
            invariant
                i <= n,
                n == self.led_modes@.len(),
                self.led_modes@ == all,
                matcher_spec(all, prod_family@, board_name@) == matcher_spec(
                    all.skip(i as int),
                    prod_family@,
                    board_name@,
                ),
            decreases n - i,
        {
            let family_found = str_contains(prod_family, self.led_modes[i].prod_family.as_str());
            let mut board_found = false;
            if family_found {
                let nb = self.led_modes[i].board_names.len();
                let mut j: usize = 0;
                while j < nb && !board_found
                    invariant
                        j <= nb,
                        i < n,
                        n == self.led_modes@.len(),
                        self.led_modes@ == all,
                        nb == all[i as int].board_names@.len(),
                        !board_found ==> forall|k: int| 0 <= k < j ==> !str_contains_spec(
                            board_name@,
                            all[i as int].board_names@[k]@,
                        ),
                        board_found ==> board_matches(all[i as int], board_name@),
                    decreases nb - j + (if board_found {
                        0int
                    } else {
                        1int
                    }),
                {
                    if str_contains(board_name, self.led_modes[i].board_names[j].as_str()) {
                        proof {
                            assert(board_matches(all[i as int], board_name@)) by {
                                assert(str_contains_spec(
                                    board_name@,
                                    all[i as int].board_names@[j as int]@,
                                ));
                            }
                        }
                        board_found = true;
                    } else {
                        j += 1;
                    }
                }
            }
            if family_found && board_found {
                proof {
                    assert(all.skip(i as int)[0] == all[i as int]);
                    assert(group_matches(all[i as int], prod_family@, board_name@));
                    assert(matcher_spec(all.skip(i as int), prod_family@, board_name@) == Some(
                        all[i as int].led_modes@,
                    ));
                }
                let found = copy_list(&self.led_modes[i].led_modes);
                return Some(found);
            }
            proof {
                assert(all.skip(i as int)[0] == all[i as int]);
                if family_found {
                    assert(!board_found);
                    assert(!board_matches(all[i as int], board_name@));
                } else {
                    assert(!family_matches(all[i as int], prod_family@));
                }
                assert(!group_matches(all[i as int], prod_family@, board_name@));
                assert(all.skip(i as int).skip(1) =~= all.skip(i + 1));
            }
            i += 1;
        }
        proof {
            assert(all.skip(n as int) =~= Seq::<LEDModes>::empty());
        }
        None
    }
}

/// One USB device, as the embedding program enumerated it.
#[derive(Debug, Clone, Copy, PartialEq, Eq, Structural)]
pub struct UsbDeviceId {
    pub vendor_id: u16,
    pub product_id: u16,
}

/// Whether the device is one of the recognized Aura keyboard products.
pub open spec fn is_aura_product(d: UsbDeviceId) -> bool {
    d.vendor_id == 0x0b05 && (d.product_id == 0x1866 || d.product_id == 0x1869 || d.product_id
        == 0x1854)
}

/// The first recognized Aura keyboard in the enumeration order.
pub open spec fn first_aura_device_spec(devices: Seq<UsbDeviceId>) -> Option<UsbDeviceId>
    decreases devices.len(),
{
    if devices.len() == 0 {
        None
    } else if is_aura_product(devices[0]) {
        Some(devices[0])
    } else {
        first_aura_device_spec(devices.skip(1))
    }
}

/// The mode bytes that the table lookup yields for the probed machine, or
/// none at all for a machine the table does not know.
pub open spec fn select_modes_spec(
    mode_groups: Option<LEDModeGroup>,
    prod_family: Seq<char>,
    board_name: Seq<char>,
) -> Seq<u8> {
    match mode_groups {
        Some(g) => match matcher_spec(g.led_modes@, prod_family, board_name) {
            Some(v) => v,
            None => Seq::<u8>::empty(),
        },
        None => Seq::<u8>::empty(),
    }
}

/// A laptop of the 1866 generation: its supported modes come from the
/// LED-mode table, matched against the DMI strings the embedding program
/// read. An unknown machine continues with minimal support, which the
/// embedding program reports.
pub fn select_1866_device(
    prod: String,
    prod_family: &str,
    board_name: &str,
    mode_groups: Option<LEDModeGroup>,
) -> (l: LaptopBase)
    ensures
        l.usb_product_spec() == prod@,
        l.modes_spec() == select_modes_spec(mode_groups, prod_family@, board_name@),
{
    let mut laptop = LaptopBase { usb_product: prod, supported_modes: Vec::new() };
    if let Some(modes) = mode_groups {
        if let Some(led_modes) = modes.matcher(prod_family, board_name) {
            laptop.supported_modes = led_modes;
            return laptop;
        }
    }
    proof {
        assert(laptop.modes_spec() =~= Seq::<u8>::empty());
    }
    laptop
}

/// The laptop that the enumerated USB devices identify: the first
/// recognized Aura keyboard decides the product generation, and for the
/// 1866 generation the LED-mode table decides the supported modes.
pub fn match_laptop(
    devices: &Vec<UsbDeviceId>,
    prod_family: &str,
    board_name: &str,
    mode_groups: Option<LEDModeGroup>,
) -> (r: Option<LaptopBase>)
    ensures
        first_aura_device_spec(devices@) is None ==> r is None,
        first_aura_device_spec(devices@) matches Some(d) ==> (r matches Some(l) && ({
            if d.product_id == 0x1854 {
                l.usb_product_spec() == "1854"@ && l.modes_spec() == seq![STATIC, BREATHING, STROBE]
            } else {
                l.usb_product_spec() == (if d.product_id == 0x1866 {
                    "1866"@
                } else {
                    "1869"@
                }) && l.modes_spec() == select_modes_spec(mode_groups, prod_family@, board_name@)
            }
        })),
{
    let n = devices.len();
    let mut i: usize = 0;
    proof {
        assert(devices@.skip(0) =~= devices@);
    }
    while i < n
        invariant
            i <= n,
            n == devices@.len(),
            first_aura_device_spec(devices@) == first_aura_device_spec(devices@.skip(i as int)),
        decreases n - i,
    {
        let d = devices[i];
        proof {
            assert(devices@.skip(i as int)[0] == devices@[i as int]);
            assert(devices@.skip(i as int).skip(1) =~= devices@.skip(i + 1));
        }
        if d.vendor_id == 0x0b05 {
            if d.product_id == 0x1866 {
                return Some(
                    select_1866_device("1866".to_owned(), prod_family, board_name, mode_groups),
                );
            }
            if d.product_id == 0x1869 {
                return Some(
                    select_1866_device("1869".to_owned(), prod_family, board_name, mode_groups),
                );
            }
            if d.product_id == 0x1854 {
                let mut modes: Vec<u8> = Vec::new();
                modes.push(STATIC);
                modes.push(BREATHING);
                modes.push(STROBE);
                proof {
                    assert(modes@ =~= seq![STATIC, BREATHING, STROBE]);
                }
                return Some(LaptopBase { usb_product: "1854".to_owned(), supported_modes: modes });
            }
        }
        i += 1;
    }
    None
}

} // verus!

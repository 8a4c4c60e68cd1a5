use vstd::prelude::*;

use crate::aura::{AuraEffect, Colour, PowerZones, power_list_contains};

verus! {

/// Length of a raw-HID effect control message.
pub const LED_MSG_LEN: usize = 17;

/// Length of a per-key streaming packet, including the two-byte header.
pub const PER_KEY_PACKET_LEN: usize = 64;

/// Marker byte at offset 1 of a streaming packet's first row that selects
/// the per-key protocol.
pub const PER_KEY_TYPE: u8 = 0xbc;

/// The raw-HID effect message: mode, zone, colours, speed and direction at
/// fixed offsets behind the vendor header `0x5d 0xb3`.
pub open spec fn led_msg_spec(e: AuraEffect) -> Seq<u8> {
    seq![
        0x5d,
        0xb3,
        e.zone.byte_spec(),
        e.mode.byte_spec(),
        e.colour1.r,
        e.colour1.g,
        e.colour1.b,
        e.speed.byte_spec(),
        e.direction.byte_spec(),
        0x00,
        e.colour2.r,
        e.colour2.g,
        e.colour2.b,
        0x00,
        0x00,
        0x00,
        0x00,
    ]
}

pub fn led_msg(e: &AuraEffect) -> (v: Vec<u8>)
    ensures
        v@ == led_msg_spec(*e),
        v@.len() == LED_MSG_LEN,
{
    let mut v: Vec<u8> = Vec::new();
    v.push(0x5d);
    v.push(0xb3);
    v.push(e.zone.as_byte());
    v.push(e.mode.as_byte());
    v.push(e.colour1.r);
    v.push(e.colour1.g);
    v.push(e.colour1.b);
    v.push(e.speed.as_byte());
    v.push(e.direction.as_byte());
    v.push(0x00);
    v.push(e.colour2.r);
    v.push(e.colour2.g);
    v.push(e.colour2.b);
    v.push(0x00);
    v.push(0x00);
    v.push(0x00);
    v.push(0x00);
    proof {
        assert(v@ =~= led_msg_spec(*e));
    }
    v
}

/// The "set" control packet; sent after an effect message.
pub open spec fn led_set_msg_spec() -> Seq<u8> {
    seq![0x5d, 0xb5, 0x00, 0x00, 0x00]
}

pub fn led_set_msg() -> (v: Vec<u8>)
    ensures
        v@ == led_set_msg_spec(),
{
    let mut v: Vec<u8> = Vec::new();
    v.push(0x5d);
    v.push(0xb5);
    v.push(0x00);
    v.push(0x00);
    v.push(0x00);
    proof {
        assert(v@ =~= led_set_msg_spec());
    }
    v
}

/// The "apply" control packet; the device does not keep a change that is not
/// followed by it.
pub open spec fn led_apply_msg_spec() -> Seq<u8> {
    seq![0x5d, 0xb4, 0x00, 0x00, 0x00]
}

pub fn led_apply_msg() -> (v: Vec<u8>)
    ensures
        v@ == led_apply_msg_spec(),
{
    let mut v: Vec<u8> = Vec::new();
    v.push(0x5d);
    v.push(0xb4);
    v.push(0x00);
    v.push(0x00);
    v.push(0x00);
    proof {
        assert(v@ =~= led_apply_msg_spec());
    }
    v
}

/// One bit per power zone, in declaration order from the least significant
/// bit.
pub open spec fn power_bitset_spec(enabled: Seq<PowerZones>) -> u8 {
    ((if enabled.contains(PowerZones::Keyboard) {
        1int
    } else {
        0int
    }) + (if enabled.contains(PowerZones::Logo) {
        2int
    } else {
        0int
    }) + (if enabled.contains(PowerZones::Lightbar) {
        4int
    } else {
        0int
    }) + (if enabled.contains(PowerZones::Lid) {
        8int
    } else {
        0int
    }) + (if enabled.contains(PowerZones::RearGlow) {
        16int
    } else {
        0int
    })) as u8
}

pub fn power_bitset(enabled: &Vec<PowerZones>) -> (b: u8)
    ensures
        b == power_bitset_spec(enabled@),
{
    let mut b: u8 = 0;
    if power_list_contains(enabled, PowerZones::Keyboard) {
        b += 1;
    }
    if power_list_contains(enabled, PowerZones::Logo) {
        b += 2;
    }
    if power_list_contains(enabled, PowerZones::Lightbar) {
        b += 4;
    }
    if power_list_contains(enabled, PowerZones::Lid) {
        b += 8;
    }
    if power_list_contains(enabled, PowerZones::RearGlow) {
        b += 16;
    }
    b
}

/// The raw-HID power-state message: header `0x5d 0xbd 0x01`, then four bytes
/// carrying the enabled-zone bitset.
pub open spec fn hid_power_msg_spec(enabled: Seq<PowerZones>) -> Seq<u8> {
    seq![0x5d, 0xbd, 0x01, power_bitset_spec(enabled), 0x00, 0x00, 0x00]
}

pub fn hid_power_msg(enabled: &Vec<PowerZones>) -> (v: Vec<u8>)
    ensures
        v@ == hid_power_msg_spec(enabled@),
{
    let mut v: Vec<u8> = Vec::new();
    v.push(0x5d);
    v.push(0xbd);
    v.push(0x01);
    v.push(power_bitset(enabled));
    v.push(0x00);
    v.push(0x00);
    v.push(0x00);
    proof {
        assert(v@ =~= hid_power_msg_spec(enabled@));
    }
    v
}

/// The sysfs mode-set buffer: `[1, mode, r, g, b, speed]`.
pub open spec fn tuf_mode_msg_spec(e: AuraEffect) -> Seq<u8> {
    seq![
        0x01,
        e.mode.byte_spec(),
        e.colour1.r,
        e.colour1.g,
        e.colour1.b,
        e.speed.byte_spec(),
    ]
}

pub fn tuf_mode_msg(e: &AuraEffect) -> (v: Vec<u8>)
    ensures
        v@ == tuf_mode_msg_spec(*e),
{
    let mut v: Vec<u8> = Vec::new();
    v.push(0x01);
    v.push(e.mode.as_byte());
    v.push(e.colour1.r);
    v.push(e.colour1.g);
    v.push(e.colour1.b);
    v.push(e.speed.as_byte());
    proof {
        assert(v@ =~= tuf_mode_msg_spec(*e));
    }
    v
}

/// The sysfs power-state buffer: a leading `1`, then one on/off byte per
/// power zone that the sysfs path controls.
pub open spec fn tuf_power_msg_spec(enabled: Seq<PowerZones>) -> Seq<u8> {
    seq![
        0x01,
        if enabled.contains(PowerZones::Keyboard) {
            1u8
        } else {
            0u8
        },
        if enabled.contains(PowerZones::Logo) {
            1u8
        } else {
            0u8
        },
        if enabled.contains(PowerZones::Lightbar) {
            1u8
        } else {
            0u8
        },
        if enabled.contains(PowerZones::Lid) {
            1u8
        } else {
            0u8
        },
    ]
}

pub fn tuf_power_msg(enabled: &Vec<PowerZones>) -> (v: Vec<u8>)
    ensures
        v@ == tuf_power_msg_spec(enabled@),
{
    let mut v: Vec<u8> = Vec::new();
    v.push(0x01);
    v.push(if power_list_contains(enabled, PowerZones::Keyboard) { 1 } else { 0 });
    v.push(if power_list_contains(enabled, PowerZones::Logo) { 1 } else { 0 });
    v.push(if power_list_contains(enabled, PowerZones::Lightbar) { 1 } else { 0 });
    v.push(if power_list_contains(enabled, PowerZones::Lid) { 1 } else { 0 });
    proof {
        assert(v@ =~= tuf_power_msg_spec(enabled@));
    }
    v
}

/// The handshake packet that opens a per-key streaming session.
pub open spec fn per_key_init_msg_spec() -> Seq<u8> {
    Seq::new(
        PER_KEY_PACKET_LEN as nat,
        |i: int|
            if i == 0 {
                0x5du8
            } else if i == 1 {
                0xbcu8
            } else {
                0x00u8
            },
    )
}

pub fn per_key_init_msg() -> (v: Vec<u8>)
    ensures
        v@ == per_key_init_msg_spec(),
{
    let mut v: Vec<u8> = vec![0u8; PER_KEY_PACKET_LEN];
    v.set(0, 0x5d);
    v.set(1, 0xbc);
    proof {
        assert(v@ =~= per_key_init_msg_spec());
    }
    v
}

/// The sysfs approximation of one per-key row: only the row's colour bytes,
/// sent through the mode-set call.
pub open spec fn tuf_row_msg_spec(r: u8, g: u8, b: u8) -> Seq<u8> {
    seq![0x00, 0x00, r, g, b, 0x00]
}

pub fn tuf_row_msg(r: u8, g: u8, b: u8) -> (v: Vec<u8>)
    ensures
        v@ == tuf_row_msg_spec(r, g, b),
{
    let mut v: Vec<u8> = Vec::new();
    v.push(0x00);
    v.push(0x00);
    v.push(r);
    v.push(g);
    v.push(b);
    v.push(0x00);
    proof {
        assert(v@ =~= tuf_row_msg_spec(r, g, b));
    }
    v
}

/// Number of entries in the fixed gradient palette.
pub const GRADIENT_LEN: usize = 7;

/// The fixed gradient palette that synthesized multizone defaults draw
/// from: an aesthetic default, not a protocol requirement.
pub open spec fn gradient_spec(i: int) -> Colour {
    if i == 0 {
        Colour { r: 0xff, g: 0x00, b: 0x00 }
    } else if i == 1 {
        Colour { r: 0xff, g: 0x7f, b: 0x00 }
    } else if i == 2 {
        Colour { r: 0xff, g: 0xff, b: 0x00 }
    } else if i == 3 {
        Colour { r: 0x00, g: 0xff, b: 0x00 }
    } else if i == 4 {
        Colour { r: 0x00, g: 0x00, b: 0xff }
    } else if i == 5 {
        Colour { r: 0x4b, g: 0x00, b: 0x82 }
    } else {
        Colour { r: 0x94, g: 0x00, b: 0xd3 }
    }
}

pub fn gradient(i: usize) -> (c: Colour)
    requires
        i < GRADIENT_LEN,
    ensures
        c == gradient_spec(i as int),
{
    if i == 0 {
        Colour { r: 0xff, g: 0x00, b: 0x00 }
    } else if i == 1 {
        Colour { r: 0xff, g: 0x7f, b: 0x00 }
    } else if i == 2 {
        Colour { r: 0xff, g: 0xff, b: 0x00 }
    } else if i == 3 {
        Colour { r: 0x00, g: 0xff, b: 0x00 }
    } else if i == 4 {
        Colour { r: 0x00, g: 0x00, b: 0xff }
    } else if i == 5 {
        Colour { r: 0x4b, g: 0x00, b: 0x82 }
    } else {
        Colour { r: 0x94, g: 0x00, b: 0xd3 }
    }
}

/// First gradient colour of the synthesized multizone entry at `i`: the
/// palette read forward, falling back to its first entry past the end.
pub open spec fn gradient_forward_spec(i: int) -> Colour {
    if 0 <= i < GRADIENT_LEN {
        gradient_spec(i)
    } else {
        gradient_spec(0)
    }
}

pub fn gradient_forward(i: usize) -> (c: Colour)
    ensures
        c == gradient_forward_spec(i as int),
{
    if i < GRADIENT_LEN {
        gradient(i)
    } else {
        gradient(0)
    }
}

/// Second gradient colour of the synthesized multizone entry at `i`: the
/// palette read backward from the far end, falling back to its last entry.
pub open spec fn gradient_backward_spec(i: int) -> Colour {
    if 0 < i <= GRADIENT_LEN {
        gradient_spec(GRADIENT_LEN - i)
    } else {
        gradient_spec(GRADIENT_LEN - 1)
    }
}

pub fn gradient_backward(i: usize) -> (c: Colour)
    ensures
        c == gradient_backward_spec(i as int),
{
    if 0 < i && i <= GRADIENT_LEN {
        gradient(GRADIENT_LEN - i)
    } else {
        gradient(GRADIENT_LEN - 1)
    }
}

} // verus!

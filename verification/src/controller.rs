use vstd::prelude::*;

use crate::aura::{
    AuraDevice, AuraEffect, AuraModeNum, AuraZone, Direction, LaptopLedData, LedBrightness,
    LedSupportedFunctions, PowerZones, Speed, copy_list, mode_list_contains, power_list_contains,
    zone_list_contains,
};
use crate::config::{AuraConfig, merged_config_post, opt_set_view};
use crate::cycling::{position_of_mode, toggle_next_spec};
use crate::error::RogError;
use crate::mode_map::{ModeMap, mode_lookup};
use crate::packets::{
    PER_KEY_TYPE, gradient_backward, gradient_backward_spec, gradient_forward,
    gradient_forward_spec, hid_power_msg, hid_power_msg_spec, led_apply_msg, led_apply_msg_spec,
    led_msg, led_msg_spec, led_set_msg, led_set_msg_spec, per_key_init_msg, per_key_init_msg_spec,
    power_bitset, power_bitset_spec, tuf_mode_msg, tuf_mode_msg_spec, tuf_power_msg,
    tuf_power_msg_spec, tuf_row_msg, tuf_row_msg_spec,
};

verus! {

/// One queued write for the raw HID control path, as the embedding program
/// will deliver it: the exact packet bytes.
pub open spec fn vecs_view(s: Seq<Vec<u8>>) -> Seq<Seq<u8>> {
    s.map_values(|v: Vec<u8>| v@)
}

/// The raw HID control path. Packet writes are queued here in order; the
/// embedding program drains the queue and delivers each packet to the
/// device node it opened.
#[derive(Debug)]
pub struct HidRaw {
    prod: AuraDevice,
    queued: Vec<Vec<u8>>,
}

impl View for HidRaw {
    type V = Seq<Seq<u8>>;

    closed spec fn view(&self) -> Seq<Seq<u8>> {
        vecs_view(self.queued@)
    }
}

impl HidRaw {
    pub closed spec fn prod_spec(&self) -> AuraDevice {
        self.prod
    }

    pub fn new(prod: AuraDevice) -> (r: HidRaw)
        ensures
            r.prod_spec() == prod,
            r@ == Seq::<Seq<u8>>::empty(),
    {
        let r = HidRaw { prod, queued: Vec::new() };
        proof {
            assert(r@ =~= Seq::<Seq<u8>>::empty());
        }
        r
    }

    pub fn prod(&self) -> (r: AuraDevice)
        ensures
            r == self.prod_spec(),
    {
        self.prod
    }

    /// Queue one packet for the device.
    pub fn write_bytes(&mut self, message: Vec<u8>)
        ensures
            final(self)@ == old(self)@.push(message@),
            final(self).prod_spec() == old(self).prod_spec(),
    {
        self.queued.push(message);
        proof {
            assert(self@ =~= old(self)@.push(message@));
        }
    }

    /// Hand the queued packets out for delivery, leaving the queue empty.
    pub fn take_queued(&mut self) -> (r: Vec<Vec<u8>>)
        ensures
            vecs_view(r@) == old(self)@,
            final(self)@ == Seq::<Seq<u8>>::empty(),
            final(self).prod_spec() == old(self).prod_spec(),
    {
        let mut out: Vec<Vec<u8>> = Vec::new();
        core::mem::swap(&mut self.queued, &mut out);
        proof {
            assert(self@ =~= Seq::<Seq<u8>>::empty());
        }
        out
    }
}

/// One queued write for the sysfs LED control path: either the mode-set
/// attribute or the power-state attribute.
#[derive(Debug)]
pub enum SysfsLedWrite {
    Mode(Vec<u8>),
    State(Vec<u8>),
}

/// Mathematical image of one sysfs write: which attribute, and the bytes.
pub struct SysfsMsgView {
    pub state: bool,
    pub bytes: Seq<u8>,
}

impl View for SysfsLedWrite {
    type V = SysfsMsgView;

    open spec fn view(&self) -> SysfsMsgView {
        match self {
            SysfsLedWrite::Mode(v) => SysfsMsgView { state: false, bytes: v@ },
            SysfsLedWrite::State(v) => SysfsMsgView { state: true, bytes: v@ },
        }
    }
}

/// The sysfs LED control path: brightness state plus the queue of attribute
/// writes that the embedding program delivers.
#[derive(Debug)]
pub struct KeyboardLed {
    has_rgb_mode: bool,
    brightness: u8,
    queued: Vec<SysfsLedWrite>,
}

impl View for KeyboardLed {
    type V = Seq<SysfsMsgView>;

    closed spec fn view(&self) -> Seq<SysfsMsgView> {
        self.queued@.map_values(|w: SysfsLedWrite| w@)
    }
}

impl KeyboardLed {
    pub closed spec fn has_rgb_spec(&self) -> bool {
        self.has_rgb_mode
    }

    pub closed spec fn brightness_spec(&self) -> u8 {
        self.brightness
    }

    /// A sysfs LED path as probed by the embedding program.
    pub fn new(has_rgb_mode: bool, brightness: u8) -> (r: KeyboardLed)
        ensures
            r.has_rgb_spec() == has_rgb_mode,
            r.brightness_spec() == brightness,
            r@ == Seq::<SysfsMsgView>::empty(),
    {
        let r = KeyboardLed { has_rgb_mode, brightness, queued: Vec::new() };
        proof {
            assert(r@ =~= Seq::<SysfsMsgView>::empty());
        }
        r
    }

    /// Whether the sysfs path exposes RGB-mode control.
    pub fn has_kbd_rgb_mode(&self) -> (r: bool)
        ensures
            r == self.has_rgb_spec(),
    {
        self.has_rgb_mode
    }

    pub fn get_brightness(&self) -> (r: u8)
        ensures
            r == self.brightness_spec(),
    {
        self.brightness
    }

    pub fn set_brightness(&mut self, brightness: u8)
        ensures
            final(self).brightness_spec() == brightness,
            final(self).has_rgb_spec() == old(self).has_rgb_spec(),
            final(self)@ == old(self)@,
    {
        self.brightness = brightness;
        proof {
            assert(self@ =~= old(self)@);
        }
    }

    /// Queue a write of the mode-set attribute.
    pub fn set_kbd_rgb_mode(&mut self, buf: Vec<u8>)
        ensures
            final(self)@ == old(self)@.push(SysfsMsgView { state: false, bytes: buf@ }),
            final(self).has_rgb_spec() == old(self).has_rgb_spec(),
            final(self).brightness_spec() == old(self).brightness_spec(),
    {
        let ghost b = buf@;
        self.queued.push(SysfsLedWrite::Mode(buf));
        proof {
            assert(self@ =~= old(self)@.push(SysfsMsgView { state: false, bytes: b }));
        }
    }

    /// Queue a write of the power-state attribute.
    pub fn set_kbd_rgb_state(&mut self, buf: Vec<u8>)
        ensures
            final(self)@ == old(self)@.push(SysfsMsgView { state: true, bytes: buf@ }),
            final(self).has_rgb_spec() == old(self).has_rgb_spec(),
            final(self).brightness_spec() == old(self).brightness_spec(),
    {
        let ghost b = buf@;
        self.queued.push(SysfsLedWrite::State(buf));
        proof {
            assert(self@ =~= old(self)@.push(SysfsMsgView { state: true, bytes: b }));
        }
    }

    /// Hand the queued attribute writes out for delivery.
    pub fn take_queued(&mut self) -> (r: Vec<SysfsLedWrite>)
        ensures
            r@.map_values(|w: SysfsLedWrite| w@) == old(self)@,
            final(self)@ == Seq::<SysfsMsgView>::empty(),
            final(self).has_rgb_spec() == old(self).has_rgb_spec(),
            final(self).brightness_spec() == old(self).brightness_spec(),
    {
        let mut out: Vec<SysfsLedWrite> = Vec::new();
        core::mem::swap(&mut self.queued, &mut out);
        proof {
            assert(self@ =~= Seq::<SysfsMsgView>::empty());
        }
        out
    }
}

impl Default for KeyboardLed {
    /// A disconnected sysfs LED path: no RGB-mode control, brightness off.
    fn default() -> (r: KeyboardLed)
        ensures
            !r.has_rgb_spec(),
            r.brightness_spec() == 0,
            r@ == Seq::<SysfsMsgView>::empty(),
    {
        KeyboardLed::new(false, 0)
    }
}

/// The resolved physical control path: raw HID vendor device, sysfs LED
/// attribute, or none. Selected once at construction, never switched.
#[derive(Debug)]
pub enum LEDNode {
    KbdLed(KeyboardLed),
    Rog(HidRaw),
    NoDevice,
}

/// Packets queued on the raw-HID path, empty for the other paths.
pub open spec fn hid_view(node: LEDNode) -> Seq<Seq<u8>> {
    match node {
        LEDNode::Rog(h) => h@,
        _ => Seq::<Seq<u8>>::empty(),
    }
}

/// Attribute writes queued on the sysfs path, empty for the other paths.
pub open spec fn tuf_view(node: LEDNode) -> Seq<SysfsMsgView> {
    match node {
        LEDNode::KbdLed(k) => k@,
        _ => Seq::<SysfsMsgView>::empty(),
    }
}

/// The control path's identity is stable: same variant, same device, same
/// sysfs state; only the queues may differ.
pub open spec fn node_kind_kept(a: LEDNode, b: LEDNode) -> bool {
    &&& (a is Rog <==> b is Rog)
    &&& (a is KbdLed <==> b is KbdLed)
    &&& (a is NoDevice <==> b is NoDevice)
    &&& (a matches LEDNode::Rog(h) ==> b matches LEDNode::Rog(h2) && h2.prod_spec()
        == h.prod_spec())
    &&& (a matches LEDNode::KbdLed(k) ==> b matches LEDNode::KbdLed(k2) && k2.has_rgb_spec()
        == k.has_rgb_spec() && k2.brightness_spec() == k.brightness_spec())
}

/// The Aura lighting controller: the resolved control path, the device's
/// capability snapshot, the merged configuration, and the per-key streaming
/// state. It is the only writer to the physical device.
#[derive(Debug)]
pub struct CtrlKbdLed {
    pub led_prod: AuraDevice,
    pub led_node: LEDNode,
    pub kd_brightness: KeyboardLed,
    pub supported_modes: LaptopLedData,
    pub flip_effect_write: bool,
    pub per_key_mode_active: bool,
    pub config: AuraConfig,
}

/// The three packets a raw-HID effect write sends: the effect message, then
/// the set and the apply command.
pub open spec fn mode_packets_spec(e: AuraEffect) -> Seq<Seq<u8>> {
    seq![led_msg_spec(e), led_set_msg_spec(), led_apply_msg_spec()]
}

/// Controller fields that a plain device write never touches.
pub open spec fn frame_kept(pre: CtrlKbdLed, post: CtrlKbdLed) -> bool {
    &&& post.led_prod == pre.led_prod
    &&& post.kd_brightness == pre.kd_brightness
    &&& post.supported_modes == pre.supported_modes
    &&& post.flip_effect_write == pre.flip_effect_write
    &&& post.config == pre.config
}

/// What writing one effect to the device does, by control path: the sysfs
/// path takes a single mode-set buffer, the raw-HID path the three-packet
/// sequence, and a missing path fails without any side effect.
pub open spec fn write_mode_post(
    pre: CtrlKbdLed,
    post: CtrlKbdLed,
    r: Result<(), RogError>,
    e: AuraEffect,
) -> bool {
    match pre.led_node {
        LEDNode::NoDevice => r == Err::<(), RogError>(RogError::NoAuraKeyboard) && post == pre,
        LEDNode::Rog(_) => {
            &&& r is Ok
            &&& hid_view(post.led_node) == hid_view(pre.led_node) + mode_packets_spec(e)
            &&& tuf_view(post.led_node) == tuf_view(pre.led_node)
            &&& node_kind_kept(pre.led_node, post.led_node)
            &&& !post.per_key_mode_active
            &&& frame_kept(pre, post)
        },
        LEDNode::KbdLed(_) => {
            &&& r is Ok
            &&& tuf_view(post.led_node) == tuf_view(pre.led_node).push(
                SysfsMsgView { state: false, bytes: tuf_mode_msg_spec(e) },
            )
            &&& hid_view(post.led_node) == hid_view(pre.led_node)
            &&& node_kind_kept(pre.led_node, post.led_node)
            &&& !post.per_key_mode_active
            &&& frame_kept(pre, post)
        },
    }
}

/// The brightness step above, wrapping from high to off.
pub open spec fn next_brightness_spec(b: LedBrightness) -> LedBrightness {
    match b {
        LedBrightness::Off => LedBrightness::Low,
        LedBrightness::Low => LedBrightness::Med,
        LedBrightness::Med => LedBrightness::High,
        LedBrightness::High => LedBrightness::Off,
    }
}

/// The brightness step below, wrapping from off to high.
pub open spec fn prev_brightness_spec(b: LedBrightness) -> LedBrightness {
    match b {
        LedBrightness::Off => LedBrightness::High,
        LedBrightness::Low => LedBrightness::Off,
        LedBrightness::Med => LedBrightness::Low,
        LedBrightness::High => LedBrightness::Med,
    }
}

/// A configuration equal to `c` except for its brightness.
pub open spec fn with_brightness(c: AuraConfig, b: LedBrightness) -> AuraConfig {
    AuraConfig {
        brightness: b,
        current_mode: c.current_mode,
        builtins: c.builtins,
        multizone: c.multizone,
        multizone_on: c.multizone_on,
        enabled: c.enabled,
    }
}

/// A configuration equal to `c` except for its active mode.
pub open spec fn with_current_mode(c: AuraConfig, m: AuraModeNum) -> AuraConfig {
    AuraConfig {
        brightness: c.brightness,
        current_mode: m,
        builtins: c.builtins,
        multizone: c.multizone,
        multizone_on: c.multizone_on,
        enabled: c.enabled,
    }
}

impl CtrlKbdLed {
    fn node_is_tuf(&self) -> (r: bool)
        ensures
            r == (self.led_node is KbdLed),
    {
        match &self.led_node {
            LEDNode::KbdLed(_) => true,
            _ => false,
        }
    }

    fn node_is_rog(&self) -> (r: bool)
        ensures
            r == (self.led_node is Rog),
    {
        match &self.led_node {
            LEDNode::Rog(_) => true,
            _ => false,
        }
    }

    /// Queue one packet on the raw-HID path; a no-op on any other path.
    fn hid_write(&mut self, message: Vec<u8>) -> (wrote: bool)
        ensures
            wrote == (old(self).led_node is Rog),
            hid_view(final(self).led_node) == if wrote {
                hid_view(old(self).led_node).push(message@)
            } else {
                hid_view(old(self).led_node)
            },
            tuf_view(final(self).led_node) == tuf_view(old(self).led_node),
            node_kind_kept(old(self).led_node, final(self).led_node),
            final(self).per_key_mode_active == old(self).per_key_mode_active,
            frame_kept(*old(self), *final(self)),
    {
        match &mut self.led_node {
            LEDNode::Rog(h) => {
                h.write_bytes(message);
                true
            },
            _ => false,
        }
    }

    /// Queue one mode-set attribute write on the sysfs path; a no-op on any
    /// other path.
    fn tuf_write_mode(&mut self, buf: Vec<u8>) -> (wrote: bool)
        ensures
            wrote == (old(self).led_node is KbdLed),
            tuf_view(final(self).led_node) == if wrote {
                tuf_view(old(self).led_node).push(SysfsMsgView { state: false, bytes: buf@ })
            } else {
                tuf_view(old(self).led_node)
            },
            hid_view(final(self).led_node) == hid_view(old(self).led_node),
            node_kind_kept(old(self).led_node, final(self).led_node),
            final(self).per_key_mode_active == old(self).per_key_mode_active,
            frame_kept(*old(self), *final(self)),
    {
        match &mut self.led_node {
            LEDNode::KbdLed(k) => {
                k.set_kbd_rgb_mode(buf);
                true
            },
            _ => false,
        }
    }

    /// Queue one power-state attribute write on the sysfs path; a no-op on
    /// any other path.
    fn tuf_write_state(&mut self, buf: Vec<u8>) -> (wrote: bool)
        ensures
            wrote == (old(self).led_node is KbdLed),
            tuf_view(final(self).led_node) == if wrote {
                tuf_view(old(self).led_node).push(SysfsMsgView { state: true, bytes: buf@ })
            } else {
                tuf_view(old(self).led_node)
            },
            hid_view(final(self).led_node) == hid_view(old(self).led_node),
            node_kind_kept(old(self).led_node, final(self).led_node),
            final(self).per_key_mode_active == old(self).per_key_mode_active,
            frame_kept(*old(self), *final(self)),
    {
        match &mut self.led_node {
            LEDNode::KbdLed(k) => {
                k.set_kbd_rgb_state(buf);
                true
            },
            _ => false,
        }
    }

    /// Write one effect to the active control path, building the packet that
    /// the path's encoding asks for.
    pub fn write_mode(&mut self, mode: &AuraEffect) -> (r: Result<(), RogError>)
        ensures
            write_mode_post(*old(self), *final(self), r, *mode),
    {
        if self.node_is_tuf() {
            self.tuf_write_mode(tuf_mode_msg(mode));
        } else if self.node_is_rog() {
            self.hid_write(led_msg(mode));
            self.hid_write(led_set_msg());
            self.hid_write(led_apply_msg());
            proof {
                assert(hid_view(self.led_node) =~= hid_view(old(self).led_node)
                    + mode_packets_spec(*mode));
            }
        } else {
            return Err(RogError::NoAuraKeyboard);
        }
        self.per_key_mode_active = false;
        Ok(())
    }

    /// The brightness as the sysfs LED interface reports it.
    pub fn get_brightness(&self) -> (r: Result<u8, RogError>)
        ensures
            r == Ok::<u8, RogError>(self.kd_brightness.brightness_spec()),
    {
        Ok(self.kd_brightness.get_brightness())
    }

    /// Apply a brightness level to the device.
    pub fn set_brightness(&mut self, brightness: LedBrightness) -> (r: Result<(), RogError>)
        ensures
            r is Ok,
            final(self).kd_brightness.brightness_spec() == brightness.level_spec(),
            final(self).kd_brightness.has_rgb_spec() == old(self).kd_brightness.has_rgb_spec(),
            final(self).kd_brightness@ == old(self).kd_brightness@,
            final(self).led_node == old(self).led_node,
            final(self).config == old(self).config,
            final(self).supported_modes == old(self).supported_modes,
            final(self).led_prod == old(self).led_prod,
            final(self).flip_effect_write == old(self).flip_effect_write,
            final(self).per_key_mode_active == old(self).per_key_mode_active,
    {
        self.kd_brightness.set_brightness(brightness.level());
        Ok(())
    }

    /// Step the configured brightness up one level, wrapping from high to
    /// off, and apply it. The embedding program persists the configuration
    /// after the call.
    pub fn next_brightness(&mut self) -> (r: Result<(), RogError>)
        ensures
            r is Ok,
            final(self).config == with_brightness(
                old(self).config,
                next_brightness_spec(old(self).config.brightness),
            ),
            final(self).kd_brightness.brightness_spec()
                == final(self).config.brightness.level_spec(),
            final(self).kd_brightness.has_rgb_spec() == old(self).kd_brightness.has_rgb_spec(),
            final(self).kd_brightness@ == old(self).kd_brightness@,
            final(self).led_node == old(self).led_node,
            final(self).supported_modes == old(self).supported_modes,
            final(self).led_prod == old(self).led_prod,
            final(self).flip_effect_write == old(self).flip_effect_write,
            final(self).per_key_mode_active == old(self).per_key_mode_active,
    {
        let mut bright: u32 = self.config.brightness.level() as u32 + 1;
        if bright > 3 {
            bright = 0;
        }
        self.config.brightness = LedBrightness::from_level(bright);
        self.set_brightness(self.config.brightness)
    }

    /// Step the configured brightness down one level, wrapping from off to
    /// high, and apply it. The embedding program persists the configuration
    /// after the call.
    pub fn prev_brightness(&mut self) -> (r: Result<(), RogError>)
        ensures
            r is Ok,
            final(self).config == with_brightness(
                old(self).config,
                prev_brightness_spec(old(self).config.brightness),
            ),
            final(self).kd_brightness.brightness_spec()
                == final(self).config.brightness.level_spec(),
            final(self).kd_brightness.has_rgb_spec() == old(self).kd_brightness.has_rgb_spec(),
            final(self).kd_brightness@ == old(self).kd_brightness@,
            final(self).led_node == old(self).led_node,
            final(self).supported_modes == old(self).supported_modes,
            final(self).led_prod == old(self).led_prod,
            final(self).flip_effect_write == old(self).flip_effect_write,
            final(self).per_key_mode_active == old(self).per_key_mode_active,
    {
        let mut bright: u32 = self.config.brightness.level() as u32;
        if bright == 0 {
            bright = 3;
        } else {
            bright -= 1;
        }
        self.config.brightness = LedBrightness::from_level(bright);
        self.set_brightness(self.config.brightness)
    }

    /// Queue the power-state packets for the enabled zones on the active
    /// control path. Succeeds without effect when no path is present.
    pub fn set_power_states(&mut self) -> (r: Result<(), RogError>)
        ensures
            r is Ok,
            match old(self).led_node {
                LEDNode::KbdLed(_) => tuf_view(final(self).led_node) == tuf_view(
                    old(self).led_node,
                ).push(
                    SysfsMsgView {
                        state: true,
                        bytes: tuf_power_msg_spec(old(self).config.enabled@),
                    },
                ) && hid_view(final(self).led_node) == hid_view(old(self).led_node),
                LEDNode::Rog(_) => hid_view(final(self).led_node) == hid_view(old(self).led_node)
                    + seq![
                    hid_power_msg_spec(old(self).config.enabled@),
                    led_set_msg_spec(),
                    led_apply_msg_spec(),
                ] && tuf_view(final(self).led_node) == tuf_view(old(self).led_node),
                LEDNode::NoDevice => *final(self) == *old(self),
            },
            node_kind_kept(old(self).led_node, final(self).led_node),
            final(self).per_key_mode_active == old(self).per_key_mode_active,
            frame_kept(*old(self), *final(self)),
    {
        if self.node_is_tuf() {
            let buf = tuf_power_msg(&self.config.enabled);
            self.tuf_write_state(buf);
        } else if self.node_is_rog() {
            let message = hid_power_msg(&self.config.enabled);
            self.hid_write(message);
            self.hid_write(led_set_msg());
            self.hid_write(led_apply_msg());
        }
        Ok(())
    }

    /// Apply a single-shot builtin effect.
    ///
    /// The request is validated against the capability snapshot before any
    /// side effect; then the effect packets are queued, the effect is stored
    /// under the active mode, brightness is raised to medium if it was off,
    /// and the brightness is applied. The embedding program persists the
    /// configuration after a successful call, and reloads externally edited
    /// state before it.
    pub fn set_effect(&mut self, effect: AuraEffect) -> (r: Result<(), RogError>)
        ensures
            !effect_allowed(old(self).supported_modes, effect) ==> r == Err::<(), RogError>(
                RogError::EffectNotSupported,
            ) && *final(self) == *old(self),
            effect_allowed(old(self).supported_modes, effect) && old(self).led_node is NoDevice
                ==> r == Err::<(), RogError>(RogError::NoAuraKeyboard) && *final(self) == *old(
                self,
            ),
            effect_allowed(old(self).supported_modes, effect) && !(old(self).led_node is NoDevice)
                ==> ({
                let bright = if old(self).config.brightness == LedBrightness::Off {
                    LedBrightness::Med
                } else {
                    old(self).config.brightness
                };
                &&& r is Ok
                &&& final(self).config.brightness == bright
                &&& mode_lookup(final(self).config.builtins@, old(self).config.current_mode)
                    == Some(effect)
                &&& forall|m: AuraModeNum|
                    m != old(self).config.current_mode ==> mode_lookup(
                        final(self).config.builtins@,
                        m,
                    ) == mode_lookup(old(self).config.builtins@, m)
                &&& final(self).config.current_mode == old(self).config.current_mode
                &&& final(self).config.multizone == old(self).config.multizone
                &&& final(self).config.multizone_on == old(self).config.multizone_on
                &&& final(self).config.enabled == old(self).config.enabled
                &&& !final(self).per_key_mode_active
                &&& node_kind_kept(old(self).led_node, final(self).led_node)
                &&& (old(self).led_node is Rog ==> hid_view(final(self).led_node) == hid_view(
                    old(self).led_node,
                ) + mode_packets_spec(effect) && tuf_view(final(self).led_node) == tuf_view(
                    old(self).led_node,
                ))
                &&& (old(self).led_node is KbdLed ==> tuf_view(final(self).led_node) == tuf_view(
                    old(self).led_node,
                ).push(SysfsMsgView { state: false, bytes: tuf_mode_msg_spec(effect) }) && hid_view(
                    final(self).led_node,
                ) == hid_view(old(self).led_node))
                &&& final(self).kd_brightness.brightness_spec() == bright.level_spec()
                &&& final(self).kd_brightness.has_rgb_spec() == old(
                    self,
                ).kd_brightness.has_rgb_spec()
                &&& final(self).kd_brightness@ == old(self).kd_brightness@
                &&& final(self).supported_modes == old(self).supported_modes
                &&& final(self).led_prod == old(self).led_prod
                &&& final(self).flip_effect_write == old(self).flip_effect_write
            }),
    {
        if !mode_list_contains(&self.supported_modes.basic_modes, effect.mode) || (effect.zone
            != AuraZone::NoZone && !zone_list_contains(
            &self.supported_modes.basic_zones,
            effect.zone,
        )) {
            return Err(RogError::EffectNotSupported);
        }
        match self.write_mode(&effect) {
            Ok(()) => {},
            Err(e) => {
                return Err(e);
            },
        }
        self.config.set_builtin(effect);
        if self.config.brightness == LedBrightness::Off {
            self.config.brightness = LedBrightness::Med;
        }
        self.set_brightness(self.config.brightness)
    }

    /// Stream an effect block: per-key row packets, or a single raw factory
    /// packet when the first row is not marked as per-key.
    ///
    /// A per-key frame opens with the initialization handshake when the
    /// controller was not yet in per-key mode, then sends every row in
    /// order. The sysfs path has no per-key addressing: it only receives
    /// each row's colour bytes through the mode-set attribute. If the
    /// brightness was off it is raised to medium first; the embedding
    /// program persists that change.
    pub fn write_effect_block(&mut self, effect: &UsbPackets) -> (r: Result<(), RogError>)
        requires
            effect@.len() >= 1,
            effect@[0]@.len() >= 2,
            effect@[0]@[1] == PER_KEY_TYPE ==> forall|i: int|
                0 <= i < effect@.len() ==> (#[trigger] effect@[i])@.len() >= 12,
        ensures
            r is Ok,
            final(self).config == with_brightness(
                old(self).config,
                if old(self).config.brightness == LedBrightness::Off {
                    LedBrightness::Med
                } else {
                    old(self).config.brightness
                },
            ),
            node_kind_kept(old(self).led_node, final(self).led_node),
            final(self).kd_brightness == old(self).kd_brightness,
            final(self).supported_modes == old(self).supported_modes,
            final(self).led_prod == old(self).led_prod,
            effect@[0]@[1] != PER_KEY_TYPE ==> ({
                &&& !final(self).per_key_mode_active
                &&& final(self).flip_effect_write == old(self).flip_effect_write
                &&& hid_view(final(self).led_node) == (if old(self).led_node is Rog {
                    hid_view(old(self).led_node) + seq![effect@[0]@, led_set_msg_spec()]
                } else {
                    hid_view(old(self).led_node)
                })
                &&& tuf_view(final(self).led_node) == tuf_view(old(self).led_node)
            }),
            effect@[0]@[1] == PER_KEY_TYPE ==> ({
                &&& final(self).per_key_mode_active
                &&& final(self).flip_effect_write == !old(self).flip_effect_write
                &&& hid_view(final(self).led_node) == (if old(self).led_node is Rog {
                    hid_view(old(self).led_node) + (if old(self).per_key_mode_active {
                        Seq::<Seq<u8>>::empty()
                    } else {
                        seq![per_key_init_msg_spec()]
                    }) + vecs_view(effect@)
                } else {
                    hid_view(old(self).led_node)
                })
                &&& tuf_view(final(self).led_node) == (if old(self).led_node is KbdLed {
                    tuf_view(old(self).led_node) + tuf_rows_view(effect@)
                } else {
                    tuf_view(old(self).led_node)
                })
            }),
    {
        if self.config.brightness == LedBrightness::Off {
            self.config.brightness = LedBrightness::Med;
        }
        let pkt_type = effect[0][1];
        if pkt_type != PER_KEY_TYPE {
            self.per_key_mode_active = false;
            if self.node_is_rog() {
                self.hid_write(copy_list(&effect[0]));
                self.hid_write(led_set_msg());
                proof {
                    assert(hid_view(self.led_node) =~= hid_view(old(self).led_node) + seq![
                        effect@[0]@,
                        led_set_msg_spec(),
                    ]);
                }
            }
        } else {
            if !self.per_key_mode_active {
                if self.node_is_rog() {
                    self.hid_write(per_key_init_msg());
                }
                self.per_key_mode_active = true;
            }
            let ghost snap = *self;
            if self.node_is_rog() {
                let n = effect.len();
                let mut i: usize = 0;
                proof {
                    assert(vecs_view(effect@.take(0)) =~= Seq::<Seq<u8>>::empty());
                    assert(hid_view(self.led_node) =~= hid_view(snap.led_node) + vecs_view(
                        effect@.take(0),
                    ));
                }
                while i < n
                    invariant
                        i <= n,
                        n == effect@.len(),
                        self.led_node is Rog,
                        node_kind_kept(snap.led_node, self.led_node),
                        hid_view(self.led_node) == hid_view(snap.led_node) + vecs_view(
                            effect@.take(i as int),
                        ),
                        tuf_view(self.led_node) == tuf_view(snap.led_node),
                        self.per_key_mode_active == snap.per_key_mode_active,
                        frame_kept(snap, *self),
                    decreases n - i,
                {
                    self.hid_write(copy_list(&effect[i]));
                    proof {
                        assert(hid_view(self.led_node) =~= hid_view(snap.led_node) + vecs_view(
                            effect@.take(i + 1),
                        ));
                    }
                    i += 1;
                }
                proof {
                    assert(effect@.take(n as int) =~= effect@);
                }
            } else if self.node_is_tuf() {
                let n = effect.len();
                let mut i: usize = 0;
                proof {
                    assert(tuf_rows_view(effect@.take(0)) =~= Seq::<SysfsMsgView>::empty());
                    assert(tuf_view(self.led_node) =~= tuf_view(snap.led_node) + tuf_rows_view(
                        effect@.take(0),
                    ));
                }
                while i < n
                    invariant
                        i <= n,
                        n == effect@.len(),
                        forall|j: int| 0 <= j < effect@.len() ==> (#[trigger] effect@[j])@.len()
                            >= 12,
                        self.led_node is KbdLed,
                        node_kind_kept(snap.led_node, self.led_node),
                        tuf_view(self.led_node) == tuf_view(snap.led_node) + tuf_rows_view(
                            effect@.take(i as int),
                        ),
                        hid_view(self.led_node) == hid_view(snap.led_node),
                        self.per_key_mode_active == snap.per_key_mode_active,
                        frame_kept(snap, *self),
                    decreases n - i,
                {
                    let rb = effect[i][9];
                    let gb = effect[i][10];
                    let bb = effect[i][11];
                    self.tuf_write_mode(tuf_row_msg(rb, gb, bb));
                    proof {
                        assert(tuf_view(self.led_node) =~= tuf_view(snap.led_node) + tuf_rows_view(
                            effect@.take(i + 1),
                        ));
                    }
                    i += 1;
                }
                proof {
                    assert(effect@.take(n as int) =~= effect@);
                }
            }
            self.flip_effect_write = !self.flip_effect_write;
            proof {
                if old(self).led_node is Rog {
                    assert(hid_view(self.led_node) =~= hid_view(old(self).led_node) + (if old(
                        self,
                    ).per_key_mode_active {
                        Seq::<Seq<u8>>::empty()
                    } else {
                        seq![per_key_init_msg_spec()]
                    }) + vecs_view(effect@));
                }
            }
        }
        Ok(())
    }
}

/// The packet rows of a streamed effect block. The first row's marker byte
/// decides between a per-key frame and a single factory packet.
pub type UsbPackets = Vec<Vec<u8>>;

/// Whether the capability snapshot admits the requested effect: its mode is
/// supported, and its zone, when one is addressed, is supported too.
pub open spec fn effect_allowed(support: LaptopLedData, e: AuraEffect) -> bool {
    support.basic_modes@.contains(e.mode) && (e.zone == AuraZone::NoZone
        || support.basic_zones@.contains(e.zone))
}

/// Sysfs approximations of the streamed rows: each row's colour bytes, sent
/// through the mode-set attribute.
pub open spec fn tuf_rows_view(rows: Seq<Vec<u8>>) -> Seq<SysfsMsgView> {
    rows.map_values(
        |v: Vec<u8>| SysfsMsgView { state: false, bytes: tuf_row_msg_spec(v@[9], v@[10], v@[11]) },
    )
}

/// The synthesized default multizone set: one effect per supported zone, in
/// zone order, colours drawn from opposite ends of the gradient palette.
pub open spec fn default_zone_set_spec(mode: AuraModeNum, zones: Seq<AuraZone>) -> Seq<AuraEffect> {
    Seq::new(
        zones.len(),
        |i: int|
            AuraEffect {
                mode,
                zone: zones[i],
                colour1: gradient_forward_spec(i),
                colour2: gradient_backward_spec(i),
                speed: Speed::Med,
                direction: Direction::Left,
            },
    )
}

/// The packets that a raw-HID write of a whole effect set queues: each
/// effect's three-packet sequence, in set order.
pub open spec fn zone_set_packets_hid(set: Seq<AuraEffect>) -> Seq<Seq<u8>>
    decreases set.len(),
{
    if set.len() == 0 {
        Seq::<Seq<u8>>::empty()
    } else {
        zone_set_packets_hid(set.drop_last()) + mode_packets_spec(set.last())
    }
}

/// The buffers that a sysfs write of a whole effect set queues.
pub open spec fn zone_set_packets_tuf(set: Seq<AuraEffect>) -> Seq<SysfsMsgView> {
    set.map_values(|e: AuraEffect| SysfsMsgView { state: false, bytes: tuf_mode_msg_spec(e) })
}

/// Whether applying the current mode must synthesize a multizone set: the
/// multizone toggle is on and no set is stored for the mode.
pub open spec fn needs_synth(pre: CtrlKbdLed) -> bool {
    pre.config.multizone_on && !(pre.config.multizone matches Some(omz) && mode_lookup(
        omz@,
        pre.config.current_mode,
    ) is Some)
}

/// The effect set that applying the current mode writes: the single builtin
/// entry when multizone is off (an empty set if the mode has no entry), the
/// stored or synthesized multizone set when it is on, and nothing at all
/// when synthesis is impossible for want of zones.
pub open spec fn effective_mode_set(pre: CtrlKbdLed) -> Option<Seq<AuraEffect>> {
    let mode = pre.config.current_mode;
    if !pre.config.multizone_on {
        match mode_lookup(pre.config.builtins@, mode) {
            Some(e) => Some(seq![e]),
            None => Some(Seq::<AuraEffect>::empty()),
        }
    } else {
        match pre.config.multizone {
            Some(omz) => match mode_lookup(omz@, mode) {
                Some(v) => Some(v@),
                None => synthesized_mode_set(pre),
            },
            None => synthesized_mode_set(pre),
        }
    }
}

/// The set that synthesis would store, or nothing when there are no zones.
pub open spec fn synthesized_mode_set(pre: CtrlKbdLed) -> Option<Seq<AuraEffect>> {
    if pre.supported_modes.basic_zones@.len() == 0 {
        None
    } else {
        Some(default_zone_set_spec(pre.config.current_mode, pre.supported_modes.basic_zones@))
    }
}

/// How applying the current mode changes the stored multizone map: the
/// synthesized default is stored under the current mode when it was
/// missing, and nothing else moves.
pub open spec fn multizone_after_apply(pre: CtrlKbdLed, post: CtrlKbdLed) -> bool {
    if needs_synth(pre) {
        &&& post.config.multizone matches Some(mz) && opt_set_view(
            mode_lookup(mz@, pre.config.current_mode),
        ) == Some(
            default_zone_set_spec(pre.config.current_mode, pre.supported_modes.basic_zones@),
        )
        &&& match pre.config.multizone {
            Some(omz) => post.config.multizone matches Some(mz) && forall|m: AuraModeNum|
                m != pre.config.current_mode ==> mode_lookup(mz@, m) == mode_lookup(omz@, m),
            None => post.config.multizone matches Some(mz) && forall|m: AuraModeNum|
                m != pre.config.current_mode ==> mode_lookup(mz@, m) is None,
        }
    } else {
        post.config.multizone == pre.config.multizone
    }
}

/// Everything that applying the current mode guarantees, relating the state
/// before the call to the state and result after it.
pub open spec fn apply_mode_post(pre: CtrlKbdLed, post: CtrlKbdLed, r: Result<(), RogError>) -> bool {
    match effective_mode_set(pre) {
        None => r == Err::<(), RogError>(RogError::EffectNotSupported) && post == pre,
        Some(set) => {
            &&& multizone_after_apply(pre, post)
            &&& post.config.brightness == pre.config.brightness
            &&& post.config.current_mode == pre.config.current_mode
            &&& post.config.builtins == pre.config.builtins
            &&& post.config.multizone_on == pre.config.multizone_on
            &&& post.config.enabled == pre.config.enabled
            &&& post.kd_brightness == pre.kd_brightness
            &&& post.supported_modes == pre.supported_modes
            &&& post.led_prod == pre.led_prod
            &&& post.flip_effect_write == pre.flip_effect_write
            &&& node_kind_kept(pre.led_node, post.led_node)
            &&& match pre.led_node {
                LEDNode::NoDevice => {
                    &&& post.led_node is NoDevice
                    &&& post.per_key_mode_active == pre.per_key_mode_active
                    &&& if set.len() == 0 {
                        r is Ok
                    } else {
                        r == Err::<(), RogError>(RogError::NoAuraKeyboard)
                    }
                },
                LEDNode::Rog(_) => {
                    &&& r is Ok
                    &&& hid_view(post.led_node) == hid_view(pre.led_node) + zone_set_packets_hid(
                        set,
                    )
                    &&& tuf_view(post.led_node) == tuf_view(pre.led_node)
                    &&& if set.len() == 0 {
                        post.per_key_mode_active == pre.per_key_mode_active
                    } else {
                        !post.per_key_mode_active
                    }
                },
                LEDNode::KbdLed(_) => {
                    &&& r is Ok
                    &&& tuf_view(post.led_node) == tuf_view(pre.led_node) + zone_set_packets_tuf(
                        set,
                    )
                    &&& hid_view(post.led_node) == hid_view(pre.led_node)
                    &&& if set.len() == 0 {
                        post.per_key_mode_active == pre.per_key_mode_active
                    } else {
                        !post.per_key_mode_active
                    }
                },
            }
        },
    }
}

/// The controller state with another active mode, all else equal.
pub open spec fn with_mode_set(c: CtrlKbdLed, m: AuraModeNum) -> CtrlKbdLed {
    CtrlKbdLed {
        led_prod: c.led_prod,
        led_node: c.led_node,
        kd_brightness: c.kd_brightness,
        supported_modes: c.supported_modes,
        flip_effect_write: c.flip_effect_write,
        per_key_mode_active: c.per_key_mode_active,
        config: with_current_mode(c.config, m),
    }
}

impl CtrlKbdLed {
    /// Store a synthesized default multizone set for the active mode: one
    /// effect per supported zone, in zone order. Fails without side effect
    /// when the device has no zones to synthesize for.
    pub fn create_multizone_default(&mut self) -> (r: Result<(), RogError>)
        ensures
            old(self).supported_modes.basic_zones@.len() == 0 ==> r == Err::<(), RogError>(
                RogError::EffectNotSupported,
            ) && *final(self) == *old(self),
            old(self).supported_modes.basic_zones@.len() > 0 ==> ({
                &&& r is Ok
                &&& final(self).config.multizone matches Some(mz) && opt_set_view(
                    mode_lookup(mz@, old(self).config.current_mode),
                ) == Some(
                    default_zone_set_spec(
                        old(self).config.current_mode,
                        old(self).supported_modes.basic_zones@,
                    ),
                )
                &&& match old(self).config.multizone {
                    Some(omz) => final(self).config.multizone matches Some(mz) && forall|
                        m: AuraModeNum,
                    |
                        m != old(self).config.current_mode ==> mode_lookup(mz@, m) == mode_lookup(
                            omz@,
                            m,
                        ),
                    None => final(self).config.multizone matches Some(mz) && forall|
                        m: AuraModeNum,
                    | m != old(self).config.current_mode ==> mode_lookup(mz@, m) is None,
                }
                &&& final(self).config.brightness == old(self).config.brightness
                &&& final(self).config.current_mode == old(self).config.current_mode
                &&& final(self).config.builtins == old(self).config.builtins
                &&& final(self).config.multizone_on == old(self).config.multizone_on
                &&& final(self).config.enabled == old(self).config.enabled
                &&& final(self).led_node == old(self).led_node
                &&& final(self).kd_brightness == old(self).kd_brightness
                &&& final(self).supported_modes == old(self).supported_modes
                &&& final(self).led_prod == old(self).led_prod
                &&& final(self).flip_effect_write == old(self).flip_effect_write
                &&& final(self).per_key_mode_active == old(self).per_key_mode_active
            }),
    {
        let current = self.config.current_mode;
        let mut default: Vec<AuraEffect> = Vec::new();
        let nz = self.supported_modes.basic_zones.len();
        let mut i: usize = 0;
        while i < nz
            invariant
                i <= nz,
                nz == self.supported_modes.basic_zones@.len(),
                current == self.config.current_mode,
                default@.len() == i,
                forall|j: int| 0 <= j < i ==> default@[j] == default_zone_set_spec(
                    current,
                    self.supported_modes.basic_zones@,
                )[j],
            decreases nz - i,
        {
            let zone = self.supported_modes.basic_zones[i];
            default.push(
                AuraEffect {
                    mode: current,
                    zone,
                    colour1: gradient_forward(i),
                    colour2: gradient_backward(i),
                    speed: Speed::Med,
                    direction: Direction::Left,
                },
            );
            i += 1;
        }
        if default.len() == 0 {
            return Err(RogError::EffectNotSupported);
        }
        proof {
            assert(default@ =~= default_zone_set_spec(
                current,
                self.supported_modes.basic_zones@,
            ));
        }
        match &mut self.config.multizone {
            Some(multizones) => {
                multizones.insert(current, default);
            },
            None => {
                let mut tmp: ModeMap<Vec<AuraEffect>> = ModeMap::new();
                tmp.insert(current, default);
                self.config.multizone = Some(tmp);
            },
        }
        Ok(())
    }

    /// Apply the active mode: write its builtin entry or, when multizone is
    /// on, write the stored per-zone set, synthesizing and storing a default
    /// set first if none exists.
    pub fn write_current_config_mode(&mut self) -> (r: Result<(), RogError>)
        ensures
            apply_mode_post(*old(self), *final(self), r),
    {
        let mode = self.config.current_mode;
        if self.config.multizone_on {
            let mut create = false;
            match &self.config.multizone {
                None => {
                    create = true;
                },
                Some(multizones) => {
                    if !multizones.contains_key(&mode) {
                        create = true;
                    }
                },
            }
            if create {
                match self.create_multizone_default() {
                    Ok(()) => {
                        proof {
                            assert(self.config.multizone is Some);
                            assert(self.config.multizone matches Some(mz1) && opt_set_view(
                                mode_lookup(mz1@, old(self).config.current_mode),
                            ) == Some(
                                default_zone_set_spec(
                                    old(self).config.current_mode,
                                    old(self).supported_modes.basic_zones@,
                                ),
                            ));
                        }
                    },
                    Err(e) => {
                        return Err(e);
                    },
                }
            }
            let set_opt: Option<Vec<AuraEffect>> = match &self.config.multizone {
                Some(multizones) => match multizones.get(&mode) {
                    Some(v) => Some(copy_list(v)),
                    None => None,
                },
                None => None,
            };
            match set_opt {
                Some(set) => {
                    let ghost snap = *self;
                    proof {
                        assert(effective_mode_set(*old(self)) == Some(set@));
                    }
                    let ns = set.len();
                    let mut i: usize = 0;
                    proof {
                        assert(zone_set_packets_hid(set@.take(0)) =~= Seq::<Seq<u8>>::empty());
                        assert(zone_set_packets_tuf(set@.take(0)) =~= Seq::<
                            SysfsMsgView,
                        >::empty());
                        if snap.led_node is Rog {
                            assert(hid_view(self.led_node) =~= hid_view(snap.led_node)
                                + zone_set_packets_hid(set@.take(0)));
                        }
                        if snap.led_node is KbdLed {
                            assert(tuf_view(self.led_node) =~= tuf_view(snap.led_node)
                                + zone_set_packets_tuf(set@.take(0)));
                        }
                    }
                    while i < ns
                        invariant
                            i <= ns,
                            ns == set@.len(),
                            effective_mode_set(*old(self)) == Some(set@),
                            multizone_after_apply(*old(self), snap),
                            snap.config.brightness == old(self).config.brightness,
                            snap.config.current_mode == old(self).config.current_mode,
                            snap.config.builtins == old(self).config.builtins,
                            snap.config.multizone_on == old(self).config.multizone_on,
                            snap.config.enabled == old(self).config.enabled,
                            snap.kd_brightness == old(self).kd_brightness,
                            snap.supported_modes == old(self).supported_modes,
                            snap.led_prod == old(self).led_prod,
                            snap.flip_effect_write == old(self).flip_effect_write,
                            snap.per_key_mode_active == old(self).per_key_mode_active,
                            node_kind_kept(old(self).led_node, snap.led_node),
                            hid_view(snap.led_node) == hid_view(old(self).led_node),
                            tuf_view(snap.led_node) == tuf_view(old(self).led_node),
                            node_kind_kept(snap.led_node, self.led_node),
                            snap.led_node is NoDevice ==> i == 0 && *self == snap,
                            snap.led_node is Rog ==> self.led_node is Rog && hid_view(
                                self.led_node,
                            ) == hid_view(snap.led_node) + zone_set_packets_hid(
                                set@.take(i as int),
                            ) && tuf_view(self.led_node) == tuf_view(snap.led_node),
                            snap.led_node is KbdLed ==> self.led_node is KbdLed && tuf_view(
                                self.led_node,
                            ) == tuf_view(snap.led_node) + zone_set_packets_tuf(
                                set@.take(i as int),
                            ) && hid_view(self.led_node) == hid_view(snap.led_node),
                            i == 0 ==> self.per_key_mode_active == snap.per_key_mode_active,
                            i > 0 ==> !self.per_key_mode_active,
                            frame_kept(snap, *self),
                        decreases ns - i,
                    {
                        let e = set[i];
                        match self.write_mode(&e) {
                            Ok(()) => {},
                            Err(err) => {
                                proof {
                                    assert(snap.led_node is NoDevice);
                                    assert(*self == snap);
                                    assert(err == RogError::NoAuraKeyboard);
                                }
                                return Err(err);
                            },
                        }
                        proof {
                            assert(set@.take(i + 1).drop_last() =~= set@.take(i as int));
                            assert(set@.take(i + 1).last() == set@[i as int]);
                            if snap.led_node is Rog {
                                assert(hid_view(self.led_node) =~= hid_view(snap.led_node)
                                    + zone_set_packets_hid(set@.take(i + 1)));
                            }
                            if snap.led_node is KbdLed {
                                assert(tuf_view(self.led_node) =~= tuf_view(snap.led_node)
                                    + zone_set_packets_tuf(set@.take(i + 1)));
                            }
                        }
                        i += 1;
                    }
                    proof {
                        assert(set@.take(ns as int) =~= set@);
                    }
                    Ok(())
                },
                None => Ok(()),
            }
        } else {
            let e_opt: Option<AuraEffect> = match self.config.builtins.get(&mode) {
                Some(eref) => Some(*eref),
                None => None,
            };
            match e_opt {
                Some(e) => {
                    let ghost snap = *self;
                    let res = self.write_mode(&e);
                    proof {
                        assert(seq![e].drop_last() =~= Seq::<AuraEffect>::empty());
                        assert(zone_set_packets_hid(Seq::<AuraEffect>::empty()) =~= Seq::<
                            Seq<u8>,
                        >::empty());
                        if res is Ok && snap.led_node is Rog {
                            assert(hid_view(self.led_node) =~= hid_view(snap.led_node)
                                + zone_set_packets_hid(seq![e]));
                        }
                        if res is Ok && snap.led_node is KbdLed {
                            assert(tuf_view(self.led_node) =~= tuf_view(snap.led_node)
                                + zone_set_packets_tuf(seq![e]));
                        }
                    }
                    res
                },
                None => Ok(()),
            }
        }
    }

    /// Step the active mode forward or backward in the capability list's
    /// cycling order and apply it. An active mode missing from the list
    /// leaves the controller untouched. The embedding program persists the
    /// configuration after the call.
    pub fn toggle_mode(&mut self, reverse: bool) -> (r: Result<(), RogError>)
        ensures
            !old(self).supported_modes.basic_modes@.contains(old(self).config.current_mode) ==> r
                is Ok && *final(self) == *old(self),
            old(self).supported_modes.basic_modes@.contains(old(self).config.current_mode) ==> ({
                let next = toggle_next_spec(
                    old(self).supported_modes.basic_modes@,
                    old(self).config.current_mode,
                    reverse,
                );
                &&& final(self).config.current_mode == next
                &&& apply_mode_post(with_mode_set(*old(self), next), *final(self), r)
            }),
    {
        let current = self.config.current_mode;
        match position_of_mode(&self.supported_modes.basic_modes, current) {
            None => Ok(()),
            Some(idx) => {
                let len = self.supported_modes.basic_modes.len();
                let next_idx: usize = if reverse {
                    if idx == 0 {
                        len - 1
                    } else {
                        idx - 1
                    }
                } else {
                    if idx + 1 == len {
                        0
                    } else {
                        idx + 1
                    }
                };
                let next = self.supported_modes.basic_modes[next_idx];
                proof {
                    assert(next == toggle_next_spec(
                        self.supported_modes.basic_modes@,
                        current,
                        reverse,
                    ));
                }
                self.config.current_mode = next;
                self.write_current_config_mode()
            },
        }
    }

    /// Build the controller: pick the control path from the probe results
    /// that the embedding program gathered, and merge the loaded
    /// configuration with fresh defaults. Fails when neither control path
    /// is usable; no degraded instance is handed out.
    pub fn new(
        usb_node: Option<HidRaw>,
        rgb_led: KeyboardLed,
        supported_modes: LaptopLedData,
        loaded: Option<AuraConfig>,
    ) -> (r: Result<CtrlKbdLed, RogError>)
        ensures
            usb_node is None && !rgb_led.has_rgb_spec() ==> r == Err::<CtrlKbdLed, RogError>(
                RogError::NoAuraKeyboard,
            ),
            (usb_node is Some || rgb_led.has_rgb_spec()) ==> (r matches Ok(c) && ({
                &&& match usb_node {
                    Some(h) => c.led_node == LEDNode::Rog(h) && c.led_prod == h.prod_spec(),
                    None => c.led_node matches LEDNode::KbdLed(k) && k.has_rgb_spec()
                        && k.brightness_spec() == rgb_led.brightness_spec() && k@ == Seq::<
                        SysfsMsgView,
                    >::empty() && c.led_prod == AuraDevice::Unknown,
                }
                &&& c.kd_brightness == rgb_led
                &&& c.supported_modes == supported_modes
                &&& !c.flip_effect_write
                &&& !c.per_key_mode_active
                &&& merged_config_post(supported_modes, loaded, c.config)
            })),
    {
        let (led_prod, led_node) = match usb_node {
            Some(rog) => {
                let p = rog.prod();
                (p, LEDNode::Rog(rog))
            },
            None => {
                if rgb_led.has_kbd_rgb_mode() {
                    (
                        AuraDevice::Unknown,
                        LEDNode::KbdLed(KeyboardLed::new(true, rgb_led.get_brightness())),
                    )
                } else {
                    return Err(RogError::NoAuraKeyboard);
                }
            },
        };
        let config = AuraConfig::merged(&supported_modes, loaded);
        Ok(
            CtrlKbdLed {
                led_prod,
                led_node,
                kd_brightness: rgb_led,
                supported_modes,
                flip_effect_write: false,
                per_key_mode_active: false,
                config,
            },
        )
    }

    /// The capability snapshot for external callers, from the probe results
    /// that the embedding program gathered: a sysfs path with RGB-mode
    /// control identifies the TUF family and wins over any raw-HID match.
    pub fn get_supported(
        hid_found: Option<AuraDevice>,
        rgb_ok: bool,
        rgb_has_mode: bool,
        laptop: LaptopLedData,
    ) -> (s: LedSupportedFunctions)
        ensures
            s.dev_id == (if rgb_ok && rgb_has_mode {
                AuraDevice::Tuf
            } else {
                match hid_found {
                    Some(p) => p,
                    None => AuraDevice::Unknown,
                }
            }),
            s.brightness == rgb_ok,
            s.basic_modes@ == laptop.basic_modes@,
            s.basic_zones@ == laptop.basic_zones@,
            s.advanced == laptop.advanced,
            s.power_zones@ == laptop.power_zones@,
    {
        let mut prod_id = match hid_found {
            Some(p) => p,
            None => AuraDevice::Unknown,
        };
        if rgb_ok && rgb_has_mode {
            prod_id = AuraDevice::Tuf;
        }
        LedSupportedFunctions {
            dev_id: prod_id,
            brightness: rgb_ok,
            basic_modes: laptop.basic_modes,
            basic_zones: laptop.basic_zones,
            advanced: laptop.advanced,
            power_zones: laptop.power_zones,
        }
    }

    /// Turn power zones on: each requested zone joins the enabled set once,
    /// in request order, and the power-state packets are queued. The
    /// embedding program persists the configuration after the call.
    pub fn enable_zones(&mut self, zones: &Vec<PowerZones>) -> (r: Result<(), RogError>)
        ensures
            r is Ok,
            final(self).config.enabled@ == add_zones_spec(old(self).config.enabled@, zones@),
            final(self).config.brightness == old(self).config.brightness,
            final(self).config.current_mode == old(self).config.current_mode,
            final(self).config.builtins == old(self).config.builtins,
            final(self).config.multizone == old(self).config.multizone,
            final(self).config.multizone_on == old(self).config.multizone_on,
            match old(self).led_node {
                LEDNode::KbdLed(_) => tuf_view(final(self).led_node) == tuf_view(
                    old(self).led_node,
                ).push(
                    SysfsMsgView {
                        state: true,
                        bytes: tuf_power_msg_spec(final(self).config.enabled@),
                    },
                ) && hid_view(final(self).led_node) == hid_view(old(self).led_node),
                LEDNode::Rog(_) => hid_view(final(self).led_node) == hid_view(old(self).led_node)
                    + seq![
                    hid_power_msg_spec(final(self).config.enabled@),
                    led_set_msg_spec(),
                    led_apply_msg_spec(),
                ] && tuf_view(final(self).led_node) == tuf_view(old(self).led_node),
                LEDNode::NoDevice => final(self).led_node is NoDevice,
            },
            node_kind_kept(old(self).led_node, final(self).led_node),
            final(self).per_key_mode_active == old(self).per_key_mode_active,
            final(self).flip_effect_write == old(self).flip_effect_write,
            final(self).kd_brightness == old(self).kd_brightness,
            final(self).supported_modes == old(self).supported_modes,
            final(self).led_prod == old(self).led_prod,
    {
        let nz = zones.len();
        let mut i: usize = 0;
        proof {
            assert(zones@.skip(0) =~= zones@);
        }
        while i < nz
            invariant
                i <= nz,
                nz == zones@.len(),
                add_zones_spec(old(self).config.enabled@, zones@) == add_zones_spec(
                    self.config.enabled@,
                    zones@.skip(i as int),
                ),
                self.led_node == old(self).led_node,
                self.kd_brightness == old(self).kd_brightness,
                self.supported_modes == old(self).supported_modes,
                self.led_prod == old(self).led_prod,
                self.flip_effect_write == old(self).flip_effect_write,
                self.per_key_mode_active == old(self).per_key_mode_active,
                self.config.brightness == old(self).config.brightness,
                self.config.current_mode == old(self).config.current_mode,
                self.config.builtins == old(self).config.builtins,
                self.config.multizone == old(self).config.multizone,
                self.config.multizone_on == old(self).config.multizone_on,
            decreases nz - i,
        {
            let z = zones[i];
            if !power_list_contains(&self.config.enabled, z) {
                self.config.enabled.push(z);
            }
            proof {
                assert(zones@.skip(i as int).skip(1) =~= zones@.skip(i + 1));
            }
            i += 1;
        }
        proof {
            assert(zones@.skip(nz as int) =~= Seq::<PowerZones>::empty());
        }
        self.set_power_states()
    }

    /// Turn power zones off: the enabled set keeps, in order, exactly the
    /// entries not in the request, and the power-state packets are queued.
    /// The embedding program persists the configuration after the call.
    pub fn disable_zones(&mut self, zones: &Vec<PowerZones>) -> (r: Result<(), RogError>)
        ensures
            r is Ok,
            final(self).config.enabled@ == remove_zones_spec(old(self).config.enabled@, zones@),
            final(self).config.brightness == old(self).config.brightness,
            final(self).config.current_mode == old(self).config.current_mode,
            final(self).config.builtins == old(self).config.builtins,
            final(self).config.multizone == old(self).config.multizone,
            final(self).config.multizone_on == old(self).config.multizone_on,
            match old(self).led_node {
                LEDNode::KbdLed(_) => tuf_view(final(self).led_node) == tuf_view(
                    old(self).led_node,
                ).push(
                    SysfsMsgView {
                        state: true,
                        bytes: tuf_power_msg_spec(final(self).config.enabled@),
                    },
                ) && hid_view(final(self).led_node) == hid_view(old(self).led_node),
                LEDNode::Rog(_) => hid_view(final(self).led_node) == hid_view(old(self).led_node)
                    + seq![
                    hid_power_msg_spec(final(self).config.enabled@),
                    led_set_msg_spec(),
                    led_apply_msg_spec(),
                ] && tuf_view(final(self).led_node) == tuf_view(old(self).led_node),
                LEDNode::NoDevice => final(self).led_node is NoDevice,
            },
            node_kind_kept(old(self).led_node, final(self).led_node),
            final(self).per_key_mode_active == old(self).per_key_mode_active,
            final(self).flip_effect_write == old(self).flip_effect_write,
            final(self).kd_brightness == old(self).kd_brightness,
            final(self).supported_modes == old(self).supported_modes,
            final(self).led_prod == old(self).led_prod,
    {
        let mut kept: Vec<PowerZones> = Vec::new();
        let n = self.config.enabled.len();
        let mut i: usize = 0;
        proof {
            assert(self.config.enabled@.take(0) =~= Seq::<PowerZones>::empty());
        }
        while i < n
            invariant
                i <= n,
                n == self.config.enabled@.len(),
                self.config.enabled@ == old(self).config.enabled@,
                kept@ == remove_zones_spec(old(self).config.enabled@.take(i as int), zones@),
            decreases n - i,
        {
            let z = self.config.enabled[i];
            proof {
                reveal_with_fuel(Seq::<_>::filter, 2);
                assert(self.config.enabled@.take(i + 1).drop_last() =~= self.config.enabled@.take(
                    i as int,
                ));
                assert(self.config.enabled@.take(i + 1).last() == self.config.enabled@[i as int]);
            }
            if !power_list_contains(zones, z) {
                kept.push(z);
            }
            i += 1;
        }
        proof {
            assert(old(self).config.enabled@.take(n as int) =~= old(self).config.enabled@);
        }
        self.config.enabled = kept;
        self.set_power_states()
    }

    /// The effect stored for the active mode, if any.
    pub fn current_effect(&self) -> (r: Option<&AuraEffect>)
        ensures
            match r {
                Some(e) => mode_lookup(self.config.builtins@, self.config.current_mode) == Some(
                    *e,
                ),
                None => mode_lookup(self.config.builtins@, self.config.current_mode) is None,
            },
    {
        self.config.builtins.get(&self.config.current_mode)
    }

    /// The modes this device supports, in cycling order.
    pub fn available_modes(&self) -> (r: &Vec<AuraModeNum>)
        ensures
            r@ == self.supported_modes.basic_modes@,
    {
        &self.supported_modes.basic_modes
    }

    /// The power zones currently turned on.
    pub fn enabled_zones(&self) -> (r: &Vec<PowerZones>)
        ensures
            r@ == self.config.enabled@,
    {
        &self.config.enabled
    }

    /// The enabled-zone bitset in the two-byte wire form handed to
    /// subscribers.
    pub fn enabled_bytes(&self) -> (v: Vec<u8>)
        ensures
            v@ == seq![power_bitset_spec(self.config.enabled@), 0u8],
    {
        let mut v: Vec<u8> = Vec::new();
        v.push(power_bitset(&self.config.enabled));
        v.push(0);
        proof {
            assert(v@ =~= seq![power_bitset_spec(self.config.enabled@), 0u8]);
        }
        v
    }
}

/// The enabled set after a request to turn zones on: each requested zone is
/// appended once, in request order, unless already present.
pub open spec fn add_zones_spec(cur: Seq<PowerZones>, zs: Seq<PowerZones>) -> Seq<PowerZones>
    decreases zs.len(),
{
    if zs.len() == 0 {
        cur
    } else {
        add_zones_spec(
            if cur.contains(zs[0]) {
                cur
            } else {
                cur.push(zs[0])
            },
            zs.skip(1),
        )
    }
}

/// The enabled set after a request to turn zones off: the entries not in
/// the request, in their old order.
pub open spec fn remove_zones_spec(cur: Seq<PowerZones>, zs: Seq<PowerZones>) -> Seq<PowerZones> {
    cur.filter(|z: PowerZones| !zs.contains(z))
}

} // verus!

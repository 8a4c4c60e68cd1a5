use vstd::prelude::*;

verus! {

/// USB product family of a detected Aura keyboard controller.
#[derive(Debug, Clone, Copy, PartialEq, Eq, Structural)]
pub enum AuraDevice {
    Tuf,
    X1854,
    X1866,
    X1869,
    X19b6,
    Unknown,
}

/// Builtin single-shot effect modes. The declaration order matches the
/// vendor's mode bytes, which `as_byte` produces.
#[derive(Debug, Clone, Copy, PartialEq, Eq, Structural)]
pub enum AuraModeNum {
    Static,
    Breathe,
    Strobe,
    Rainbow,
    Star,
    Rain,
    Highlight,
    Laser,
    Ripple,
    Pulse,
    Comet,
    Flash,
}

impl AuraModeNum {
    /// The vendor byte that selects this mode in a control packet.
    pub open spec fn byte_spec(&self) -> u8 {
        match *self {
            AuraModeNum::Static => 0x00,
            AuraModeNum::Breathe => 0x01,
            AuraModeNum::Strobe => 0x02,
            AuraModeNum::Rainbow => 0x03,
            AuraModeNum::Star => 0x04,
            AuraModeNum::Rain => 0x05,
            AuraModeNum::Highlight => 0x06,
            AuraModeNum::Laser => 0x07,
            AuraModeNum::Ripple => 0x08,
            AuraModeNum::Pulse => 0x09,
            AuraModeNum::Comet => 0x0a,
            AuraModeNum::Flash => 0x0b,
        }
    }

    pub fn as_byte(&self) -> (b: u8)
        ensures
            b == self.byte_spec(),
    {
        match *self {
            AuraModeNum::Static => 0x00,
            AuraModeNum::Breathe => 0x01,
            AuraModeNum::Strobe => 0x02,
            AuraModeNum::Rainbow => 0x03,
            AuraModeNum::Star => 0x04,
            AuraModeNum::Rain => 0x05,
            AuraModeNum::Highlight => 0x06,
            AuraModeNum::Laser => 0x07,
            AuraModeNum::Ripple => 0x08,
            AuraModeNum::Pulse => 0x09,
            AuraModeNum::Comet => 0x0a,
            AuraModeNum::Flash => 0x0b,
        }
    }
}

/// Addressable lighting zones. `NoZone` is the "whole keyboard" sentinel used
/// by effects that do not address a single zone.
#[derive(Debug, Clone, Copy, PartialEq, Eq, Structural)]
pub enum AuraZone {
    NoZone,
    Key1,
    Key2,
    Key3,
    Key4,
    Logo,
    BarLeft,
    BarRight,
}

impl AuraZone {
    /// The vendor byte that addresses this zone in a control packet.
    pub open spec fn byte_spec(&self) -> u8 {
        match *self {
            AuraZone::NoZone => 0x00,
            AuraZone::Key1 => 0x01,
            AuraZone::Key2 => 0x02,
            AuraZone::Key3 => 0x03,
            AuraZone::Key4 => 0x04,
            AuraZone::Logo => 0x05,
            AuraZone::BarLeft => 0x06,
            AuraZone::BarRight => 0x07,
        }
    }

    pub fn as_byte(&self) -> (b: u8)
        ensures
            b == self.byte_spec(),
    {
        match *self {
            AuraZone::NoZone => 0x00,
            AuraZone::Key1 => 0x01,
            AuraZone::Key2 => 0x02,
            AuraZone::Key3 => 0x03,
            AuraZone::Key4 => 0x04,
            AuraZone::Logo => 0x05,
            AuraZone::BarLeft => 0x06,
            AuraZone::BarRight => 0x07,
        }
    }
}

/// Animation speed of a builtin effect.
#[derive(Debug, Clone, Copy, PartialEq, Eq, Structural)]
pub enum Speed {
    Low,
    Med,
    High,
}

impl Speed {
    /// The vendor byte for this speed.
    pub open spec fn byte_spec(&self) -> u8 {
        match *self {
            Speed::Low => 0xe1,
            Speed::Med => 0xeb,
            Speed::High => 0xf5,
        }
    }

    pub fn as_byte(&self) -> (b: u8)
        ensures
            b == self.byte_spec(),
    {
        match *self {
            Speed::Low => 0xe1,
            Speed::Med => 0xeb,
            Speed::High => 0xf5,
        }
    }
}

/// Animation direction of a builtin effect.
#[derive(Debug, Clone, Copy, PartialEq, Eq, Structural)]
pub enum Direction {
    Right,
    Left,
    Up,
    Down,
}

impl Direction {
    /// The vendor byte for this direction.
    pub open spec fn byte_spec(&self) -> u8 {
        match *self {
            Direction::Right => 0x00,
            Direction::Left => 0x01,
            Direction::Up => 0x02,
            Direction::Down => 0x03,
        }
    }

    pub fn as_byte(&self) -> (b: u8)
        ensures
            b == self.byte_spec(),
    {
        match *self {
            Direction::Right => 0x00,
            Direction::Left => 0x01,
            Direction::Up => 0x02,
            Direction::Down => 0x03,
        }
    }
}

/// Keyboard backlight brightness, four steps from off to high.
#[derive(Debug, Clone, Copy, PartialEq, Eq, Structural)]
pub enum LedBrightness {
    Off,
    Low,
    Med,
    High,
}

impl LedBrightness {
    /// The numeric level, 0 through 3.
    pub open spec fn level_spec(&self) -> u8 {
        match *self {
            LedBrightness::Off => 0,
            LedBrightness::Low => 1,
            LedBrightness::Med => 2,
            LedBrightness::High => 3,
        }
    }

    pub fn level(&self) -> (b: u8)
        ensures
            b == self.level_spec(),
    {
        match *self {
            LedBrightness::Off => 0,
            LedBrightness::Low => 1,
            LedBrightness::Med => 2,
            LedBrightness::High => 3,
        }
    }

    /// The brightness step for a numeric level.
    pub open spec fn from_level_spec(level: u32) -> LedBrightness {
        if level == 0 {
            LedBrightness::Off
        } else if level == 1 {
            LedBrightness::Low
        } else if level == 2 {
            LedBrightness::Med
        } else {
            LedBrightness::High
        }
    }

    pub fn from_level(level: u32) -> (r: LedBrightness)
        ensures
            r == LedBrightness::from_level_spec(level),
    {
        if level == 0 {
            LedBrightness::Off
        } else if level == 1 {
            LedBrightness::Low
        } else if level == 2 {
            LedBrightness::Med
        } else {
            LedBrightness::High
        }
    }
}

/// An RGB colour, one byte per channel.
#[derive(Debug, Clone, Copy, PartialEq, Eq, Structural)]
pub struct Colour {
    pub r: u8,
    pub g: u8,
    pub b: u8,
}

/// One builtin effect instance: which mode, where it applies, and its
/// parameters. An immutable value type, copied when stored.
#[derive(Debug, Clone, Copy, PartialEq, Eq, Structural)]
pub struct AuraEffect {
    pub mode: AuraModeNum,
    pub zone: AuraZone,
    pub colour1: Colour,
    pub colour2: Colour,
    pub speed: Speed,
    pub direction: Direction,
}

impl AuraEffect {
    /// The stock effect: static red on the whole keyboard.
    pub open spec fn default_spec() -> AuraEffect {
        AuraEffect {
            mode: AuraModeNum::Static,
            zone: AuraZone::NoZone,
            colour1: Colour { r: 0xa6, g: 0x00, b: 0x00 },
            colour2: Colour { r: 0x00, g: 0x00, b: 0x00 },
            speed: Speed::Med,
            direction: Direction::Right,
        }
    }
}

impl Default for AuraEffect {
    fn default() -> (e: AuraEffect)
        ensures
            e == AuraEffect::default_spec(),
    {
        AuraEffect {
            mode: AuraModeNum::Static,
            zone: AuraZone::NoZone,
            colour1: Colour { r: 0xa6, g: 0x00, b: 0x00 },
            colour2: Colour { r: 0x00, g: 0x00, b: 0x00 },
            speed: Speed::Med,
            direction: Direction::Right,
        }
    }
}

/// Lighting groups that can be powered on and off independently.
#[derive(Debug, Clone, Copy, PartialEq, Eq, Structural)]
pub enum PowerZones {
    Keyboard,
    Logo,
    Lightbar,
    Lid,
    RearGlow,
}

/// Static description of what a laptop model's lighting supports, resolved
/// once at construction and never mutated afterward. The order of
/// `basic_modes` defines the cycling order; the order of `basic_zones`
/// defines the zone order of multizone effect sets.
#[derive(Debug, Clone)]
pub struct LaptopLedData {
    pub board_name: String,
    pub layout_name: String,
    pub basic_modes: Vec<AuraModeNum>,
    pub basic_zones: Vec<AuraZone>,
    pub advanced: bool,
    pub power_zones: Vec<PowerZones>,
}

impl Default for LaptopLedData {
    fn default() -> (d: LaptopLedData)
        ensures
            d.board_name@ == Seq::<char>::empty(),
            d.layout_name@ == Seq::<char>::empty(),
            d.basic_modes@ == Seq::<AuraModeNum>::empty(),
            d.basic_zones@ == Seq::<AuraZone>::empty(),
            !d.advanced,
            d.power_zones@ == Seq::<PowerZones>::empty(),
    {
        LaptopLedData {
            board_name: String::new(),
            layout_name: String::new(),
            basic_modes: Vec::new(),
            basic_zones: Vec::new(),
            advanced: false,
            power_zones: Vec::new(),
        }
    }
}

/// Whether a mode list holds the given mode.
pub fn mode_list_contains(list: &Vec<AuraModeNum>, mode: AuraModeNum) -> (r: bool)
    ensures
        r == list@.contains(mode),
{
    let n = list.len();
    let mut i: usize = 0;
    while i < n
        invariant
            i <= n,
            n == list@.len(),
            forall|j: int| 0 <= j < i ==> list@[j] != mode,
        decreases n - i,
    {
        if list[i] == mode {
            assert(list@.contains(mode)) by {
                assert(list@[i as int] == mode);
            }
            return true;
        }
        i += 1;
    }
    false
}

/// Whether a zone list holds the given zone.
pub fn zone_list_contains(list: &Vec<AuraZone>, zone: AuraZone) -> (r: bool)
    ensures
        r == list@.contains(zone),
{
    let n = list.len();
    let mut i: usize = 0;
    while i < n
        invariant
            i <= n,
            n == list@.len(),
            forall|j: int| 0 <= j < i ==> list@[j] != zone,
        decreases n - i,
    {
        if list[i] == zone {
            assert(list@.contains(zone)) by {
                assert(list@[i as int] == zone);
            }
            return true;
        }
        i += 1;
    }
    false
}

/// Whether a power-zone list holds the given zone.
pub fn power_list_contains(list: &Vec<PowerZones>, zone: PowerZones) -> (r: bool)
    ensures
        r == list@.contains(zone),
{
    let n = list.len();
    let mut i: usize = 0;
    while i < n
        invariant
            i <= n,
            n == list@.len(),
            forall|j: int| 0 <= j < i ==> list@[j] != zone,
        decreases n - i,
    {
        if list[i] == zone {
            assert(list@.contains(zone)) by {
                assert(list@[i as int] == zone);
            }
            return true;
        }
        i += 1;
    }
    false
}

/// A by-element copy of a vector of plain values.
pub fn copy_list<T: Copy>(list: &Vec<T>) -> (r: Vec<T>)
    ensures
        r@ == list@,
{
    let n = list.len();
    let mut out: Vec<T> = Vec::new();
    let mut i: usize = 0;
    while i < n
        invariant
            i <= n,
            n == list@.len(),
            out@ == list@.take(i as int),
        decreases n - i,
    {
        out.push(list[i]);
        proof {
            assert(out@ =~= list@.take(i + 1));
        }
        i += 1;
    }
    proof {
        assert(list@.take(n as int) =~= list@);
    }
    out
}

/// A capability snapshot handed to external callers: which device family was
/// found and what it supports.
#[derive(Debug, Clone)]
pub struct LedSupportedFunctions {
    pub dev_id: AuraDevice,
    pub brightness: bool,
    pub basic_modes: Vec<AuraModeNum>,
    pub basic_zones: Vec<AuraZone>,
    pub advanced: bool,
    pub power_zones: Vec<PowerZones>,
}

} // verus!

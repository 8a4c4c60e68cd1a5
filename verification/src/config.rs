use vstd::prelude::*;

use crate::aura::{
    AuraDevice, AuraEffect, AuraModeNum, AuraZone, Colour, Direction, LaptopLedData, LedBrightness,
    PowerZones, Speed, copy_list, zone_list_contains,
};
use crate::mode_map::{ModeMap, mode_lookup};
use crate::seq_facts::lemma_take_succ_contains;

verus! {

/// The stock effect the merge assigns to a mode that the loaded configuration
/// does not cover.
pub open spec fn default_effect_spec(mode: AuraModeNum) -> AuraEffect {
    AuraEffect {
        mode,
        zone: AuraZone::NoZone,
        colour1: Colour { r: 0xa6, g: 0x00, b: 0x00 },
        colour2: Colour { r: 0x00, g: 0x00, b: 0x00 },
        speed: Speed::Med,
        direction: Direction::Right,
    }
}

pub fn default_effect(mode: AuraModeNum) -> (e: AuraEffect)
    ensures
        e == default_effect_spec(mode),
{
    AuraEffect {
        mode,
        zone: AuraZone::NoZone,
        colour1: Colour { r: 0xa6, g: 0x00, b: 0x00 },
        colour2: Colour { r: 0x00, g: 0x00, b: 0x00 },
        speed: Speed::Med,
        direction: Direction::Right,
    }
}

/// The builtin entry the merge keeps for a supported mode: the loaded entry
/// when one exists, the stock default otherwise.
pub open spec fn merge_entry_spec(
    loaded_builtins: Seq<(AuraModeNum, AuraEffect)>,
    m: AuraModeNum,
) -> AuraEffect {
    match mode_lookup(loaded_builtins, m) {
        Some(e) => e,
        None => default_effect_spec(m),
    }
}

/// Effects of a multizone set that address a supported zone.
pub open spec fn zone_filter(set: Seq<AuraEffect>, zones: Seq<AuraZone>) -> Seq<AuraEffect> {
    set.filter(|e: AuraEffect| zones.contains(e.zone))
}

/// What the merge keeps of a loaded multizone map under key `m`: the loaded
/// set restricted to supported zones, and only for a supported mode whose
/// restricted set covers every supported zone; otherwise nothing. Dropping is
/// all-or-nothing per mode.
pub open spec fn merged_zone_lookup_spec(
    loaded_multizone: Seq<(AuraModeNum, Vec<AuraEffect>)>,
    support: LaptopLedData,
    m: AuraModeNum,
) -> Option<Seq<AuraEffect>> {
    match mode_lookup(loaded_multizone, m) {
        Some(set) => {
            if support.basic_modes@.contains(m) && support.basic_zones@.len() > 0 && zone_filter(
                set@,
                support.basic_zones@,
            ).len() == support.basic_zones@.len() {
                Some(zone_filter(set@, support.basic_zones@))
            } else {
                None
            }
        },
        None => None,
    }
}

/// The sequence view of an optional multizone set.
pub open spec fn opt_set_view(o: Option<Vec<AuraEffect>>) -> Option<Seq<AuraEffect>> {
    match o {
        Some(v) => Some(v@),
        None => None,
    }
}

/// Everything the capability merge guarantees about its result: builtins
/// cover exactly the supported modes, a loaded entry wins over the stock
/// default mode by mode, a loaded multizone map is restricted as
/// `merged_zone_lookup_spec` says, and the remaining fields are carried
/// over from the loaded configuration or take fresh defaults.
pub open spec fn merged_config_post(
    support: LaptopLedData,
    loaded: Option<AuraConfig>,
    c: AuraConfig,
) -> bool {
    &&& forall|m: AuraModeNum| (mode_lookup(c.builtins@, m) is Some)
        <==> support.basic_modes@.contains(m)
    &&& forall|m: AuraModeNum| support.basic_modes@.contains(m) ==> mode_lookup(c.builtins@, m)
        == Some(
        match loaded {
            Some(l) => merge_entry_spec(l.builtins@, m),
            None => default_effect_spec(m),
        },
    )
    &&& ((c.multizone is Some) <==> (loaded matches Some(l) && l.multizone is Some))
    &&& (loaded matches Some(l) ==> l.multizone matches Some(lmz) ==> (c.multizone matches Some(
        cmz,
    ) && forall|m: AuraModeNum| opt_set_view(mode_lookup(cmz@, m)) == merged_zone_lookup_spec(
        lmz@,
        support,
        m,
    )))
    &&& match loaded {
        Some(l) => c.brightness == l.brightness && c.current_mode == l.current_mode
            && c.multizone_on == l.multizone_on && c.enabled@ == l.enabled@,
        None => c.brightness == LedBrightness::Med && c.current_mode == AuraModeNum::Static
            && !c.multizone_on && c.enabled@ == support.power_zones@,
    }
}

/// The merged, persisted lighting configuration: builtin effect parameters
/// per mode, optional per-zone effect sets per mode, the enabled power
/// zones, the active mode and the brightness.
#[derive(Debug)]
pub struct AuraConfig {
    pub brightness: LedBrightness,
    pub current_mode: AuraModeNum,
    pub builtins: ModeMap<AuraEffect>,
    pub multizone: Option<ModeMap<Vec<AuraEffect>>>,
    pub multizone_on: bool,
    pub enabled: Vec<PowerZones>,
}

impl AuraConfig {
    /// A fresh configuration covering every supported mode with the stock
    /// default effect. The defaults are the same for every device family.
    pub fn from_default_support(_prod: AuraDevice, support: &LaptopLedData) -> (c: AuraConfig)
        ensures
            forall|m: AuraModeNum| (mode_lookup(c.builtins@, m) is Some)
                <==> support.basic_modes@.contains(m),
            forall|m: AuraModeNum| support.basic_modes@.contains(m) ==> mode_lookup(
                c.builtins@,
                m,
            ) == Some(default_effect_spec(m)),
            c.multizone is None,
            !c.multizone_on,
            c.current_mode == AuraModeNum::Static,
            c.brightness == LedBrightness::Med,
            c.enabled@ == support.power_zones@,
    {
        let mut builtins: ModeMap<AuraEffect> = ModeMap::new();
        let n = support.basic_modes.len();
        let mut i: usize = 0;
        while i < n
            invariant
                i <= n,
                n == support.basic_modes@.len(),
                forall|m: AuraModeNum| mode_lookup(builtins@, m) == (
                if support.basic_modes@.take(i as int).contains(m) {
                    Some(default_effect_spec(m))
                } else {
                    None::<AuraEffect>
                }),
            decreases n - i,
        {
            let m = support.basic_modes[i];
            builtins.insert(m, default_effect(m));
            proof {
                assert forall|mm: AuraModeNum| mode_lookup(builtins@, mm) == (
                if support.basic_modes@.take(i + 1).contains(mm) {
                    Some(default_effect_spec(mm))
                } else {
                    None::<AuraEffect>
                }) by {
                    lemma_take_succ_contains(support.basic_modes@, i as int, mm);
                }
            }
            i += 1;
        }
        proof {
            assert(support.basic_modes@.take(n as int) =~= support.basic_modes@);
        }
        AuraConfig {
            brightness: LedBrightness::Med,
            current_mode: AuraModeNum::Static,
            builtins,
            multizone: None,
            multizone_on: false,
            enabled: copy_list(&support.power_zones),
        }
    }

    /// Reconcile a loaded configuration with the device's capability set.
    ///
    /// The result's builtins cover exactly the supported modes: a loaded
    /// entry wins over the stock default mode by mode, entries for modes no
    /// longer supported are dropped, and gaps for newly supported modes are
    /// filled. A loaded multizone map is restricted as `merged_zone_lookup_spec`
    /// says; a missing or absent loaded configuration degenerates to the
    /// fresh defaults.
    pub fn merged(support: &LaptopLedData, loaded: Option<AuraConfig>) -> (c: AuraConfig)
        ensures
            merged_config_post(*support, loaded, c),
    {
        match loaded {
            None => AuraConfig::from_default_support(AuraDevice::Unknown, support),
            Some(l) => {
                let AuraConfig {
                    brightness,
                    current_mode,
                    builtins: loaded_builtins,
                    multizone: loaded_multizone,
                    multizone_on,
                    enabled,
                } = l;
                let n = support.basic_modes.len();

                let mut builtins: ModeMap<AuraEffect> = ModeMap::new();
                let mut i: usize = 0;
                while i < n
                    invariant
                        i <= n,
                        n == support.basic_modes@.len(),
                        forall|m: AuraModeNum| mode_lookup(builtins@, m) == (
                        if support.basic_modes@.take(i as int).contains(m) {
                            Some(merge_entry_spec(loaded_builtins@, m))
                        } else {
                            None::<AuraEffect>
                        }),
                    decreases n - i,
                {
                    let m = support.basic_modes[i];
                    let e = match loaded_builtins.get(&m) {
                        Some(x) => *x,
                        None => default_effect(m),
                    };
                    builtins.insert(m, e);
                    proof {
                        assert forall|mm: AuraModeNum| mode_lookup(builtins@, mm) == (
                        if support.basic_modes@.take(i + 1).contains(mm) {
                            Some(merge_entry_spec(loaded_builtins@, mm))
                        } else {
                            None::<AuraEffect>
                        }) by {
                            lemma_take_succ_contains(support.basic_modes@, i as int, mm);
                        }
                    }
                    i += 1;
                }
                proof {
                    assert(support.basic_modes@.take(n as int) =~= support.basic_modes@);
                }

                let multizone: Option<ModeMap<Vec<AuraEffect>>> = match loaded_multizone {
                    None => None,
                    Some(lmz) => {
                        let mut out: ModeMap<Vec<AuraEffect>> = ModeMap::new();
                        if support.basic_zones.len() > 0 {
                            let mut i: usize = 0;
                            while i < n
                                invariant
                                    i <= n,
                                    n == support.basic_modes@.len(),
                                    support.basic_zones@.len() > 0,
                                    forall|m: AuraModeNum| opt_set_view(mode_lookup(out@, m)) == (
                                    if support.basic_modes@.take(i as int).contains(m) {
                                        merged_zone_lookup_spec(lmz@, *support, m)
                                    } else {
                                        None::<Seq<AuraEffect>>
                                    }),
                                decreases n - i,
                            {
                                let m = support.basic_modes[i];
                                proof {
                                    assert(support.basic_modes@.contains(m)) by {
                                        assert(support.basic_modes@[i as int] == m);
                                    }
                                }
                                if let Some(set) = lmz.get(&m) {
                                    let filtered = filter_supported_zones(
                                        set,
                                        &support.basic_zones,
                                    );
                                    if filtered.len() == support.basic_zones.len() {
                                        out.insert(m, filtered);
                                    }
                                }
                                proof {
                                    assert forall|mm: AuraModeNum| opt_set_view(
                                        mode_lookup(out@, mm),
                                    ) == (
                                    if support.basic_modes@.take(i + 1).contains(mm) {
                                        merged_zone_lookup_spec(lmz@, *support, mm)
                                    } else {
                                        None::<Seq<AuraEffect>>
                                    }) by {
                                        lemma_take_succ_contains(support.basic_modes@, i as int, mm);
                                    }
                                }
                                i += 1;
                            }
                            proof {
                                assert(support.basic_modes@.take(n as int)
                                    =~= support.basic_modes@);
                            }
                        }
                        Some(out)
                    },
                };

                AuraConfig {
                    brightness,
                    current_mode,
                    builtins,
                    multizone,
                    multizone_on,
                    enabled,
                }
            },
        }
    }

    /// Overwrite the entry stored under the active mode with `effect`,
    /// leaving every other entry and every other field unchanged.
    pub fn set_builtin(&mut self, effect: AuraEffect)
        ensures
            mode_lookup(final(self).builtins@, old(self).current_mode) == Some(effect),
            forall|m: AuraModeNum| m != old(self).current_mode ==> mode_lookup(
                final(self).builtins@,
                m,
            ) == mode_lookup(old(self).builtins@, m),
            final(self).brightness == old(self).brightness,
            final(self).current_mode == old(self).current_mode,
            final(self).multizone == old(self).multizone,
            final(self).multizone_on == old(self).multizone_on,
            final(self).enabled == old(self).enabled,
    {
        let mode = self.current_mode;
        self.builtins.insert(mode, effect);
    }
}

/// Restrict a multizone set to the effects addressing a supported zone.
fn filter_supported_zones(set: &Vec<AuraEffect>, zones: &Vec<AuraZone>) -> (r: Vec<AuraEffect>)
    ensures
        r@ == zone_filter(set@, zones@),
{
    let mut out: Vec<AuraEffect> = Vec::new();
    let n = set.len();
    let mut i: usize = 0;
    proof {
        assert(set@.take(0) =~= Seq::<AuraEffect>::empty());
    }
    while i < n
        invariant
            i <= n,
            n == set@.len(),
            out@ == zone_filter(set@.take(i as int), zones@),
        decreases n - i,
    {
        let e = set[i];
        proof {
            reveal_with_fuel(Seq::<_>::filter, 2);
            assert(set@.take(i + 1).drop_last() =~= set@.take(i as int));
            assert(set@.take(i + 1).last() == set@[i as int]);
        }
        if zone_list_contains(zones, e.zone) {
            out.push(e);
        }
        i += 1;
    }
    proof {
        assert(set@.take(n as int) =~= set@);
    }
    out
}

} // verus!

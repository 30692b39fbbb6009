use vstd::prelude::*;

use crate::model::{Role, Tier};
use crate::text::same_text;

verus! {

/// The endorsement level that an endorsement icon's file name stands for.
pub open spec fn endorsement_of(file: Seq<char>) -> Option<u8> {
    if file == "1-9de6d43ec5.svg"@ {
        Some(1u8)
    } else if file == "2-8b9f0faa25.svg"@ {
        Some(2u8)
    } else if file == "3-8ccb5f0aef.svg"@ {
        Some(3u8)
    } else if file == "4-48261e1164.svg"@ {
        Some(4u8)
    } else if file == "5-8697f241ca.svg"@ {
        Some(5u8)
    } else {
        None
    }
}

/// The role that a role icon's file name stands for.
pub open spec fn role_of(file: Seq<char>) -> Option<Role> {
    if file == "tank-f64702b684.svg"@ {
        Some(Role::Tank)
    } else if file == "offense-ab1756f419.svg"@ {
        Some(Role::Damage)
    } else if file == "support-0258e13d85.svg"@ {
        Some(Role::Support)
    } else {
        None
    }
}

/// The name that a tier icon's file name begins with.
pub open spec fn tier_prefix(tier: Tier) -> Seq<char> {
    match tier {
        Tier::Bronze => "BronzeTier"@,
        Tier::Silver => "SilverTier"@,
        Tier::Gold => "GoldTier"@,
        Tier::Platinum => "PlatinumTier"@,
        Tier::Diamond => "DiamondTier"@,
        Tier::Master => "MasterTier"@,
        Tier::Grandmaster => "GrandmasterTier"@,
    }
}

/// The tier that the first part of a tier icon's file name stands for.
pub open spec fn tier_of(name: Seq<char>) -> Option<Tier> {
    if name == tier_prefix(Tier::Bronze) {
        Some(Tier::Bronze)
    } else if name == tier_prefix(Tier::Silver) {
        Some(Tier::Silver)
    } else if name == tier_prefix(Tier::Gold) {
        Some(Tier::Gold)
    } else if name == tier_prefix(Tier::Platinum) {
        Some(Tier::Platinum)
    } else if name == tier_prefix(Tier::Diamond) {
        Some(Tier::Diamond)
    } else if name == tier_prefix(Tier::Master) {
        Some(Tier::Master)
    } else if name == tier_prefix(Tier::Grandmaster) {
        Some(Tier::Grandmaster)
    } else {
        None
    }
}

/// Looks up an endorsement icon's file name.
pub fn endorsement_level(file: &str) -> (r: Option<u8>)
    ensures
        r == endorsement_of(file@),
{
    if same_text(file, "1-9de6d43ec5.svg") {
        Some(1)
    } else if same_text(file, "2-8b9f0faa25.svg") {
        Some(2)
    } else if same_text(file, "3-8ccb5f0aef.svg") {
        Some(3)
    } else if same_text(file, "4-48261e1164.svg") {
        Some(4)
    } else if same_text(file, "5-8697f241ca.svg") {
        Some(5)
    } else {
        None
    }
}

/// Looks up a role icon's file name.
pub fn role_for_icon(file: &str) -> (r: Option<Role>)
    ensures
        r == role_of(file@),
{
    if same_text(file, "tank-f64702b684.svg") {
        Some(Role::Tank)
    } else if same_text(file, "offense-ab1756f419.svg") {
        Some(Role::Damage)
    } else if same_text(file, "support-0258e13d85.svg") {
        Some(Role::Support)
    } else {
        None
    }
}

/// Looks up the first part of a tier icon's file name.
pub fn tier_for_name(name: &str) -> (r: Option<Tier>)
    ensures
        r == tier_of(name@),
{
    if same_text(name, "BronzeTier") {
        Some(Tier::Bronze)
    } else if same_text(name, "SilverTier") {
        Some(Tier::Silver)
    } else if same_text(name, "GoldTier") {
        Some(Tier::Gold)
    } else if same_text(name, "PlatinumTier") {
        Some(Tier::Platinum)
    } else if same_text(name, "DiamondTier") {
        Some(Tier::Diamond)
    } else if same_text(name, "MasterTier") {
        Some(Tier::Master)
    } else if same_text(name, "GrandmasterTier") {
        Some(Tier::Grandmaster)
    } else {
        None
    }
}

} // verus!

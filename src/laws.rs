use vstd::prelude::*;

use crate::extract::{endorsement_from_file, ranks_of, role_entry_of};
use crate::model::{ProfileError, Rank, Role, Slots, Tier, TierNumber};
use crate::tables::tier_prefix;
use crate::text::{after_dash, dash_at, first_field, lemma_dash_at, parsed_u8};
use crate::url_path::url_file_name_of;

verus! {

/// The rank held in the slot of `role`.
pub open spec fn slot_of(slots: Slots, role: Role) -> Option<Rank> {
    match role {
        Role::Tank => slots.0,
        Role::Damage => slots.1,
        Role::Support => slots.2,
    }
}

/// Each of the five endorsement icons decodes to its level.
pub proof fn endorsement_table_levels()
    ensures
        endorsement_from_file("1-9de6d43ec5.svg"@) == Ok::<u8, ProfileError>(1),
        endorsement_from_file("2-8b9f0faa25.svg"@) == Ok::<u8, ProfileError>(2),
        endorsement_from_file("3-8ccb5f0aef.svg"@) == Ok::<u8, ProfileError>(3),
        endorsement_from_file("4-48261e1164.svg"@) == Ok::<u8, ProfileError>(4),
        endorsement_from_file("5-8697f241ca.svg"@) == Ok::<u8, ProfileError>(5),
{
    reveal_strlit("1-9de6d43ec5.svg");
    reveal_strlit("2-8b9f0faa25.svg");
    reveal_strlit("3-8ccb5f0aef.svg");
    reveal_strlit("4-48261e1164.svg");
    reveal_strlit("5-8697f241ca.svg");
    assert("2-8b9f0faa25.svg"@[0] != "1-9de6d43ec5.svg"@[0]);
    assert("3-8ccb5f0aef.svg"@[0] != "1-9de6d43ec5.svg"@[0]);
    assert("3-8ccb5f0aef.svg"@[0] != "2-8b9f0faa25.svg"@[0]);
    assert("4-48261e1164.svg"@[0] != "1-9de6d43ec5.svg"@[0]);
    assert("4-48261e1164.svg"@[0] != "2-8b9f0faa25.svg"@[0]);
    assert("4-48261e1164.svg"@[0] != "3-8ccb5f0aef.svg"@[0]);
    assert("5-8697f241ca.svg"@[0] != "1-9de6d43ec5.svg"@[0]);
    assert("5-8697f241ca.svg"@[0] != "2-8b9f0faa25.svg"@[0]);
    assert("5-8697f241ca.svg"@[0] != "3-8ccb5f0aef.svg"@[0]);
    assert("5-8697f241ca.svg"@[0] != "4-48261e1164.svg"@[0]);
}


proof fn lemma_tier_prefix(tier: Tier)
    ensures
        crate::tables::tier_of(tier_prefix(tier)) == Some(tier),
        dash_at(tier_prefix(tier)) == tier_prefix(tier).len(),
{
    reveal_strlit("BronzeTier");
    reveal_strlit("SilverTier");
    reveal_strlit("GoldTier");
    reveal_strlit("PlatinumTier");
    reveal_strlit("DiamondTier");
    reveal_strlit("MasterTier");
    reveal_strlit("GrandmasterTier");
    assert("BronzeTier"@[0] != "SilverTier"@[0]);
    assert("BronzeTier"@[0] != "MasterTier"@[0]);
    assert("SilverTier"@[0] != "MasterTier"@[0]);
    reveal_with_fuel(dash_at, 16);
    match tier {
        Tier::Bronze => assert(dash_at("BronzeTier"@) == 10),
        Tier::Silver => assert(dash_at("SilverTier"@) == 10),
        Tier::Gold => assert(dash_at("GoldTier"@) == 8),
        Tier::Platinum => assert(dash_at("PlatinumTier"@) == 12),
        Tier::Diamond => assert(dash_at("DiamondTier"@) == 11),
        Tier::Master => assert(dash_at("MasterTier"@) == 10),
        Tier::Grandmaster => assert(dash_at("GrandmasterTier"@) == 15),
    }
}

proof fn lemma_dash_at_prefix(p: Seq<char>, j: int)
    requires
        dash_at(p) == p.len(),
        0 <= j < p.len(),
    ensures
        p[j] != '-',
    decreases j,
{
    if j > 0 {
        lemma_dash_at_prefix(p.drop_first(), j - 1);
    }
}

/// A role wrapper whose role icon is the tank icon, and whose tier icon's file name is
/// a tier's name, a `-` and a numeral of a number from one to five (such as `3`, `03`
/// or `+3`), followed by nothing or by a `-` and anything, decodes to the tank role and
/// exactly that tier and subdivision.
pub proof fn tank_wrapper_decodes_to_its_rank(
    role_src: Seq<char>,
    tier_src: Seq<char>,
    tier: Tier,
    numeral: Seq<char>,
    tail: Seq<char>,
)
    requires
        url_file_name_of(role_src) == Some(Some("tank-f64702b684.svg"@)),
        url_file_name_of(tier_src) == Some(Some(tier_prefix(tier) + seq!['-'] + numeral + tail)),
        forall|j: int| 0 <= j < numeral.len() ==> numeral[j] != '-',
        parsed_u8(numeral) matches Some(n) && 1 <= n <= 5,
        tail.len() == 0 || tail[0] == '-',
    ensures
        role_entry_of(Some(Some(role_src)), Some(Some(tier_src))) matches Ok((role, rank)) && role
            == Role::Tank && rank.tier == tier && parsed_u8(numeral) == Some(rank.tier_number.spec_value()),
{
    let p = tier_prefix(tier);
    let rest = numeral + tail;
    let f = p + seq!['-'] + rest;
    assert(f =~= p + seq!['-'] + numeral + tail);
    lemma_tier_prefix(tier);
    assert forall|j: int| 0 <= j < p.len() implies f[j] != '-' by {
        assert(f[j] == p[j]);
        lemma_dash_at_prefix(p, j);
    }
    assert(f[p.len() as int] == '-');
    lemma_dash_at(f, p.len() as int);
    assert(first_field(f) =~= p);
    assert(f.subrange(p.len() as int + 1, f.len() as int) =~= rest);
    assert(after_dash(f) == Some(rest));
    assert forall|j: int| 0 <= j < numeral.len() implies rest[j] != '-' by {
        assert(rest[j] == numeral[j]);
    }
    if tail.len() > 0 {
        assert(rest[numeral.len() as int] == tail[0]);
    }
    lemma_dash_at(rest, numeral.len() as int);
    assert(first_field(rest) =~= numeral);
    let n = parsed_u8(numeral)->Some_0;
    assert(TierNumber::of(n) matches Some(k) && k.spec_value() == n);
}

/// In a sequence of role wrappers that decodes, the slot of a role holds the rank of
/// the last wrapper of that role: a later wrapper of a role replaces an earlier one.
pub proof fn later_wrapper_of_role_wins(
    entries: Seq<(Option<Option<Seq<char>>>, Option<Option<Seq<char>>>)>,
    j: int,
    role: Role,
    rank: Rank,
)
    requires
        0 <= j < entries.len(),
        ranks_of(entries) is Ok,
        role_entry_of(entries[j].0, entries[j].1) == Ok::<(Role, Rank), ProfileError>((role, rank)),
        forall|k: int|
            j < k < entries.len() ==> !(#[trigger] role_entry_of(entries[k].0, entries[k].1) matches Ok(
                (r, _),
            ) && r == role),
    ensures
        ranks_of(entries) matches Ok(slots) && slot_of(slots, role) == Some(rank),
    decreases entries.len(),
{
    let last = entries.len() - 1;
    let prefix = entries.drop_last();
    if j < last {
        assert(entries.last() == entries[last]);
        assert forall|k: int| j < k < prefix.len() implies !(#[trigger] role_entry_of(
            prefix[k].0,
            prefix[k].1,
        ) matches Ok((r, _)) && r == role) by {
            assert(prefix[k] == entries[k]);
        }
        assert(prefix[j] == entries[j]);
        later_wrapper_of_role_wins(prefix, j, role, rank);
    }
}

/// No role wrapper means an unranked profile: every slot is empty, and nothing fails.
pub proof fn no_role_wrapper_is_unranked()
    ensures
        ranks_of(Seq::empty()) == Ok::<Slots, ProfileError>((None, None, None)),
{
}

} // verus!

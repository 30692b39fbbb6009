use vstd::prelude::*;

use crate::model::{Battletag, Player, ProfileError, ProfileFacts, Rank, Role, Slots, TierNumber, Platform};
use crate::page::{
    Css, Page, count_matches, first_attr_of, first_inner_html_of, found_all, found_of, match_count,
    nested_attr_of, nested_first_value_of, select_first_attr, select_first_inner_html,
    select_nested_attr, select_nested_first_value, selector_parses, text_of,
};
use crate::tables::{endorsement_level, endorsement_of, role_for_icon, role_of, tier_for_name, tier_of};
use crate::text::{after_dash, first_field, parse_u8, parsed_u8, same_text, split_dash};
use crate::url_path::{parse_file_name, url_file_name_of};

verus! {

/// The node whose presence marks a private profile.
pub const PRIVATE_SELECTOR: &'static str = ".Profile-player--private";

/// The portrait image.
pub const PORTRAIT_SELECTOR: &'static str = ".Profile-player--portrait";

/// The title text.
pub const TITLE_SELECTOR: &'static str = ".Profile-player--title";

/// The endorsement icon.
pub const ENDORSEMENT_SELECTOR: &'static str = ".Profile-playerSummary--endorsement";

/// A role wrapper, in any view of the page.
pub const ROLE_WRAPPER_SELECTOR: &'static str = ".Profile-playerSummary--roleWrapper";

/// A role wrapper in the mouse and keyboard view.
pub const PC_ROLE_WRAPPER_SELECTOR: &'static str = ".mouseKeyboard-view>.Profile-playerSummary--roleWrapper";

/// A role wrapper in the controller view.
pub const CONSOLE_ROLE_WRAPPER_SELECTOR: &'static str = ".controller-view>.Profile-playerSummary--roleWrapper";

/// The role icon of a role wrapper, as an image.
pub const ROLE_ICON_SELECTOR: &'static str = ".Profile-playerSummary--role>img";

/// The role icon of a role wrapper in the controller view, as a reference to a symbol.
pub const CONSOLE_ROLE_ICON_SELECTOR: &'static str = ".Profile-playerSummary--role>use";

/// The tier icon of a role wrapper.
pub const TIER_ICON_SELECTOR: &'static str = ".Profile-playerSummary--rank";

/// The attribute that holds an image's address.
pub const SOURCE_ATTRIBUTE: &'static str = "src";

/// The title shown for a player who has chosen none.
pub const NO_TITLE: &'static str = "No Title";

// ---------------------------------------------------------------------------
// What each field decodes to, from what was found at its locator.

/// The portrait, from its node and that node's image address.
pub open spec fn portrait_of(found: Option<Option<Seq<char>>>) -> Result<Option<Seq<char>>, ProfileError> {
    match found {
        None => Err(ProfileError::StructuralAbsence),
        Some(None) => Ok(None),
        Some(Some(s)) => if s.len() == 0 {
            Ok(None)
        } else {
            Ok(Some(s))
        },
    }
}

/// The title, from the markup inside its node, where there is one.
pub open spec fn title_of(found: Option<Seq<char>>) -> Option<Seq<char>> {
    match found {
        Some(t) => if t.len() == 0 || t == NO_TITLE@ {
            None
        } else {
            Some(t)
        },
        None => None,
    }
}

/// The file name of an icon's address: an address that is no URL is malformed, one
/// whose path has no segments leaves the page unreadable.
pub open spec fn file_name_of(src: Seq<char>) -> Result<Seq<char>, ProfileError> {
    match url_file_name_of(src) {
        Some(Some(f)) => Ok(f),
        Some(None) => Err(ProfileError::StructuralAbsence),
        None => Err(ProfileError::MalformedReference),
    }
}

/// The endorsement level, from the icon's file name.
pub open spec fn endorsement_from_file(file: Seq<char>) -> Result<u8, ProfileError> {
    match endorsement_of(file) {
        Some(n) => Ok(n),
        None => Err(ProfileError::ValueDecodeFailure),
    }
}

/// The endorsement level, from the icon's node and its image address.
pub open spec fn endorsement_from(found: Option<Option<Seq<char>>>) -> Result<u8, ProfileError> {
    match found {
        Some(Some(src)) => match file_name_of(src) {
            Ok(f) => endorsement_from_file(f),
            Err(e) => Err(e),
        },
        _ => Err(ProfileError::StructuralAbsence),
    }
}

/// The rank, from a tier icon's file name: the part before the first `-` names the
/// tier, the part after it up to the next `-` is the subdivision.
pub open spec fn rank_from_file(file: Seq<char>) -> Result<Rank, ProfileError> {
    match tier_of(first_field(file)) {
        None => Err(ProfileError::ValueDecodeFailure),
        Some(tier) => match after_dash(file) {
            None => Err(ProfileError::ValueDecodeFailure),
            Some(rest) => match parsed_u8(first_field(rest)) {
                None => Err(ProfileError::ValueDecodeFailure),
                Some(n) => match TierNumber::of(n) {
                    None => Err(ProfileError::ValueDecodeFailure),
                    Some(tier_number) => Ok(Rank { tier, tier_number }),
                },
            },
        },
    }
}

/// The role and rank of a role wrapper, from its role icon's file name and what its
/// tier icon's address gave.
pub open spec fn entry_from_files(role_file: Seq<char>, tier_file: Option<Seq<char>>) -> Result<
    (Role, Rank),
    ProfileError,
> {
    match role_of(role_file) {
        None => Err(ProfileError::ValueDecodeFailure),
        Some(role) => match tier_file {
            None => Err(ProfileError::StructuralAbsence),
            Some(f) => match rank_from_file(f) {
                Ok(rank) => Ok((role, rank)),
                Err(e) => Err(e),
            },
        },
    }
}

/// The role and rank of a role wrapper, from what was found at its role icon and at its
/// tier icon. Both nodes are located and both addresses parsed before either file
/// name is looked up.
pub open spec fn role_entry_of(role_found: Option<Option<Seq<char>>>, tier_found: Option<Option<Seq<char>>>) -> Result<
    (Role, Rank),
    ProfileError,
> {
    match role_found {
        Some(Some(role_src)) => match url_file_name_of(role_src) {
            None => Err(ProfileError::MalformedReference),
            Some(role_file) => match tier_found {
                Some(Some(tier_src)) => match url_file_name_of(tier_src) {
                    None => Err(ProfileError::MalformedReference),
                    Some(tier_file) => match role_file {
                        None => Err(ProfileError::StructuralAbsence),
                        Some(rf) => entry_from_files(rf, tier_file),
                    },
                },
                _ => Err(ProfileError::StructuralAbsence),
            },
        },
        _ => Err(ProfileError::StructuralAbsence),
    }
}

/// The slots with `rank` put in the one of `role`.
pub open spec fn with_rank(slots: Slots, role: Role, rank: Rank) -> Slots {
    match role {
        Role::Tank => (Some(rank), slots.1, slots.2),
        Role::Damage => (slots.0, Some(rank), slots.2),
        Role::Support => (slots.0, slots.1, Some(rank)),
    }
}

/// The ranks of a sequence of role wrappers, in document order: the first failure
/// wins, and a later wrapper of a role replaces an earlier one.
pub open spec fn ranks_of(entries: Seq<(Option<Option<Seq<char>>>, Option<Option<Seq<char>>>)>) -> Result<
    Slots,
    ProfileError,
>
    decreases entries.len(),
{
    if entries.len() == 0 {
        Ok((None, None, None))
    } else {
        match ranks_of(entries.drop_last()) {
            Err(e) => Err(e),
            Ok(slots) => match role_entry_of(entries.last().0, entries.last().1) {
                Err(e) => Err(e),
                Ok((role, rank)) => Ok(with_rank(slots, role, rank)),
            },
        }
    }
}

/// The pairs of role icon and tier icon, one for each role wrapper.
pub open spec fn zip_found(roles: Seq<Option<Option<Seq<char>>>>, tiers: Seq<Option<Option<Seq<char>>>>) -> Seq<
    (Option<Option<Seq<char>>>, Option<Option<Seq<char>>>),
> {
    Seq::new(roles.len(), |i: int| (roles[i], tiers[i]))
}

// ---------------------------------------------------------------------------
// What each field of the page parsed from `html` decodes to.

pub open spec fn portrait_in(html: Seq<char>) -> Result<Option<Seq<char>>, ProfileError> {
    if selector_parses(PORTRAIT_SELECTOR@) {
        portrait_of(first_attr_of(html, PORTRAIT_SELECTOR@, SOURCE_ATTRIBUTE@))
    } else {
        Err(ProfileError::StructuralAbsence)
    }
}

pub open spec fn title_in(html: Seq<char>) -> Result<Option<Seq<char>>, ProfileError> {
    if selector_parses(TITLE_SELECTOR@) {
        Ok(title_of(first_inner_html_of(html, TITLE_SELECTOR@)))
    } else {
        Err(ProfileError::StructuralAbsence)
    }
}

pub open spec fn endorsement_in(html: Seq<char>) -> Result<u8, ProfileError> {
    if selector_parses(ENDORSEMENT_SELECTOR@) {
        endorsement_from(first_attr_of(html, ENDORSEMENT_SELECTOR@, SOURCE_ATTRIBUTE@))
    } else {
        Err(ProfileError::StructuralAbsence)
    }
}

/// The role wrapper locator of a view.
pub open spec fn wrapper_selector(region: Platform) -> Seq<char> {
    match region {
        Platform::Pc => PC_ROLE_WRAPPER_SELECTOR@,
        Platform::Console => CONSOLE_ROLE_WRAPPER_SELECTOR@,
    }
}

/// The role icon locator of a view.
pub open spec fn role_icon_selector(region: Platform) -> Seq<char> {
    match region {
        Platform::Pc => ROLE_ICON_SELECTOR@,
        Platform::Console => CONSOLE_ROLE_ICON_SELECTOR@,
    }
}

/// The ranks of one view of the page: each role icon's address is its first attribute.
pub open spec fn roles_in(html: Seq<char>, region: Platform) -> Result<Slots, ProfileError> {
    let w = wrapper_selector(region);
    let r = role_icon_selector(region);
    if selector_parses(w) && selector_parses(r) && selector_parses(TIER_ICON_SELECTOR@) {
        ranks_of(
            zip_found(
                nested_first_value_of(html, w, r),
                nested_attr_of(html, w, TIER_ICON_SELECTOR@, SOURCE_ATTRIBUTE@),
            ),
        )
    } else {
        Err(ProfileError::StructuralAbsence)
    }
}

/// Whether the locators of role wrappers, their role icons and their tier icons all
/// parse as selectors.
pub open spec fn all_role_selectors_parse() -> bool {
    selector_parses(ROLE_WRAPPER_SELECTOR@) && selector_parses(ROLE_ICON_SELECTOR@) && selector_parses(
        TIER_ICON_SELECTOR@,
    )
}

/// The ranks of every role wrapper of the page.
pub open spec fn all_roles_in(html: Seq<char>) -> Result<Slots, ProfileError> {
    let w = ROLE_WRAPPER_SELECTOR@;
    if selector_parses(w) && selector_parses(ROLE_ICON_SELECTOR@) && selector_parses(
        TIER_ICON_SELECTOR@,
    ) {
        ranks_of(
            zip_found(
                nested_attr_of(html, w, ROLE_ICON_SELECTOR@, SOURCE_ATTRIBUTE@),
                nested_attr_of(html, w, TIER_ICON_SELECTOR@, SOURCE_ATTRIBUTE@),
            ),
        )
    } else {
        Err(ProfileError::StructuralAbsence)
    }
}

/// Everything the page parsed from `html` says of its player, or the first failure.
pub open spec fn profile_in(html: Seq<char>) -> Result<ProfileFacts, ProfileError> {
    if !selector_parses(PRIVATE_SELECTOR@) {
        Err(ProfileError::StructuralAbsence)
    } else {
        match portrait_in(html) {
            Err(e) => Err(e),
            Ok(portrait) => match title_in(html) {
                Err(e) => Err(e),
                Ok(title) => match endorsement_in(html) {
                    Err(e) => Err(e),
                    Ok(endorsement) => match all_roles_in(html) {
                        Err(e) => Err(e),
                        Ok(ranks) => Ok(
                            ProfileFacts {
                                private: match_count(html, PRIVATE_SELECTOR@) > 0,
                                portrait,
                                title,
                                endorsement,
                                ranks,
                            },
                        ),
                    },
                },
            },
        }
    }
}

/// The text of an optional string, or the error.
pub open spec fn text_result(r: Result<Option<String>, ProfileError>) -> Result<Option<Seq<char>>, ProfileError> {
    match r {
        Ok(o) => Ok(text_of(o)),
        Err(e) => Err(e),
    }
}


/// The text of a string, or the error.
pub open spec fn string_result(r: Result<String, ProfileError>) -> Result<Seq<char>, ProfileError> {
    match r {
        Ok(s) => Ok(s@),
        Err(e) => Err(e),
    }
}

proof fn lemma_ranks_error_sticks(entries: Seq<(Option<Option<Seq<char>>>, Option<Option<Seq<char>>>)>, k: int)
    requires
        0 <= k <= entries.len(),
        ranks_of(entries.take(k)) is Err,
    ensures
        ranks_of(entries) == ranks_of(entries.take(k)),
    decreases entries.len() - k,
{
    if k == entries.len() {
        assert(entries.take(k) == entries);
    } else {
        assert(entries.take(k + 1).drop_last() == entries.take(k));
        lemma_ranks_error_sticks(entries, k + 1);
    }
}

// ---------------------------------------------------------------------------
// Decoding what was found.

/// Reads the file name, the last path segment, of an icon's address.
pub fn icon_file_name(src: &str) -> (r: Result<String, ProfileError>)
    ensures
        string_result(r) == file_name_of(src@),
{
    match parse_file_name(src) {
        Ok(Some(f)) => Ok(f),
        Ok(None) => Err(ProfileError::StructuralAbsence),
        Err(_) => Err(ProfileError::MalformedReference),
    }
}

/// Decodes the portrait from its node and that node's image address: an empty
/// address means no portrait, a missing node is an error.
pub fn decode_portrait(found: Option<Option<String>>) -> (r: Result<Option<String>, ProfileError>)
    ensures
        text_result(r) == portrait_of(found_of(found)),
{
    match found {
        None => Err(ProfileError::StructuralAbsence),
        Some(None) => Ok(None),
        Some(Some(s)) => if s.as_str().is_empty() {
            Ok(None)
        } else {
            Ok(Some(s))
        },
    }
}

/// Decodes the title from the markup inside its node: no node, an empty title and the
/// placeholder for no title all mean no title.
pub fn decode_title(found: Option<String>) -> (r: Option<String>)
    ensures
        text_of(r) == title_of(text_of(found)),
{
    match found {
        Some(t) => if t.as_str().is_empty() || same_text(t.as_str(), NO_TITLE) {
            None
        } else {
            Some(t)
        },
        None => None,
    }
}

/// Looks up the endorsement level of an endorsement icon's file name.
pub fn endorsement_from_file_name(file: &str) -> (r: Result<u8, ProfileError>)
    ensures
        r == endorsement_from_file(file@),
        r matches Ok(n) ==> 1 <= n <= 5,
{
    match endorsement_level(file) {
        Some(n) => Ok(n),
        None => Err(ProfileError::ValueDecodeFailure),
    }
}

/// Decodes the endorsement level from the icon's node and its image address.
pub fn decode_endorsement(found: Option<Option<String>>) -> (r: Result<u8, ProfileError>)
    ensures
        r == endorsement_from(found_of(found)),
        r matches Ok(n) ==> 1 <= n <= 5,
{
    match found {
        Some(Some(src)) => match icon_file_name(src.as_str()) {
            Ok(f) => endorsement_from_file_name(f.as_str()),
            Err(e) => Err(e),
        },
        _ => Err(ProfileError::StructuralAbsence),
    }
}

/// Decodes a rank from a tier icon's file name, such as `GoldTier-3-1a2b.png`.
pub fn rank_from_file_name(file: &str) -> (r: Result<Rank, ProfileError>)
    ensures
        r == rank_from_file(file@),
{
    let (name, rest) = split_dash(file);
    let tier = match tier_for_name(name) {
        Some(t) => t,
        None => return Err(ProfileError::ValueDecodeFailure),
    };
    let rest = match rest {
        Some(t) => t,
        None => return Err(ProfileError::ValueDecodeFailure),
    };
    let (number, _) = split_dash(rest);
    let n = match parse_u8(number) {
        Some(n) => n,
        None => return Err(ProfileError::ValueDecodeFailure),
    };
    match TierNumber::from_u8(n) {
        Some(tier_number) => Ok(Rank { tier, tier_number }),
        None => Err(ProfileError::ValueDecodeFailure),
    }
}

/// Decodes a role wrapper's role and rank from its role icon and its tier icon.
pub fn decode_role_entry(role_icon: &Option<Option<String>>, tier_icon: &Option<Option<String>>) -> (r: Result<
    (Role, Rank),
    ProfileError,
>)
    ensures
        r == role_entry_of(found_of(*role_icon), found_of(*tier_icon)),
{
    let role_src = match role_icon {
        Some(Some(s)) => s,
        _ => return Err(ProfileError::StructuralAbsence),
    };
    let role_file = match parse_file_name(role_src.as_str()) {
        Ok(f) => f,
        Err(_) => return Err(ProfileError::MalformedReference),
    };
    let tier_src = match tier_icon {
        Some(Some(s)) => s,
        _ => return Err(ProfileError::StructuralAbsence),
    };
    let tier_file = match parse_file_name(tier_src.as_str()) {
        Ok(f) => f,
        Err(_) => return Err(ProfileError::MalformedReference),
    };
    let role_file = match role_file {
        Some(f) => f,
        None => return Err(ProfileError::StructuralAbsence),
    };
    let role = match role_for_icon(role_file.as_str()) {
        Some(role) => role,
        None => return Err(ProfileError::ValueDecodeFailure),
    };
    let tier_file = match tier_file {
        Some(f) => f,
        None => return Err(ProfileError::StructuralAbsence),
    };
    match rank_from_file_name(tier_file.as_str()) {
        Ok(rank) => Ok((role, rank)),
        Err(e) => Err(e),
    }
}

/// Decodes the ranks of a sequence of role wrappers, given each one's role icon and
/// tier icon in document order. A later wrapper of a role replaces an earlier one;
/// the first wrapper that fails to decode fails the whole.
pub fn ranks_from_found(roles: &Vec<Option<Option<String>>>, tiers: &Vec<Option<Option<String>>>) -> (r: Result<
    Slots,
    ProfileError,
>)
    requires
        roles@.len() == tiers@.len(),
    ensures
        r == ranks_of(zip_found(found_all(roles@), found_all(tiers@))),
{
    let ghost entries = zip_found(found_all(roles@), found_all(tiers@));
    let mut slots: Slots = (None, None, None);
    let mut i: usize = 0;
    assert(entries.take(0).len() == 0);
    while i < roles.len()
        invariant
            i <= roles@.len(),
            roles@.len() == tiers@.len(),
            entries == zip_found(found_all(roles@), found_all(tiers@)),
            ranks_of(entries.take(i as int)) == Ok::<Slots, ProfileError>(slots),
        decreases roles@.len() - i,
    {
        let entry = decode_role_entry(&roles[i], &tiers[i]);
        assert(entries.take(i + 1).drop_last() == entries.take(i as int));
        assert(entries.take(i + 1).last() == (found_of(roles@[i as int]), found_of(tiers@[i as int])));
        match entry {
            Err(e) => {
                proof {
                    lemma_ranks_error_sticks(entries, i + 1);
                }
                return Err(e);
            },
            Ok((role, rank)) => {
                match role {
                    Role::Tank => slots.0 = Some(rank),
                    Role::Damage => slots.1 = Some(rank),
                    Role::Support => slots.2 = Some(rank),
                }
            },
        }
        i = i + 1;
    }
    assert(entries.take(i as int) == entries);
    Ok(slots)
}


// ---------------------------------------------------------------------------
// Extracting fields from a page.

/// The portrait's address: `None` where the portrait node's image address is empty or
/// missing. A page without a portrait node is an error.
pub fn extract_portrait(document: &Page) -> (r: Result<Option<String>, ProfileError>)
    ensures
        text_result(r) == portrait_in(document.source()),
{
    let css = match Css::parse(PORTRAIT_SELECTOR) {
        Some(c) => c,
        None => return Err(ProfileError::StructuralAbsence),
    };
    decode_portrait(select_first_attr(document, &css, SOURCE_ATTRIBUTE))
}

/// The title: `None` where the page has no title node, or its title is empty or the
/// placeholder for no title.
pub fn extract_title(document: &Page) -> (r: Result<Option<String>, ProfileError>)
    ensures
        text_result(r) == title_in(document.source()),
{
    let css = match Css::parse(TITLE_SELECTOR) {
        Some(c) => c,
        None => return Err(ProfileError::StructuralAbsence),
    };
    Ok(decode_title(select_first_inner_html(document, &css)))
}

/// The endorsement level, from the file name of the endorsement icon.
pub fn extract_endorsement(document: &Page) -> (r: Result<u8, ProfileError>)
    ensures
        r == endorsement_in(document.source()),
        r matches Ok(n) ==> 1 <= n <= 5,
{
    let css = match Css::parse(ENDORSEMENT_SELECTOR) {
        Some(c) => c,
        None => return Err(ProfileError::StructuralAbsence),
    };
    decode_endorsement(select_first_attr(document, &css, SOURCE_ATTRIBUTE))
}

/// The tank, damage and support ranks shown in one view of the page. A page with no
/// role wrapper in that view is unranked.
pub fn extract_roles(document: &Page, region: Platform) -> (r: Result<Slots, ProfileError>)
    ensures
        r == roles_in(document.source(), region),
        selector_parses(wrapper_selector(region)) && selector_parses(role_icon_selector(region))
            && selector_parses(TIER_ICON_SELECTOR@) && match_count(document.source(), wrapper_selector(region))
            == 0 ==> r == Ok::<Slots, ProfileError>((None, None, None)),
{
    let (wrapper_text, role_text) = match region {
        Platform::Pc => (PC_ROLE_WRAPPER_SELECTOR, ROLE_ICON_SELECTOR),
        Platform::Console => (CONSOLE_ROLE_WRAPPER_SELECTOR, CONSOLE_ROLE_ICON_SELECTOR),
    };
    let wrapper = match Css::parse(wrapper_text) {
        Some(c) => c,
        None => return Err(ProfileError::StructuralAbsence),
    };
    let role = match Css::parse(role_text) {
        Some(c) => c,
        None => return Err(ProfileError::StructuralAbsence),
    };
    let tier = match Css::parse(TIER_ICON_SELECTOR) {
        Some(c) => c,
        None => return Err(ProfileError::StructuralAbsence),
    };
    let roles = select_nested_first_value(document, &wrapper, &role);
    let tiers = select_nested_attr(document, &wrapper, &tier, SOURCE_ATTRIBUTE);
    let r = ranks_from_found(&roles, &tiers);
    assert(roles@.len() == 0 ==> zip_found(found_all(roles@), found_all(tiers@)).len() == 0);
    r
}

/// The tank, damage and support ranks of every role wrapper of the page.
fn extract_all_roles(document: &Page) -> (r: Result<Slots, ProfileError>)
    ensures
        r == all_roles_in(document.source()),
        all_role_selectors_parse() && match_count(document.source(), ROLE_WRAPPER_SELECTOR@) == 0 ==> r
            == Ok::<Slots, ProfileError>((None, None, None)),
{
    let wrapper = match Css::parse(ROLE_WRAPPER_SELECTOR) {
        Some(c) => c,
        None => return Err(ProfileError::StructuralAbsence),
    };
    let role = match Css::parse(ROLE_ICON_SELECTOR) {
        Some(c) => c,
        None => return Err(ProfileError::StructuralAbsence),
    };
    let tier = match Css::parse(TIER_ICON_SELECTOR) {
        Some(c) => c,
        None => return Err(ProfileError::StructuralAbsence),
    };
    let roles = select_nested_attr(document, &wrapper, &role, SOURCE_ATTRIBUTE);
    let tiers = select_nested_attr(document, &wrapper, &tier, SOURCE_ATTRIBUTE);
    let r = ranks_from_found(&roles, &tiers);
    assert(roles@.len() == 0 ==> zip_found(found_all(roles@), found_all(tiers@)).len() == 0);
    r
}

/// Whether the page carries the marker of a private profile.
pub fn extract_private(document: &Page) -> (r: Result<bool, ProfileError>)
    ensures
        selector_parses(PRIVATE_SELECTOR@) ==> r == Ok::<bool, ProfileError>(
            match_count(document.source(), PRIVATE_SELECTOR@) > 0,
        ),
        !selector_parses(PRIVATE_SELECTOR@) ==> r == Err::<bool, ProfileError>(ProfileError::StructuralAbsence),
{
    let css = match Css::parse(PRIVATE_SELECTOR) {
        Some(c) => c,
        None => return Err(ProfileError::StructuralAbsence),
    };
    Ok(count_matches(document, &css) > 0)
}

/// The whole profile that a page shows for `battletag`, or the first failure.
pub fn extract_profile(document: &Page, battletag: Battletag) -> (r: Result<Player, ProfileError>)
    ensures
        r matches Ok(p) ==> profile_in(document.source()) == Ok::<ProfileFacts, ProfileError>(p.facts())
            && p.is_for(battletag.name@, battletag.discriminator),
        r matches Err(e) ==> profile_in(document.source()) == Err::<ProfileFacts, ProfileError>(e),
        r matches Ok(p) ==> 1 <= p.endorsement <= 5,
        all_role_selectors_parse() && match_count(document.source(), ROLE_WRAPPER_SELECTOR@) == 0 ==> (
        r matches Ok(p) ==> p.tank is None && p.damage is None && p.support is None),
{
    let private = match extract_private(document) {
        Ok(b) => b,
        Err(e) => return Err(e),
    };
    let profile_picture = match extract_portrait(document) {
        Ok(p) => p,
        Err(e) => return Err(e),
    };
    let title = match extract_title(document) {
        Ok(t) => t,
        Err(e) => return Err(e),
    };
    let endorsement = match extract_endorsement(document) {
        Ok(n) => n,
        Err(e) => return Err(e),
    };
    let (tank, damage, support) = match extract_all_roles(document) {
        Ok(slots) => slots,
        Err(e) => return Err(e),
    };
    let name = battletag.display_name();
    let player = Player {
        name,
        battletag,
        private,
        profile_picture,
        title,
        endorsement,
        tank,
        damage,
        support,
    };
    Ok(player)
}

} // verus!

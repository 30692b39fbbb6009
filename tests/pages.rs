use profile_scraper::extract::{
    extract_endorsement, extract_portrait, extract_private, extract_profile, extract_roles, extract_title,
};
use profile_scraper::model::{Battletag, Platform, ProfileError, Rank, Tier, TierNumber};
use profile_scraper::page::Page;

const ICONS: &str = "https://static.playoverwatch.com/img/pages/career/icons";

fn wrapper(view: &str, role_file: &str, tier_file: &str) -> String {
    format!(
        "<div class=\"{view}\"><div class=\"Profile-playerSummary--roleWrapper\">\
         <div class=\"Profile-playerSummary--role\"><img src=\"{ICONS}/role/{role_file}\"></div>\
         <img class=\"Profile-playerSummary--rank\" src=\"{ICONS}/rank/{tier_file}\"></div></div>"
    )
}

fn page(private: bool, portrait: &str, title: Option<&str>, endorsement_file: &str, wrappers: &str) -> String {
    let private = if private { "<div class=\"Profile-player--private\">Private</div>" } else { "" };
    let title = match title {
        Some(t) => format!("<h2 class=\"Profile-player--title\">{t}</h2>"),
        None => String::new(),
    };
    format!(
        "<!DOCTYPE html><html><head><title>Career</title></head><body>{private}\
         <img class=\"Profile-player--portrait\" src=\"{portrait}\">{title}\
         <img class=\"Profile-playerSummary--endorsement\" src=\"{ICONS}/endorsement/{endorsement_file}\">\
         {wrappers}</body></html>"
    )
}

#[test]
fn unranked_profile_with_endorsement_three() {
    let html = page(false, "https://x.example/portrait.png", Some("Hero"), "3-8ccb5f0aef.svg", "");
    let doc = Page::parse(&html);
    let p = extract_profile(&doc, Battletag::new("Player".to_string(), 1234)).unwrap();
    assert_eq!(p.endorsement, 3);
    assert_eq!(p.tank, None);
    assert_eq!(p.damage, None);
    assert_eq!(p.support, None);
    assert!(!p.private);
    assert_eq!(p.profile_picture, Some("https://x.example/portrait.png".to_string()));
    assert_eq!(p.title, Some("Hero".to_string()));
    assert_eq!(p.name, "Player#1234");
    assert_eq!(p.battletag.name, "Player");
    assert_eq!(p.battletag.discriminator, 1234);
}

#[test]
fn ranked_private_profile() {
    let wrappers = format!(
        "{}{}",
        wrapper("mouseKeyboard-view", "offense-ab1756f419.svg", "PlatinumTier-2-9f.png"),
        wrapper("mouseKeyboard-view", "support-0258e13d85.svg", "BronzeTier-5-11.png"),
    );
    let html = page(true, "", Some("No Title"), "5-8697f241ca.svg", &wrappers);
    let p = extract_profile(&Page::parse(&html), Battletag::new("Ana".to_string(), 7)).unwrap();
    assert!(p.private);
    assert_eq!(p.profile_picture, None);
    assert_eq!(p.title, None);
    assert_eq!(p.endorsement, 5);
    assert_eq!(p.tank, None);
    assert_eq!(p.damage, Some(Rank { tier: Tier::Platinum, tier_number: TierNumber::Two }));
    assert_eq!(p.support, Some(Rank { tier: Tier::Bronze, tier_number: TierNumber::Five }));
}

#[test]
fn second_tank_wrapper_on_page_wins() {
    let wrappers = format!(
        "{}{}",
        wrapper("mouseKeyboard-view", "tank-f64702b684.svg", "GoldTier-3-ab.png"),
        wrapper("mouseKeyboard-view", "tank-f64702b684.svg", "MasterTier-1-cd.png"),
    );
    let html = page(false, "", None, "1-9de6d43ec5.svg", &wrappers);
    let doc = Page::parse(&html);
    let p = extract_profile(&doc, Battletag::new("Rein".to_string(), 2)).unwrap();
    assert_eq!(p.tank, Some(Rank { tier: Tier::Master, tier_number: TierNumber::One }));
    assert_eq!(
        extract_roles(&doc, Platform::Pc),
        Ok((Some(Rank { tier: Tier::Master, tier_number: TierNumber::One }), None, None))
    );
}

#[test]
fn roles_by_view() {
    let console = "<div class=\"controller-view\"><div class=\"Profile-playerSummary--roleWrapper\">\
        <div class=\"Profile-playerSummary--role\"><use href=\"https://s.example/r/support-0258e13d85.svg\"></use></div>\
        <img class=\"Profile-playerSummary--rank\" src=\"https://s.example/t/DiamondTier-4-zz.png\"></div></div>";
    let wrappers = format!("{}{}", wrapper("mouseKeyboard-view", "tank-f64702b684.svg", "GoldTier-3-ab.png"), console);
    let doc = Page::parse(&page(false, "", None, "2-8b9f0faa25.svg", &wrappers));
    assert_eq!(
        extract_roles(&doc, Platform::Pc),
        Ok((Some(Rank { tier: Tier::Gold, tier_number: TierNumber::Three }), None, None))
    );
    assert_eq!(
        extract_roles(&doc, Platform::Console),
        Ok((None, None, Some(Rank { tier: Tier::Diamond, tier_number: TierNumber::Four })))
    );
}

#[test]
fn no_wrappers_in_view_is_unranked() {
    let doc = Page::parse(&page(false, "", None, "2-8b9f0faa25.svg", ""));
    assert_eq!(extract_roles(&doc, Platform::Pc), Ok((None, None, None)));
    assert_eq!(extract_roles(&doc, Platform::Console), Ok((None, None, None)));
}

#[test]
fn field_extractors_read_the_page() {
    let doc = Page::parse(&page(true, "https://x.example/a.png", Some("Peacekeeper"), "4-48261e1164.svg", ""));
    assert_eq!(extract_portrait(&doc), Ok(Some("https://x.example/a.png".to_string())));
    assert_eq!(extract_title(&doc), Ok(Some("Peacekeeper".to_string())));
    assert_eq!(extract_endorsement(&doc), Ok(4));
    assert_eq!(extract_private(&doc), Ok(true));
}

#[test]
fn missing_title_node_is_none() {
    let doc = Page::parse(&page(false, "https://x.example/a.png", None, "4-48261e1164.svg", ""));
    assert_eq!(extract_title(&doc), Ok(None));
    assert_eq!(extract_private(&doc), Ok(false));
}

#[test]
fn missing_portrait_node_is_structural() {
    let doc = Page::parse("<html><body><p>maintenance</p></body></html>");
    assert_eq!(extract_portrait(&doc), Err(ProfileError::StructuralAbsence));
    assert_eq!(extract_endorsement(&doc), Err(ProfileError::StructuralAbsence));
    assert_eq!(
        extract_profile(&doc, Battletag::new("A".to_string(), 1)).unwrap_err(),
        ProfileError::StructuralAbsence
    );
}

#[test]
fn unknown_endorsement_icon_fails_profile() {
    let doc = Page::parse(&page(false, "", None, "6-0000000000.svg", ""));
    assert_eq!(
        extract_profile(&doc, Battletag::new("A".to_string(), 1)).unwrap_err(),
        ProfileError::ValueDecodeFailure
    );
}

#[test]
fn unknown_role_icon_fails_profile() {
    let wrappers = wrapper("mouseKeyboard-view", "healer-000.svg", "GoldTier-3-ab.png");
    let doc = Page::parse(&page(false, "", None, "1-9de6d43ec5.svg", &wrappers));
    assert_eq!(
        extract_profile(&doc, Battletag::new("A".to_string(), 1)).unwrap_err(),
        ProfileError::ValueDecodeFailure
    );
}

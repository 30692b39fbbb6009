use profile_scraper::admission::{AdmissionController, ADMISSION_CAPACITY};
use profile_scraper::lookup::{Action, Event, Lookup, Phase, CACHE_TTL_SECONDS};
use profile_scraper::model::{Battletag, Player, ProfileError};

fn cached_player() -> Player {
    Player {
        name: "Player#1234".to_string(),
        battletag: Battletag::new("Player".to_string(), 1234),
        private: false,
        profile_picture: None,
        title: Some("Hero".to_string()),
        endorsement: 2,
        tank: None,
        damage: None,
        support: None,
    }
}

fn to_fetch(tag: Battletag) -> Lookup {
    let (mut lookup, first) = Lookup::start(tag);
    assert!(matches!(first, Action::ReadCache(_)));
    assert!(matches!(lookup.on_event(Event::CacheMiss), Action::AwaitPermit));
    assert!(matches!(lookup.on_event(Event::PermitGranted), Action::Fetch(_)));
    lookup
}

#[test]
fn lookup_reads_cache_under_canonical_key() {
    let (lookup, first) = Lookup::start(Battletag::new("Player".to_string(), 1234));
    match first {
        Action::ReadCache(key) => assert_eq!(key, "Player-1234"),
        other => panic!("unexpected {:?}", other),
    }
    assert_eq!(lookup.phase(), Phase::CacheCheck);
}

#[test]
fn cache_hit_never_fetches() {
    let (mut lookup, _) = Lookup::start(Battletag::new("Player".to_string(), 1234));
    match lookup.on_event(Event::CacheHit(cached_player())) {
        Action::Respond(Ok(p)) => {
            assert_eq!(p.endorsement, 2);
            assert_eq!(p.title, Some("Hero".to_string()));
        }
        other => panic!("unexpected {:?}", other),
    }
    assert_eq!(lookup.phase(), Phase::Finished);
    let mut fetches = 0;
    for e in [Event::CacheMiss, Event::PermitGranted, Event::Status(200), Event::Body(String::new())] {
        if let Action::Fetch(_) = lookup.on_event(e) {
            fetches += 1;
        }
    }
    assert_eq!(fetches, 0);
}

#[test]
fn corrupt_cache_entry_is_an_error() {
    let (mut lookup, _) = Lookup::start(Battletag::new("Player".to_string(), 1234));
    assert!(matches!(lookup.on_event(Event::CacheCorrupt), Action::Respond(Err(ProfileError::CorruptCacheEntry))));
}

#[test]
fn unreachable_cache_counts_as_miss() {
    let (mut lookup, _) = Lookup::start(Battletag::new("Player".to_string(), 1234));
    assert!(matches!(lookup.on_event(Event::CacheUnavailable), Action::AwaitPermit));
    match lookup.on_event(Event::PermitGranted) {
        Action::Fetch(url) => assert_eq!(url, "https://overwatch.blizzard.com/en-us/career/Player-1234"),
        other => panic!("unexpected {:?}", other),
    }
    assert_eq!(lookup.phase(), Phase::OriginFetch);
}

#[test]
fn not_found_yields_upstream_not_found_without_store() {
    let mut lookup = to_fetch(Battletag::new("Player".to_string(), 1234));
    assert!(matches!(lookup.on_event(Event::Status(404)), Action::Respond(Err(ProfileError::UpstreamNotFound))));
    assert!(matches!(lookup.on_event(Event::Body("<html></html>".to_string())), Action::Nothing));
}

#[test]
fn other_failures_are_upstream_failures() {
    let mut lookup = to_fetch(Battletag::new("P".to_string(), 1));
    assert!(matches!(lookup.on_event(Event::Status(503)), Action::Respond(Err(ProfileError::UpstreamFailure))));
    let mut lookup = to_fetch(Battletag::new("P".to_string(), 1));
    assert!(matches!(lookup.on_event(Event::Status(302)), Action::Respond(Err(ProfileError::UpstreamFailure))));
    let mut lookup = to_fetch(Battletag::new("P".to_string(), 1));
    assert!(matches!(lookup.on_event(Event::TransportFailed), Action::Respond(Err(ProfileError::UpstreamFailure))));
    let mut lookup = to_fetch(Battletag::new("P".to_string(), 1));
    assert!(matches!(lookup.on_event(Event::Status(200)), Action::ReadBody));
    assert!(matches!(lookup.on_event(Event::BodyFailed), Action::Respond(Err(ProfileError::UpstreamFailure))));
}

#[test]
fn success_stores_extracted_profile() {
    let mut lookup = to_fetch(Battletag::new("Player".to_string(), 1234));
    assert!(matches!(lookup.on_event(Event::Status(200)), Action::ReadBody));
    let body = "<html><body><img class=\"Profile-player--portrait\" src=\"\">\
        <img class=\"Profile-playerSummary--endorsement\" src=\"https://s.example/e/3-8ccb5f0aef.svg\"></body></html>";
    match lookup.on_event(Event::Body(body.to_string())) {
        Action::Store { key, profile, ttl_seconds } => {
            assert_eq!(key, "Player-1234");
            assert_eq!(ttl_seconds, 600);
            assert_eq!(ttl_seconds, CACHE_TTL_SECONDS);
            assert_eq!(profile.endorsement, 3);
            assert_eq!(profile.tank, None);
            assert_eq!(profile.damage, None);
            assert_eq!(profile.support, None);
            assert_eq!(profile.name, "Player#1234");
        }
        other => panic!("unexpected {:?}", other),
    }
}

#[test]
fn extraction_failure_is_responded() {
    let mut lookup = to_fetch(Battletag::new("Player".to_string(), 1234));
    lookup.on_event(Event::Status(200));
    assert!(matches!(
        lookup.on_event(Event::Body("<html></html>".to_string())),
        Action::Respond(Err(ProfileError::StructuralAbsence))
    ));
}

#[test]
fn unexpected_event_does_nothing() {
    let (mut lookup, _) = Lookup::start(Battletag::new("P".to_string(), 1));
    assert!(matches!(lookup.on_event(Event::PermitGranted), Action::Nothing));
    assert_eq!(lookup.phase(), Phase::CacheCheck);
}

#[test]
fn admission_admits_at_most_capacity() {
    let mut controller = AdmissionController::new(3);
    let granted: Vec<bool> = (0..5).map(|_| controller.try_acquire()).collect();
    assert_eq!(granted, vec![true, true, true, false, false]);
    assert_eq!(controller.in_flight(), 3);
    controller.release();
    assert_eq!(controller.in_flight(), 2);
    assert!(controller.try_acquire());
    assert!(!controller.try_acquire());
}

#[test]
fn admission_release_when_none_held() {
    let mut controller = AdmissionController::new(ADMISSION_CAPACITY);
    assert_eq!(controller.capacity(), 20);
    controller.release();
    assert_eq!(controller.in_flight(), 0);
    for _ in 0..20 {
        assert!(controller.try_acquire());
    }
    assert!(!controller.try_acquire());
}

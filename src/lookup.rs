use vstd::prelude::*;

use crate::extract::{extract_profile, profile_in};
use crate::model::{Battletag, Player, ProfileError, ProfileFacts, display_text, key_text, profile_url_text};
use crate::page::Page;

verus! {

/// How long a cached profile lives, in seconds.
pub const CACHE_TTL_SECONDS: u64 = 600;

/// The HTTP status of a page that does not exist.
pub const STATUS_NOT_FOUND: u16 = 404;

/// Where a lookup stands.
#[derive(PartialEq, Eq, Structural, Clone, Copy, Debug)]
pub enum Phase {
    /// The cache is being read.
    CacheCheck,
    /// The lookup waits for an admission permit.
    AdmissionWait,
    /// The origin is being asked, while the permit is held.
    OriginFetch,
    /// The body of a successful response is being read.
    BodyRead,
    /// The lookup has its outcome.
    Finished,
}

/// What the surroundings report to a lookup.
#[derive(Debug)]
pub enum Event {
    /// The cache held an entry for the key, and it read back as this profile.
    CacheHit(Player),
    /// The cache held an entry for the key that does not read back as a profile.
    CacheCorrupt,
    /// The cache held no entry for the key.
    CacheMiss,
    /// The cache could not be reached.
    CacheUnavailable,
    /// An admission permit was granted.
    PermitGranted,
    /// The origin answered with this status; the permit has been given back.
    Status(u16),
    /// The exchange with the origin failed; the permit has been given back.
    TransportFailed,
    /// The body of the origin's answer.
    Body(String),
    /// The body of the origin's answer could not be read.
    BodyFailed,
}

/// What a lookup asks its surroundings to do next.
#[derive(Debug)]
pub enum Action {
    /// Read the cache entry under this key.
    ReadCache(String),
    /// Wait for an admission permit.
    AwaitPermit,
    /// Fetch this address, holding the permit until the exchange completes.
    Fetch(String),
    /// Read the body of the answer.
    ReadBody,
    /// Write this profile to the cache under `key` for `ttl_seconds`, ignoring any
    /// failure to do so, then answer with it.
    Store { key: String, profile: Player, ttl_seconds: u64 },
    /// Answer with this outcome.
    Respond(Result<Player, ProfileError>),
    /// Nothing: the event was not one this lookup waits for.
    Nothing,
}

/// A profile as seen by contracts.
pub struct PlayerView {
    pub name: Seq<char>,
    pub tag_name: Seq<char>,
    pub discriminator: u32,
    pub facts: ProfileFacts,
}

pub open spec fn player_view(p: Player) -> PlayerView {
    PlayerView {
        name: p.name@,
        tag_name: p.battletag.name@,
        discriminator: p.battletag.discriminator,
        facts: p.facts(),
    }
}

/// An event as seen by contracts.
pub enum EventView {
    CacheHit(PlayerView),
    CacheCorrupt,
    CacheMiss,
    CacheUnavailable,
    PermitGranted,
    Status(u16),
    TransportFailed,
    Body(Seq<char>),
    BodyFailed,
}

/// An action as seen by contracts.
pub enum ActionView {
    ReadCache(Seq<char>),
    AwaitPermit,
    Fetch(Seq<char>),
    ReadBody,
    Store(Seq<char>, PlayerView, u64),
    Respond(Result<PlayerView, ProfileError>),
    Nothing,
}

pub open spec fn event_view(e: Event) -> EventView {
    match e {
        Event::CacheHit(p) => EventView::CacheHit(player_view(p)),
        Event::CacheCorrupt => EventView::CacheCorrupt,
        Event::CacheMiss => EventView::CacheMiss,
        Event::CacheUnavailable => EventView::CacheUnavailable,
        Event::PermitGranted => EventView::PermitGranted,
        Event::Status(s) => EventView::Status(s),
        Event::TransportFailed => EventView::TransportFailed,
        Event::Body(b) => EventView::Body(b@),
        Event::BodyFailed => EventView::BodyFailed,
    }
}

pub open spec fn action_view(a: Action) -> ActionView {
    match a {
        Action::ReadCache(k) => ActionView::ReadCache(k@),
        Action::AwaitPermit => ActionView::AwaitPermit,
        Action::Fetch(u) => ActionView::Fetch(u@),
        Action::ReadBody => ActionView::ReadBody,
        Action::Store { key, profile, ttl_seconds } => ActionView::Store(key@, player_view(profile), ttl_seconds),
        Action::Respond(Ok(p)) => ActionView::Respond(Ok(player_view(p))),
        Action::Respond(Err(e)) => ActionView::Respond(Err(e)),
        Action::Nothing => ActionView::Nothing,
    }
}

/// Whether an HTTP status is a success.
pub open spec fn is_success(status: u16) -> bool {
    200 <= status <= 299
}

/// What a lookup for the player `name`, `discriminator` does on event `e` in phase
/// `phase`: its next phase, and what it asks for.
pub open spec fn transition(name: Seq<char>, discriminator: u32, phase: Phase, e: EventView) -> (Phase, ActionView) {
    match (phase, e) {
        (Phase::CacheCheck, EventView::CacheHit(p)) => (Phase::Finished, ActionView::Respond(Ok(p))),
        (Phase::CacheCheck, EventView::CacheCorrupt) => (
            Phase::Finished,
            ActionView::Respond(Err(ProfileError::CorruptCacheEntry)),
        ),
        (Phase::CacheCheck, EventView::CacheMiss) => (Phase::AdmissionWait, ActionView::AwaitPermit),
        (Phase::CacheCheck, EventView::CacheUnavailable) => (Phase::AdmissionWait, ActionView::AwaitPermit),
        (Phase::AdmissionWait, EventView::PermitGranted) => (
            Phase::OriginFetch,
            ActionView::Fetch(profile_url_text(name, discriminator)),
        ),
        (Phase::OriginFetch, EventView::TransportFailed) => (
            Phase::Finished,
            ActionView::Respond(Err(ProfileError::UpstreamFailure)),
        ),
        (Phase::OriginFetch, EventView::Status(s)) => if s == STATUS_NOT_FOUND {
            (Phase::Finished, ActionView::Respond(Err(ProfileError::UpstreamNotFound)))
        } else if !is_success(s) {
            (Phase::Finished, ActionView::Respond(Err(ProfileError::UpstreamFailure)))
        } else {
            (Phase::BodyRead, ActionView::ReadBody)
        },
        (Phase::BodyRead, EventView::BodyFailed) => (
            Phase::Finished,
            ActionView::Respond(Err(ProfileError::UpstreamFailure)),
        ),
        (Phase::BodyRead, EventView::Body(b)) => match profile_in(b) {
            Ok(facts) => (
                Phase::Finished,
                ActionView::Store(
                    key_text(name, discriminator),
                    PlayerView {
                        name: display_text(name, discriminator),
                        tag_name: name,
                        discriminator,
                        facts,
                    },
                    CACHE_TTL_SECONDS,
                ),
            ),
            Err(err) => (Phase::Finished, ActionView::Respond(Err(err))),
        },
        _ => (phase, ActionView::Nothing),
    }
}

/// One request for a profile, going through the cache, then admission, the origin
/// and extraction.
pub struct Lookup {
    battletag: Battletag,
    phase: Phase,
}

impl Lookup {
    /// The player looked up.
    pub closed spec fn tag_name(&self) -> Seq<char> {
        self.battletag.name@
    }

    /// The player's discriminator.
    pub closed spec fn discriminator(&self) -> u32 {
        self.battletag.discriminator
    }

    /// Where this lookup stands.
    pub closed spec fn phase_spec(&self) -> Phase {
        self.phase
    }

    /// Starts a lookup of `battletag`: its first step is to read the cache under the
    /// identifier's canonical key.
    pub fn start(battletag: Battletag) -> (r: (Lookup, Action))
        ensures
            r.0.tag_name() == battletag.name@,
            r.0.discriminator() == battletag.discriminator,
            r.0.phase_spec() == Phase::CacheCheck,
            action_view(r.1) == ActionView::ReadCache(key_text(battletag.name@, battletag.discriminator)),
    {
        let key = battletag.cache_key();
        (Lookup { battletag, phase: Phase::CacheCheck }, Action::ReadCache(key))
    }

    /// Where this lookup stands.
    pub fn phase(&self) -> (r: Phase)
        ensures
            r == self.phase_spec(),
    {
        self.phase
    }

    /// Takes in what the surroundings report, and says what to do next.
    pub fn on_event(&mut self, event: Event) -> (r: Action)
        ensures
            final(self).tag_name() == old(self).tag_name(),
            final(self).discriminator() == old(self).discriminator(),
            (final(self).phase_spec(), action_view(r)) == transition(
                old(self).tag_name(),
                old(self).discriminator(),
                old(self).phase_spec(),
                event_view(event),
            ),
    {
        match (self.phase, event) {
            (Phase::CacheCheck, Event::CacheHit(p)) => {
                self.phase = Phase::Finished;
                Action::Respond(Ok(p))
            },
            (Phase::CacheCheck, Event::CacheCorrupt) => {
                self.phase = Phase::Finished;
                Action::Respond(Err(ProfileError::CorruptCacheEntry))
            },
            (Phase::CacheCheck, Event::CacheMiss) | (Phase::CacheCheck, Event::CacheUnavailable) => {
                self.phase = Phase::AdmissionWait;
                Action::AwaitPermit
            },
            (Phase::AdmissionWait, Event::PermitGranted) => {
                self.phase = Phase::OriginFetch;
                Action::Fetch(self.battletag.profile_url())
            },
            (Phase::OriginFetch, Event::TransportFailed) => {
                self.phase = Phase::Finished;
                Action::Respond(Err(ProfileError::UpstreamFailure))
            },
            (Phase::OriginFetch, Event::Status(s)) => {
                if s == STATUS_NOT_FOUND {
                    self.phase = Phase::Finished;
                    Action::Respond(Err(ProfileError::UpstreamNotFound))
                } else if s < 200 || s > 299 {
                    self.phase = Phase::Finished;
                    Action::Respond(Err(ProfileError::UpstreamFailure))
                } else {
                    self.phase = Phase::BodyRead;
                    Action::ReadBody
                }
            },
            (Phase::BodyRead, Event::BodyFailed) => {
                self.phase = Phase::Finished;
                Action::Respond(Err(ProfileError::UpstreamFailure))
            },
            (Phase::BodyRead, Event::Body(body)) => {
                self.phase = Phase::Finished;
                let page = Page::parse(body.as_str());
                match extract_profile(&page, self.battletag.duplicate()) {
                    Ok(profile) => Action::Store {
                        key: self.battletag.cache_key(),
                        profile,
                        ttl_seconds: CACHE_TTL_SECONDS,
                    },
                    Err(e) => Action::Respond(Err(e)),
                }
            },
            _ => Action::Nothing,
        }
    }
}


/// The actions a lookup for the player `name`, `discriminator` takes on the events
/// `events`, in order, from phase `phase`.
pub open spec fn run(name: Seq<char>, discriminator: u32, phase: Phase, events: Seq<EventView>) -> Seq<
    ActionView,
>
    decreases events.len(),
{
    if events.len() == 0 {
        Seq::empty()
    } else {
        let (next, a) = transition(name, discriminator, phase, events[0]);
        seq![a] + run(name, discriminator, next, events.drop_first())
    }
}

proof fn lemma_finished_is_idle(name: Seq<char>, discriminator: u32, events: Seq<EventView>)
    ensures
        run(name, discriminator, Phase::Finished, events) == Seq::new(events.len(), |i: int| ActionView::Nothing),
    decreases events.len(),
{
    if events.len() > 0 {
        lemma_finished_is_idle(name, discriminator, events.drop_first());
        assert(run(name, discriminator, Phase::Finished, events) =~= Seq::new(
            events.len(),
            |i: int| ActionView::Nothing,
        ));
    }
}

/// A lookup whose cache read is a hit answers with the cached profile and, whatever
/// is reported to it afterwards, never fetches from the origin.
pub proof fn cache_hit_never_fetches(
    name: Seq<char>,
    discriminator: u32,
    cached: PlayerView,
    later: Seq<EventView>,
)
    ensures
        ({
            let actions = run(name, discriminator, Phase::CacheCheck, seq![EventView::CacheHit(cached)] + later);
            &&& actions[0] == ActionView::Respond(Ok(cached))
            &&& forall|i: int| 0 <= i < actions.len() ==> !(#[trigger] actions[i] is Fetch)
        }),
{
    let events = seq![EventView::CacheHit(cached)] + later;
    assert(events.drop_first() == later);
    lemma_finished_is_idle(name, discriminator, later);
}

/// A lookup whose origin answers that the page does not exist fails with
/// `UpstreamNotFound` and, whatever is reported to it afterwards, never writes to the
/// cache.
pub proof fn not_found_never_stores(name: Seq<char>, discriminator: u32, later: Seq<EventView>)
    ensures
        ({
            let actions = run(
                name,
                discriminator,
                Phase::OriginFetch,
                seq![EventView::Status(STATUS_NOT_FOUND)] + later,
            );
            &&& actions[0] == ActionView::Respond(Err(ProfileError::UpstreamNotFound))
            &&& forall|i: int| 0 <= i < actions.len() ==> !(#[trigger] actions[i] is Store)
        }),
{
    let events = seq![EventView::Status(STATUS_NOT_FOUND)] + later;
    assert(events.drop_first() == later);
    lemma_finished_is_idle(name, discriminator, later);
}

} // verus!

use vstd::prelude::*;

use crate::text::{decimal, decimal_text};

verus! {

/// The three competitive roles.
#[derive(PartialEq, Eq, Structural, Clone, Copy, Debug)]
pub enum Role {
    Tank,
    Damage,
    Support,
}

/// The seven competitive tiers, lowest first.
#[derive(PartialEq, Eq, Structural, Clone, Copy, Debug)]
pub enum Tier {
    Bronze,
    Silver,
    Gold,
    Platinum,
    Diamond,
    Master,
    Grandmaster,
}

/// The subdivision of a tier, from one to five.
#[derive(PartialEq, Eq, Structural, Clone, Copy, Debug)]
pub enum TierNumber {
    One,
    Two,
    Three,
    Four,
    Five,
}

impl TierNumber {
    /// The number this subdivision stands for.
    pub open spec fn spec_value(self) -> u8 {
        match self {
            TierNumber::One => 1,
            TierNumber::Two => 2,
            TierNumber::Three => 3,
            TierNumber::Four => 4,
            TierNumber::Five => 5,
        }
    }

    /// The subdivision that a number stands for, if it is one of one to five.
    pub open spec fn of(n: u8) -> Option<TierNumber> {
        if n == 1 {
            Some(TierNumber::One)
        } else if n == 2 {
            Some(TierNumber::Two)
        } else if n == 3 {
            Some(TierNumber::Three)
        } else if n == 4 {
            Some(TierNumber::Four)
        } else if n == 5 {
            Some(TierNumber::Five)
        } else {
            None
        }
    }

    pub fn value(self) -> (r: u8)
        ensures
            r == self.spec_value(),
            1 <= r <= 5,
    {
        match self {
            TierNumber::One => 1,
            TierNumber::Two => 2,
            TierNumber::Three => 3,
            TierNumber::Four => 4,
            TierNumber::Five => 5,
        }
    }

    pub fn from_u8(n: u8) -> (r: Option<TierNumber>)
        ensures
            r == Self::of(n),
            r is Some <==> 1 <= n <= 5,
            r matches Some(t) ==> t.spec_value() == n,
    {
        match n {
            1 => Some(TierNumber::One),
            2 => Some(TierNumber::Two),
            3 => Some(TierNumber::Three),
            4 => Some(TierNumber::Four),
            5 => Some(TierNumber::Five),
            _ => None,
        }
    }
}

/// A competitive rank: a tier and its subdivision, always decoded together.
#[derive(PartialEq, Eq, Structural, Clone, Copy, Debug)]
pub struct Rank {
    pub tier: Tier,
    pub tier_number: TierNumber,
}

/// The view of a profile page whose role ranks are read.
#[derive(PartialEq, Eq, Structural, Clone, Copy, Debug)]
pub enum Platform {
    Pc,
    Console,
}

/// Why a profile could not be produced.
#[derive(PartialEq, Eq, Structural, Clone, Copy, Debug)]
pub enum ProfileError {
    /// A node that every profile page holds is missing, or an icon's address has no
    /// path to read a file name from.
    StructuralAbsence,
    /// A node was found, but its marker is not one of the known values.
    ValueDecodeFailure,
    /// An attribute that should hold a URL does not parse as one.
    MalformedReference,
    /// The origin knows no player of that identifier.
    UpstreamNotFound,
    /// The origin failed, or could not be reached.
    UpstreamFailure,
    /// A cached profile could not be read back.
    CorruptCacheEntry,
}

/// A player's identifier: a name and a numeric discriminator.
#[derive(Clone, Debug)]
pub struct Battletag {
    pub name: String,
    pub discriminator: u32,
}

/// The key of a profile in the cache, and the last segment of its page's path.
pub open spec fn key_text(name: Seq<char>, discriminator: u32) -> Seq<char> {
    name + seq!['-'] + decimal(discriminator as nat)
}

/// The name under which a profile is shown.
pub open spec fn display_text(name: Seq<char>, discriminator: u32) -> Seq<char> {
    name + seq!['#'] + decimal(discriminator as nat)
}

/// Where the origin serves a player's profile page.
pub open spec fn profile_url_text(name: Seq<char>, discriminator: u32) -> Seq<char> {
    "https://overwatch.blizzard.com/en-us/career/"@ + key_text(name, discriminator)
}

impl Battletag {
    pub fn new(name: String, discriminator: u32) -> (r: Battletag)
        ensures
            r.name@ == name@,
            r.discriminator == discriminator,
    {
        Battletag { name, discriminator }
    }

    /// A copy of this identifier.
    pub fn duplicate(&self) -> (r: Battletag)
        ensures
            r.name@ == self.name@,
            r.discriminator == self.discriminator,
    {
        Battletag { name: self.name.clone(), discriminator: self.discriminator }
    }

    /// The canonical string form, `name-discriminator`.
    pub fn cache_key(&self) -> (r: String)
        ensures
            r@ == key_text(self.name@, self.discriminator),
    {
        let mut r = self.name.clone();
        proof {
            reveal_strlit("-");
        }
        r.append("-");
        let d = decimal_text(self.discriminator);
        r.append(d.as_str());
        assert(r@ =~= key_text(self.name@, self.discriminator));
        r
    }

    /// The shown form, `name#discriminator`.
    pub fn display_name(&self) -> (r: String)
        ensures
            r@ == display_text(self.name@, self.discriminator),
    {
        let mut r = self.name.clone();
        proof {
            reveal_strlit("#");
        }
        r.append("#");
        let d = decimal_text(self.discriminator);
        r.append(d.as_str());
        assert(r@ =~= display_text(self.name@, self.discriminator));
        r
    }

    /// The address of this player's profile page at the origin.
    pub fn profile_url(&self) -> (r: String)
        ensures
            r@ == profile_url_text(self.name@, self.discriminator),
    {
        let mut r = String::from_str("https://overwatch.blizzard.com/en-us/career/");
        let key = self.cache_key();
        r.append(key.as_str());
        r
    }
}


/// The ranks of a profile, in the order tank, damage, support.
pub type Slots = (Option<Rank>, Option<Rank>, Option<Rank>);

/// What a profile page says of a player.
pub struct ProfileFacts {
    pub private: bool,
    pub portrait: Option<Seq<char>>,
    pub title: Option<Seq<char>>,
    pub endorsement: u8,
    pub ranks: Slots,
}

/// A decoded player profile.
#[derive(Clone, Debug)]
pub struct Player {
    /// The identifier in its shown form, `name#discriminator`.
    pub name: String,
    pub battletag: Battletag,
    pub private: bool,
    pub profile_picture: Option<String>,
    pub title: Option<String>,
    pub endorsement: u8,
    pub tank: Option<Rank>,
    pub damage: Option<Rank>,
    pub support: Option<Rank>,
}

impl Player {
    /// What this profile says of its player.
    pub open spec fn facts(&self) -> ProfileFacts {
        ProfileFacts {
            private: self.private,
            portrait: match self.profile_picture {
                Some(s) => Some(s@),
                None => None,
            },
            title: match self.title {
                Some(s) => Some(s@),
                None => None,
            },
            endorsement: self.endorsement,
            ranks: (self.tank, self.damage, self.support),
        }
    }

    /// Whether this profile belongs to the player `name`, `discriminator`.
    pub open spec fn is_for(&self, name: Seq<char>, discriminator: u32) -> bool {
        &&& self.battletag.name@ == name
        &&& self.battletag.discriminator == discriminator
        &&& self.name@ == display_text(name, discriminator)
    }
}

} // verus!

//! Networking value types: object identifiers, player roles, and game
//! session records.

use vstd::prelude::*;
use vstd::std_specs::hash::{contains_borrowed_key, maps_borrowed_key_to_value};
use vstd::string::StringExecFns;
use std::collections::HashMap;
use crate::clock::current_unix_nanos;
use crate::strfmt::{dec_str, u64_to_dec};
use crate::tmap::map_contracts_hold;

verus! {

/// An identifier for an object replicated across the network; zero is
/// the invalid sentinel.
#[derive(Debug, Clone, Copy, PartialEq, Eq, Structural, Hash)]
pub struct NetworkGUID {
    /// The unique identifier value
    pub value: u32,
}

/// The text form of a network identifier.
pub open spec fn network_guid_str(g: NetworkGUID) -> Seq<char> {
    "NetworkGUID("@ + dec_str(g.value as nat) + ")"@
}

impl NetworkGUID {
    /// Create an identifier from its value.
    pub fn new(value: u32) -> (r: Self)
        ensures
            r.value == value,
    {
        Self { value }
    }

    /// The zero identifier, used as the invalid sentinel.
    pub fn invalid() -> (r: Self)
        ensures
            r.value == 0,
    {
        Self { value: 0 }
    }

    /// An identifier is valid exactly when it is non-zero.
    pub fn is_valid(self) -> (r: bool)
        ensures
            r == (self.value != 0),
    {
        self.value != 0
    }

    /// A fresh identifier seeded from the clock. Two calls may still
    /// collide within the clock's resolution.
    pub fn generate() -> Self {
        let nanos = current_unix_nanos();
        #[verifier::truncate]
        let value = nanos as u32;
        Self::new(value)
    }

    /// Renders the identifier with its value in decimal.
    pub fn to_display_string(&self) -> (s: String)
        ensures
            s@ == network_guid_str(*self),
    {
        let mut s: String = "NetworkGUID(".to_owned();
        s.append(u64_to_dec(self.value as u64).as_str());
        s.append(")");
        proof {
            assert(s@ =~= network_guid_str(*self));
        }
        s
    }
}

impl Default for NetworkGUID {
    /// The default identifier is the invalid sentinel.
    fn default() -> (r: Self)
        ensures
            r.value == 0,
    {
        Self::invalid()
    }
}

/// What part a player takes in a session.
#[derive(Debug, Clone, Copy, PartialEq, Eq, Structural, Hash)]
pub enum PlayerRole {
    /// Regular player
    Player,
    /// Spectator (can observe but not participate)
    Spectator,
    /// Game moderator
    Moderator,
    /// Server administrator
    Admin,
    /// AI bot
    Bot,
}

/// The name of a role.
pub open spec fn role_str(r: PlayerRole) -> Seq<char> {
    match r {
        PlayerRole::Player => "Player"@,
        PlayerRole::Spectator => "Spectator"@,
        PlayerRole::Moderator => "Moderator"@,
        PlayerRole::Admin => "Admin"@,
        PlayerRole::Bot => "Bot"@,
    }
}

impl PlayerRole {
    /// Renders the role as its name.
    pub fn to_display_string(&self) -> (s: String)
        ensures
            s@ == role_str(*self),
    {
        match self {
            PlayerRole::Player => "Player".to_owned(),
            PlayerRole::Spectator => "Spectator".to_owned(),
            PlayerRole::Moderator => "Moderator".to_owned(),
            PlayerRole::Admin => "Admin".to_owned(),
            PlayerRole::Bot => "Bot".to_owned(),
        }
    }
}

/// A game session as the matchmaker and server browser see it.
#[derive(Debug, Clone)]
pub struct GameSessionInfo {
    /// Unique session identifier
    pub session_id: NetworkGUID,
    /// Session name/title
    pub session_name: String,
    /// Game mode being played
    pub game_mode: String,
    /// Current map/level
    pub map_name: String,
    /// Maximum number of players allowed
    pub max_players: i32,
    /// Current number of connected players
    pub current_players: i32,
    /// Whether the session is password protected
    pub is_private: bool,
    /// Whether the session allows spectators
    pub allow_spectators: bool,
    /// Server region/location
    pub region: String,
    /// Game difficulty level
    pub difficulty: i32,
    /// Session creation time, in Unix seconds
    pub created_time: u64,
    /// Additional custom properties
    pub custom_properties: HashMap<String, String>,
}

impl GameSessionInfo {
    /// Create a session that is open, public and empty, stamped with a
    /// fresh identifier and the clock's current time.
    pub fn new(session_name: String, game_mode: String, map_name: String, max_players: i32) -> (r:
        Self)
        ensures
            r.session_name == session_name,
            r.game_mode == game_mode,
            r.map_name == map_name,
            r.max_players == max_players,
            r.current_players == 0,
            !r.is_private,
            r.allow_spectators,
            r.region@ == "Unknown"@,
            r.difficulty == 1,
            r.custom_properties@ == Map::<String, String>::empty(),
    {
        let nanos = current_unix_nanos();
        let secs_wide = nanos / 1_000_000_000;
        #[verifier::truncate]
        let created_time = secs_wide as u64;
        Self {
            session_id: NetworkGUID::generate(),
            session_name,
            game_mode,
            map_name,
            max_players,
            current_players: 0,
            is_private: false,
            allow_spectators: true,
            region: "Unknown".to_owned(),
            difficulty: 1,
            created_time,
            custom_properties: HashMap::new(),
        }
    }

    /// Whether another player fits in the session.
    pub fn has_available_slots(&self) -> (r: bool)
        ensures
            r == (self.current_players < self.max_players),
    {
        self.current_players < self.max_players
    }

    /// Whether the session is full.
    pub fn is_full(&self) -> (r: bool)
        ensures
            r == (self.current_players >= self.max_players),
    {
        self.current_players >= self.max_players
    }

    /// Counts a player in when a slot is free; whether one was free.
    pub fn add_player(&mut self) -> (r: bool)
        ensures
            r == (old(self).current_players < old(self).max_players),
            r ==> final(self).current_players == old(self).current_players + 1,
            !r ==> final(self).current_players == old(self).current_players,
            unchanged_but_players(*old(self), *final(self)),
    {
        if self.has_available_slots() {
            self.current_players = self.current_players + 1;
            true
        } else {
            false
        }
    }

    /// Counts a player out when any are in; whether one was.
    pub fn remove_player(&mut self) -> (r: bool)
        ensures
            r == (old(self).current_players > 0),
            r ==> final(self).current_players == old(self).current_players - 1,
            !r ==> final(self).current_players == old(self).current_players,
            unchanged_but_players(*old(self), *final(self)),
    {
        if self.current_players > 0 {
            self.current_players = self.current_players - 1;
            true
        } else {
            false
        }
    }

    /// Marks the session private or public.
    pub fn set_private(&mut self, is_private: bool)
        ensures
            final(self).is_private == is_private,
            final(self).current_players == old(self).current_players,
            unchanged_but_flags(*old(self), *final(self)),
            final(self).region == old(self).region,
            final(self).custom_properties == old(self).custom_properties,
    {
        self.is_private = is_private;
    }

    /// Moves the session to a region.
    pub fn set_region(&mut self, region: String)
        ensures
            final(self).region == region,
            final(self).is_private == old(self).is_private,
            final(self).current_players == old(self).current_players,
            unchanged_but_flags(*old(self), *final(self)),
            final(self).custom_properties == old(self).custom_properties,
    {
        self.region = region;
    }

    /// Sets a custom property, replacing any value the key held.
    pub fn set_custom_property(&mut self, key: String, value: String)
        ensures
            map_contracts_hold::<String>() ==> final(self).custom_properties@ == old(
                self,
            ).custom_properties@.insert(key, value),
            final(self).is_private == old(self).is_private,
            final(self).current_players == old(self).current_players,
            unchanged_but_flags(*old(self), *final(self)),
            final(self).region == old(self).region,
    {
        self.custom_properties.insert(key, value);
    }

    /// The value a custom property holds, `None` when the key is
    /// absent.
    pub fn get_custom_property(&self, key: &str) -> (r: Option<&String>)
        ensures
            map_contracts_hold::<String>() ==> match r {
                Some(v) => maps_borrowed_key_to_value(self.custom_properties@, key, *v),
                None => !contains_borrowed_key(self.custom_properties@, key),
            },
    {
        self.custom_properties.get(key)
    }

    /// How many seconds have passed on the clock since the session was
    /// created; zero when the clock stands before that point.
    pub fn age_seconds(&self) -> u64 {
        let nanos = current_unix_nanos();
        let secs_wide = nanos / 1_000_000_000;
        #[verifier::truncate]
        let now_secs = secs_wide as u64;
        now_secs.saturating_sub(self.created_time)
    }
}

/// Every field of a session except the player count is the same in
/// both states.
pub open spec fn unchanged_but_players(a: GameSessionInfo, b: GameSessionInfo) -> bool {
    &&& b.session_id == a.session_id
    &&& b.session_name == a.session_name
    &&& b.game_mode == a.game_mode
    &&& b.map_name == a.map_name
    &&& b.max_players == a.max_players
    &&& b.is_private == a.is_private
    &&& b.allow_spectators == a.allow_spectators
    &&& b.region == a.region
    &&& b.difficulty == a.difficulty
    &&& b.created_time == a.created_time
    &&& b.custom_properties == a.custom_properties
}

/// The identity, naming and limit fields of a session are the same in
/// both states; the mutable settings are spoken of separately.
pub open spec fn unchanged_but_flags(a: GameSessionInfo, b: GameSessionInfo) -> bool {
    &&& b.session_id == a.session_id
    &&& b.session_name == a.session_name
    &&& b.game_mode == a.game_mode
    &&& b.map_name == a.map_name
    &&& b.max_players == a.max_players
    &&& b.allow_spectators == a.allow_spectators
    &&& b.difficulty == a.difficulty
    &&& b.created_time == a.created_time
}

} // verus!

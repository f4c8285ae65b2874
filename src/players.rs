//! Who plays: a player's account and the platform they play on.

use vstd::prelude::*;

verus! {

/// Where a player is reached. Only durable ids are kept: the Discord user,
/// channel and board message, or the web account.
#[derive(Clone, Copy, Debug)]
pub enum PlayerPlatform {
    Discord { user_id: u64, channel_id: u64, message_id: u64 },
    WebApi { user_id: i64 },
}

/// Two platform handles name the same player: the same Discord user, or the
/// same web account, whatever message or channel is attached.
pub open spec fn same_platform(a: PlayerPlatform, b: PlayerPlatform) -> bool {
    match (a, b) {
        (PlayerPlatform::Discord { user_id: x, .. }, PlayerPlatform::Discord { user_id: y, .. }) => x == y,
        (PlayerPlatform::WebApi { user_id: x }, PlayerPlatform::WebApi { user_id: y }) => x == y,
        _ => false,
    }
}

impl PartialEq for PlayerPlatform {
    fn eq(&self, other: &PlayerPlatform) -> (r: bool) {
        match (self, other) {
            (PlayerPlatform::Discord { user_id: x, .. }, PlayerPlatform::Discord { user_id: y, .. }) => *x == *y,
            (PlayerPlatform::WebApi { user_id: x }, PlayerPlatform::WebApi { user_id: y }) => *x == *y,
            _ => false,
        }
    }
}

impl vstd::std_specs::cmp::PartialEqSpecImpl for PlayerPlatform {
    open spec fn obeys_eq_spec() -> bool {
        true
    }

    open spec fn eq_spec(&self, other: &PlayerPlatform) -> bool {
        same_platform(*self, *other)
    }
}

impl PlayerPlatform {
    /// Whether this handle belongs to the Discord user `id`.
    pub fn is_discord_user(&self, id: u64) -> (r: bool)
        ensures
            r == (*self matches PlayerPlatform::Discord { user_id, .. } && user_id == id),
    {
        match self {
            PlayerPlatform::Discord { user_id, .. } => *user_id == id,
            PlayerPlatform::WebApi { .. } => false,
        }
    }
}

/// A player in a live game. Two players are the same when their account ids
/// are, whichever platform handle each carries.
#[derive(Clone, Debug)]
pub struct Player {
    pub id: i64,
    pub username: String,
    pub platform: PlayerPlatform,
}

impl PartialEq for Player {
    fn eq(&self, other: &Player) -> (r: bool) {
        self.id == other.id
    }
}

impl vstd::std_specs::cmp::PartialEqSpecImpl for Player {
    open spec fn obeys_eq_spec() -> bool {
        true
    }

    open spec fn eq_spec(&self, other: &Player) -> bool {
        self.id == other.id
    }
}

impl Player {
    pub fn new(id: i64, username: String, platform: PlayerPlatform) -> (r: Player)
        ensures
            r.id == id,
            r.username@ == username@,
            r.platform == platform,
    {
        Player { id, username, platform }
    }

    pub fn platform(&self) -> (r: &PlayerPlatform)
        ensures
            *r == self.platform,
    {
        &self.platform
    }

    pub fn username(&self) -> (r: &str)
        ensures
            r@ == self.username@,
    {
        self.username.as_str()
    }

    pub fn id(&self) -> (r: i64)
        ensures
            r == self.id,
    {
        self.id
    }
}

} // verus!

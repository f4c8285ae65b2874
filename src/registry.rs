//! The registry of live games: who plays whom, and the moves sent to each
//! game. No player is a member of two live games at once.

use vstd::prelude::*;
use crate::chess::{
    after_offer, attempt_spec, is_draw_offer, offer_accepts, status_result_view, ChessError,
    ChessGame, Color, GameView, MoveStatus, Transition, DRAW_OFFER_SAN,
};
use crate::players::{same_platform, Player, PlayerPlatform};
use crate::engine::{legal_sans_of, outcome_of, turn_of};
use crate::chess::Outcome;
use crate::rating::{settlement, settlement_spec, RatingOutcome};
use crate::records::CreateGameError;

verus! {

/// A live game and its two players.
pub struct LiveGame {
    pub id: i64,
    pub white: Player,
    pub black: Player,
    pub game: ChessGame,
}

impl LiveGame {
    /// The account `pid` plays in this game.
    pub open spec fn has_member(self, pid: i64) -> bool {
        self.white.id == pid || self.black.id == pid
    }

    /// The handle `p` names one of this game's players.
    pub open spec fn seats(self, p: PlayerPlatform) -> bool {
        same_platform(self.white.platform, p) || same_platform(self.black.platform, p)
    }

    /// The side played through the handle `p`: White when it names the white
    /// player, else Black.
    pub open spec fn side_of(self, p: PlayerPlatform) -> Color {
        if same_platform(self.white.platform, p) {
            Color::White
        } else {
            Color::Black
        }
    }
}

/// No player of `a` plays in `b`.
pub open spec fn disjoint(a: LiveGame, b: LiveGame) -> bool {
    !b.has_member(a.white.id) && !b.has_member(a.black.id)
}

/// Distinct live games share no player.
pub open spec fn members_disjoint(games: Seq<LiveGame>) -> bool {
    forall|i: int, j: int|
        0 <= i < games.len() && 0 <= j < games.len() && i != j ==> #[trigger] disjoint(games[i], games[j])
}

/// The account `pid` plays in one of `games`.
pub open spec fn in_some_game(games: Seq<LiveGame>, pid: i64) -> bool {
    exists|i: int| 0 <= i < games.len() && (#[trigger] games[i]).has_member(pid)
}

/// `i` is the first of `games` that seats the handle `p`.
pub open spec fn first_seat(games: Seq<LiveGame>, p: PlayerPlatform, i: int) -> bool {
    &&& 0 <= i < games.len()
    &&& games[i].seats(p)
    &&& forall|j: int| 0 <= j < i ==> !(#[trigger] games[j]).seats(p)
}

/// No game of `games` seats the handle `p`.
pub open spec fn no_seat(games: Seq<LiveGame>, p: PlayerPlatform) -> bool {
    forall|j: int| 0 <= j < games.len() ==> !(#[trigger] games[j]).seats(p)
}

/// `new` is `old` with the game at `i` changed to `g` and nothing else.
pub open spec fn game_replaced(old: Seq<LiveGame>, new: Seq<LiveGame>, i: int, g: GameView) -> bool {
    &&& new.len() == old.len()
    &&& forall|j: int| 0 <= j < old.len() && j != i ==> new[j] == old[j]
    &&& new[i].id == old[i].id
    &&& new[i].white == old[i].white
    &&& new[i].black == old[i].black
    &&& new[i].game@ == g
}

/// The result of the action `text` sent through the handle `p` to the game
/// `e`, and that game afterwards: the draw-offer token offers or accepts a
/// draw, any other text is a move.
pub open spec fn action_spec(e: LiveGame, p: PlayerPlatform, text: Seq<char>) -> (Result<Transition, ChessError>, GameView) {
    let side = e.side_of(p);
    if text == DRAW_OFFER_SAN@ {
        if offer_accepts(e.game@, side) {
            (Ok(Transition::Draw), after_offer(e.game@, side))
        } else {
            (Ok(Transition::DrawOffer(side)), after_offer(e.game@, side))
        }
    } else {
        attempt_spec(e.game@, side, text)
    }
}

/// The handle `p` is one of Discord user `id`.
pub open spec fn is_discord_of(p: PlayerPlatform, id: u64) -> bool {
    p matches PlayerPlatform::Discord { user_id, .. } && user_id == id
}

/// One of the players of `e` plays on Discord as user `id`.
pub open spec fn discord_seat(e: LiveGame, id: u64) -> bool {
    is_discord_of(e.white.platform, id) || is_discord_of(e.black.platform, id)
}

/// The handle of Discord user `id` in `e`: White's when it is theirs.
pub open spec fn discord_handle(e: LiveGame, id: u64) -> PlayerPlatform {
    if is_discord_of(e.white.platform, id) {
        e.white.platform
    } else {
        e.black.platform
    }
}

/// `i` is the first of `games` with a player on Discord as user `id`.
pub open spec fn first_discord_seat(games: Seq<LiveGame>, id: u64, i: int) -> bool {
    &&& 0 <= i < games.len()
    &&& discord_seat(games[i], id)
    &&& forall|j: int| 0 <= j < i ==> !discord_seat(#[trigger] games[j], id)
}

/// A game taken out of the registry: its players, how it ended on the board,
/// and the result they are rated on, if any.
pub struct Conclusion {
    pub id: i64,
    pub white: Player,
    pub black: Player,
    pub outcome: Option<Outcome>,
    pub rating: Option<RatingOutcome>,
}

/// The live games.
pub struct GameRegistry {
    games: Vec<LiveGame>,
}

impl View for GameRegistry {
    type V = Seq<LiveGame>;

    closed spec fn view(&self) -> Seq<LiveGame> {
        self.games@
    }
}

impl GameRegistry {
    pub open spec fn wf(&self) -> bool {
        members_disjoint(self@)
    }

    /// A registry with no game.
    pub fn new() -> (r: GameRegistry)
        ensures
            r@ == Seq::<LiveGame>::empty(),
            r.wf(),
    {
        GameRegistry { games: Vec::new() }
    }

    /// The number of live games.
    pub fn len(&self) -> (r: usize)
        ensures
            r == self@.len(),
    {
        self.games.len()
    }

    /// Whether the account `id` plays in a live game.
    pub fn player_in_game(&self, id: i64) -> (r: bool)
        ensures
            r == in_some_game(self@, id),
    {
        let mut i: usize = 0;
        while i < self.games.len()
            invariant
                i <= self.games@.len(),
                forall|j: int| 0 <= j < i ==> !(#[trigger] self.games@[j]).has_member(id),
            decreases self.games@.len() - i,
        {
            let e = &self.games[i];
            if e.white.id == id || e.black.id == id {
                assert(self@[i as int].has_member(id));
                return true;
            }
            i += 1;
        }
        false
    }

    /// Starts the game `id` between `white` and `black` at the starting
    /// position. Refused with `PlayerInGame`, changing nothing, when either
    /// player already plays in a live game.
    pub fn create_game(&mut self, id: i64, white: Player, black: Player) -> (r: Result<(), CreateGameError>)
        requires
            old(self).wf(),
        ensures
            final(self).wf(),
            r is Err <==> (in_some_game(old(self)@, white.id) || in_some_game(old(self)@, black.id)),
            r is Err ==> r == Err::<(), CreateGameError>(CreateGameError::PlayerInGame) && final(self)@ == old(self)@,
            r is Ok ==> {
                &&& final(self)@.len() == old(self)@.len() + 1
                &&& final(self)@.subrange(0, old(self)@.len() as int) == old(self)@
                &&& final(self)@.last().id == id
                &&& final(self)@.last().white == white
                &&& final(self)@.last().black == black
                &&& final(self)@.last().game@ == ChessGame::new_spec()
            },
    {
        if self.player_in_game(white.id) || self.player_in_game(black.id) {
            return Err(CreateGameError::PlayerInGame);
        }
        let ghost old_games = self@;
        let entry = LiveGame { id, white, black, game: ChessGame::new() };
        self.games.push(entry);
        proof {
            assert(self@.subrange(0, old_games.len() as int) =~= old_games);
            assert forall|i: int, j: int|
                0 <= i < self@.len() && 0 <= j < self@.len() && i != j implies #[trigger] disjoint(self@[i], self@[j]) by {
                if i < old_games.len() && j < old_games.len() {
                    assert(disjoint(old_games[i], old_games[j]));
                } else if i < old_games.len() {
                    assert(!old_games[i].has_member(self@[j].white.id));
                    assert(!old_games[i].has_member(self@[j].black.id));
                } else {
                    assert(!old_games[j].has_member(self@[i].white.id));
                    assert(!old_games[j].has_member(self@[i].black.id));
                }
            }
        }
        Ok(())
    }

    /// The first live game that seats the handle `player`.
    pub fn find_game(&self, player: &PlayerPlatform) -> (r: Option<usize>)
        ensures
            r matches Some(i) ==> first_seat(self@, *player, i as int),
            r is None ==> no_seat(self@, *player),
    {
        let mut i: usize = 0;
        while i < self.games.len()
            invariant
                i <= self.games@.len(),
                forall|j: int| 0 <= j < i ==> !(#[trigger] self.games@[j]).seats(*player),
            decreases self.games@.len() - i,
        {
            let e = &self.games[i];
            if e.white.platform == *player || e.black.platform == *player {
                return Some(i);
            }
            i += 1;
        }
        None
    }

    /// The white and black players of the game at `index`, and its id.
    pub fn game_players(&self, index: usize) -> (r: (Player, Player, i64))
        requires
            index < self@.len(),
        ensures
            r.0 == self@[index as int].white,
            r.1 == self@[index as int].black,
            r.2 == self@[index as int].id,
    {
        let e = &self.games[index];
        let white = Player { id: e.white.id, username: e.white.username.clone(), platform: e.white.platform };
        let black = Player { id: e.black.id, username: e.black.username.clone(), platform: e.black.platform };
        (white, black, e.id)
    }

    /// The side played through the handle `player` in the game at `index`.
    pub fn player_side(&self, index: usize, player: &PlayerPlatform) -> (r: Color)
        requires
            index < self@.len(),
        ensures
            r == self@[index as int].side_of(*player),
    {
        Color::from_white(self.games[index].white.platform == *player)
    }

    /// The side to move in the game at `index`.
    pub fn game_turn(&self, index: usize) -> (r: Color)
        requires
            index < self@.len(),
        ensures
            r == turn_of(self@[index as int].game@.position),
    {
        self.games[index].game.turn()
    }

    /// Sends the action `san` of the player behind the handle `player` to
    /// their game. `InvalidPlayer` when no live game seats the handle. The
    /// side is White when the handle names the white player. The draw-offer
    /// token offers a draw, or accepts the other side's pending offer
    /// (`Draw`); any other text is played as a move. Only that game changes,
    /// and no game is removed here.
    pub fn play_move(&mut self, player: &PlayerPlatform, san: &str) -> (r: Result<MoveStatus, ChessError>)
        requires
            old(self).wf(),
        ensures
            final(self).wf(),
            no_seat(old(self)@, *player) ==> r == Err::<MoveStatus, ChessError>(ChessError::InvalidPlayer)
                && final(self)@ == old(self)@,
            forall|i: int| #[trigger] first_seat(old(self)@, *player, i) ==> {
                let (res, g) = action_spec(old(self)@[i], *player, san@);
                &&& status_result_view(r) == res
                &&& game_replaced(old(self)@, final(self)@, i, g)
            },
    {
        let idx = match self.find_game(player) {
            None => return Err(ChessError::InvalidPlayer),
            Some(i) => i,
        };
        let ghost old_games = self@;
        let mut entry = self.games.remove(idx);
        let side = Color::from_white(entry.white.platform == *player);
        assert(side == old_games[idx as int].side_of(*player));
        let r = if is_draw_offer(san) {
            if entry.game.draw_offer(side) {
                Ok(MoveStatus::Draw)
            } else {
                Ok(MoveStatus::DrawOffer(side))
            }
        } else {
            entry.game.play_move(side, san)
        };
        let ghost g = entry.game@;
        self.games.insert(idx, entry);
        proof {
            let n = self@;
            assert(n =~= old_games.update(idx as int, n[idx as int]));
            assert forall|i: int| #[trigger] first_seat(old_games, *player, i) implies i == idx by {
                if i < idx {
                    assert(!old_games[i].seats(*player));
                } else if i > idx {
                    assert(!old_games[idx as int].seats(*player));
                }
            }
            assert forall|a: int, b: int|
                0 <= a < n.len() && 0 <= b < n.len() && a != b implies #[trigger] disjoint(n[a], n[b]) by {
                assert(disjoint(old_games[a], old_games[b]));
            }
        }
        r
    }

    /// Takes the game of the handle `player` out of the registry and says
    /// what its players are rated on. `None`, changing nothing, when no live
    /// game seats the handle. Each game is taken out once: afterwards neither
    /// of its players is in any live game.
    pub fn conclude_game(&mut self, player: &PlayerPlatform) -> (r: Option<Conclusion>)
        requires
            old(self).wf(),
        ensures
            final(self).wf(),
            no_seat(old(self)@, *player) ==> r is None && final(self)@ == old(self)@,
            forall|i: int| #[trigger] first_seat(old(self)@, *player, i) ==> {
                let e = old(self)@[i];
                &&& final(self)@ == old(self)@.remove(i)
                &&& r matches Some(c)
                &&& c.id == e.id
                &&& c.white == e.white
                &&& c.black == e.black
                &&& c.outcome == outcome_of(e.game@.position)
                &&& c.rating == settlement_spec(e.white.id, e.black.id, c.outcome)
            },
    {
        let idx = match self.find_game(player) {
            None => return None,
            Some(i) => i,
        };
        let ghost old_games = self@;
        let entry = self.games.remove(idx);
        let outcome = entry.game.outcome();
        let rating = settlement(&entry.white, &entry.black, outcome);
        proof {
            assert forall|i: int| #[trigger] first_seat(old_games, *player, i) implies i == idx by {
                if i < idx {
                    assert(!old_games[i].seats(*player));
                } else if i > idx {
                    assert(!old_games[idx as int].seats(*player));
                }
            }
            lemma_removal_keeps_disjoint(old_games, idx as int);
        }
        Some(Conclusion { id: entry.id, white: entry.white, black: entry.black, outcome, rating })
    }

    /// The Discord handle of user `id` in the first live game where they
    /// play, or `None` when they play in none.
    pub fn find_player_discord(&self, id: u64) -> (r: Option<PlayerPlatform>)
        ensures
            r is None <==> forall|j: int| 0 <= j < self@.len() ==> !discord_seat(#[trigger] self@[j], id),
            r matches Some(p) ==> exists|i: int| #[trigger] first_discord_seat(self@, id, i)
                && p == discord_handle(self@[i], id),
    {
        let mut i: usize = 0;
        while i < self.games.len()
            invariant
                i <= self.games@.len(),
                forall|j: int| 0 <= j < i ==> !discord_seat(#[trigger] self.games@[j], id),
            decreases self.games@.len() - i,
        {
            let e = &self.games[i];
            if e.white.platform.is_discord_user(id) {
                assert(first_discord_seat(self@, id, i as int));
                return Some(e.white.platform);
            }
            if e.black.platform.is_discord_user(id) {
                assert(first_discord_seat(self@, id, i as int));
                return Some(e.black.platform);
            }
            i += 1;
        }
        None
    }

    /// The actions open to the player behind the handle `player`: every legal
    /// move in their game, then the draw-offer token; empty when no live game
    /// seats the handle.
    pub fn get_moves(&self, player: &PlayerPlatform) -> (r: Vec<String>)
        ensures
            no_seat(self@, *player) ==> r@.len() == 0,
            forall|i: int| #[trigger] first_seat(self@, *player, i) ==>
                r@.map_values(|s: String| s@) == legal_sans_of(self@[i].game@.position).push(DRAW_OFFER_SAN@),
    {
        match self.find_game(player) {
            None => Vec::new(),
            Some(idx) => {
                proof {
                    assert forall|i: int| #[trigger] first_seat(self@, *player, i) implies i == idx by {
                        if i < idx {
                            assert(!self@[i].seats(*player));
                        } else if i > idx {
                            assert(!self@[idx as int].seats(*player));
                        }
                    }
                }
                self.games[idx].game.valid_moves_san()
            },
        }
    }
}

/// The two players of a new game from what storage returned for each: `None`
/// when an account had to be created and its name was taken.
/// `UsernameTaken(White)` comes first.
pub fn seat_players(white: Option<Player>, black: Option<Player>) -> (r: Result<(Player, Player), CreateGameError>)
    ensures
        white is None ==> r == Err::<(Player, Player), CreateGameError>(CreateGameError::UsernameTaken(Color::White)),
        white is Some && black is None ==> r == Err::<(Player, Player), CreateGameError>(CreateGameError::UsernameTaken(Color::Black)),
        (white is Some && black is Some) ==> r == Ok::<(Player, Player), CreateGameError>((white->Some_0, black->Some_0)),
{
    match white {
        None => Err(CreateGameError::UsernameTaken(Color::White)),
        Some(w) => match black {
            None => Err(CreateGameError::UsernameTaken(Color::Black)),
            Some(b) => Ok((w, b)),
        },
    }
}

/// Taking a game out leaves the others sharing no player, and neither of its
/// players in any remaining game.
pub proof fn lemma_removal_keeps_disjoint(games: Seq<LiveGame>, i: int)
    requires
        members_disjoint(games),
        0 <= i < games.len(),
    ensures
        members_disjoint(games.remove(i)),
        !in_some_game(games.remove(i), games[i].white.id),
        !in_some_game(games.remove(i), games[i].black.id),
{
    let n = games.remove(i);
    assert forall|a: int, b: int|
        0 <= a < n.len() && 0 <= b < n.len() && a != b implies #[trigger] disjoint(n[a], n[b]) by {
        let a0 = if a < i { a } else { a + 1 };
        let b0 = if b < i { b } else { b + 1 };
        assert(disjoint(games[a0], games[b0]));
    }
    assert forall|k: int| 0 <= k < n.len() implies !(#[trigger] n[k]).has_member(games[i].white.id)
        && !n[k].has_member(games[i].black.id) by {
        let k0 = if k < i { k } else { k + 1 };
        assert(disjoint(games[i], games[k0]));
    }
}

/// No account plays in two live games: two games of a well-formed registry
/// that both have the player `pid` are one game.
pub proof fn lemma_at_most_one_game(games: Seq<LiveGame>, pid: i64, i: int, j: int)
    requires
        members_disjoint(games),
        0 <= i < games.len(),
        0 <= j < games.len(),
        games[i].has_member(pid),
        games[j].has_member(pid),
    ensures
        i == j,
{
    if i != j {
        assert(disjoint(games[i], games[j]));
    }
}

/// Once a game is concluded its result is never settled again from the
/// registry: neither player remains in a live game, so no later conclusion
/// names them until a new game is created.
pub proof fn lemma_settled_once(games: Seq<LiveGame>, i: int, pid: i64)
    requires
        members_disjoint(games),
        0 <= i < games.len(),
        games[i].has_member(pid),
    ensures
        forall|k: int| 0 <= k < games.remove(i).len() ==> !(#[trigger] games.remove(i)[k]).has_member(pid),
{
    lemma_removal_keeps_disjoint(games, i);
    let n = games.remove(i);
    assert forall|k: int| 0 <= k < n.len() implies !(#[trigger] n[k]).has_member(pid) by {
        assert(!(n[k].has_member(games[i].white.id)));
        assert(!(n[k].has_member(games[i].black.id)));
    }
}

} // verus!

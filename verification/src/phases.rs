//! The turn and phase state machine. A game alternates, per player
//! turn, between a tile-push phase and a player-move phase; advancing
//! the turn skips every player whose collected list is already full,
//! and the game ends when that is true of all of them.

use vstd::prelude::*;

use crate::board::CanMove;
use crate::player::PlayerBundle;
use crate::treasure::CollectedLists;
use vstd::pervasive::VecAdditionalExecFns;

verus! {

/// The two process-wide states: no game logic runs in the menu.
#[derive(Debug, Clone, Copy, PartialEq, Eq, Structural)]
pub enum GameState {
    MainMenu,
    Playing,
}

/// Game parameters fixed at start: the number of players and the number
/// of treasures each player must collect.
#[derive(Debug, Clone, Copy, PartialEq, Eq, Structural)]
pub struct GameSettings {
    pub num_players: i32,
    pub treasures_to_get: i32,
}

impl GameSettings {
    pub open spec fn wf(self) -> bool {
        &&& 1 <= self.num_players
        &&& 0 <= self.treasures_to_get
    }
}

/// The per-turn state: whose turn it is, whether the turn is still in
/// its tile-push phase, and whether the game has ended.
#[derive(Debug, Clone, Copy, PartialEq, Eq, Structural)]
pub struct GamePhase {
    pub current_player_id: i32,
    pub tile_push_phase: bool,
    pub has_ended: bool,
}

/// `i` reduced into `[0, n)`, for `0 <= i < 2 * n`: the one wrap-around
/// that advancing a player id by at most `n` steps can need.
pub open spec fn spec_wrap(i: int, n: int) -> int {
    if i < n {
        i
    } else {
        i - n
    }
}

/// Whether player `id` has collected everything asked of them.
pub open spec fn spec_player_finished(collected: Seq<Seq<i32>>, id: int, treasures_to_get: int) -> bool {
    collected[id].len() == treasures_to_get
}

/// Whether every one of the `n` players is finished.
pub open spec fn spec_all_finished(collected: Seq<Seq<i32>>, n: int, treasures_to_get: int) -> bool {
    forall|j: int| 0 <= j < n ==> #[trigger] spec_player_finished(collected, j, treasures_to_get)
}

/// The first player id at or cyclically after `cur` that is not yet
/// finished, found within `fuel` steps (`cur` itself if the fuel runs
/// out first).
pub open spec fn spec_next_unfinished(
    collected: Seq<Seq<i32>>,
    cur: int,
    n: int,
    treasures_to_get: int,
    fuel: nat,
) -> int
    decreases fuel,
{
    if fuel == 0 {
        cur
    } else if !spec_player_finished(collected, cur, treasures_to_get) {
        cur
    } else {
        spec_next_unfinished(collected, spec_wrap(cur + 1, n), n, treasures_to_get, (fuel - 1) as nat)
    }
}

/// The turn state after a turn advance: the push phase is re-entered
/// and the turn passes to the next player not yet finished, cyclically
/// after the current one. With every player finished (or the game
/// already over) the id advances one step and the game is (or stays)
/// ended.
pub open spec fn spec_end_turn(
    g: GamePhase,
    collected: Seq<Seq<i32>>,
    n: int,
    treasures_to_get: int,
) -> GamePhase {
    let start = spec_wrap(g.current_player_id + 1, n);
    if g.has_ended || spec_all_finished(collected, n, treasures_to_get) {
        GamePhase { current_player_id: start as i32, tile_push_phase: true, has_ended: true }
    } else {
        GamePhase {
            current_player_id: spec_next_unfinished(collected, start, n, treasures_to_get, n as nat) as i32,
            tile_push_phase: true,
            has_ended: false,
        }
    }
}

/// Advance the turn: re-enter the push phase, step to the next player,
/// and keep stepping past every player whose collected list is already
/// full. When the skipping comes full circle, every player has finished
/// and the game ends.
///
/// The second ensures clause is the skipping made explicit: when the
/// game goes on, the turn lands after exactly `k` skips, every one of
/// the `k` players passed over is finished, and the player landed on is
/// not.
pub fn end_turn(
    game_state: &mut GamePhase,
    collected_treasures: &CollectedLists,
    settings: &GameSettings,
) -> (skipped: i32)
    requires
        settings.wf(),
        collected_treasures.lists@.len() == settings.num_players,
        0 <= old(game_state).current_player_id < settings.num_players,
    ensures
        *final(game_state) == spec_end_turn(
            *old(game_state),
            collected_treasures.view_lists(),
            settings.num_players as int,
            settings.treasures_to_get as int,
        ),
        0 <= final(game_state).current_player_id < settings.num_players,
        ({
            let cv = collected_treasures.view_lists();
            let n = settings.num_players as int;
            let t = settings.treasures_to_get as int;
            let start = spec_wrap(old(game_state).current_player_id + 1, n);
            &&& 0 <= skipped <= n
            &&& (!old(game_state).has_ended && !spec_all_finished(cv, n, t) ==> {
                &&& skipped < n
                &&& final(game_state).current_player_id == spec_wrap(start + skipped, n)
                &&& !spec_player_finished(cv, final(game_state).current_player_id as int, t)
                &&& forall|j: int| 0 <= j < skipped ==> spec_player_finished(
                    cv,
                    #[trigger] spec_wrap(start + j, n),
                    t,
                )
            })
        }),
{
    let ghost cv = collected_treasures.view_lists();
    let n = settings.num_players;
    let ghost g0 = *game_state;

    game_state.tile_push_phase = true;
    proof {
        lemma_wrap_is_mod(g0.current_player_id + 1, n as int);
    }
    game_state.current_player_id = (game_state.current_player_id + 1) % n;
    let ghost start = game_state.current_player_id as int;
    proof {
        assert(start == spec_wrap(g0.current_player_id + 1, n as int));
    }

    let mut num_players_finished: i32 = 0;
    while player_finished_now(collected_treasures, game_state.current_player_id, settings)
        && !game_state.has_ended
        invariant
            settings.wf(),
            collected_treasures.lists@.len() == settings.num_players,
            n == settings.num_players,
            cv == collected_treasures.view_lists(),
            0 <= start < n,
            game_state.tile_push_phase,
            0 <= num_players_finished <= n,
            game_state.current_player_id == spec_wrap(start + num_players_finished, n as int),
            game_state.has_ended == (g0.has_ended || num_players_finished == n),
            g0.has_ended ==> num_players_finished == 0,
            forall|j: int| 0 <= j < num_players_finished ==> spec_player_finished(
                cv,
                #[trigger] spec_wrap(start + j, n as int),
                settings.treasures_to_get as int,
            ),
            !g0.has_ended && !spec_all_finished(cv, n as int, settings.treasures_to_get as int)
                ==> spec_next_unfinished(
                cv,
                start,
                n as int,
                settings.treasures_to_get as int,
                n as nat,
            ) == spec_next_unfinished(
                cv,
                game_state.current_player_id as int,
                n as int,
                settings.treasures_to_get as int,
                (n - num_players_finished) as nat,
            ),
        decreases n - num_players_finished,
    {
        proof {
            assert(num_players_finished < n);
            lemma_wrap_is_mod(game_state.current_player_id + 1, n as int);
        }
        game_state.current_player_id = (game_state.current_player_id + 1) % n;
        num_players_finished = num_players_finished + 1;
        game_state.has_ended = num_players_finished == n;
    }
    proof {
        let t = settings.treasures_to_get as int;
        let id = game_state.current_player_id as int;
        if !g0.has_ended {
            if spec_all_finished(cv, n as int, t) {
                if num_players_finished < n {
                    assert(spec_player_finished(cv, id, t));
                    assert(false);
                }
            } else {
                if num_players_finished == n {
                    lemma_full_circle_is_all_finished(cv, start, n as int, t);
                    assert(false);
                }
            }
        }
    }
    num_players_finished
}

/// The menu transition for one tick: a start press enters play, a
/// cancel press leaves it; otherwise the state stays.
pub fn menu_transition(state: GameState, start_pressed: bool, cancel_pressed: bool) -> (r:
    GameState)
    ensures
        state == GameState::MainMenu ==> r == if start_pressed {
            GameState::Playing
        } else {
            GameState::MainMenu
        },
        state == GameState::Playing ==> r == if cancel_pressed {
            GameState::MainMenu
        } else {
            GameState::Playing
        },
{
    match state {
        GameState::MainMenu => if start_pressed {
            GameState::Playing
        } else {
            GameState::MainMenu
        },
        GameState::Playing => if cancel_pressed {
            GameState::MainMenu
        } else {
            GameState::Playing
        },
    }
}

/// Recompute every player's permission to move for this tick — the sole
/// source of truth the movement engine consults: a player may move
/// exactly when it is their turn, the push phase is over, and the game
/// has not ended. An end-turn press then advances the turn outright,
/// skipping the rest of the current player's turn.
pub fn check_phase(
    players: &mut Vec<PlayerBundle>,
    game_phase: &mut GamePhase,
    collected_treasures: &CollectedLists,
    settings: &GameSettings,
    end_turn_pressed: bool,
)
    requires
        settings.wf(),
        collected_treasures.lists@.len() == settings.num_players,
        0 <= old(game_phase).current_player_id < settings.num_players,
    ensures
        final(players)@.len() == old(players)@.len(),
        forall|i: int|
            0 <= i < old(players)@.len() ==> {
                let p = old(players)@[i];
                let eligible = p.player.id == old(game_phase).current_player_id && !old(
                    game_phase,
                ).tile_push_phase && !old(game_phase).has_ended;
                &&& (#[trigger] final(players)@[i]).player == p.player
                &&& final(players)@[i].pos == p.pos
                &&& final(players)@[i].can_move == (if eligible {
                    CanMove::Yes
                } else {
                    CanMove::No
                })
            },
        end_turn_pressed ==> *final(game_phase) == spec_end_turn(
            *old(game_phase),
            collected_treasures.view_lists(),
            settings.num_players as int,
            settings.treasures_to_get as int,
        ),
        !end_turn_pressed ==> *final(game_phase) == *old(game_phase),
        0 <= final(game_phase).current_player_id < settings.num_players,
{
    let mut i: usize = 0;
    while i < players.len()
        invariant
            i <= players@.len(),
            players@.len() == old(players)@.len(),
            game_phase == old(game_phase),
            forall|j: int| i <= j < players@.len() ==> players@[j] == old(players)@[j],
            forall|j: int|
                0 <= j < i ==> {
                    let p = old(players)@[j];
                    let eligible = p.player.id == old(game_phase).current_player_id && !old(
                        game_phase,
                    ).tile_push_phase && !old(game_phase).has_ended;
                    &&& (#[trigger] players@[j]).player == p.player
                    &&& players@[j].pos == p.pos
                    &&& players@[j].can_move == (if eligible {
                        CanMove::Yes
                    } else {
                        CanMove::No
                    })
                },
        decreases players@.len() - i,
    {
        let mut p = players[i];
        if p.player.id == game_phase.current_player_id && !game_phase.tile_push_phase
            && !game_phase.has_ended {
            p.can_move = CanMove::Yes;
        } else {
            p.can_move = CanMove::No;
        }
        players.set(i, p);
        i = i + 1;
    }
    if end_turn_pressed {
        let _ = end_turn(game_phase, collected_treasures, settings);
    }
}

/// Stepping a non-negative value that is at most `n` back into `[0, n)`
/// is the same whether done by the remainder or by one subtraction.
proof fn lemma_wrap_is_mod(x: int, n: int)
    requires
        0 <= x <= n,
        1 <= n,
    ensures
        x % n == spec_wrap(x, n),
{
    if x < n {
        vstd::arithmetic::div_mod::lemma_small_mod(x as nat, n as nat);
    } else {
        vstd::arithmetic::div_mod::lemma_mod_self_0(n);
    }
}

/// If every player reached by `n` consecutive cyclic steps from `start`
/// is finished, every player is.
proof fn lemma_full_circle_is_all_finished(
    collected: Seq<Seq<i32>>,
    start: int,
    n: int,
    treasures_to_get: int,
)
    requires
        0 <= start < n,
        forall|j: int| 0 <= j < n ==> spec_player_finished(
            collected,
            #[trigger] spec_wrap(start + j, n),
            treasures_to_get,
        ),
    ensures
        spec_all_finished(collected, n, treasures_to_get),
{
    assert forall|id: int| 0 <= id < n implies #[trigger] spec_player_finished(
        collected,
        id,
        treasures_to_get,
    ) by {
        let j = if id >= start {
            id - start
        } else {
            id + n - start
        };
        assert(spec_wrap(start + j, n) == id);
        assert(spec_player_finished(collected, spec_wrap(start + j, n), treasures_to_get));
    }
}

/// Whether the given player's collected list is already full.
fn player_finished_now(
    collected_treasures: &CollectedLists,
    id: i32,
    settings: &GameSettings,
) -> (r: bool)
    requires
        settings.wf(),
        collected_treasures.lists@.len() == settings.num_players,
        0 <= id < settings.num_players,
    ensures
        r == spec_player_finished(
            collected_treasures.view_lists(),
            id as int,
            settings.treasures_to_get as int,
        ),
{
    proof {
        assert(collected_treasures.view_lists()[id as int] =~= collected_treasures.lists@[id as int]@);
    }
    collected_treasures.lists[id as usize].len() == settings.treasures_to_get as usize
}

} // verus!

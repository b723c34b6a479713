//! Treasures and the per-player objective bookkeeping: each player owns
//! an ordered queue of treasure ids still to collect (collected from
//! the back, one at a time) and a list of the ids already collected.

use vstd::prelude::*;

use crate::board::GridPosition;
use crate::movement::get_max_coords;
use crate::movement::pos_is_external;
use crate::movement::spec_is_external;
use crate::phases::GameSettings;
use crate::phases::GamePhase;
use crate::phases::spec_end_turn;
use crate::player::PlayerBundle;
use crate::rng::shuffle_ids;
use crate::tile::TileBundle;

verus! {

/// A treasure token on the board.
#[derive(Debug, Clone, Copy, PartialEq, Eq, Structural)]
pub struct Treasure {
    pub id: i32,
}

/// A treasure as it lives in the game: identity and grid position.
#[derive(Debug, Clone, Copy, PartialEq, Eq, Structural)]
pub struct TreasureBundle {
    pub treasure: Treasure,
    pub pos: GridPosition,
}

/// The to-be-collected treasure queue of each player, indexed by player
/// id. The current objective of a player is the last element of their
/// queue.
#[derive(Debug, Clone)]
pub struct TreasureLists {
    pub lists: Vec<Vec<i32>>,
}

/// The already-collected treasure ids of each player, indexed by player
/// id, in collection order.
#[derive(Debug, Clone)]
pub struct CollectedLists {
    pub lists: Vec<Vec<i32>>,
}

impl CollectedLists {
    /// The collected lists as a sequence of sequences of ids.
    pub open spec fn view_lists(self) -> Seq<Seq<i32>> {
        self.lists.deep_view()
    }
}

impl TreasureLists {
    /// The queues as a sequence of sequences of ids.
    pub open spec fn view_lists(self) -> Seq<Seq<i32>> {
        self.lists.deep_view()
    }
}

/// The deep view of a vector of id lists reads index-wise as the views
/// of its elements.
pub proof fn lemma_deep_view_index(lists: Vec<Vec<i32>>, i: int)
    requires
        0 <= i < lists@.len(),
    ensures
        lists.deep_view().len() == lists@.len(),
        lists.deep_view()[i] == lists@[i]@,
{
    assert(lists.deep_view()[i] =~= lists@[i]@);
}

/// All of the players' id lists laid end to end, in player order.
pub open spec fn spec_concat_lists(lists: Seq<Seq<i32>>) -> Seq<i32>
    decreases lists.len(),
{
    if lists.len() == 0 {
        Seq::empty()
    } else {
        lists[0] + spec_concat_lists(lists.drop_first())
    }
}

proof fn lemma_concat_push(lists: Seq<Seq<i32>>, c: Seq<i32>)
    ensures
        spec_concat_lists(lists.push(c)) == spec_concat_lists(lists) + c,
    decreases lists.len(),
{
    if lists.len() == 0 {
        assert(lists.push(c)[0] == c);
        assert(lists.push(c).drop_first() =~= Seq::<Seq<i32>>::empty());
        assert(spec_concat_lists(Seq::<Seq<i32>>::empty()) == Seq::<i32>::empty());
        assert(spec_concat_lists(lists.push(c)) == c + Seq::<i32>::empty());
        assert(c + Seq::<i32>::empty() =~= Seq::<i32>::empty() + c);
        assert(spec_concat_lists(lists) == Seq::<i32>::empty());
    } else {
        assert(lists.push(c)[0] == lists[0]);
        assert(lists.push(c).drop_first() =~= lists.drop_first().push(c));
        lemma_concat_push(lists.drop_first(), c);
        assert(lists[0] + (spec_concat_lists(lists.drop_first()) + c) =~= (lists[0]
            + spec_concat_lists(lists.drop_first())) + c);
    }
}

/// The ids `0, 1, ..., total - 1` in order: every treasure id of a game
/// with that many treasures.
pub open spec fn spec_id_range(total: int) -> Seq<i32> {
    Seq::new(total as nat, |i: int| i as i32)
}

/// Deal the treasure objectives for a new game: the ids of all `num
/// players * treasures each` treasures, shuffled, are split into equal
/// contiguous chunks, one queue per player; every collected list starts
/// empty. Whatever the shuffle returned, the queues are a partition of
/// all treasure ids: laid end to end they hold exactly the ids `0` to
/// `total - 1`, each once.
pub fn init_treasure_lists(settings: &GameSettings, rng: &mut rand::rngs::ThreadRng) -> (r: (
    TreasureLists,
    CollectedLists,
))
    requires
        settings.wf(),
        settings.num_players * settings.treasures_to_get <= i32::MAX,
    ensures
        r.0.lists@.len() == settings.num_players,
        r.1.lists@.len() == settings.num_players,
        forall|p: int|
            0 <= p < settings.num_players ==> (#[trigger] r.0.view_lists()[p]).len()
                == settings.treasures_to_get,
        forall|p: int|
            0 <= p < settings.num_players ==> (#[trigger] r.1.view_lists()[p]).len() == 0,
        spec_concat_lists(r.0.view_lists()).to_multiset() == spec_id_range(
            settings.num_players * settings.treasures_to_get,
        ).to_multiset(),
{
    let total: i32 = settings.num_players * settings.treasures_to_get;
    proof {
        assert(settings.num_players * settings.treasures_to_get >= 0) by (nonlinear_arith)
            requires
                settings.num_players >= 1,
                settings.treasures_to_get >= 0,
        ;
    }

    let mut all_treasure_ids: Vec<i32> = Vec::new();
    let mut id: i32 = 0;
    while id < total
        invariant
            0 <= id <= total,
            all_treasure_ids@ =~= spec_id_range(id as int),
        decreases total - id,
    {
        all_treasure_ids.push(id);
        proof {
            assert(spec_id_range(id + 1) =~= spec_id_range(id as int).push(id as i32));
        }
        id = id + 1;
    }
    shuffle_ids(&mut all_treasure_ids, rng);
    let ghost shuffled = all_treasure_ids@;

    let t = settings.treasures_to_get;
    let mut treasure_lists: Vec<Vec<i32>> = Vec::new();
    let mut collected_lists: Vec<Vec<i32>> = Vec::new();
    let mut p: i32 = 0;
    while p < settings.num_players
        invariant
            settings.wf(),
            t == settings.treasures_to_get,
            total == settings.num_players * settings.treasures_to_get,
            0 <= p <= settings.num_players,
            all_treasure_ids@ == shuffled,
            shuffled.len() == total,
            treasure_lists@.len() == p,
            collected_lists@.len() == p,
            forall|q: int| 0 <= q < p ==> (#[trigger] treasure_lists@[q])@.len() == t,
            forall|q: int| 0 <= q < p ==> (#[trigger] collected_lists@[q])@.len() == 0,
            spec_concat_lists(treasure_lists.deep_view()) =~= shuffled.take(p * t),
        decreases settings.num_players - p,
    {
        proof {
            assert((p + 1) * t == p * t + t) by (nonlinear_arith);
            assert(0 <= p * t && p * t + t <= total) by (nonlinear_arith)
                requires
                    0 <= p < settings.num_players,
                    0 <= t,
                    total == settings.num_players * t,
            ;
        }
        let start: i32 = p * t;
        let mut chunk: Vec<i32> = Vec::new();
        let mut j: i32 = 0;
        while j < t
            invariant
                0 <= j <= t,
                0 <= start,
                start + t <= total,
                all_treasure_ids@ == shuffled,
                shuffled.len() == total,
                chunk@ =~= shuffled.subrange(start as int, start + j),
            decreases t - j,
        {
            chunk.push(all_treasure_ids[(start + j) as usize]);
            proof {
                assert(shuffled.subrange(start as int, start + j + 1) =~= shuffled.subrange(
                    start as int,
                    start + j,
                ).push(shuffled[start + j]));
            }
            j = j + 1;
        }
        let ghost old_deep = treasure_lists.deep_view();
        let ghost chunk_view = chunk@;
        treasure_lists.push(chunk);
        collected_lists.push(Vec::new());
        proof {
            assert(treasure_lists.deep_view() =~~= old_deep.push(chunk_view));
            lemma_concat_push(old_deep, chunk_view);
            assert(shuffled.take(p * t) + shuffled.subrange(p * t, p * t + t) =~= shuffled.take(
                (p + 1) * t,
            ));
        }
        p = p + 1;
    }
    let result = (TreasureLists { lists: treasure_lists }, CollectedLists { lists: collected_lists });
    proof {
        assert(shuffled.take(settings.num_players * settings.treasures_to_get) =~= shuffled);
        assert forall|q: int|
            0 <= q < settings.num_players implies (#[trigger] result.0.view_lists()[q]).len()
            == settings.treasures_to_get by {
            lemma_deep_view_index(result.0.lists, q);
        }
        assert forall|q: int|
            0 <= q < settings.num_players implies (#[trigger] result.1.view_lists()[q]).len()
            == 0 by {
            lemma_deep_view_index(result.1.lists, q);
        }
    }
    result
}

/// A treasure token placed at `(x_pos, y_pos)`.
pub fn spawn_treasure(id: i32, x_pos: i32, y_pos: i32) -> (r: TreasureBundle)
    ensures
        r.treasure.id == id,
        r.pos == (GridPosition { x_pos, y_pos }),
{
    TreasureBundle { treasure: Treasure { id }, pos: GridPosition { x_pos, y_pos } }
}

/// Drop both lists, as happens when a game is left for the menu.
pub fn reset_lists(treasure_lists: &mut TreasureLists, collected_lists: &mut CollectedLists)
    ensures
        final(treasure_lists).lists@.len() == 0,
        final(collected_lists).lists@.len() == 0,
{
    treasure_lists.lists = Vec::new();
    collected_lists.lists = Vec::new();
}

/// The index of the first player with id `id`, or the sequence's length
/// when there is none.
pub open spec fn spec_find_player(players: Seq<PlayerBundle>, id: i32) -> int
    decreases players.len(),
{
    if players.len() == 0 {
        0
    } else if players[0].player.id == id {
        0
    } else {
        1 + spec_find_player(players.drop_first(), id)
    }
}

proof fn lemma_find_player_props(players: Seq<PlayerBundle>, id: i32)
    ensures
        0 <= spec_find_player(players, id) <= players.len(),
        spec_find_player(players, id) < players.len() ==> players[spec_find_player(
            players,
            id,
        )].player.id == id,
        forall|j: int| 0 <= j < spec_find_player(players, id) ==> players[j].player.id != id,
    decreases players.len(),
{
    if players.len() > 0 && players[0].player.id != id {
        lemma_find_player_props(players.drop_first(), id);
        assert forall|j: int|
            0 <= j < spec_find_player(players, id) implies players[j].player.id != id by {
            if j >= 1 {
                assert(players.drop_first()[j - 1] == players[j]);
            }
        }
    }
}

/// The index of the first treasure that the player standing at `ppos`
/// may collect — one on the player's cell whose id is the last element
/// of the player's queue — or the sequence's length when there is none.
pub open spec fn spec_find_collectible(
    treasures: Seq<TreasureBundle>,
    ppos: GridPosition,
    queue: Seq<i32>,
) -> int
    decreases treasures.len(),
{
    if treasures.len() == 0 {
        0
    } else if treasures[0].pos == ppos && queue.len() > 0 && treasures[0].treasure.id
        == queue.last() {
        0
    } else {
        1 + spec_find_collectible(treasures.drop_first(), ppos, queue)
    }
}

proof fn lemma_find_collectible_props(treasures: Seq<TreasureBundle>, ppos: GridPosition, queue: Seq<i32>)
    ensures
        0 <= spec_find_collectible(treasures, ppos, queue) <= treasures.len(),
        spec_find_collectible(treasures, ppos, queue) < treasures.len() ==> {
            let k = spec_find_collectible(treasures, ppos, queue);
            treasures[k].pos == ppos && queue.len() > 0 && treasures[k].treasure.id == queue.last()
        },
        forall|j: int|
            0 <= j < spec_find_collectible(treasures, ppos, queue) ==> !(treasures[j].pos == ppos
                && queue.len() > 0 && treasures[j].treasure.id == queue.last()),
    decreases treasures.len(),
{
    if treasures.len() > 0 && !(treasures[0].pos == ppos && queue.len() > 0
        && treasures[0].treasure.id == queue.last()) {
        lemma_find_collectible_props(treasures.drop_first(), ppos, queue);
        assert forall|j: int|
            0 <= j < spec_find_collectible(treasures, ppos, queue) implies !(treasures[j].pos
            == ppos && queue.len() > 0 && treasures[j].treasure.id == queue.last()) by {
            if j >= 1 {
                assert(treasures.drop_first()[j - 1] == treasures[j]);
            }
        }
    }
}

/// Collect a treasure for the player whose turn it is, when they stand
/// on one and it is the current objective — the last element of their
/// queue. A treasure on the player's cell whose id sits anywhere else
/// in the queue has no effect: collecting out of order is impossible.
/// On collection the id moves from the queue's back to the collected
/// list, the treasure token disappears, and the turn advances at once.
/// Nothing is collected once the game has ended, and no one but the
/// current player ever collects.
pub fn collect_treasure(
    players: &Vec<PlayerBundle>,
    treasures: &mut Vec<TreasureBundle>,
    treasure_lists: &mut TreasureLists,
    collected_lists: &mut CollectedLists,
    game_state: &mut GamePhase,
    settings: &GameSettings,
)
    requires
        settings.wf(),
        old(treasure_lists).lists@.len() == settings.num_players,
        old(collected_lists).lists@.len() == settings.num_players,
        0 <= old(game_state).current_player_id < settings.num_players,
    ensures
        0 <= final(game_state).current_player_id < settings.num_players,
        ({
            let cur = old(game_state).current_player_id;
            let pi = spec_find_player(players@, cur);
            let queue = old(treasure_lists).view_lists()[cur as int];
            let ti = spec_find_collectible(old(treasures)@, players@[pi].pos, queue);
            let hit = !old(game_state).has_ended && pi < players@.len()
                && ti < old(treasures)@.len();
            &&& (!hit ==> {
                &&& final(treasures)@ == old(treasures)@
                &&& final(treasure_lists).lists@ == old(treasure_lists).lists@
                &&& final(collected_lists).lists@ == old(collected_lists).lists@
                &&& *final(game_state) == *old(game_state)
            })
            &&& (hit ==> {
                &&& final(treasures)@ == old(treasures)@.remove(ti)
                &&& final(treasure_lists).lists@.len() == settings.num_players
                &&& final(collected_lists).lists@.len() == settings.num_players
                &&& forall|q: int|
                    0 <= q < settings.num_players && q != cur ==> (#[trigger] final(treasure_lists).view_lists()[q])
                        == old(treasure_lists).view_lists()[q]
                        && final(collected_lists).view_lists()[q]
                        == old(collected_lists).view_lists()[q]
                &&& final(treasure_lists).view_lists()[cur as int] == queue.drop_last()
                &&& final(collected_lists).view_lists()[cur as int]
                    == old(collected_lists).view_lists()[cur as int].push(queue.last())
                &&& *final(game_state) == spec_end_turn(
                    *old(game_state),
                    final(collected_lists).view_lists(),
                    settings.num_players as int,
                    settings.treasures_to_get as int,
                )
            })
        }),
{
    if game_state.has_ended {
        return ;
    }
    let cur = game_state.current_player_id;
    let ghost queue = treasure_lists.view_lists()[cur as int];
    proof {
        lemma_find_player_props(players@, cur);
        lemma_deep_view_index(treasure_lists.lists, cur as int);
    }

    let mut pi: usize = 0;
    while pi < players.len() && players[pi].player.id != cur
        invariant
            pi <= players@.len(),
            forall|j: int| 0 <= j < pi ==> players@[j].player.id != cur,
        decreases players@.len() - pi,
    {
        pi = pi + 1;
    }
    proof {
        if pi < players@.len() {
            assert(players@[pi as int].player.id == cur);
            assert(pi == spec_find_player(players@, cur));
        } else {
            assert(spec_find_player(players@, cur) == players@.len());
        }
    }
    if pi == players.len() {
        return ;
    }
    let ppos = players[pi].pos;
    proof {
        lemma_find_collectible_props(treasures@, ppos, queue);
    }

    let cur_idx = cur as usize;
    let qlen = treasure_lists.lists[cur_idx].len();
    let mut ti: usize = 0;
    while ti < treasures.len() && !(treasures[ti].pos == ppos && qlen > 0
        && treasure_lists.lists[cur_idx][qlen - 1] == treasures[ti].treasure.id)
        invariant
            ti <= treasures@.len(),
            treasures@ == old(treasures)@,
            treasure_lists.lists@ == old(treasure_lists).lists@,
            cur_idx == cur as int,
            0 <= cur < settings.num_players,
            treasure_lists.lists@.len() == settings.num_players,
            qlen == treasure_lists.lists@[cur as int]@.len(),
            queue == treasure_lists.view_lists()[cur as int],
            queue == treasure_lists.lists@[cur as int]@,
            forall|j: int|
                0 <= j < ti ==> !((#[trigger] treasures@[j]).pos == ppos && queue.len() > 0
                    && treasures@[j].treasure.id == queue.last()),
        decreases treasures@.len() - ti,
    {
        ti = ti + 1;
    }
    proof {
        if ti < treasures@.len() {
            assert(ti == spec_find_collectible(treasures@, ppos, queue));
        } else {
            assert(spec_find_collectible(treasures@, ppos, queue) == treasures@.len());
        }
    }
    if ti == treasures.len() {
        return ;
    }

    let _removed = treasures.remove(ti);

    let ghost lists0 = treasure_lists.lists@;
    let mut inner = treasure_lists.lists.remove(cur_idx);
    let popped = inner.pop();
    let just_collected = match popped {
        Some(v) => v,
        None => 0,
    };
    treasure_lists.lists.insert(cur_idx, inner);
    proof {
        assert(treasure_lists.lists@ =~= lists0.update(cur as int, treasure_lists.lists@[cur as int]));
        assert(treasure_lists.lists@[cur as int]@ =~= queue.drop_last());
        assert forall|q: int|
            0 <= q < settings.num_players && q != cur implies (#[trigger] treasure_lists.view_lists()[
            q]) == old(treasure_lists).view_lists()[q] by {
            lemma_deep_view_index(treasure_lists.lists, q);
            lemma_deep_view_index(old(treasure_lists).lists, q);
        }
        lemma_deep_view_index(treasure_lists.lists, cur as int);
    }

    let ghost clists0 = collected_lists.lists@;
    let ghost cqueue0 = collected_lists.view_lists()[cur as int];
    proof {
        lemma_deep_view_index(collected_lists.lists, cur as int);
    }
    let mut cinner = collected_lists.lists.remove(cur_idx);
    cinner.push(just_collected);
    collected_lists.lists.insert(cur_idx, cinner);
    proof {
        assert(collected_lists.lists@ =~= clists0.update(cur as int, collected_lists.lists@[cur as int]));
        assert(collected_lists.lists@[cur as int]@ =~= cqueue0.push(queue.last()));
        assert forall|q: int|
            0 <= q < settings.num_players && q != cur implies (#[trigger] collected_lists.view_lists()[
            q]) == old(collected_lists).view_lists()[q] by {
            lemma_deep_view_index(collected_lists.lists, q);
            lemma_deep_view_index(old(collected_lists).lists, q);
        }
        lemma_deep_view_index(collected_lists.lists, cur as int);
    }

    let _ = crate::phases::end_turn(game_state, collected_lists, settings);
}

/// Whether the first `k` treasures and the avoided cells between them
/// already take up every on-board cell — the only situation in which a
/// randomly placed treasure can land on an occupied or avoided cell.
pub open spec fn spec_treasures_cover_board(
    treasures: Seq<TreasureBundle>,
    k: int,
    avoid: Seq<GridPosition>,
    cols: int,
    rows: int,
) -> bool {
    forall|p: GridPosition|
        #![trigger p.x_pos, p.y_pos]
        0 <= p.x_pos < cols && 0 <= p.y_pos < rows ==> ((exists|j: int|
            0 <= j < k && (#[trigger] treasures[j]).pos == p) || avoid.contains(p))
}

proof fn lemma_treasures_cover_board_push(
    treasures: Seq<TreasureBundle>,
    extra: TreasureBundle,
    k: int,
    avoid: Seq<GridPosition>,
    cols: int,
    rows: int,
)
    requires
        0 <= k <= treasures.len(),
        spec_treasures_cover_board(treasures, k, avoid, cols, rows),
    ensures
        spec_treasures_cover_board(treasures.push(extra), k, avoid, cols, rows),
{
    assert forall|p: GridPosition|
        #![trigger p.x_pos, p.y_pos]
        0 <= p.x_pos < cols && 0 <= p.y_pos < rows implies ((exists|j: int|
        0 <= j < k && (#[trigger] treasures.push(extra)[j]).pos == p) || avoid.contains(p)) by {
        if !avoid.contains(p) {
            let j0 = choose|j0: int| 0 <= j0 < k && (#[trigger] treasures[j0]).pos == p;
            assert(treasures.push(extra)[j0] == treasures[j0]);
        }
    }
}

/// Spawn all `num_players * treasures_to_get` treasure tokens for a new
/// game, ids `0` upward: each takes the board template's fixed treasure
/// position of its rank while one is given; the rest land on random
/// on-board cells, each on a cell holding no fixed player spawn and no
/// earlier treasure, unless those together already cover the board.
pub fn spawn_all_treasures(
    settings: &GameSettings,
    selected_board: &crate::board::SelectedBoard,
    rng: &mut rand::rngs::ThreadRng,
) -> (r: Vec<TreasureBundle>)
    requires
        settings.wf(),
        selected_board.board.wf(),
        settings.num_players * settings.treasures_to_get <= i32::MAX,
    ensures
        r@.len() == settings.num_players * settings.treasures_to_get,
        forall|k: int|
            0 <= k < r@.len() ==> {
                let tp = selected_board.board.treasure_positions@;
                let spawns = crate::actors::spec_fixed_spawns(
                    selected_board.board.spawn_positions@,
                );
                let cols = selected_board.board.cols as int;
                let rows = selected_board.board.rows as int;
                &&& (#[trigger] r@[k]).treasure.id == k
                &&& (k < tp.len() ==> match tp[k] {
                    crate::actors::SpawnPosition::Position(p) => r@[k].pos == p,
                    crate::actors::SpawnPosition::Any => 0 <= r@[k].pos.x_pos < cols && 0
                        <= r@[k].pos.y_pos < rows,
                })
                &&& (k >= tp.len() ==> 0 <= r@[k].pos.x_pos < cols && 0 <= r@[k].pos.y_pos < rows)
                &&& ((k >= tp.len() || tp[k] is Any) ==> (((forall|j: int|
                    0 <= j < k ==> (#[trigger] r@[j]).pos != r@[k].pos) && !spawns.contains(
                    r@[k].pos,
                )) || spec_treasures_cover_board(r@, k, spawns, cols, rows)))
            },
{
    proof {
        assert(settings.num_players * settings.treasures_to_get >= 0) by (nonlinear_arith)
            requires
                settings.num_players >= 1,
                settings.treasures_to_get >= 0,
        ;
    }
    let total: i32 = settings.num_players * settings.treasures_to_get;
    let num_set_pos = selected_board.board.treasure_positions.len();
    let ghost sps = selected_board.board.spawn_positions@;

    // the template's fixed player spawns, which treasures avoid
    let mut all_player_spawns: Vec<GridPosition> = Vec::new();
    let mut s: usize = 0;
    while s < selected_board.board.spawn_positions.len()
        invariant
            sps == selected_board.board.spawn_positions@,
            s <= sps.len(),
            all_player_spawns@ == crate::actors::spec_fixed_spawns(sps.take(s as int)),
        decreases sps.len() - s,
    {
        proof {
            assert(sps.take(s + 1).drop_last() =~= sps.take(s as int));
            assert(sps.take(s + 1).last() == sps[s as int]);
        }
        match selected_board.board.spawn_positions[s] {
            crate::actors::SpawnPosition::Position(p) => all_player_spawns.push(p),
            crate::actors::SpawnPosition::Any => (),
        }
        s = s + 1;
    }
    proof {
        assert(sps.take(sps.len() as int) =~= sps);
    }
    let ghost spawns = crate::actors::spec_fixed_spawns(sps);

    let mut used_pos: Vec<GridPosition> = Vec::new();
    let mut spawned: Vec<TreasureBundle> = Vec::new();
    let mut id: i32 = 0;
    while id < total
        invariant
            settings.wf(),
            selected_board.board.wf(),
            num_set_pos == selected_board.board.treasure_positions@.len(),
            sps == selected_board.board.spawn_positions@,
            all_player_spawns@ == spawns,
            spawns == crate::actors::spec_fixed_spawns(sps),
            0 <= id <= total,
            spawned@.len() == id,
            used_pos@.len() == spawned@.len(),
            forall|j: int| 0 <= j < spawned@.len() ==> used_pos@[j] == (#[trigger] spawned@[j]).pos,
            forall|k: int|
                0 <= k < spawned@.len() ==> {
                    let tp = selected_board.board.treasure_positions@;
                    let cols = selected_board.board.cols as int;
                    let rows = selected_board.board.rows as int;
                    &&& (#[trigger] spawned@[k]).treasure.id == k
                    &&& (k < tp.len() ==> match tp[k] {
                        crate::actors::SpawnPosition::Position(p) => spawned@[k].pos == p,
                        crate::actors::SpawnPosition::Any => 0 <= spawned@[k].pos.x_pos < cols && 0
                            <= spawned@[k].pos.y_pos < rows,
                    })
                    &&& (k >= tp.len() ==> 0 <= spawned@[k].pos.x_pos < cols && 0
                        <= spawned@[k].pos.y_pos < rows)
                    &&& ((k >= tp.len() || tp[k] is Any) ==> (((forall|j: int|
                        0 <= j < k ==> (#[trigger] spawned@[j]).pos != spawned@[k].pos)
                        && !spawns.contains(spawned@[k].pos)) || spec_treasures_cover_board(
                        spawned@,
                        k,
                        spawns,
                        cols,
                        rows,
                    )))
                },
        decreases total - id,
    {
        let ghost pre = spawned@;
        let ghost cols = selected_board.board.cols as int;
        let ghost rows = selected_board.board.rows as int;
        let idx = id as usize;
        let fixed: Option<GridPosition> = if idx < num_set_pos {
            match selected_board.board.treasure_positions[idx] {
                crate::actors::SpawnPosition::Position(p) => Some(p),
                crate::actors::SpawnPosition::Any => None,
            }
        } else {
            None
        };
        let pos = match fixed {
            Some(p) => p,
            None => match crate::actors::random_free_pos(
                selected_board,
                &used_pos,
                &all_player_spawns,
                rng,
            ) {
                Some(p) => {
                    proof {
                        assert forall|j: int| 0 <= j < pre.len() implies (#[trigger] pre[j]).pos
                            != p by {
                            if pre[j].pos == p {
                                assert(used_pos@[j] == p);
                                assert(used_pos@.contains(p));
                            }
                        }
                        assert(!spawns.contains(p));
                    }
                    p
                },
                None => {
                    proof {
                        assert forall|p: GridPosition|
                            #![trigger p.x_pos, p.y_pos]
                            0 <= p.x_pos < cols && 0 <= p.y_pos < rows implies ((exists|j: int|
                            0 <= j < pre.len() && (#[trigger] pre[j]).pos == p) || spawns.contains(
                            p,
                        )) by {
                            assert(used_pos@.contains(p) || all_player_spawns@.contains(p));
                            if used_pos@.contains(p) {
                                let i = choose|i: int|
                                    0 <= i < used_pos@.len() && used_pos@[i] == p;
                                assert(pre[i].pos == p);
                            }
                        }
                        assert(spec_treasures_cover_board(pre, pre.len() as int, spawns, cols, rows));
                    }
                    GridPosition {
                        x_pos: crate::actors::get_random_pos_on_axis(
                            crate::actors::GridAxis::X,
                            selected_board,
                            rng,
                        ),
                        y_pos: crate::actors::get_random_pos_on_axis(
                            crate::actors::GridAxis::Y,
                            selected_board,
                            rng,
                        ),
                    }
                },
            },
        };
        let b = spawn_treasure(id, pos.x_pos, pos.y_pos);
        spawned.push(b);
        used_pos.push(pos);
        proof {
            // earlier cover facts survive the push, since they speak only
            // of the untouched prefix
            assert forall|k: int|
                0 <= k <= pre.len() && spec_treasures_cover_board(
                    pre,
                    k,
                    spawns,
                    cols,
                    rows,
                ) implies spec_treasures_cover_board(spawned@, k, spawns, cols, rows) by {
                lemma_treasures_cover_board_push(pre, b, k, spawns, cols, rows);
            }
        }
        id = id + 1;
    }
    spawned
}

/// Whether any tile of the sequence sits off the board.
pub open spec fn spec_has_external(tiles: Seq<TileBundle>, max_x: int, max_y: int) -> bool {
    exists|i: int|
        0 <= i < tiles.len() && spec_is_external(
            (#[trigger] tiles[i]).pos.x_pos as int,
            tiles[i].pos.y_pos as int,
            max_x,
            max_y,
        )
}

proof fn lemma_has_external_step(tiles: Seq<TileBundle>, i: int, mx: int, my: int)
    requires
        0 <= i < tiles.len(),
    ensures
        spec_has_external(tiles.take(i + 1), mx, my) == (spec_has_external(tiles.take(i), mx, my)
            || spec_is_external(tiles[i].pos.x_pos as int, tiles[i].pos.y_pos as int, mx, my)),
{
    let s1 = tiles.take(i + 1);
    let s0 = tiles.take(i);
    if spec_has_external(s1, mx, my) {
        let k = choose|k: int|
            0 <= k < s1.len() && spec_is_external(
                (#[trigger] s1[k]).pos.x_pos as int,
                s1[k].pos.y_pos as int,
                mx,
                my,
            );
        if k < i {
            assert(s0[k] == s1[k]);
            assert(spec_is_external(s0[k].pos.x_pos as int, s0[k].pos.y_pos as int, mx, my));
            assert(spec_has_external(s0, mx, my));
        } else {
            assert(s1[k] == tiles[i]);
        }
    }
    if spec_has_external(s0, mx, my) {
        let k = choose|k: int|
            0 <= k < s0.len() && spec_is_external(
                (#[trigger] s0[k]).pos.x_pos as int,
                s0[k].pos.y_pos as int,
                mx,
                my,
            );
        assert(s1[k] == s0[k]);
        assert(spec_is_external(s1[k].pos.x_pos as int, s1[k].pos.y_pos as int, mx, my));
        assert(spec_has_external(s1, mx, my));
    }
    if spec_is_external(tiles[i].pos.x_pos as int, tiles[i].pos.y_pos as int, mx, my) {
        assert(s1[i] == tiles[i]);
        assert(spec_is_external(s1[i].pos.x_pos as int, s1[i].pos.y_pos as int, mx, my));
        assert(spec_has_external(s1, mx, my));
    }
}

/// Carry treasures along with the external tile: a treasure found off
/// the board (it sat on the tile that was evicted, or rides the spare)
/// takes the external tile's position, through the orbit and back onto
/// the board at the next push. On-board treasures never move here.
pub fn move_treasure_with_ext_tile(
    tiles: &Vec<TileBundle>,
    treasures: &mut Vec<TreasureBundle>,
    selected_board: &crate::board::SelectedBoard,
)
    requires
        selected_board.board.wf(),
    ensures
        final(treasures)@.len() == old(treasures)@.len(),
        ({
            let mx = selected_board.board.cols - 1;
            let my = selected_board.board.rows - 1;
            let has_ext = spec_has_external(tiles@, mx, my);
            forall|j: int|
                0 <= j < old(treasures)@.len() ==> {
                    let tr = old(treasures)@[j];
                    let follows = has_ext && spec_is_external(
                        tr.pos.x_pos as int,
                        tr.pos.y_pos as int,
                        mx,
                        my,
                    );
                    &&& (#[trigger] final(treasures)@[j]).treasure == tr.treasure
                    &&& (follows ==> final(treasures)@[j].pos
                        == crate::push::spec_external_entity_pos(tiles@, mx, my))
                    &&& (!follows ==> final(treasures)@[j].pos == tr.pos)
                }
        }),
{
    let (max_x, max_y) = get_max_coords(selected_board);
    let ghost mx = max_x as int;
    let ghost my = max_y as int;

    let mut ext_found = false;
    let mut ext_pos = GridPosition { x_pos: 0, y_pos: 0 };
    let mut i: usize = 0;
    while i < tiles.len()
        invariant
            i <= tiles@.len(),
            mx == max_x as int,
            my == max_y as int,
            ext_found == spec_has_external(tiles@.take(i as int), mx, my),
            ext_found ==> ext_pos == crate::push::spec_external_entity_pos(
                tiles@.take(i as int),
                mx,
                my,
            ),
        decreases tiles@.len() - i,
    {
        proof {
            assert(tiles@.take(i + 1).drop_last() =~= tiles@.take(i as int));
            assert(tiles@.take(i + 1).last() == tiles@[i as int]);
            lemma_has_external_step(tiles@, i as int, mx, my);
        }
        let t = tiles[i];
        if pos_is_external(&t.pos, max_x, max_y) {
            ext_found = true;
            ext_pos = t.pos;
        }
        i = i + 1;
    }
    proof {
        assert(tiles@.take(tiles@.len() as int) =~= tiles@);
    }

    if ext_found {
        let mut j: usize = 0;
        while j < treasures.len()
            invariant
                j <= treasures@.len(),
                treasures@.len() == old(treasures)@.len(),
                mx == max_x as int,
                my == max_y as int,
                ext_found,
                spec_has_external(tiles@, mx, my),
                ext_pos == crate::push::spec_external_entity_pos(tiles@, mx, my),
                forall|k: int| j <= k < treasures@.len() ==> treasures@[k] == old(treasures)@[k],
                forall|k: int|
                    0 <= k < j ==> {
                        let tr = old(treasures)@[k];
                        let follows = spec_is_external(tr.pos.x_pos as int, tr.pos.y_pos as int, mx, my);
                        &&& (#[trigger] treasures@[k]).treasure == tr.treasure
                        &&& (follows ==> treasures@[k].pos == ext_pos)
                        &&& (!follows ==> treasures@[k].pos == tr.pos)
                    },
            decreases treasures@.len() - j,
        {
            let mut tr = treasures[j];
            if pos_is_external(&tr.pos, max_x, max_y) {
                tr.pos = ext_pos;
                treasures.set(j, tr);
            }
            j = j + 1;
        }
    }
}

} // verus!

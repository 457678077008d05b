//! General laws of the engine, stated over the session model and proved
//! from the same spec functions the public contracts use.

use vstd::prelude::*;

use crate::distribute::corner_credits;
use crate::distribute::credits_upto;
use crate::distribute::hex_credit;
use crate::distribute::hex_produces;
use crate::distribute::occ_credit;
use crate::distribute::total_credit;
use crate::game::end_turn_post;
use crate::placement::neighbor_occupied;
use crate::placement::other_end;
use crate::placement::settlement_error;
use crate::placement::touches;
use crate::state::occupied;
use crate::state::vertices_adjacent;
use crate::state::resource_index;
use crate::state::GameState;
use crate::state::Occupant;

verus! {

/// The session after `t` legal end-turns (each preceded by its roll; only
/// the counter and the rolled-flag move, which is what `end_turn_post`
/// records).
pub open spec fn after_end_turns(s: GameState, t: nat) -> GameState
    decreases t,
{
    if t == 0 {
        s
    } else {
        end_turn_post(after_end_turns(s, (t - 1) as nat))
    }
}

/// End-turns only advance the counter: after `t` of them the counter has
/// grown by exactly `t`, and the player count is untouched.
pub proof fn lemma_end_turns_advance(s: GameState, t: nat)
    ensures
        after_end_turns(s, t).num_players == s.num_players,
        after_end_turns(s, t).turn_counter == s.turn_counter + t,
    decreases t,
{
    if t > 0 {
        lemma_end_turns_advance(s, (t - 1) as nat);
    }
}

/// Turn rotation: starting from a fresh counter, after `t` end-turns the
/// player in turn is `t` modulo the player count.
pub proof fn lemma_player_rotation(s: GameState, t: nat)
    requires
        s.num_players >= 1,
        s.turn_counter == 0,
    ensures
        after_end_turns(s, t).player_in_turn() == (t as int) % s.num_players,
{
    lemma_end_turns_advance(s, t);
}

/// `neighbor_occupied`, which the placement checks scan for, says exactly
/// that some vertex adjacent to `v` is occupied.
pub proof fn lemma_neighbor_occupied_is_adjacency(s: GameState, v: usize)
    ensures
        neighbor_occupied(s, v) <==> exists|u: int|
            #[trigger] vertices_adjacent(s, v as int, u) && occupied(s.vertex_occ[u]),
{
    if neighbor_occupied(s, v) {
        let e = choose|e: int|
            0 <= e < s.edges.len() && #[trigger] touches(s, e, v) && occupied(
                s.vertex_occ[other_end(s, e, v)],
            );
        let u = other_end(s, e, v);
        assert(0 <= e < s.edges.len() && ((s.edges[e].a == v as int && s.edges[e].b == u) || (
        s.edges[e].a == u && s.edges[e].b == v as int)));
        assert(vertices_adjacent(s, v as int, u));
    }
    if exists|u: int| #[trigger] vertices_adjacent(s, v as int, u) && occupied(s.vertex_occ[u]) {
        let u = choose|u: int|
            #[trigger] vertices_adjacent(s, v as int, u) && occupied(s.vertex_occ[u]);
        let e = choose|e: int|
            0 <= e < s.edges.len() && ((s.edges[e].a == v as int && s.edges[e].b == u) || (
            s.edges[e].a == u && s.edges[e].b == v as int));
        assert(touches(s, e, v));
        assert(other_end(s, e, v) == u);
        assert(neighbor_occupied(s, v));
    }
}

/// The distance rule decides settlement legality: with the setup override
/// active and a settlement piece in hand, placing at `v` fails exactly
/// when `v` itself or some vertex adjacent to `v` is occupied.
pub proof fn lemma_settlement_distance_rule(s: GameState, v: usize, p: usize)
    requires
        s.wf(),
        s.setup_phase,
        (v as int) < s.num_vertices,
        (p as int) < s.num_players,
        s.settlements_left[p as int] > 0,
    ensures
        settlement_error(s, v, p) is Some <==> (occupied(s.vertex_occ[v as int]) || exists|u: int|
            #[trigger] vertices_adjacent(s, v as int, u) && occupied(s.vertex_occ[u])),
{
    lemma_neighbor_occupied_is_adjacency(s, v);
}

/// Corner sums of three sessions alike but for vertex `w` — empty, an own
/// settlement, an own city — relate linearly: the city's surplus over the
/// empty session is twice the settlement's.
proof fn lemma_corner_credits_upgrade(
    s: GameState,
    sset: GameState,
    scity: GameState,
    w: int,
    h: int,
    j: int,
    p: usize,
)
    requires
        0 <= w < s.vertex_occ.len(),
        s.vertex_occ[w] is Empty,
        sset.vertex_occ == s.vertex_occ.update(w, Occupant::Settlement(p)),
        scity.vertex_occ == s.vertex_occ.update(w, Occupant::City(p)),
        sset.hex_vertices == s.hex_vertices,
        scity.hex_vertices == s.hex_vertices,
        forall|i: int|
            0 <= i < s.hex_vertices.len() ==> (#[trigger] s.hex_vertices[i] as int)
                < s.vertex_occ.len(),
        0 <= h,
        0 <= j,
        6 * h + j <= s.hex_vertices.len(),
    ensures
        corner_credits(scity, h, j, p as int) - corner_credits(s, h, j, p as int) == 2 * (
        corner_credits(sset, h, j, p as int) - corner_credits(s, h, j, p as int)),
    decreases j,
{
    if j > 0 {
        lemma_corner_credits_upgrade(s, sset, scity, w, h, j - 1, p);
        let u = s.hex_vertices[6 * h + (j - 1)] as int;
        if u == w {
            assert(occ_credit(sset.vertex_occ[u], p as int) == 1);
            assert(occ_credit(scity.vertex_occ[u], p as int) == 2);
            assert(occ_credit(s.vertex_occ[u], p as int) == 0);
        } else {
            assert(sset.vertex_occ[u] == s.vertex_occ[u]);
            assert(scity.vertex_occ[u] == s.vertex_occ[u]);
        }
    }
}

/// The previous relation lifted over a prefix of the hexes.
proof fn lemma_credits_upto_upgrade(
    s: GameState,
    sset: GameState,
    scity: GameState,
    w: int,
    roll: int,
    hh: int,
    p: usize,
    k: int,
)
    requires
        s.wf(),
        0 <= w < s.vertex_occ.len(),
        s.vertex_occ[w] is Empty,
        sset == (GameState { vertex_occ: s.vertex_occ.update(w, Occupant::Settlement(p)), ..s }),
        scity == (GameState { vertex_occ: s.vertex_occ.update(w, Occupant::City(p)), ..s }),
        0 <= hh <= s.num_hexes(),
    ensures
        credits_upto(scity, roll, hh, p as int, k) - credits_upto(s, roll, hh, p as int, k) == 2 * (
        credits_upto(sset, roll, hh, p as int, k) - credits_upto(s, roll, hh, p as int, k)),
    decreases hh,
{
    if hh > 0 {
        lemma_credits_upto_upgrade(s, sset, scity, w, roll, hh - 1, p, k);
        lemma_corner_credits_upgrade(s, sset, scity, w, hh - 1, 6, p);
        assert(hex_produces(sset, roll, hh - 1) == hex_produces(s, roll, hh - 1));
        assert(hex_produces(scity, roll, hh - 1) == hex_produces(s, roll, hh - 1));
    }
}

/// A city yields exactly double a settlement: against the baseline of an
/// empty vertex `w`, an own city there adds to any distribution exactly
/// twice what an own settlement there adds, for every roll and kind.
pub proof fn lemma_city_doubles_settlement_yield(s: GameState, w: int, p: usize, roll: int, k: int)
    requires
        s.wf(),
        0 <= w < s.num_vertices,
        s.vertex_occ[w] is Empty,
    ensures
        ({
            let sset = GameState { vertex_occ: s.vertex_occ.update(w, Occupant::Settlement(p)), ..s };
            let scity = GameState { vertex_occ: s.vertex_occ.update(w, Occupant::City(p)), ..s };
            total_credit(scity, roll, p as int, k) - total_credit(s, roll, p as int, k) == 2 * (
            total_credit(sset, roll, p as int, k) - total_credit(s, roll, p as int, k))
        }),
{
    let sset = GameState { vertex_occ: s.vertex_occ.update(w, Occupant::Settlement(p)), ..s };
    let scity = GameState { vertex_occ: s.vertex_occ.update(w, Occupant::City(p)), ..s };
    lemma_credits_upto_upgrade(s, sset, scity, w, roll, s.num_hexes(), p, k);
}

/// The robbed hex yields nothing, whatever was rolled and whoever built
/// on its corners.
pub proof fn lemma_robbed_hex_yields_nothing(s: GameState, roll: int, p: int, k: int)
    ensures
        hex_credit(s, roll, s.robber, p, k) == 0,
{
}

/// Corners that credit a player nothing sum to nothing.
proof fn lemma_corner_credits_zero(s: GameState, h: int, j: int, p: int)
    requires
        forall|jj: int|
            0 <= jj < j ==> occ_credit(
                s.vertex_occ[(#[trigger] s.hex_vertices[6 * h + jj]) as int],
                p,
            ) == 0,
    ensures
        corner_credits(s, h, j, p) == 0,
    decreases j,
{
    if j > 0 {
        lemma_corner_credits_zero(s, h, j - 1, p);
    }
}

/// Helper induction for `lemma_distribution_credits_only_owners`, over a
/// prefix of the hexes.
proof fn lemma_credits_upto_zero(s: GameState, roll: int, hh: int, p: int, k: int)
    requires
        forall|h: int, jj: int|
            0 <= h < s.num_hexes() && 0 <= jj < 6 && hex_produces(s, roll, h) ==> occ_credit(
                s.vertex_occ[(#[trigger] s.hex_vertices[6 * h + jj]) as int],
                p,
            ) == 0,
        hh <= s.num_hexes(),
    ensures
        credits_upto(s, roll, hh, p, k) == 0,
    decreases hh,
{
    if hh > 0 {
        lemma_credits_upto_zero(s, roll, hh - 1, p, k);
        if hex_produces(s, roll, hh - 1) && resource_index(s.hex_kind[hh - 1]) == k {
            lemma_corner_credits_zero(s, hh - 1, 6, p);
        }
    }
}

/// Distribution credits only owners: a player without a settlement or
/// city on any corner of any hex producing for this roll receives
/// nothing, in any resource kind.
pub proof fn lemma_distribution_credits_only_owners(s: GameState, roll: int, p: int, k: int)
    requires
        forall|h: int, jj: int|
            0 <= h < s.num_hexes() && 0 <= jj < 6 && hex_produces(s, roll, h) ==> occ_credit(
                s.vertex_occ[(#[trigger] s.hex_vertices[6 * h + jj]) as int],
                p,
            ) == 0,
    ensures
        total_credit(s, roll, p, k) == 0,
{
    lemma_credits_upto_zero(s, roll, s.num_hexes(), p, k);
}

} // verus!

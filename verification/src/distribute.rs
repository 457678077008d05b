//! Resource distribution: for a dice total, every hex whose production
//! number equals the total and which is not under the robber credits each
//! settlement on its corners with one unit of its terrain's resource, and
//! each city with two.

use vstd::prelude::*;

use crate::game::Game;
use crate::game::GameImpl;
use crate::state::resource_index;
use crate::state::GameState;
use crate::state::Occupant;
use crate::state::Terrain;

verus! {

/// Units a corner occupant yields to player `p`: one for an own
/// settlement, two for an own city, nothing otherwise.
pub open spec fn occ_credit(o: Occupant, p: int) -> nat {
    match o {
        Occupant::Empty => 0,
        Occupant::Settlement(q) => if q == p {
            1
        } else {
            0
        },
        Occupant::City(q) => if q == p {
            2
        } else {
            0
        },
    }
}

/// Addition on a resource count, capped at the largest representable
/// count rather than wrapping.
pub open spec fn sat_add(a: u64, b: nat) -> u64 {
    if a + b > u64::MAX {
        u64::MAX
    } else {
        (a + b) as u64
    }
}

/// Units the first `j` corners of hex `h` yield to player `p`.
pub open spec fn corner_credits(s: GameState, h: int, j: int, p: int) -> nat
    decreases j,
{
    if j <= 0 {
        0
    } else {
        corner_credits(s, h, j - 1, p) + occ_credit(
            s.vertex_occ[s.hex_vertices[6 * h + (j - 1)] as int],
            p,
        )
    }
}

/// Does hex `h` produce on this roll: its number equals the total and the
/// robber stands elsewhere.
pub open spec fn hex_produces(s: GameState, roll: int, h: int) -> bool {
    match s.hex_number[h] {
        Some(n) => n == roll && s.robber != h,
        None => false,
    }
}

/// Units hex `h` yields to player `p` in resource kind `k` on this roll.
pub open spec fn hex_credit(s: GameState, roll: int, h: int, p: int, k: int) -> nat {
    if hex_produces(s, roll, h) && resource_index(s.hex_kind[h]) == k {
        corner_credits(s, h, 6, p)
    } else {
        0
    }
}

/// Units the first `h` hexes yield to player `p` in kind `k`.
pub open spec fn credits_upto(s: GameState, roll: int, h: int, p: int, k: int) -> nat
    decreases h,
{
    if h <= 0 {
        0
    } else {
        credits_upto(s, roll, h - 1, p, k) + hex_credit(s, roll, h - 1, p, k)
    }
}

/// Units the whole board yields to player `p` in kind `k` on this roll.
pub open spec fn total_credit(s: GameState, roll: int, p: int, k: int) -> nat {
    credits_upto(s, roll, s.num_hexes(), p, k)
}

/// The session after distributing for `roll`: each resource cell grows by
/// the board's yield for its player and kind, capped; nothing else moves.
pub open spec fn distribute_post(s: GameState, roll: int) -> GameState {
    GameState {
        resources: Seq::new(
            s.resources.len(),
            |i: int| sat_add(s.resources[i], total_credit(s, roll, i / 5, i % 5)),
        ),
        ..s
    }
}

/// The session after a legal roll of `roll`: distribution, and the
/// rolled-flag set.
pub open spec fn roll_post(s: GameState, roll: int) -> GameState {
    GameState { dice_rolled: true, ..distribute_post(s, roll) }
}

/// Saturating addition folds: adding in two steps is adding the sum.
proof fn lemma_sat_add_chain(a: u64, x: nat, y: nat)
    requires
        y >= 1,
    ensures
        sat_add(sat_add(a, x), y) == sat_add(a, x + y),
{
}

/// The exec index of a terrain among the resource kinds.
fn terrain_index(t: Terrain) -> (r: usize)
    ensures
        r == resource_index(t),
{
    match t {
        Terrain::Brick => 0,
        Terrain::Lumber => 1,
        Terrain::Wool => 2,
        Terrain::Grain => 3,
        Terrain::Ore => 4,
        Terrain::Desert => 5,
    }
}

impl GameImpl {
    /// Distribute the production of a given dice total: the computing half
    /// of a roll, deterministic in the total, so a host may also drive it
    /// directly. It does not deduplicate: the turn engine's rolled-flag is
    /// what limits it to once per roll.
    #[verifier::loop_isolation(false)]
    pub fn distribute_for_roll(&mut self, roll: usize)
        requires
            old(self).model().wf(),
            2 <= roll <= 12,
        ensures
            final(self).model() == distribute_post(old(self).model(), roll as int),
            final(self).model().wf(),
    {
        let ghost s = old(self).model();
        let nh = self.hex_kind.len();
        let mut h: usize = 0;
        while h < nh
            invariant
                h <= nh,
                self.hex_kind@ == s.hex_kind,
                self.hex_number@ == s.hex_number,
                self.hex_vertices@ == s.hex_vertices,
                self.hex_adjacent@ == s.hex_adjacent,
                self.hex_edges@ == s.hex_edges,
                self.edges@ == s.edges,
                self.vertex_occ@ == s.vertex_occ,
                self.edge_occ@ == s.edge_occ,
                self.roads_left@ == s.roads_left,
                self.settlements_left@ == s.settlements_left,
                self.cities_left@ == s.cities_left,
                self.num_players == s.num_players,
                self.num_vertices == s.num_vertices,
                self.robber == s.robber,
                self.turn_counter == s.turn_counter,
                self.dice_rolled == s.dice_rolled,
                self.setup_phase == s.setup_phase,
                self.resources@.len() == s.resources.len(),
                forall|i: int|
                    0 <= i < s.resources.len() ==> self.resources@[i] == sat_add(
                        s.resources[i],
                        credits_upto(s, roll as int, h as int, i / 5, i % 5),
                    ),
            decreases nh - h,
        {
            let produces = match self.hex_number[h] {
                Some(n) => (n as usize) == roll && self.robber != h,
                None => false,
            };
            if produces {
                let k = terrain_index(self.hex_kind[h]);
                assert(k < 5);
                let mut j: usize = 0;
                while j < 6
                    invariant
                        j <= 6,
                        self.hex_kind@ == s.hex_kind,
                        self.hex_number@ == s.hex_number,
                        self.hex_vertices@ == s.hex_vertices,
                        self.hex_adjacent@ == s.hex_adjacent,
                        self.hex_edges@ == s.hex_edges,
                        self.edges@ == s.edges,
                        self.vertex_occ@ == s.vertex_occ,
                        self.edge_occ@ == s.edge_occ,
                        self.roads_left@ == s.roads_left,
                        self.settlements_left@ == s.settlements_left,
                        self.cities_left@ == s.cities_left,
                        self.num_players == s.num_players,
                        self.num_vertices == s.num_vertices,
                        self.robber == s.robber,
                        self.turn_counter == s.turn_counter,
                        self.dice_rolled == s.dice_rolled,
                        self.setup_phase == s.setup_phase,
                        self.resources@.len() == s.resources.len(),
                        forall|i: int|
                            0 <= i < s.resources.len() ==> self.resources@[i] == sat_add(
                                s.resources[i],
                                credits_upto(s, roll as int, h as int, i / 5, i % 5) + (if i % 5
                                    == k {
                                    corner_credits(s, h as int, j as int, i / 5)
                                } else {
                                    0
                                }),
                            ),
                    decreases 6 - j,
                {
                    assert(6 * h + j < s.hex_vertices.len());
                    let vid = self.hex_vertices[6 * h + j];
                    let owner: usize = match self.vertex_occ[vid] {
                        Occupant::Empty => 0,
                        Occupant::Settlement(q) => q,
                        Occupant::City(q) => q,
                    };
                    let credit: u64 = match self.vertex_occ[vid] {
                        Occupant::Empty => 0,
                        Occupant::Settlement(_) => 1,
                        Occupant::City(_) => 2,
                    };
                    if credit > 0 {
                        assert(owner < s.num_players);
                        let cell = 5 * owner + k;
                        let cur = self.resources[cell];
                        let next = if cur <= u64::MAX - credit {
                            cur + credit
                        } else {
                            u64::MAX
                        };
                        let slot = &mut self.resources[cell];
                        *slot = next;
                        proof {
                            let ghost ri = roll as int;
                            let ghost c = occ_credit(s.vertex_occ[vid as int], owner as int);
                            assert(c == credit);
                            lemma_sat_add_chain(
                                s.resources[cell as int],
                                credits_upto(s, ri, h as int, cell as int / 5, cell as int % 5) + (
                                if cell as int % 5 == k {
                                    corner_credits(s, h as int, j as int, cell as int / 5)
                                } else {
                                    0
                                }),
                                c,
                            );
                            assert(cell as int / 5 == owner as int && cell as int % 5 == k as int);
                            assert forall|i: int|
                                0 <= i < s.resources.len() implies self.resources@[i] == sat_add(
                                s.resources[i],
                                credits_upto(s, ri, h as int, i / 5, i % 5) + (if i % 5 == k {
                                    corner_credits(s, h as int, j as int + 1, i / 5)
                                } else {
                                    0
                                }),
                            ) by {
                                if i != cell as int && i % 5 == k {
                                    assert(i / 5 != owner as int);
                                    assert(occ_credit(s.vertex_occ[vid as int], i / 5) == 0);
                                }
                            }
                        }
                    } else {
                        proof {
                            assert forall|i: int|
                                0 <= i < s.resources.len() implies self.resources@[i] == sat_add(
                                s.resources[i],
                                credits_upto(s, roll as int, h as int, i / 5, i % 5) + (if i % 5
                                    == k {
                                    corner_credits(s, h as int, j as int + 1, i / 5)
                                } else {
                                    0
                                }),
                            ) by {
                                if i % 5 == k {
                                    assert(occ_credit(s.vertex_occ[vid as int], i / 5) == 0);
                                }
                            }
                        }
                    }
                    j = j + 1;
                }
                proof {
                    assert forall|i: int|
                        0 <= i < s.resources.len() implies self.resources@[i] == sat_add(
                        s.resources[i],
                        credits_upto(s, roll as int, h as int + 1, i / 5, i % 5),
                    ) by {
                        assert(hex_credit(s, roll as int, h as int, i / 5, i % 5) == (if i % 5 == k {
                            corner_credits(s, h as int, 6, i / 5)
                        } else {
                            0
                        }));
                    }
                }
            } else {
                proof {
                    assert forall|i: int|
                        0 <= i < s.resources.len() implies self.resources@[i] == sat_add(
                        s.resources[i],
                        credits_upto(s, roll as int, h as int + 1, i / 5, i % 5),
                    ) by {
                        assert(hex_credit(s, roll as int, h as int, i / 5, i % 5) == 0);
                    }
                }
            }
            h = h + 1;
        }
        proof {
            assert(self.model().resources =~= distribute_post(s, roll as int).resources);
            assert(self.model() =~= distribute_post(s, roll as int));
        }
    }
}

} // verus!

//! Board construction and read-only topology queries.
//!
//! The topology is validated once, at construction, and never mutated
//! afterwards: every later component only reads it. The terrain/number
//! layout is supplied by the host (the layout source is its concern); the
//! engine checks that what it is handed is consistent.

use vstd::prelude::*;

use crate::game::Game;
use crate::game::GameImpl;
use crate::game::CITIES_PER_PLAYER;
use crate::game::ROADS_PER_PLAYER;
use crate::game::SETTLEMENTS_PER_PLAYER;
use crate::state::GameState;
use crate::state::Edge;
use crate::state::Occupant;
use crate::state::RoadOccupant;
use crate::state::Terrain;

verus! {

/// Is a supplied layout acceptable? Exactly the conditions `try_new`
/// checks: consistent table sizes, in-range references, distinct edge
/// endpoints, and the numbering rule (a number in [2, 12] on every
/// producing hex, none on the desert).
pub open spec fn layout_ok(
    num_players: int,
    hex_kind: Seq<Terrain>,
    hex_number: Seq<Option<u8>>,
    hex_vertices: Seq<usize>,
    hex_adjacent: Seq<Option<usize>>,
    hex_edges: Seq<usize>,
    edges: Seq<Edge>,
    num_vertices: int,
) -> bool {
    let nh = hex_kind.len() as int;
    &&& 1 <= num_players <= 8
    &&& hex_number.len() == nh
    &&& hex_vertices.len() == 6 * nh
    &&& hex_adjacent.len() == 6 * nh
    &&& hex_edges.len() == 6 * nh
    &&& (forall|i: int| 0 <= i < 6 * nh ==> (#[trigger] hex_vertices[i] as int) < num_vertices)
    &&& (forall|i: int|
        0 <= i < 6 * nh ==> ((#[trigger] hex_adjacent[i]) is Some ==> (hex_adjacent[i]->0 as int)
            < nh))
    &&& (forall|i: int| 0 <= i < 6 * nh ==> (#[trigger] hex_edges[i] as int) < edges.len())
    &&& (forall|e: int|
        0 <= e < edges.len() ==> ((#[trigger] edges[e].a as int) < num_vertices && (
        edges[e].b as int) < num_vertices && edges[e].a != edges[e].b))
    &&& (forall|h: int|
        0 <= h < nh ==> match #[trigger] hex_number[h] {
            Some(n) => 2 <= n <= 12 && hex_kind[h] != Terrain::Desert,
            None => hex_kind[h] == Terrain::Desert,
        })
}

/// Does vertex `v` sit on a corner of hex `h`?
pub open spec fn hex_touches(s: GameState, h: int, v: usize) -> bool {
    exists|j: int| 0 <= j < 6 && (#[trigger] s.hex_vertices[6 * h + j]) == v
}

/// The session a fresh construction yields: the supplied topology, all
/// vertices and edges empty, full piece supplies, no resources, the
/// robber on the first hex, player 0 in turn awaiting the roll.
pub open spec fn init_state(
    num_players: int,
    hex_kind: Seq<Terrain>,
    hex_number: Seq<Option<u8>>,
    hex_vertices: Seq<usize>,
    hex_adjacent: Seq<Option<usize>>,
    hex_edges: Seq<usize>,
    edges: Seq<Edge>,
    num_vertices: int,
) -> GameState {
    GameState {
        num_players,
        hex_kind,
        hex_number,
        hex_vertices,
        hex_adjacent,
        hex_edges,
        edges,
        num_vertices,
        vertex_occ: Seq::new(num_vertices as nat, |i: int| Occupant::Empty),
        edge_occ: Seq::new(edges.len(), |i: int| RoadOccupant::Empty),
        resources: Seq::new((5 * num_players) as nat, |i: int| 0u64),
        roads_left: Seq::new(num_players as nat, |i: int| ROADS_PER_PLAYER),
        settlements_left: Seq::new(num_players as nat, |i: int| SETTLEMENTS_PER_PLAYER),
        cities_left: Seq::new(num_players as nat, |i: int| CITIES_PER_PLAYER),
        robber: 0,
        turn_counter: 0,
        dice_rolled: false,
        setup_phase: false,
    }
}

/// A vector of `n` copies of `x`.
fn filled<T: Copy>(n: usize, x: T) -> (v: Vec<T>)
    ensures
        v@ == Seq::new(n as nat, |i: int| x),
{
    let mut v: Vec<T> = Vec::new();
    while v.len() < n
        invariant
            v@.len() <= n,
            forall|i: int| 0 <= i < v@.len() ==> v@[i] == x,
        decreases n - v@.len(),
    {
        v.push(x);
    }
    proof {
        assert(v@ =~= Seq::new(n as nat, |i: int| x));
    }
    v
}

impl GameImpl {
    /// A fresh session for three players on an empty board, awaiting the
    /// host-supplied layout for anything spatial: player 0 is in turn and
    /// the dice have not been rolled.
    pub fn new() -> (g: GameImpl)
        ensures
            g.model() == init_state(3, Seq::empty(), Seq::empty(), Seq::empty(), Seq::empty(), Seq::empty(), Seq::empty(), 0),
            g.model().wf(),
    {
        let g = GameImpl {
            num_players: 3,
            hex_kind: Vec::new(),
            hex_number: Vec::new(),
            hex_vertices: Vec::new(),
            hex_adjacent: Vec::new(),
            hex_edges: Vec::new(),
            edges: Vec::new(),
            num_vertices: 0,
            vertex_occ: Vec::new(),
            edge_occ: Vec::new(),
            resources: filled(15, 0u64),
            roads_left: filled(3, ROADS_PER_PLAYER),
            settlements_left: filled(3, SETTLEMENTS_PER_PLAYER),
            cities_left: filled(3, CITIES_PER_PLAYER),
            robber: 0,
            turn_counter: 0,
            dice_rolled: false,
            setup_phase: false,
        };
        proof {
            assert(g.model() =~= init_state(
                3,
                Seq::empty(),
                Seq::empty(),
                Seq::empty(),
                Seq::empty(),
                Seq::empty(),
                Seq::empty(),
                0,
            ));
        }
        g
    }

    /// Build a session from a host-supplied layout, validating it whole:
    /// `Some` exactly when the layout is acceptable, and then the session
    /// starts fresh on that topology.
    #[verifier::loop_isolation(false)]
    pub fn try_new(
        num_players: usize,
        hex_kind: Vec<Terrain>,
        hex_number: Vec<Option<u8>>,
        hex_vertices: Vec<usize>,
        hex_adjacent: Vec<Option<usize>>,
        hex_edges: Vec<usize>,
        edges: Vec<Edge>,
        num_vertices: usize,
    ) -> (r: Option<GameImpl>)
        ensures
            r is Some <==> layout_ok(
                num_players as int,
                hex_kind@,
                hex_number@,
                hex_vertices@,
                hex_adjacent@,
                hex_edges@,
                edges@,
                num_vertices as int,
            ),
            match r {
                Some(g) => g.model() == init_state(
                    num_players as int,
                    hex_kind@,
                    hex_number@,
                    hex_vertices@,
                    hex_adjacent@,
                    hex_edges@,
                    edges@,
                    num_vertices as int,
                ) && g.model().wf(),
                None => true,
            },
    {
        let nh = hex_kind.len();
        if num_players < 1 || num_players > 8 {
            return None;
        }
        if hex_number.len() != nh {
            return None;
        }
        let lv = hex_vertices.len();
        if lv % 6 != 0 || lv / 6 != nh {
            return None;
        }
        if hex_adjacent.len() != lv || hex_edges.len() != lv {
            return None;
        }
        assert(lv == 6 * nh);
        let mut i: usize = 0;
        while i < lv
            invariant
                lv == 6 * hex_kind@.len(),
                lv == hex_vertices@.len(),
                lv == hex_adjacent@.len(),
                lv == hex_edges@.len(),
                i <= lv,
                forall|j: int| 0 <= j < i ==> (#[trigger] hex_vertices@[j] as int) < num_vertices,
                forall|j: int|
                    0 <= j < i ==> ((#[trigger] hex_adjacent@[j]) is Some ==> (
                    hex_adjacent@[j]->0 as int) < hex_kind@.len()),
                forall|j: int| 0 <= j < i ==> (#[trigger] hex_edges@[j] as int) < edges@.len(),
            decreases lv - i,
        {
            if hex_vertices[i] >= num_vertices {
                return None;
            }
            match hex_adjacent[i] {
                Some(g) => {
                    if g >= nh {
                        return None;
                    }
                },
                None => {},
            }
            if hex_edges[i] >= edges.len() {
                return None;
            }
            i = i + 1;
        }
        let ne = edges.len();
        let mut e: usize = 0;
        while e < ne
            invariant
                ne == edges@.len(),
                e <= ne,
                forall|j: int|
                    0 <= j < e ==> ((#[trigger] edges@[j].a as int) < num_vertices && (
                    edges@[j].b as int) < num_vertices && edges@[j].a != edges@[j].b),
            decreases ne - e,
        {
            let ed = edges[e];
            if ed.a >= num_vertices || ed.b >= num_vertices || ed.a == ed.b {
                return None;
            }
            e = e + 1;
        }
        let mut h: usize = 0;
        while h < nh
            invariant
                nh == hex_kind@.len(),
                nh == hex_number@.len(),
                h <= nh,
                forall|j: int|
                    0 <= j < h ==> match #[trigger] hex_number@[j] {
                        Some(n) => 2 <= n <= 12 && hex_kind@[j] != Terrain::Desert,
                        None => hex_kind@[j] == Terrain::Desert,
                    },
            decreases nh - h,
        {
            let is_desert = match hex_kind[h] {
                Terrain::Desert => true,
                _ => false,
            };
            match hex_number[h] {
                Some(n) => {
                    if n < 2 || n > 12 || is_desert {
                        return None;
                    }
                },
                None => {
                    if !is_desert {
                        return None;
                    }
                },
            }
            h = h + 1;
        }
        let ghost gs = init_state(
            num_players as int,
            hex_kind@,
            hex_number@,
            hex_vertices@,
            hex_adjacent@,
            hex_edges@,
            edges@,
            num_vertices as int,
        );
        let g = GameImpl {
            num_players,
            hex_kind,
            hex_number,
            hex_vertices,
            hex_adjacent,
            hex_edges,
            num_vertices,
            vertex_occ: filled(num_vertices, Occupant::Empty),
            edge_occ: filled(ne, RoadOccupant::Empty),
            resources: filled(5 * num_players, 0u64),
            roads_left: filled(num_players, ROADS_PER_PLAYER),
            settlements_left: filled(num_players, SETTLEMENTS_PER_PLAYER),
            cities_left: filled(num_players, CITIES_PER_PLAYER),
            edges,
            robber: 0,
            turn_counter: 0,
            dice_rolled: false,
            setup_phase: false,
        };
        proof {
            assert(g.model() =~= gs);
        }
        Some(g)
    }

    /// How many players the session has.
    pub fn player_count(&self) -> (r: usize)
        ensures
            r == self.model().num_players,
    {
        self.num_players
    }

    /// How many hexes the board has.
    pub fn hex_count(&self) -> (r: usize)
        ensures
            r == self.model().num_hexes(),
    {
        self.hex_kind.len()
    }

    /// How many vertices the board has.
    pub fn vertex_count(&self) -> (r: usize)
        ensures
            r == self.model().num_vertices,
    {
        self.num_vertices
    }

    /// How many edges the board has.
    pub fn edge_count(&self) -> (r: usize)
        ensures
            r == self.model().edges.len(),
    {
        self.edges.len()
    }

    /// The terrain of hex `h`.
    pub fn hex_terrain(&self, h: usize) -> (r: Terrain)
        requires
            h < self.model().num_hexes(),
        ensures
            r == self.model().hex_kind[h as int],
    {
        self.hex_kind[h]
    }

    /// The production number of hex `h`; the desert has none.
    pub fn hex_production_number(&self, h: usize) -> (r: Option<u8>)
        requires
            self.model().wf(),
            h < self.model().num_hexes(),
        ensures
            r == self.model().hex_number[h as int],
    {
        self.hex_number[h]
    }

    /// The six corner vertices of hex `h`, in direction order.
    pub fn vertices_of(&self, h: usize) -> (r: Vec<usize>)
        requires
            self.model().wf(),
            h < self.model().num_hexes(),
        ensures
            r@.len() == 6,
            forall|j: int| 0 <= j < 6 ==> r@[j] == self.model().hex_vertices[6 * h + j],
    {
        let mut r: Vec<usize> = Vec::new();
        let mut j: usize = 0;
        while j < 6
            invariant
                self.model().wf(),
                h < self.model().num_hexes(),
                j <= 6,
                r@.len() == j,
                forall|i: int| 0 <= i < j ==> r@[i] == self.model().hex_vertices[6 * h + i],
            decreases 6 - j,
        {
            assert(6 * h + j < self.model().hex_vertices.len());
            r.push(self.hex_vertices[6 * h + j]);
            j = j + 1;
        }
        r
    }

    /// The six border edges of hex `h`, in direction order.
    pub fn edges_of(&self, h: usize) -> (r: Vec<usize>)
        requires
            self.model().wf(),
            h < self.model().num_hexes(),
        ensures
            r@.len() == 6,
            forall|j: int| 0 <= j < 6 ==> r@[j] == self.model().hex_edges[6 * h + j],
    {
        let mut r: Vec<usize> = Vec::new();
        let mut j: usize = 0;
        while j < 6
            invariant
                self.model().wf(),
                h < self.model().num_hexes(),
                j <= 6,
                r@.len() == j,
                forall|i: int| 0 <= i < j ==> r@[i] == self.model().hex_edges[6 * h + i],
            decreases 6 - j,
        {
            assert(6 * h + j < self.model().hex_edges.len());
            r.push(self.hex_edges[6 * h + j]);
            j = j + 1;
        }
        r
    }

    /// The hexes that have vertex `v` as one of their corners, in
    /// increasing order.
    #[verifier::loop_isolation(false)]
    pub fn hexes_of(&self, v: usize) -> (r: Vec<usize>)
        requires
            self.model().wf(),
        ensures
            forall|k: int|
                0 <= k < r@.len() ==> (#[trigger] r@[k] as int) < self.model().num_hexes()
                    && hex_touches(self.model(), r@[k] as int, v),
            forall|g: int|
                0 <= g < self.model().num_hexes() && hex_touches(self.model(), g, v)
                    ==> r@.contains(g as usize),
            forall|k1: int, k2: int| 0 <= k1 < k2 < r@.len() ==> r@[k1] < r@[k2],
    {
        let ghost s = self.model();
        let nh = self.hex_kind.len();
        let mut r: Vec<usize> = Vec::new();
        let mut h: usize = 0;
        while h < nh
            invariant
                h <= nh,
                forall|k: int|
                    0 <= k < r@.len() ==> (#[trigger] r@[k] as int) < h && hex_touches(
                        s,
                        r@[k] as int,
                        v,
                    ),
                forall|g: int| 0 <= g < h && hex_touches(s, g, v) ==> r@.contains(g as usize),
                forall|k1: int, k2: int| 0 <= k1 < k2 < r@.len() ==> r@[k1] < r@[k2],
            decreases nh - h,
        {
            let mut found = false;
            let mut j: usize = 0;
            while j < 6
                invariant
                    j <= 6,
                    h < nh,
                    found ==> hex_touches(s, h as int, v),
                    !found ==> forall|jj: int|
                        0 <= jj < j ==> (#[trigger] s.hex_vertices[6 * (h as int) + jj]) != v,
                decreases 6 - j,
            {
                if self.hex_vertices[6 * h + j] == v {
                    found = true;
                }
                j = j + 1;
            }
            if found {
                let ghost prev = r@;
                r.push(h);
                proof {
                    assert(r@ == prev.push(h));
                    assert forall|g: int|
                        0 <= g < h + 1 && hex_touches(s, g, v) implies r@.contains(g as usize) by {
                        if g < h {
                            let k = choose|k: int| 0 <= k < prev.len() && prev[k] == g as usize;
                            assert(r@[k] == g as usize);
                        } else {
                            assert(r@[r@.len() - 1] == h);
                        }
                    }
                }
            }
            h = h + 1;
        }
        r
    }

    /// What stands on vertex `v`.
    pub fn vertex_occupant(&self, v: usize) -> (r: Occupant)
        requires
            self.model().wf(),
            v < self.model().num_vertices,
        ensures
            r == self.model().vertex_occ[v as int],
    {
        self.vertex_occ[v]
    }

    /// What lies on edge `e`.
    pub fn edge_occupant(&self, e: usize) -> (r: RoadOccupant)
        requires
            self.model().wf(),
            e < self.model().edges.len(),
        ensures
            r == self.model().edge_occ[e as int],
    {
        self.edge_occ[e]
    }

    /// The two endpoints of edge `e`.
    pub fn edge_endpoints(&self, e: usize) -> (r: (usize, usize))
        requires
            e < self.model().edges.len(),
        ensures
            r.0 == self.model().edges[e as int].a,
            r.1 == self.model().edges[e as int].b,
    {
        let ed = self.edges[e];
        (ed.a, ed.b)
    }

    /// The hex the robber currently blocks.
    pub fn robber_hex(&self) -> (r: usize)
        ensures
            r == self.model().robber,
    {
        self.robber
    }

    /// Has the player in turn already rolled this turn?
    pub fn has_rolled(&self) -> (r: bool)
        ensures
            r == self.model().dice_rolled,
    {
        self.dice_rolled
    }

    /// How many turns have been completed since the game began.
    pub fn turn_count(&self) -> (r: usize)
        ensures
            r == self.model().turn_counter,
    {
        self.turn_counter
    }

    /// Is the setup override active?
    pub fn in_setup_phase(&self) -> (r: bool)
        ensures
            r == self.model().setup_phase,
    {
        self.setup_phase
    }

    /// Switch the setup override, the external turn-sequencing signal that
    /// relaxes the connectivity requirement for initial free placements.
    pub fn set_setup_phase(&mut self, on: bool)
        requires
            old(self).model().wf(),
        ensures
            final(self).model() == (GameState { setup_phase: on, ..old(self).model() }),
            final(self).model().wf(),
    {
        self.setup_phase = on;
        proof {
            assert(self.model() =~= (GameState { setup_phase: on, ..old(self).model() }));
        }
    }

    /// Player `p`'s count of resource kind `k`.
    pub fn resource_count(&self, p: usize, k: usize) -> (r: u64)
        requires
            self.model().wf(),
            p < self.model().num_players,
            k < 5,
        ensures
            r == self.model().resources[5 * p + k],
    {
        assert(5 * p + k < self.model().resources.len());
        self.resources[5 * p + k]
    }

    /// Road pieces player `p` still holds.
    pub fn roads_left_of(&self, p: usize) -> (r: u16)
        requires
            self.model().wf(),
            p < self.model().num_players,
        ensures
            r == self.model().roads_left[p as int],
    {
        self.roads_left[p]
    }

    /// Settlement pieces player `p` still holds.
    pub fn settlements_left_of(&self, p: usize) -> (r: u16)
        requires
            self.model().wf(),
            p < self.model().num_players,
        ensures
            r == self.model().settlements_left[p as int],
    {
        self.settlements_left[p]
    }

    /// City pieces player `p` still holds.
    pub fn cities_left_of(&self, p: usize) -> (r: u16)
        requires
            self.model().wf(),
            p < self.model().num_players,
        ensures
            r == self.model().cities_left[p as int],
    {
        self.cities_left[p]
    }

    /// Roll the two dice without touching the session: the total of two
    /// independent 1–6 rolls, in [2, 12].
    pub fn roll_dice(&self) -> (r: usize)
        ensures
            2 <= r <= 12,
    {
        crate::dice::roll_two_dice()
    }
}

} // verus!

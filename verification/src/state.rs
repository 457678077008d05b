//! The mathematical model of a game session.
//!
//! `GameState` is the specification-level view of a whole session: board
//! topology, occupancy, player holdings, robber position and turn state.
//! Every contract of the engine is stated over this model.

use vstd::prelude::*;

verus! {

/// Terrain of a hex: one of the five producing kinds, or the
/// non-producing desert.
#[derive(Clone, Copy, Debug, PartialEq, Eq, Structural)]
pub enum Terrain {
    Brick,
    Lumber,
    Wool,
    Grain,
    Ore,
    Desert,
}

/// What stands on a vertex.
#[derive(Clone, Copy, Debug, PartialEq, Eq, Structural)]
pub enum Occupant {
    Empty,
    Settlement(usize),
    City(usize),
}

/// What lies on an edge.
#[derive(Clone, Copy, Debug, PartialEq, Eq, Structural)]
pub enum RoadOccupant {
    Empty,
    Road(usize),
}

/// An edge of the board: it connects exactly two distinct vertices.
#[derive(Clone, Copy, Debug, PartialEq, Eq, Structural)]
pub struct Edge {
    pub a: usize,
    pub b: usize,
}

/// Index of a terrain among the produced resource kinds; the desert,
/// which produces nothing, sits past the producing range.
pub open spec fn resource_index(t: Terrain) -> int {
    match t {
        Terrain::Brick => 0,
        Terrain::Lumber => 1,
        Terrain::Wool => 2,
        Terrain::Grain => 3,
        Terrain::Ore => 4,
        Terrain::Desert => 5,
    }
}

/// Specification-level view of a whole game session.
///
/// The topology seqs are flat: hex `h` owns entries `6*h .. 6*h + 6` of
/// `hex_vertices`, `hex_adjacent` and `hex_edges`. Player `p` owns entries
/// `5*p .. 5*p + 5` of `resources`, one per resource kind.
#[verifier::ext_equal]
pub struct GameState {
    pub num_players: int,
    pub hex_kind: Seq<Terrain>,
    pub hex_number: Seq<Option<u8>>,
    pub hex_vertices: Seq<usize>,
    pub hex_adjacent: Seq<Option<usize>>,
    pub hex_edges: Seq<usize>,
    pub edges: Seq<Edge>,
    pub num_vertices: int,
    pub vertex_occ: Seq<Occupant>,
    pub edge_occ: Seq<RoadOccupant>,
    pub resources: Seq<u64>,
    pub roads_left: Seq<u16>,
    pub settlements_left: Seq<u16>,
    pub cities_left: Seq<u16>,
    pub robber: int,
    pub turn_counter: int,
    pub dice_rolled: bool,
    pub setup_phase: bool,
}

/// Does the vertex hold a settlement or a city?
pub open spec fn occupied(o: Occupant) -> bool {
    !(o is Empty)
}

/// True when some edge connects vertices `a` and `b`.
pub open spec fn vertices_adjacent(s: GameState, a: int, b: int) -> bool {
    exists|e: int|
        0 <= e < s.edges.len() && ((s.edges[e].a == a && s.edges[e].b == b) || (s.edges[e].a == b
            && s.edges[e].b == a))
}

impl GameState {
    pub open spec fn num_hexes(self) -> int {
        self.hex_kind.len() as int
    }

    /// The player whose turn it is.
    pub open spec fn player_in_turn(self) -> int {
        self.turn_counter % self.num_players
    }

    /// Well-formedness of the session: consistent index structure, in-range
    /// references, the hex numbering rules, and the distance rule over the
    /// occupied vertices.
    pub open spec fn wf(self) -> bool {
        &&& 1 <= self.num_players <= 8
        &&& 0 <= self.num_vertices
        &&& self.hex_number.len() == self.num_hexes()
        &&& self.hex_vertices.len() == 6 * self.num_hexes()
        &&& self.hex_adjacent.len() == 6 * self.num_hexes()
        &&& self.hex_edges.len() == 6 * self.num_hexes()
        &&& 6 * self.num_hexes() <= usize::MAX
        &&& (forall|i: int|
            0 <= i < self.hex_vertices.len() ==> (self.hex_vertices[i] as int)
                < self.num_vertices)
        &&& (forall|i: int|
            0 <= i < self.hex_adjacent.len() ==> (self.hex_adjacent[i] is Some
                ==> (self.hex_adjacent[i]->0 as int) < self.num_hexes()))
        &&& (forall|i: int|
            0 <= i < self.hex_edges.len() ==> (self.hex_edges[i] as int) < self.edges.len())
        &&& (forall|e: int|
            0 <= e < self.edges.len() ==> (self.edges[e].a as int) < self.num_vertices
                && (self.edges[e].b as int) < self.num_vertices && self.edges[e].a
                != self.edges[e].b)
        &&& (forall|h: int|
            0 <= h < self.num_hexes() ==> match #[trigger] self.hex_number[h] {
                Some(n) => 2 <= n <= 12 && self.hex_kind[h] != Terrain::Desert,
                None => self.hex_kind[h] == Terrain::Desert,
            })
        &&& self.vertex_occ.len() == self.num_vertices
        &&& self.edge_occ.len() == self.edges.len()
        &&& (forall|v: int|
            0 <= v < self.vertex_occ.len() ==> match #[trigger] self.vertex_occ[v] {
                Occupant::Empty => true,
                Occupant::Settlement(p) => (p as int) < self.num_players,
                Occupant::City(p) => (p as int) < self.num_players,
            })
        &&& (forall|e: int|
            0 <= e < self.edge_occ.len() ==> match #[trigger] self.edge_occ[e] {
                RoadOccupant::Empty => true,
                RoadOccupant::Road(p) => (p as int) < self.num_players,
            })
        &&& self.resources.len() == 5 * self.num_players
        &&& self.roads_left.len() == self.num_players
        &&& self.settlements_left.len() == self.num_players
        &&& self.cities_left.len() == self.num_players
        &&& 0 <= self.robber
        &&& (self.num_hexes() > 0 ==> self.robber < self.num_hexes())
        &&& (self.num_hexes() == 0 ==> self.robber == 0)
        &&& 0 <= self.turn_counter
        &&& self.distance_rule()
    }

    /// The distance rule as a state invariant: no two directly connected
    /// vertices are both occupied.
    pub open spec fn distance_rule(self) -> bool {
        forall|e: int|
            0 <= e < self.edges.len() ==> !(occupied(self.vertex_occ[self.edges[e].a as int])
                && occupied(self.vertex_occ[self.edges[e].b as int]))
    }
}

} // verus!

//! Placement legality: pure predicates over the session model, the exec
//! checkers that decide them, and the commit steps that mutate occupancy
//! only after a positive check.

use vstd::prelude::*;

use crate::error::PlacementError;
use crate::game::Game;
use crate::game::GameImpl;
use crate::state::occupied;
use crate::state::GameState;
use crate::state::Occupant;
use crate::state::RoadOccupant;

verus! {

/// Does the vertex hold a settlement or city of player `p`?
pub open spec fn building_of(o: Occupant, p: usize) -> bool {
    match o {
        Occupant::Empty => false,
        Occupant::Settlement(q) => q == p,
        Occupant::City(q) => q == p,
    }
}

/// Does the edge hold a road of player `p`?
pub open spec fn road_of(o: RoadOccupant, p: usize) -> bool {
    match o {
        RoadOccupant::Empty => false,
        RoadOccupant::Road(q) => q == p,
    }
}

/// The endpoint of edge `e` other than vertex `v`.
pub open spec fn other_end(s: GameState, e: int, v: usize) -> int {
    if s.edges[e].a == v {
        s.edges[e].b as int
    } else {
        s.edges[e].a as int
    }
}

/// True when edge `e` has vertex `v` as one of its endpoints.
pub open spec fn touches(s: GameState, e: int, v: usize) -> bool {
    s.edges[e].a == v || s.edges[e].b == v
}

/// Some vertex directly connected to `v` is occupied: placing at `v`
/// would break the distance rule.
pub open spec fn neighbor_occupied(s: GameState, v: usize) -> bool {
    exists|e: int|
        0 <= e < s.edges.len() && #[trigger] touches(s, e, v) && occupied(
            s.vertex_occ[other_end(s, e, v)],
        )
}

/// A road of player `p` lies on some edge incident to vertex `v`.
pub open spec fn own_road_at(s: GameState, v: usize, p: usize) -> bool {
    exists|e: int| 0 <= e < s.edges.len() && #[trigger] touches(s, e, v) && road_of(s.edge_occ[e], p)
}

/// Player `p` reaches vertex `v`: an own building stands there, or an own
/// road lies on an incident edge.
pub open spec fn reaches(s: GameState, v: usize, p: usize) -> bool {
    building_of(s.vertex_occ[v as int], p) || own_road_at(s, v, p)
}

/// Why placing a settlement for `p` at vertex `v` is illegal, or `None`
/// when it is legal. Checked in this order: the vertex must be empty, all
/// directly connected vertices must be empty (the distance rule), an own
/// road must reach the vertex unless the setup override is active, and a
/// settlement piece must remain.
pub open spec fn settlement_error(s: GameState, v: usize, p: usize) -> Option<PlacementError> {
    if occupied(s.vertex_occ[v as int]) {
        Some(PlacementError::Occupied)
    } else if neighbor_occupied(s, v) {
        Some(PlacementError::DistanceRule)
    } else if !s.setup_phase && !own_road_at(s, v, p) {
        Some(PlacementError::NotConnected)
    } else if s.settlements_left[p as int] == 0 {
        Some(PlacementError::NoPieces)
    } else {
        None
    }
}

/// Why placing a road for `p` on edge `e` is illegal, or `None` when it
/// is legal. The edge must be empty, the player must reach one of its
/// endpoints unless the setup override is active, and a road piece must
/// remain.
pub open spec fn road_error(s: GameState, e: usize, p: usize) -> Option<PlacementError> {
    if !(s.edge_occ[e as int] is Empty) {
        Some(PlacementError::Occupied)
    } else if !s.setup_phase && !(reaches(s, s.edges[e as int].a, p) || reaches(
        s,
        s.edges[e as int].b,
        p,
    )) {
        Some(PlacementError::NotConnected)
    } else if s.roads_left[p as int] == 0 {
        Some(PlacementError::NoPieces)
    } else {
        None
    }
}

/// Why upgrading vertex `v` to a city for `p` is illegal, or `None` when
/// it is legal: the vertex must hold `p`'s own settlement and a city
/// piece must remain.
pub open spec fn city_error(s: GameState, v: usize, p: usize) -> Option<PlacementError> {
    if !(s.vertex_occ[v as int] == Occupant::Settlement(p)) {
        Some(PlacementError::NotOwnSettlement)
    } else if s.cities_left[p as int] == 0 {
        Some(PlacementError::NoPieces)
    } else {
        None
    }
}

/// The session after a legal settlement placement: the vertex holds the
/// settlement and one settlement piece of `p` is spent.
pub open spec fn settle_post(s: GameState, v: usize, p: usize) -> GameState {
    GameState {
        vertex_occ: s.vertex_occ.update(v as int, Occupant::Settlement(p)),
        settlements_left: s.settlements_left.update(
            p as int,
            (s.settlements_left[p as int] - 1) as u16,
        ),
        ..s
    }
}

/// The session after a legal road placement: the edge holds the road and
/// one road piece of `p` is spent.
pub open spec fn road_post(s: GameState, e: usize, p: usize) -> GameState {
    GameState {
        edge_occ: s.edge_occ.update(e as int, RoadOccupant::Road(p)),
        roads_left: s.roads_left.update(p as int, (s.roads_left[p as int] - 1) as u16),
        ..s
    }
}

/// The session after a legal city upgrade: the settlement on the vertex
/// becomes a city and one city piece of `p` is spent.
pub open spec fn city_post(s: GameState, v: usize, p: usize) -> GameState {
    GameState {
        vertex_occ: s.vertex_occ.update(v as int, Occupant::City(p)),
        cities_left: s.cities_left.update(p as int, (s.cities_left[p as int] - 1) as u16),
        ..s
    }
}

impl GameImpl {
    /// Decide settlement legality for `p` at vertex `v`: a pure check,
    /// `None` when legal, otherwise the first violated rule.
    pub fn can_place_settlement(&self, v: usize, p: usize) -> (r: Option<PlacementError>)
        requires
            self.model().wf(),
            v < self.model().num_vertices,
            p < self.model().num_players,
        ensures
            r == settlement_error(self.model(), v, p),
    {
        let ghost s = self.model();
        match self.vertex_occ[v] {
            Occupant::Empty => {},
            _ => {
                return Some(PlacementError::Occupied);
            },
        }
        let n = self.edges.len();
        let mut i: usize = 0;
        let mut neighbor_occ = false;
        let mut own_road = false;
        while i < n
            invariant
                self.model() == s,
                s.wf(),
                v < s.num_vertices,
                p < s.num_players,
                n == s.edges.len(),
                i <= n,
                neighbor_occ ==> neighbor_occupied(s, v),
                !neighbor_occ ==> forall|e: int|
                    0 <= e < i ==> !(#[trigger] touches(s, e, v) && occupied(
                        s.vertex_occ[other_end(s, e, v)],
                    )),
                own_road ==> own_road_at(s, v, p),
                !own_road ==> forall|e: int|
                    0 <= e < i ==> !(#[trigger] touches(s, e, v) && road_of(s.edge_occ[e], p)),
            decreases n - i,
        {
            let ed = self.edges[i];
            if ed.a == v || ed.b == v {
                proof {
                    assert(touches(s, i as int, v));
                }
                let other = if ed.a == v {
                    ed.b
                } else {
                    ed.a
                };
                proof {
                    assert(other as int == other_end(s, i as int, v));
                }
                match self.vertex_occ[other] {
                    Occupant::Empty => {},
                    _ => {
                        proof {
                            assert(occupied(s.vertex_occ[other_end(s, i as int, v)]));
                        }
                        neighbor_occ = true;
                    },
                }
                match self.edge_occ[i] {
                    RoadOccupant::Road(q) => {
                        if q == p {
                            proof {
                                assert(road_of(s.edge_occ[i as int], p));
                            }
                            own_road = true;
                        }
                    },
                    RoadOccupant::Empty => {},
                }
            }
            i = i + 1;
        }
        if neighbor_occ {
            return Some(PlacementError::DistanceRule);
        }
        if !self.setup_phase && !own_road {
            return Some(PlacementError::NotConnected);
        }
        if self.settlements_left[p] == 0 {
            return Some(PlacementError::NoPieces);
        }
        None
    }

    /// Decide road legality for `p` on edge `e`: a pure check, `None`
    /// when legal, otherwise the first violated rule.
    pub fn can_place_road(&self, e: usize, p: usize) -> (r: Option<PlacementError>)
        requires
            self.model().wf(),
            e < self.model().edges.len(),
            p < self.model().num_players,
        ensures
            r == road_error(self.model(), e, p),
    {
        let ghost s = self.model();
        match self.edge_occ[e] {
            RoadOccupant::Empty => {},
            _ => {
                return Some(PlacementError::Occupied);
            },
        }
        let ea = self.edges[e].a;
        let eb = self.edges[e].b;
        let at_a = match self.vertex_occ[ea] {
            Occupant::Empty => false,
            Occupant::Settlement(q) => q == p,
            Occupant::City(q) => q == p,
        };
        let at_b = match self.vertex_occ[eb] {
            Occupant::Empty => false,
            Occupant::Settlement(q) => q == p,
            Occupant::City(q) => q == p,
        };
        let mut connected = at_a || at_b;
        let n = self.edges.len();
        let mut i: usize = 0;
        while i < n
            invariant
                self.model() == s,
                s.wf(),
                e < s.edges.len(),
                p < s.num_players,
                ea == s.edges[e as int].a,
                eb == s.edges[e as int].b,
                n == s.edges.len(),
                i <= n,
                connected ==> (reaches(s, ea, p) || reaches(s, eb, p)),
                !connected ==> !building_of(s.vertex_occ[ea as int], p) && !building_of(
                    s.vertex_occ[eb as int],
                    p,
                ),
                !connected ==> forall|j: int|
                    0 <= j < i ==> !(#[trigger] touches(s, j, ea) && road_of(s.edge_occ[j], p)),
                !connected ==> forall|j: int|
                    0 <= j < i ==> !(#[trigger] touches(s, j, eb) && road_of(s.edge_occ[j], p)),
            decreases n - i,
        {
            let ed = self.edges[i];
            let is_own_road = match self.edge_occ[i] {
                RoadOccupant::Road(q) => q == p,
                RoadOccupant::Empty => false,
            };
            if is_own_road && (ed.a == ea || ed.b == ea) {
                proof {
                    assert(touches(s, i as int, ea) && road_of(s.edge_occ[i as int], p));
                    assert(own_road_at(s, ea, p));
                }
                connected = true;
            }
            if is_own_road && (ed.a == eb || ed.b == eb) {
                proof {
                    assert(touches(s, i as int, eb) && road_of(s.edge_occ[i as int], p));
                    assert(own_road_at(s, eb, p));
                }
                connected = true;
            }
            i = i + 1;
        }
        if !self.setup_phase && !connected {
            return Some(PlacementError::NotConnected);
        }
        if self.roads_left[p] == 0 {
            return Some(PlacementError::NoPieces);
        }
        None
    }

    /// Decide city legality for `p` at vertex `v`: a pure check, `None`
    /// when legal, otherwise the violated rule.
    pub fn can_place_city(&self, v: usize, p: usize) -> (r: Option<PlacementError>)
        requires
            self.model().wf(),
            v < self.model().num_vertices,
            p < self.model().num_players,
        ensures
            r == city_error(self.model(), v, p),
    {
        let own_settlement = match self.vertex_occ[v] {
            Occupant::Settlement(q) => q == p,
            _ => false,
        };
        if !own_settlement {
            return Some(PlacementError::NotOwnSettlement);
        }
        if self.cities_left[p] == 0 {
            return Some(PlacementError::NoPieces);
        }
        None
    }

    /// Commit a settlement that `can_place_settlement` approved.
    pub(crate) fn commit_settlement(&mut self, v: usize, p: usize)
        requires
            old(self).model().wf(),
            v < old(self).model().num_vertices,
            p < old(self).model().num_players,
            settlement_error(old(self).model(), v, p) is None,
        ensures
            final(self).model() == settle_post(old(self).model(), v, p),
            final(self).model().wf(),
    {
        let ghost s = old(self).model();
        let slot = &mut self.vertex_occ[v];
        *slot = Occupant::Settlement(p);
        let left = self.settlements_left[p];
        let cell = &mut self.settlements_left[p];
        *cell = left - 1;
        proof {
            let t = self.model();
            assert(t =~= settle_post(s, v, p));
            assert forall|e: int|
                0 <= e < t.edges.len() implies !(occupied(t.vertex_occ[t.edges[e].a as int])
                && occupied(t.vertex_occ[t.edges[e].b as int])) by {
                if t.edges[e].a == v || t.edges[e].b == v {
                    assert(touches(s, e, v));
                    assert(!occupied(s.vertex_occ[other_end(s, e, v)]));
                }
            }
        }
    }

    /// Commit a road that `can_place_road` approved.
    pub(crate) fn commit_road(&mut self, e: usize, p: usize)
        requires
            old(self).model().wf(),
            e < old(self).model().edges.len(),
            p < old(self).model().num_players,
            road_error(old(self).model(), e, p) is None,
        ensures
            final(self).model() == road_post(old(self).model(), e, p),
            final(self).model().wf(),
    {
        let ghost s = old(self).model();
        let slot = &mut self.edge_occ[e];
        *slot = RoadOccupant::Road(p);
        let left = self.roads_left[p];
        let cell = &mut self.roads_left[p];
        *cell = left - 1;
        proof {
            assert(self.model() =~= road_post(s, e, p));
        }
    }

    /// Commit a city upgrade that `can_place_city` approved.
    pub(crate) fn commit_city(&mut self, v: usize, p: usize)
        requires
            old(self).model().wf(),
            v < old(self).model().num_vertices,
            p < old(self).model().num_players,
            city_error(old(self).model(), v, p) is None,
        ensures
            final(self).model() == city_post(old(self).model(), v, p),
            final(self).model().wf(),
    {
        let ghost s = old(self).model();
        let slot = &mut self.vertex_occ[v];
        *slot = Occupant::City(p);
        let left = self.cities_left[p];
        let cell = &mut self.cities_left[p];
        *cell = left - 1;
        proof {
            let t = self.model();
            assert(t =~= city_post(s, v, p));
            assert forall|e: int|
                0 <= e < t.edges.len() implies !(occupied(t.vertex_occ[t.edges[e].a as int])
                && occupied(t.vertex_occ[t.edges[e].b as int])) by {
                assert(occupied(t.vertex_occ[t.edges[e].a as int]) == occupied(
                    s.vertex_occ[t.edges[e].a as int],
                ));
                assert(occupied(t.vertex_occ[t.edges[e].b as int]) == occupied(
                    s.vertex_occ[t.edges[e].b as int],
                ));
            }
        }
    }
}

} // verus!

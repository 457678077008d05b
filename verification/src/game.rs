//! The turn engine: the session type, its model, and the per-turn state
//! machine that sequences dice roll, placements and end of turn.
//!
//! A turn starts awaiting the single dice roll; once rolled, the active
//! player may place pieces; ending the turn hands play to the next player
//! (active player = turn counter modulo player count). A roll whose total
//! is 7 signals the host that the robber must be moved: target selection
//! is the host's concern, so the engine does not relocate it by itself.

use vstd::prelude::*;

use crate::distribute::roll_post;
use crate::error::GameError;
use crate::placement::city_error;
use crate::placement::city_post;
use crate::placement::road_error;
use crate::placement::road_post;
use crate::placement::settlement_error;
use crate::placement::settle_post;
use crate::state::Edge;
use crate::state::GameState;
use crate::state::Occupant;
use crate::state::RoadOccupant;
use crate::state::Terrain;

verus! {

/// Roads each player starts with.
pub const ROADS_PER_PLAYER: u16 = 15;

/// Settlement pieces each player starts with.
pub const SETTLEMENTS_PER_PLAYER: u16 = 5;

/// City pieces each player starts with.
pub const CITIES_PER_PLAYER: u16 = 4;

/// The session after a legal end of turn: the counter advances, the
/// rolled-flag resets, everything else stays.
pub open spec fn end_turn_post(s: GameState) -> GameState {
    GameState { turn_counter: s.turn_counter + 1, dice_rolled: false, ..s }
}

/// The game interface: a session with a model, driven one synchronous
/// call at a time. Every mutating operation validates before it commits:
/// on failure the model is exactly what it was.
pub trait Game {
    /// The specification-level view of the session.
    spec fn model(&self) -> GameState;

    /// Give the turn to the next player. The dice must have been rolled
    /// this turn; otherwise the call fails and changes nothing.
    fn end_turn(&mut self) -> (r: Result<(), GameError>)
        requires
            old(self).model().wf(),
            old(self).model().turn_counter < usize::MAX,
        ensures
            final(self).model().wf(),
            old(self).model().dice_rolled ==> r is Ok
                && final(self).model() == end_turn_post(old(self).model()),
            !old(self).model().dice_rolled ==> r == Err::<(), GameError>(GameError::OutOfOrder)
                && final(self).model() == old(self).model(),
    ;

    /// Roll the two dice and distribute the production of every hex whose
    /// number equals the total, except the robbed hex. Legal exactly once
    /// per turn; a second roll fails and changes nothing. The total, in
    /// [2, 12], is returned so the host can react to a 7.
    fn roll_dice_and_distribute(&mut self) -> (r: Result<usize, GameError>)
        requires
            old(self).model().wf(),
        ensures
            final(self).model().wf(),
            old(self).model().dice_rolled ==> r == Err::<usize, GameError>(GameError::OutOfOrder)
                && final(self).model() == old(self).model(),
            !old(self).model().dice_rolled ==> match r {
                Ok(t) => 2 <= t <= 12
                    && final(self).model() == roll_post(old(self).model(), t as int),
                Err(_) => false,
            },
    ;

    /// Place a road for `p` on edge `e`. Legal only after the roll, only
    /// for the player in turn, only on an existing empty edge that the
    /// player reaches (unless the setup override is active), and only
    /// while road pieces remain.
    fn add_road(&mut self, e: usize, p: usize) -> (r: Result<(), GameError>)
        requires
            old(self).model().wf(),
        ensures
            final(self).model().wf(),
            !old(self).model().dice_rolled ==> r == Err::<(), GameError>(GameError::OutOfOrder)
                && final(self).model() == old(self).model(),
            old(self).model().dice_rolled && p != old(self).model().player_in_turn()
                ==> r == Err::<(), GameError>(GameError::NotYourTurn)
                && final(self).model() == old(self).model(),
            old(self).model().dice_rolled && p == old(self).model().player_in_turn()
                && e >= old(self).model().edges.len()
                ==> r == Err::<(), GameError>(GameError::InvalidTarget)
                && final(self).model() == old(self).model(),
            old(self).model().dice_rolled && p == old(self).model().player_in_turn()
                && e < old(self).model().edges.len()
                ==> match road_error(old(self).model(), e, p) {
                Some(pe) => r == Err::<(), GameError>(GameError::IllegalPlacement(pe))
                    && final(self).model() == old(self).model(),
                None => r is Ok && final(self).model() == road_post(old(self).model(), e, p),
            },
    ;

    /// Place a settlement for `p` on vertex `v`. Legal only after the
    /// roll, only for the player in turn, only on an existing empty vertex
    /// whose neighbours are all empty (the distance rule), reached by an
    /// own road unless the setup override is active, and only while
    /// settlement pieces remain.
    fn add_settlement(&mut self, v: usize, p: usize) -> (r: Result<(), GameError>)
        requires
            old(self).model().wf(),
        ensures
            final(self).model().wf(),
            !old(self).model().dice_rolled ==> r == Err::<(), GameError>(GameError::OutOfOrder)
                && final(self).model() == old(self).model(),
            old(self).model().dice_rolled && p != old(self).model().player_in_turn()
                ==> r == Err::<(), GameError>(GameError::NotYourTurn)
                && final(self).model() == old(self).model(),
            old(self).model().dice_rolled && p == old(self).model().player_in_turn()
                && v >= old(self).model().num_vertices
                ==> r == Err::<(), GameError>(GameError::InvalidTarget)
                && final(self).model() == old(self).model(),
            old(self).model().dice_rolled && p == old(self).model().player_in_turn()
                && v < old(self).model().num_vertices
                ==> match settlement_error(old(self).model(), v, p) {
                Some(pe) => r == Err::<(), GameError>(GameError::IllegalPlacement(pe))
                    && final(self).model() == old(self).model(),
                None => r is Ok && final(self).model() == settle_post(old(self).model(), v, p),
            },
    ;

    /// Upgrade `p`'s settlement on vertex `v` to a city. Legal only after
    /// the roll, only for the player in turn, only on an existing vertex
    /// holding `p`'s own settlement, and only while city pieces remain.
    /// The vertex already satisfied the distance rule, which is not
    /// re-checked.
    fn add_city(&mut self, v: usize, p: usize) -> (r: Result<(), GameError>)
        requires
            old(self).model().wf(),
        ensures
            final(self).model().wf(),
            !old(self).model().dice_rolled ==> r == Err::<(), GameError>(GameError::OutOfOrder)
                && final(self).model() == old(self).model(),
            old(self).model().dice_rolled && p != old(self).model().player_in_turn()
                ==> r == Err::<(), GameError>(GameError::NotYourTurn)
                && final(self).model() == old(self).model(),
            old(self).model().dice_rolled && p == old(self).model().player_in_turn()
                && v >= old(self).model().num_vertices
                ==> r == Err::<(), GameError>(GameError::InvalidTarget)
                && final(self).model() == old(self).model(),
            old(self).model().dice_rolled && p == old(self).model().player_in_turn()
                && v < old(self).model().num_vertices
                ==> match city_error(old(self).model(), v, p) {
                Some(pe) => r == Err::<(), GameError>(GameError::IllegalPlacement(pe))
                    && final(self).model() == old(self).model(),
                None => r is Ok && final(self).model() == city_post(old(self).model(), v, p),
            },
    ;

    /// The player in turn: turn counter modulo player count.
    fn player_in_turn(&self) -> (p: usize)
        requires
            self.model().wf(),
        ensures
            p == self.model().player_in_turn(),
    ;

    /// Move the robber to hex `h`. Fails on a non-existent hex and on the
    /// hex the robber already occupies: it must move. Legal in any phase,
    /// since a development card may demand it outside a 7-roll.
    fn move_robber(&mut self, h: usize) -> (r: Result<(), GameError>)
        requires
            old(self).model().wf(),
        ensures
            final(self).model().wf(),
            h >= old(self).model().num_hexes() || h == old(self).model().robber
                ==> r == Err::<(), GameError>(GameError::InvalidTarget)
                && final(self).model() == old(self).model(),
            h < old(self).model().num_hexes() && h != old(self).model().robber ==> r is Ok
                && final(self).model() == (GameState { robber: h as int, ..old(self).model() }),
    ;

    /// The neighbouring hex of `hex` in one of the 6 clock-position
    /// directions (0 is the hex at 1 o'clock, 5 the hex at 11 o'clock),
    /// or `None` off-board or for an unknown hex or direction.
    fn get_adjacent_hex(&self, hex: usize, direction: usize) -> (r: Option<usize>)
        requires
            self.model().wf(),
        ensures
            r == (if hex < self.model().num_hexes() && direction < 6 {
                self.model().hex_adjacent[6 * hex + direction]
            } else {
                Option::<usize>::None
            }),
    ;
}

/// A game session whose state may be driven from outside; the engine's
/// own operations are all a host needs, so nothing is added here.
pub trait MutableGame: Game {

}

/// The one session object: board topology, occupancy, player holdings,
/// robber position and turn state, owned exclusively and mutated only
/// through validated operations.
pub struct GameImpl {
    pub num_players: usize,
    pub hex_kind: Vec<Terrain>,
    pub hex_number: Vec<Option<u8>>,
    pub hex_vertices: Vec<usize>,
    pub hex_adjacent: Vec<Option<usize>>,
    pub hex_edges: Vec<usize>,
    pub edges: Vec<Edge>,
    pub num_vertices: usize,
    pub vertex_occ: Vec<Occupant>,
    pub edge_occ: Vec<RoadOccupant>,
    pub resources: Vec<u64>,
    pub roads_left: Vec<u16>,
    pub settlements_left: Vec<u16>,
    pub cities_left: Vec<u16>,
    pub robber: usize,
    pub turn_counter: usize,
    pub dice_rolled: bool,
    pub setup_phase: bool,
}

impl Game for GameImpl {
    open spec fn model(&self) -> GameState {
        GameState {
            num_players: self.num_players as int,
            hex_kind: self.hex_kind@,
            hex_number: self.hex_number@,
            hex_vertices: self.hex_vertices@,
            hex_adjacent: self.hex_adjacent@,
            hex_edges: self.hex_edges@,
            edges: self.edges@,
            num_vertices: self.num_vertices as int,
            vertex_occ: self.vertex_occ@,
            edge_occ: self.edge_occ@,
            resources: self.resources@,
            roads_left: self.roads_left@,
            settlements_left: self.settlements_left@,
            cities_left: self.cities_left@,
            robber: self.robber as int,
            turn_counter: self.turn_counter as int,
            dice_rolled: self.dice_rolled,
            setup_phase: self.setup_phase,
        }
    }

    fn end_turn(&mut self) -> (r: Result<(), GameError>) {
        if !self.dice_rolled {
            return Err(GameError::OutOfOrder);
        }
        self.turn_counter = self.turn_counter + 1;
        self.dice_rolled = false;
        proof {
            assert(self.model() =~= end_turn_post(old(self).model()));
        }
        Ok(())
    }

    fn roll_dice_and_distribute(&mut self) -> (r: Result<usize, GameError>) {
        if self.dice_rolled {
            return Err(GameError::OutOfOrder);
        }
        let total = crate::dice::roll_two_dice();
        self.distribute_for_roll(total);
        self.dice_rolled = true;
        proof {
            assert(self.model() =~= roll_post(old(self).model(), total as int));
        }
        Ok(total)
    }

    fn add_road(&mut self, e: usize, p: usize) -> (r: Result<(), GameError>) {
        if !self.dice_rolled {
            return Err(GameError::OutOfOrder);
        }
        if p != self.turn_counter % self.num_players {
            return Err(GameError::NotYourTurn);
        }
        if e >= self.edges.len() {
            return Err(GameError::InvalidTarget);
        }
        match self.can_place_road(e, p) {
            Some(pe) => Err(GameError::IllegalPlacement(pe)),
            None => {
                self.commit_road(e, p);
                Ok(())
            },
        }
    }

    fn add_settlement(&mut self, v: usize, p: usize) -> (r: Result<(), GameError>) {
        if !self.dice_rolled {
            return Err(GameError::OutOfOrder);
        }
        if p != self.turn_counter % self.num_players {
            return Err(GameError::NotYourTurn);
        }
        if v >= self.num_vertices {
            return Err(GameError::InvalidTarget);
        }
        match self.can_place_settlement(v, p) {
            Some(pe) => Err(GameError::IllegalPlacement(pe)),
            None => {
                self.commit_settlement(v, p);
                Ok(())
            },
        }
    }

    fn add_city(&mut self, v: usize, p: usize) -> (r: Result<(), GameError>) {
        if !self.dice_rolled {
            return Err(GameError::OutOfOrder);
        }
        if p != self.turn_counter % self.num_players {
            return Err(GameError::NotYourTurn);
        }
        if v >= self.num_vertices {
            return Err(GameError::InvalidTarget);
        }
        match self.can_place_city(v, p) {
            Some(pe) => Err(GameError::IllegalPlacement(pe)),
            None => {
                self.commit_city(v, p);
                Ok(())
            },
        }
    }

    fn player_in_turn(&self) -> (p: usize) {
        self.turn_counter % self.num_players
    }

    fn move_robber(&mut self, h: usize) -> (r: Result<(), GameError>) {
        if h >= self.hex_kind.len() || h == self.robber {
            return Err(GameError::InvalidTarget);
        }
        self.robber = h;
        proof {
            assert(self.model() =~= (GameState { robber: h as int, ..old(self).model() }));
        }
        Ok(())
    }

    fn get_adjacent_hex(&self, hex: usize, direction: usize) -> (r: Option<usize>) {
        if hex < self.hex_kind.len() && direction < 6 {
            self.hex_adjacent[6 * hex + direction]
        } else {
            None
        }
    }
}

} // verus!

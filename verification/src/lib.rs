//! Rules engine for a settlement-building board game on a hexagonal map.
//!
//! The engine arbitrates which moves are legal, mutates the shared game
//! state in response to legal moves, and produces the resource-distribution
//! and robber effects triggered by dice rolls. Every operation validates
//! before it commits: on failure the reason is returned and the state is
//! untouched.

mod board;
mod dice;
mod distribute;
mod error;
mod game;
mod laws;
mod placement;
mod state;

pub use board::init_state;
pub use board::layout_ok;
pub use board::hex_touches;
pub use distribute::corner_credits;
pub use distribute::credits_upto;
pub use distribute::distribute_post;
pub use distribute::hex_credit;
pub use distribute::hex_produces;
pub use distribute::occ_credit;
pub use distribute::roll_post;
pub use distribute::sat_add;
pub use distribute::total_credit;
pub use error::GameError;
pub use error::PlacementError;
pub use game::end_turn_post;
pub use game::Game;
pub use game::GameImpl;
pub use game::MutableGame;
pub use game::CITIES_PER_PLAYER;
pub use game::ROADS_PER_PLAYER;
pub use game::SETTLEMENTS_PER_PLAYER;
pub use laws::after_end_turns;
pub use laws::lemma_city_doubles_settlement_yield;
pub use laws::lemma_distribution_credits_only_owners;
pub use laws::lemma_end_turns_advance;
pub use laws::lemma_player_rotation;
pub use laws::lemma_robbed_hex_yields_nothing;
pub use laws::lemma_settlement_distance_rule;
pub use laws::lemma_neighbor_occupied_is_adjacency;
pub use placement::building_of;
pub use placement::city_error;
pub use placement::city_post;
pub use placement::neighbor_occupied;
pub use placement::other_end;
pub use placement::own_road_at;
pub use placement::reaches;
pub use placement::road_error;
pub use placement::road_of;
pub use placement::road_post;
pub use placement::settle_post;
pub use placement::settlement_error;
pub use placement::touches;
pub use state::occupied;
pub use state::resource_index;
pub use state::vertices_adjacent;
pub use state::Edge;
pub use state::GameState;
pub use state::Occupant;
pub use state::RoadOccupant;
pub use state::Terrain;

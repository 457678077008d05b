use catan_core::Edge;
use catan_core::Game;
use catan_core::GameError;
use catan_core::GameImpl;
use catan_core::Occupant;
use catan_core::PlacementError;
use catan_core::RoadOccupant;
use catan_core::Terrain;

/// A small two-hex board: hex 0 produces lumber on 8 with corners 0..=5
/// ringed by edges 0..=5; hex 1 is the desert with corners 6..=11 ringed
/// by edges 6..=11. Hex 1 sits at hex 0's 1-o'clock direction.
fn two_hex_game() -> GameImpl {
    let hex_kind = vec![Terrain::Lumber, Terrain::Desert];
    let hex_number = vec![Some(8u8), None];
    let hex_vertices = vec![0, 1, 2, 3, 4, 5, 6, 7, 8, 9, 10, 11];
    let mut hex_adjacent = vec![None; 12];
    hex_adjacent[0] = Some(1);
    hex_adjacent[9] = Some(0);
    let hex_edges = vec![0, 1, 2, 3, 4, 5, 6, 7, 8, 9, 10, 11];
    let edges = vec![
        Edge { a: 0, b: 1 },
        Edge { a: 1, b: 2 },
        Edge { a: 2, b: 3 },
        Edge { a: 3, b: 4 },
        Edge { a: 4, b: 5 },
        Edge { a: 5, b: 0 },
        Edge { a: 6, b: 7 },
        Edge { a: 7, b: 8 },
        Edge { a: 8, b: 9 },
        Edge { a: 9, b: 10 },
        Edge { a: 10, b: 11 },
        Edge { a: 11, b: 6 },
    ];
    GameImpl::try_new(3, hex_kind, hex_number, hex_vertices, hex_adjacent, hex_edges, edges, 12)
        .unwrap()
}

#[test]
fn should_be_player_0_turn_at_start() {
    let game = GameImpl::new();
    let player_in_turn = game.player_in_turn();
    assert_eq!(player_in_turn, 0);
}

#[test]
fn should_be_player_1_turn_after_ending_turn() {
    let mut game = GameImpl::new();
    game.roll_dice_and_distribute().unwrap();
    game.end_turn().unwrap();
    let player_in_turn = game.player_in_turn();
    assert_eq!(player_in_turn, 1);
}

#[test]
fn should_be_between_2_and_14() {
    let mut game = GameImpl::new();
    let dice_eyes = game.roll_dice();
    let between = 2 <= dice_eyes && dice_eyes <= 14;
    assert_eq!(between, true);
}

#[test]
fn roll_total_is_between_2_and_12() {
    let game = GameImpl::new();
    for _ in 0..200 {
        let total = game.roll_dice();
        assert!(2 <= total && total <= 12);
    }
}

#[test]
fn turn_rotation_wraps_at_three_players() {
    let mut game = GameImpl::new();
    assert_eq!(game.player_in_turn(), 0);
    game.roll_dice_and_distribute().unwrap();
    game.end_turn().unwrap();
    assert_eq!(game.player_in_turn(), 1);
    game.roll_dice_and_distribute().unwrap();
    game.end_turn().unwrap();
    game.roll_dice_and_distribute().unwrap();
    game.end_turn().unwrap();
    assert_eq!(game.player_in_turn(), 0);
    game.roll_dice_and_distribute().unwrap();
    game.end_turn().unwrap();
    assert_eq!(game.player_in_turn(), 1);
}

#[test]
fn end_turn_without_roll_fails_out_of_order() {
    let mut game = GameImpl::new();
    let r = game.end_turn();
    assert_eq!(r, Err(GameError::OutOfOrder));
    assert_eq!(game.player_in_turn(), 0);
    assert_eq!(game.turn_count(), 0);
    assert!(!game.has_rolled());
}

#[test]
fn second_roll_fails_out_of_order() {
    let mut game = GameImpl::new();
    let first = game.roll_dice_and_distribute();
    assert!(first.is_ok());
    let second = game.roll_dice_and_distribute();
    assert_eq!(second, Err(GameError::OutOfOrder));
    assert!(game.has_rolled());
}

#[test]
fn roll_then_end_turn_resets_the_flag() {
    let mut game = GameImpl::new();
    game.roll_dice_and_distribute().unwrap();
    assert!(game.has_rolled());
    game.end_turn().unwrap();
    assert!(!game.has_rolled());
    assert_eq!(game.turn_count(), 1);
}

#[test]
fn setup_road_then_adjacent_settlement() {
    let mut game = two_hex_game();
    game.set_setup_phase(true);
    game.roll_dice_and_distribute().unwrap();
    assert_eq!(game.add_road(0, 0), Ok(()));
    assert_eq!(game.edge_occupant(0), RoadOccupant::Road(0));
    assert_eq!(game.add_settlement(0, 0), Ok(()));
    assert_eq!(game.vertex_occupant(0), Occupant::Settlement(0));
    let second = game.add_settlement(1, 0);
    assert_eq!(second, Err(GameError::IllegalPlacement(PlacementError::DistanceRule)));
    assert_eq!(game.vertex_occupant(1), Occupant::Empty);
}

#[test]
fn settlement_on_occupied_vertex_fails() {
    let mut game = two_hex_game();
    game.set_setup_phase(true);
    game.roll_dice_and_distribute().unwrap();
    assert_eq!(game.add_settlement(0, 0), Ok(()));
    let again = game.add_settlement(0, 0);
    assert_eq!(again, Err(GameError::IllegalPlacement(PlacementError::Occupied)));
}

#[test]
fn settlement_needs_connecting_road() {
    let mut game = two_hex_game();
    game.roll_dice_and_distribute().unwrap();
    let r = game.add_settlement(3, 0);
    assert_eq!(r, Err(GameError::IllegalPlacement(PlacementError::NotConnected)));
}

#[test]
fn settlement_next_to_own_road_is_legal_without_setup() {
    let mut game = two_hex_game();
    game.set_setup_phase(true);
    game.roll_dice_and_distribute().unwrap();
    assert_eq!(game.add_road(2, 0), Ok(()));
    game.set_setup_phase(false);
    assert_eq!(game.add_settlement(2, 0), Ok(()));
}

#[test]
fn road_on_occupied_edge_fails() {
    let mut game = two_hex_game();
    game.set_setup_phase(true);
    game.roll_dice_and_distribute().unwrap();
    assert_eq!(game.add_road(0, 0), Ok(()));
    let again = game.add_road(0, 0);
    assert_eq!(again, Err(GameError::IllegalPlacement(PlacementError::Occupied)));
}

#[test]
fn road_needs_connection_without_setup() {
    let mut game = two_hex_game();
    game.roll_dice_and_distribute().unwrap();
    let r = game.add_road(3, 0);
    assert_eq!(r, Err(GameError::IllegalPlacement(PlacementError::NotConnected)));
}

#[test]
fn road_extends_from_own_road() {
    let mut game = two_hex_game();
    game.set_setup_phase(true);
    game.roll_dice_and_distribute().unwrap();
    assert_eq!(game.add_road(0, 0), Ok(()));
    game.set_setup_phase(false);
    assert_eq!(game.add_road(1, 0), Ok(()));
    assert_eq!(game.edge_occupant(1), RoadOccupant::Road(0));
}

#[test]
fn placement_by_player_out_of_turn_fails() {
    let mut game = two_hex_game();
    game.set_setup_phase(true);
    game.roll_dice_and_distribute().unwrap();
    assert_eq!(game.add_road(0, 1), Err(GameError::NotYourTurn));
    assert_eq!(game.add_settlement(0, 1), Err(GameError::NotYourTurn));
    assert_eq!(game.add_city(0, 2), Err(GameError::NotYourTurn));
}

#[test]
fn placement_before_roll_fails_out_of_order() {
    let mut game = two_hex_game();
    game.set_setup_phase(true);
    assert_eq!(game.add_road(0, 0), Err(GameError::OutOfOrder));
    assert_eq!(game.add_settlement(0, 0), Err(GameError::OutOfOrder));
    assert_eq!(game.add_city(0, 0), Err(GameError::OutOfOrder));
}

#[test]
fn placement_on_missing_target_fails_invalid_target() {
    let mut game = two_hex_game();
    game.set_setup_phase(true);
    game.roll_dice_and_distribute().unwrap();
    assert_eq!(game.add_settlement(99, 0), Err(GameError::InvalidTarget));
    assert_eq!(game.add_road(99, 0), Err(GameError::InvalidTarget));
    assert_eq!(game.add_city(99, 0), Err(GameError::InvalidTarget));
}

#[test]
fn city_upgrade_rules() {
    let mut game = two_hex_game();
    game.set_setup_phase(true);
    game.roll_dice_and_distribute().unwrap();
    let on_empty = game.add_city(0, 0);
    assert_eq!(on_empty, Err(GameError::IllegalPlacement(PlacementError::NotOwnSettlement)));
    assert_eq!(game.add_settlement(0, 0), Ok(()));
    assert_eq!(game.add_city(0, 0), Ok(()));
    assert_eq!(game.vertex_occupant(0), Occupant::City(0));
    let again = game.add_city(0, 0);
    assert_eq!(again, Err(GameError::IllegalPlacement(PlacementError::NotOwnSettlement)));
}

#[test]
fn city_on_another_players_settlement_fails() {
    let mut game = two_hex_game();
    game.set_setup_phase(true);
    game.roll_dice_and_distribute().unwrap();
    assert_eq!(game.add_settlement(0, 0), Ok(()));
    game.end_turn().unwrap();
    game.roll_dice_and_distribute().unwrap();
    let r = game.add_city(0, 1);
    assert_eq!(r, Err(GameError::IllegalPlacement(PlacementError::NotOwnSettlement)));
}

#[test]
fn piece_budgets_decrease_on_commit() {
    let mut game = two_hex_game();
    game.set_setup_phase(true);
    game.roll_dice_and_distribute().unwrap();
    assert_eq!(game.roads_left_of(0), 15);
    assert_eq!(game.settlements_left_of(0), 5);
    assert_eq!(game.cities_left_of(0), 4);
    game.add_road(0, 0).unwrap();
    game.add_settlement(0, 0).unwrap();
    game.add_city(0, 0).unwrap();
    assert_eq!(game.roads_left_of(0), 14);
    assert_eq!(game.settlements_left_of(0), 4);
    assert_eq!(game.cities_left_of(0), 3);
}

#[test]
fn settlement_without_pieces_fails_no_pieces() {
    let mut game = two_hex_game();
    game.set_setup_phase(true);
    game.roll_dice_and_distribute().unwrap();
    for v in [0, 2, 4, 6, 8] {
        assert_eq!(game.add_settlement(v, 0), Ok(()));
    }
    assert_eq!(game.settlements_left_of(0), 0);
    let r = game.add_settlement(10, 0);
    assert_eq!(r, Err(GameError::IllegalPlacement(PlacementError::NoPieces)));
}

#[test]
fn distribution_credits_settlement_once_and_city_twice() {
    let mut game = two_hex_game();
    game.set_setup_phase(true);
    game.roll_dice_and_distribute().unwrap();
    game.move_robber(1).unwrap();
    game.add_settlement(0, 0).unwrap();
    let lumber = 1;
    assert_eq!(game.resource_count(0, lumber), 0);
    game.distribute_for_roll(8);
    assert_eq!(game.resource_count(0, lumber), 1);
    game.distribute_for_roll(5);
    assert_eq!(game.resource_count(0, lumber), 1);
    game.add_city(0, 0).unwrap();
    game.distribute_for_roll(8);
    assert_eq!(game.resource_count(0, lumber), 3);
    for k in [0, 2, 3, 4] {
        assert_eq!(game.resource_count(0, k), 0);
    }
    for p in [1, 2] {
        for k in 0..5 {
            assert_eq!(game.resource_count(p, k), 0);
        }
    }
}

#[test]
fn robbed_hex_produces_nothing() {
    let mut game = two_hex_game();
    game.set_setup_phase(true);
    game.roll_dice_and_distribute().unwrap();
    game.add_settlement(0, 0).unwrap();
    assert_eq!(game.robber_hex(), 0);
    game.distribute_for_roll(8);
    assert_eq!(game.resource_count(0, 1), 0);
    game.move_robber(1).unwrap();
    assert_eq!(game.robber_hex(), 1);
    game.distribute_for_roll(8);
    assert_eq!(game.resource_count(0, 1), 1);
}

#[test]
fn robber_must_move_to_a_different_existing_hex() {
    let mut game = two_hex_game();
    assert_eq!(game.robber_hex(), 0);
    assert_eq!(game.move_robber(0), Err(GameError::InvalidTarget));
    assert_eq!(game.move_robber(7), Err(GameError::InvalidTarget));
    assert_eq!(game.robber_hex(), 0);
    assert_eq!(game.move_robber(1), Ok(()));
    assert_eq!(game.robber_hex(), 1);
    assert_eq!(game.move_robber(1), Err(GameError::InvalidTarget));
    assert_eq!(game.robber_hex(), 1);
}

#[test]
fn adjacent_hex_reads_the_clock_table() {
    let game = two_hex_game();
    assert_eq!(game.get_adjacent_hex(0, 0), Some(1));
    assert_eq!(game.get_adjacent_hex(1, 3), Some(0));
    assert_eq!(game.get_adjacent_hex(0, 1), None);
    assert_eq!(game.get_adjacent_hex(0, 6), None);
    assert_eq!(game.get_adjacent_hex(99, 0), None);
}

#[test]
fn board_queries_report_the_layout() {
    let game = two_hex_game();
    assert_eq!(game.player_count(), 3);
    assert_eq!(game.hex_count(), 2);
    assert_eq!(game.vertex_count(), 12);
    assert_eq!(game.edge_count(), 12);
    assert_eq!(game.hex_terrain(0), Terrain::Lumber);
    assert_eq!(game.hex_production_number(0), Some(8));
    assert_eq!(game.hex_terrain(1), Terrain::Desert);
    assert_eq!(game.hex_production_number(1), None);
    assert_eq!(game.vertices_of(0), vec![0, 1, 2, 3, 4, 5]);
    assert_eq!(game.edges_of(1), vec![6, 7, 8, 9, 10, 11]);
    assert_eq!(game.edge_endpoints(5), (5, 0));
}

#[test]
fn try_new_rejects_inconsistent_layouts() {
    let ring = || {
        vec![
            Edge { a: 0, b: 1 },
            Edge { a: 1, b: 2 },
            Edge { a: 2, b: 3 },
            Edge { a: 3, b: 4 },
            Edge { a: 4, b: 5 },
            Edge { a: 5, b: 0 },
        ]
    };
    let base_kind = vec![Terrain::Wool];
    let base_number = vec![Some(6u8)];
    let corners = vec![0, 1, 2, 3, 4, 5];
    let adj = vec![None; 6];
    let sides = vec![0, 1, 2, 3, 4, 5];

    let ok = GameImpl::try_new(
        4,
        base_kind.clone(),
        base_number.clone(),
        corners.clone(),
        adj.clone(),
        sides.clone(),
        ring(),
        6,
    );
    assert!(ok.is_some());

    let no_players = GameImpl::try_new(
        0,
        base_kind.clone(),
        base_number.clone(),
        corners.clone(),
        adj.clone(),
        sides.clone(),
        ring(),
        6,
    );
    assert!(no_players.is_none());

    let short_tables = GameImpl::try_new(
        3,
        base_kind.clone(),
        base_number.clone(),
        vec![0, 1, 2],
        adj.clone(),
        sides.clone(),
        ring(),
        6,
    );
    assert!(short_tables.is_none());

    let corner_out_of_range = GameImpl::try_new(
        3,
        base_kind.clone(),
        base_number.clone(),
        vec![0, 1, 2, 3, 4, 9],
        adj.clone(),
        sides.clone(),
        ring(),
        6,
    );
    assert!(corner_out_of_range.is_none());

    let bad_number = GameImpl::try_new(
        3,
        base_kind.clone(),
        vec![Some(13u8)],
        corners.clone(),
        adj.clone(),
        sides.clone(),
        ring(),
        6,
    );
    assert!(bad_number.is_none());

    let numbered_desert = GameImpl::try_new(
        3,
        vec![Terrain::Desert],
        base_number.clone(),
        corners.clone(),
        adj.clone(),
        sides.clone(),
        ring(),
        6,
    );
    assert!(numbered_desert.is_none());

    let unnumbered_producer = GameImpl::try_new(
        3,
        base_kind.clone(),
        vec![None],
        corners.clone(),
        adj.clone(),
        sides.clone(),
        ring(),
        6,
    );
    assert!(unnumbered_producer.is_none());

    let mut loop_edges = ring();
    loop_edges[0] = Edge { a: 2, b: 2 };
    let degenerate_edge = GameImpl::try_new(
        3,
        base_kind,
        base_number,
        corners,
        adj,
        sides,
        loop_edges,
        6,
    );
    assert!(degenerate_edge.is_none());
}

/// Two hexes sharing the border vertices 1 and 2: hex 0 (lumber on 8) has
/// corners 0..=5, hex 1 (grain on 5) has corners [1, 6, 7, 8, 9, 2], and
/// edge 6 connects the shared pair.
fn shared_vertex_game() -> GameImpl {
    let hex_kind = vec![Terrain::Lumber, Terrain::Grain];
    let hex_number = vec![Some(8u8), Some(5u8)];
    let hex_vertices = vec![0, 1, 2, 3, 4, 5, 1, 6, 7, 8, 9, 2];
    let hex_adjacent = vec![None; 12];
    let hex_edges = vec![0, 1, 2, 3, 4, 5, 6, 7, 8, 9, 10, 1];
    let edges = vec![
        Edge { a: 0, b: 1 },
        Edge { a: 1, b: 2 },
        Edge { a: 2, b: 3 },
        Edge { a: 3, b: 4 },
        Edge { a: 4, b: 5 },
        Edge { a: 5, b: 0 },
        Edge { a: 1, b: 6 },
        Edge { a: 6, b: 7 },
        Edge { a: 7, b: 8 },
        Edge { a: 8, b: 9 },
        Edge { a: 9, b: 2 },
    ];
    GameImpl::try_new(3, hex_kind, hex_number, hex_vertices, hex_adjacent, hex_edges, edges, 10)
        .unwrap()
}

#[test]
fn shared_vertex_feeds_from_both_hexes() {
    let mut game = shared_vertex_game();
    assert_eq!(game.hexes_of(1), vec![0, 1]);
    assert_eq!(game.hexes_of(4), vec![0]);
    assert_eq!(game.hexes_of(7), vec![1]);
    game.set_setup_phase(true);
    game.roll_dice_and_distribute().unwrap();
    game.move_robber(1).unwrap();
    game.add_settlement(1, 0).unwrap();
    let lumber = 1;
    let grain = 3;
    game.distribute_for_roll(8);
    assert_eq!(game.resource_count(0, lumber), 1);
    assert_eq!(game.resource_count(0, grain), 0);
    game.move_robber(0).unwrap();
    game.distribute_for_roll(5);
    assert_eq!(game.resource_count(0, lumber), 1);
    assert_eq!(game.resource_count(0, grain), 1);
    game.distribute_for_roll(8);
    assert_eq!(game.resource_count(0, lumber), 1);
    assert_eq!(game.resource_count(0, grain), 1);
}

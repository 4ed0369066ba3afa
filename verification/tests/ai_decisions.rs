use terminal_horizon::game::ai::{
    chase_direction, distance, idle_action, idle_direction, within_view, AiAction, AiBehavior,
    AiState, BasicMonsterAI, Intent, IDLE_CHOICES,
};
use terminal_horizon::game::components::{BasicAi, Position};
use terminal_horizon::game::entities::EntityPosition;
use terminal_horizon::input::handlers::Direction;

fn at(x: usize, y: usize) -> Position {
    Position { x, y }
}

fn place(x: usize, y: usize) -> EntityPosition {
    EntityPosition::new(x, y)
}

#[test]
fn distance_is_the_absolute_difference() {
    assert_eq!(distance(3, 10), 7);
    assert_eq!(distance(10, 3), 7);
    assert_eq!(distance(4, 4), 0);
    assert_eq!(distance(0, usize::MAX), usize::MAX);
}

#[test]
fn view_reaches_exactly_the_radius() {
    // On the edge of the square of radius 8, in every corner and on every
    // side, the player is seen; one step further it is not.
    for (dx, dy) in [(8, 0), (0, 8), (8, 8), (8, 3), (2, 8)] {
        assert!(within_view(20, 20, 20 + dx, 20 + dy, 8));
        assert!(within_view(20, 20, 20 - dx, 20 - dy, 8));
        assert!(within_view(20 + dx, 20 + dy, 20, 20, 8));
    }
    for (dx, dy) in [(9, 0), (0, 9), (9, 9), (9, 3), (2, 9)] {
        assert!(!within_view(20, 20, 20 + dx, 20 + dy, 8));
        assert!(!within_view(20, 20, 20 - dx, 20 - dy, 8));
        assert!(!within_view(20 + dx, 20 + dy, 20, 20, 8));
    }
    assert!(within_view(5, 5, 5, 5, 0));
    assert!(!within_view(5, 5, 5, 6, 0));
}

#[test]
fn enemy_at_its_radius_sees_and_one_step_further_does_not() {
    let mut on_the_edge = BasicAi::new(8);
    let wish = on_the_edge.decide(at(13, 5), at(5, 5), 4);
    assert!(on_the_edge.target_visible);
    assert_eq!(on_the_edge.state, AiState::Chasing);
    assert_eq!(on_the_edge.last_known_player_pos, Some(at(5, 5)));
    assert_eq!(wish, Intent::Move(Direction::Left));

    let mut beyond = BasicAi::new(8);
    let wish = beyond.decide(at(14, 5), at(5, 5), 4);
    assert!(!beyond.target_visible);
    assert_eq!(beyond.state, AiState::Idle);
    assert_eq!(beyond.last_known_player_pos, None);
    assert_eq!(wish, Intent::Wait);
}

#[test]
fn new_memory_is_idle_and_has_seen_nothing() {
    let ai = BasicAi::new(8);
    assert_eq!(ai.state, AiState::Idle);
    assert!(!ai.target_visible);
    assert_eq!(ai.last_known_player_pos, None);
    assert_eq!(ai.fov_radius, 8);
}

#[test]
fn chase_takes_the_axis_with_the_larger_distance() {
    assert_eq!(chase_direction(5, 5, 9, 6), Some(Direction::Right));
    assert_eq!(chase_direction(5, 5, 1, 6), Some(Direction::Left));
    assert_eq!(chase_direction(5, 5, 6, 9), Some(Direction::Down));
    assert_eq!(chase_direction(5, 5, 6, 1), Some(Direction::Up));
    assert_eq!(chase_direction(5, 7, 5, 5), Some(Direction::Up));
}

#[test]
fn chase_goes_vertical_on_a_tie_and_nowhere_on_the_spot() {
    assert_eq!(chase_direction(5, 5, 8, 8), Some(Direction::Down));
    assert_eq!(chase_direction(5, 5, 8, 2), Some(Direction::Up));
    assert_eq!(chase_direction(5, 5, 2, 8), Some(Direction::Down));
    assert_eq!(chase_direction(5, 5, 2, 2), Some(Direction::Up));
    assert_eq!(chase_direction(5, 5, 5, 5), None);
}

#[test]
fn idle_roll_picks_one_of_five() {
    assert_eq!(IDLE_CHOICES, 5);
    assert_eq!(idle_direction(0), Some(Direction::Left));
    assert_eq!(idle_direction(1), Some(Direction::Right));
    assert_eq!(idle_direction(2), Some(Direction::Up));
    assert_eq!(idle_direction(3), Some(Direction::Down));
    assert_eq!(idle_direction(4), None);
    assert_eq!(idle_direction(5), None);
    assert_eq!(idle_direction(usize::MAX), None);
}

#[test]
fn chasing_enemy_strikes_from_all_eight_neighbours_and_from_the_spot() {
    for dx in 0..3usize {
        for dy in 0..3usize {
            let mut ai = BasicAi::new(5);
            assert_eq!(ai.decide(at(4 + dx, 4 + dy), at(5, 5), 0), Intent::Attack);
            assert_eq!(ai.state, AiState::Chasing);
        }
    }
    let mut ai = BasicAi::new(5);
    assert_eq!(ai.decide(at(5, 7), at(5, 5), 0), Intent::Move(Direction::Up));
    let mut ai = BasicAi::new(5);
    assert_eq!(ai.decide(at(7, 6), at(5, 5), 0), Intent::Move(Direction::Left));
}

#[test]
fn idle_enemy_wishes_by_its_roll_and_keeps_what_it_last_saw() {
    let mut ai = BasicAi::new(3);
    assert_eq!(ai.decide(at(5, 5), at(5, 3), 0), Intent::Move(Direction::Up));
    assert_eq!(ai.last_known_player_pos, Some(at(5, 3)));
    let wishes = [
        Intent::Move(Direction::Left),
        Intent::Move(Direction::Right),
        Intent::Move(Direction::Up),
        Intent::Move(Direction::Down),
        Intent::Wait,
        Intent::Wait,
    ];
    for (roll, wish) in wishes.iter().enumerate() {
        assert_eq!(ai.decide(at(5, 5), at(50, 50), roll), *wish);
        assert_eq!(ai.state, AiState::Idle);
        assert!(!ai.target_visible);
        assert_eq!(ai.last_known_player_pos, Some(at(5, 3)));
    }
}

#[test]
fn roll_does_not_count_for_an_enemy_that_sees() {
    for roll in 0..7 {
        let mut ai = BasicAi::new(8);
        assert_eq!(ai.decide(at(5, 7), at(5, 5), roll), Intent::Move(Direction::Up));
    }
}

#[test]
fn radius_zero_sees_only_its_own_tile() {
    let mut ai = BasicAi::new(0);
    assert_eq!(ai.decide(at(5, 5), at(5, 5), 4), Intent::Attack);
    assert!(ai.target_visible);
    let mut ai = BasicAi::new(0);
    assert_eq!(ai.decide(at(5, 5), at(5, 6), 4), Intent::Wait);
    assert!(!ai.target_visible);
}

#[test]
fn monster_starts_idle() {
    let ai = BasicMonsterAI::new(6);
    assert_eq!(ai.state, AiState::Idle);
    assert!(!ai.target_visible);
    assert_eq!(ai.last_known_player_pos, None);
    assert_eq!(ai.fov_radius, 6);
}

#[test]
fn monster_sees_within_its_radius_only() {
    let ai = BasicMonsterAI::new(4);
    assert!(ai.is_player_in_fov(&place(10, 10), &place(14, 6)));
    assert!(ai.is_player_in_fov(&place(10, 10), &place(10, 10)));
    assert!(!ai.is_player_in_fov(&place(10, 10), &place(15, 10)));
    assert!(!ai.is_player_in_fov(&place(10, 10), &place(10, 5)));
    let blind = BasicMonsterAI::new(-1);
    assert!(!blind.is_player_in_fov(&place(10, 10), &place(10, 10)));
    let sharp = BasicMonsterAI::new(0);
    assert!(sharp.is_player_in_fov(&place(10, 10), &place(10, 10)));
    assert!(!sharp.is_player_in_fov(&place(10, 10), &place(11, 10)));
}

#[test]
fn monster_moves_one_step_towards_its_target() {
    let ai = BasicMonsterAI::new(4);
    assert_eq!(ai.move_towards(&place(5, 5), &place(9, 6)), place(6, 5));
    assert_eq!(ai.move_towards(&place(5, 5), &place(1, 6)), place(4, 5));
    assert_eq!(ai.move_towards(&place(5, 5), &place(6, 9)), place(5, 6));
    assert_eq!(ai.move_towards(&place(5, 5), &place(6, 1)), place(5, 4));
    assert_eq!(ai.move_towards(&place(5, 5), &place(7, 7)), place(5, 6));
    assert_eq!(ai.move_towards(&place(5, 5), &place(5, 5)), place(5, 5));
    assert_eq!(ai.move_towards(&place(1, 0), &place(0, 0)), place(0, 0));
}

#[test]
fn monster_that_sees_the_player_chases_or_strikes() {
    let mut ai = BasicMonsterAI::new(8);
    assert_eq!(ai.decide_next_action(&place(5, 7), &place(5, 5)), AiAction::MoveTo(place(5, 6)));
    assert_eq!(ai.state, AiState::Chasing);
    assert!(ai.target_visible);
    assert_eq!(ai.last_known_player_pos, Some(place(5, 5)));
    assert_eq!(ai.decide_next_action(&place(5, 6), &place(5, 5)), AiAction::Attack(0));
    assert_eq!(ai.decide_next_action(&place(4, 4), &place(5, 5)), AiAction::Attack(0));
    assert_eq!(ai.decide_next_action(&place(9, 5), &place(5, 5)), AiAction::MoveTo(place(8, 5)));
}

#[test]
fn monster_that_does_not_see_the_player_wanders() {
    let mut ai = BasicMonsterAI::new(2);
    ai.decide_next_action(&place(5, 5), &place(5, 4));
    let allowed = [
        AiAction::MoveTo(place(4, 5)),
        AiAction::MoveTo(place(6, 5)),
        AiAction::MoveTo(place(5, 4)),
        AiAction::MoveTo(place(5, 6)),
        AiAction::Wait,
    ];
    let mut met = [false; 5];
    for _ in 0..400 {
        let action = ai.decide_next_action(&place(5, 5), &place(50, 50));
        assert_eq!(ai.state, AiState::Idle);
        assert!(!ai.target_visible);
        assert_eq!(ai.last_known_player_pos, Some(place(5, 4)));
        let which = allowed.iter().position(|a| *a == action);
        assert!(which.is_some());
        met[which.unwrap()] = true;
    }
    // Four hundred draws from five outcomes miss one of them about once in
    // ten to the thirty-eighth time.
    assert_eq!(met, [true; 5]);
}

#[test]
fn idle_action_steps_by_the_roll() {
    assert_eq!(idle_action(&place(5, 5), 0), AiAction::MoveTo(place(4, 5)));
    assert_eq!(idle_action(&place(5, 5), 1), AiAction::MoveTo(place(6, 5)));
    assert_eq!(idle_action(&place(5, 5), 2), AiAction::MoveTo(place(5, 4)));
    assert_eq!(idle_action(&place(5, 5), 3), AiAction::MoveTo(place(5, 6)));
    assert_eq!(idle_action(&place(5, 5), 4), AiAction::Wait);
    assert_eq!(idle_action(&place(5, 5), 99), AiAction::Wait);
    assert_eq!(idle_action(&place(0, 0), 0), AiAction::MoveTo(place(0, 0)));
    assert_eq!(idle_action(&place(0, 0), 2), AiAction::MoveTo(place(0, 0)));
}

use terminal_horizon::errors::AppError;
use terminal_horizon::game::action_log::{ActionLog, ActionType};
use terminal_horizon::game::components::ActorId;
use terminal_horizon::game::entities::EntityPosition;
use terminal_horizon::game::state::{ActionJournal, ActiveMenuIndex, GameTurn};
use terminal_horizon::game::turn::TurnError;
use terminal_horizon::game::world::QueryError;
use terminal_horizon::ui::app_log::{create_log_entry, journal_lines, JOURNAL_LINES};
use terminal_horizon::ui::text::{push_decimal, to_decimal};

fn moved_to(turn: u32, x: usize, y: usize) -> ActionLog {
    ActionLog::new(turn, ActionType::Movement { position: EntityPosition::new(x, y) })
}

fn attack(turn: u32, attacker: &str, target: &str, damage: usize) -> ActionLog {
    ActionLog::new(
        turn,
        ActionType::MonsterAttack {
            attacker_name: attacker.to_string(),
            target_name: target.to_string(),
            damage,
        },
    )
}

#[test]
fn numbers_are_written_in_decimal() {
    assert_eq!(to_decimal(0), "0");
    assert_eq!(to_decimal(7), "7");
    assert_eq!(to_decimal(10), "10");
    assert_eq!(to_decimal(42), "42");
    assert_eq!(to_decimal(1234567890), "1234567890");
    assert_eq!(to_decimal(u64::MAX), "18446744073709551615");
    for n in [9u64, 99, 100, 101, 999, 1000, 65535, 4294967295, 4294967296] {
        assert_eq!(to_decimal(n), n.to_string());
    }
}

#[test]
fn numbers_are_written_at_the_end() {
    let mut text = String::from("x = ");
    push_decimal(&mut text, 305);
    assert_eq!(text, "x = 305");
    push_decimal(&mut text, 0);
    assert_eq!(text, "x = 3050");
}

#[test]
fn record_is_made_of_its_turn_and_its_action() {
    let log = moved_to(9, 3, 4);
    assert_eq!(log.turn, 9);
    assert_eq!(log.action_type, ActionType::Movement { position: EntityPosition { x: 3, y: 4 } });
    assert_eq!(log.clone(), log);
    let strike = attack(2, "Goblin", "Hero", 5);
    assert_eq!(strike.clone(), strike);
    assert_ne!(strike, attack(2, "Goblin", "Hero", 6));
}

#[test]
fn movement_line_names_turn_and_tile() {
    assert_eq!(create_log_entry(&moved_to(1, 5, 4)), "[Turn: 1]: Player moved into: (5, 4)");
    assert_eq!(create_log_entry(&moved_to(0, 0, 0)), "[Turn: 0]: Player moved into: (0, 0)");
    assert_eq!(
        create_log_entry(&moved_to(4294967295, 149, 119)),
        "[Turn: 4294967295]: Player moved into: (149, 119)"
    );
}

#[test]
fn attack_line_names_both_actors_and_the_damage() {
    assert_eq!(
        create_log_entry(&attack(12, "Goblin", "Hero", 0)),
        "[Turn: 12]: Goblin attacked Hero for 0 damage."
    );
    assert_eq!(
        create_log_entry(&attack(3, "", "Zoë the Bold", 250)),
        "[Turn: 3]:  attacked Zoë the Bold for 250 damage."
    );
}

#[test]
fn journal_shows_its_five_newest_lines_newest_first() {
    assert_eq!(JOURNAL_LINES, 5);
    let mut journal = ActionJournal::default();
    assert_eq!(journal_lines(&journal), Vec::<String>::new());
    journal.entries.push(moved_to(1, 1, 1));
    journal.entries.push(attack(1, "Goblin", "Hero", 0));
    assert_eq!(
        journal_lines(&journal),
        vec![
            "[Turn: 1]: Goblin attacked Hero for 0 damage.".to_string(),
            "[Turn: 1]: Player moved into: (1, 1)".to_string(),
        ]
    );
    for turn in 2..=8 {
        journal.entries.push(moved_to(turn, turn as usize, 1));
    }
    assert_eq!(
        journal_lines(&journal),
        vec![
            "[Turn: 8]: Player moved into: (8, 1)".to_string(),
            "[Turn: 7]: Player moved into: (7, 1)".to_string(),
            "[Turn: 6]: Player moved into: (6, 1)".to_string(),
            "[Turn: 5]: Player moved into: (5, 1)".to_string(),
            "[Turn: 4]: Player moved into: (4, 1)".to_string(),
        ]
    );
    assert_eq!(journal.entries.len(), 9);
}

#[test]
fn recent_records_are_the_newest_and_the_journal_keeps_all() {
    let mut journal = ActionJournal::default();
    for turn in 1..=4 {
        journal.entries.push(moved_to(turn, 0, 0));
    }
    let before = journal.clone();
    assert_eq!(journal.recent(0), vec![]);
    assert_eq!(journal.recent(1), vec![moved_to(4, 0, 0)]);
    assert_eq!(journal.recent(3), vec![moved_to(4, 0, 0), moved_to(3, 0, 0), moved_to(2, 0, 0)]);
    assert_eq!(
        journal.recent(4),
        vec![moved_to(4, 0, 0), moved_to(3, 0, 0), moved_to(2, 0, 0), moved_to(1, 0, 0)]
    );
    assert_eq!(journal.recent(usize::MAX).len(), 4);
    assert_eq!(journal, before);
}

#[test]
fn bookkeeping_starts_at_nothing() {
    assert!(ActionJournal::default().entries.is_empty());
    assert_eq!(GameTurn::default(), GameTurn(0));
    assert_eq!(ActiveMenuIndex::default(), ActiveMenuIndex(0));
}

#[test]
fn errors_say_what_they_are() {
    let io = AppError::Io(std::io::Error::new(std::io::ErrorKind::Other, "boom"));
    assert_eq!(io.message(), "I/O Error");
    assert_eq!(
        AppError::EventError("poll failed".to_string()).message(),
        "Event Handling Error: poll failed"
    );
    assert_eq!(
        AppError::StateError("no player".to_string()).message(),
        "Game State Error: no player"
    );
    assert_eq!(AppError::StateError(String::new()).message(), "Game State Error: ");
}

#[test]
fn io_errors_become_app_errors() {
    let wrapped = AppError::from(std::io::Error::new(std::io::ErrorKind::NotFound, "gone"));
    match wrapped {
        AppError::Io(inner) => {
            assert_eq!(inner.kind(), std::io::ErrorKind::NotFound);
            assert_eq!(inner.to_string(), "gone");
        },
        _ => panic!("an I/O error was expected"),
    }
}

#[test]
fn faults_that_stop_a_turn_become_state_errors() {
    let cases = [
        (TurnError::Player(QueryError::NotFound), "the world has no player"),
        (TurnError::Player(QueryError::Ambiguous), "the world has more than one player"),
        (TurnError::MindlessEnemy(ActorId(0)), "enemy 0 has no memory"),
        (TurnError::MindlessEnemy(ActorId(312)), "enemy 312 has no memory"),
    ];
    for (error, text) in cases {
        match AppError::from_turn_error(error) {
            AppError::StateError(what) => assert_eq!(what, text),
            _ => panic!("a state error was expected"),
        }
    }
    assert_eq!(
        AppError::from_turn_error(TurnError::MindlessEnemy(ActorId(7))).message(),
        "Game State Error: enemy 7 has no memory"
    );
}

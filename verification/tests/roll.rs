use voice_queue::commands::{CommandKind, SlashCommand};
use voice_queue::roll::{roll, roll_message, Roll, RollArgs};

#[test]
fn limits_are_read_as_given() {
    assert_eq!(RollArgs::parse_options(None), RollArgs { limit: 100 });
    assert_eq!(RollArgs::parse_options(Some(6)), RollArgs { limit: 6 });
    assert_eq!(RollArgs::parse_options(Some(0)), RollArgs { limit: 0 });
    assert_eq!(RollArgs::parse_options(Some(-20)), RollArgs { limit: 0 });
    assert_eq!(RollArgs::parse_options(Some(i64::MAX)), RollArgs { limit: i64::MAX as u64 });
}

#[test]
fn roll_messages() {
    assert_eq!(roll_message(0), "You rolled 0! :game_die:");
    assert_eq!(roll_message(57), "You rolled 57! :game_die:");
    assert_eq!(roll_message(u64::MAX), "You rolled 18446744073709551615! :game_die:");
}

#[test]
fn one_face_always_rolls_zero() {
    for _ in 0..50 {
        assert_eq!(roll(RollArgs { limit: 1 }), Some("You rolled 0! :game_die:".to_string()));
    }
}

#[test]
fn rolls_stay_below_the_limit() {
    let mut seen = [false; 6];
    for _ in 0..2000 {
        let text = roll(RollArgs { limit: 6 }).unwrap();
        let number = text
            .strip_prefix("You rolled ")
            .and_then(|rest| rest.strip_suffix("! :game_die:"))
            .unwrap();
        let rolled: usize = number.parse().unwrap();
        assert!(rolled < 6);
        seen[rolled] = true;
    }
    assert!(seen.iter().all(|s| *s));
}

#[test]
fn no_faces_no_roll() {
    assert_eq!(roll(RollArgs { limit: 0 }), None);
}

#[test]
fn roll_names_its_kind() {
    assert_eq!(Roll::kind(), CommandKind::Roll);
    assert_eq!(CommandKind::Roll.name(), "roll");
    assert_eq!(CommandKind::Roll.description(), "Roll a random number");
}

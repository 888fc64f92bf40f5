use torsim::model::{epoch_relay_stats, has_flag, is_exit_relay, qualifies, Flag, Relay};

fn relay(fp: &[u8], flags: Option<Vec<Flag>>) -> Relay {
    Relay { fingerprint: fp.to_vec(), flags }
}

#[test]
fn has_flag_finds_present_flags_only() {
    let flags = vec![Flag::Guard, Flag::Valid];
    assert!(has_flag(&flags, Flag::Guard));
    assert!(has_flag(&flags, Flag::Valid));
    assert!(!has_flag(&flags, Flag::Running));
    assert!(!has_flag(&Vec::new(), Flag::Guard));
}

#[test]
fn qualification_needs_role_valid_and_running() {
    let full = relay(b"a", Some(vec![Flag::Guard, Flag::Valid, Flag::Running]));
    let no_running = relay(b"b", Some(vec![Flag::Guard, Flag::Valid]));
    let unflagged = relay(b"c", None);
    assert!(qualifies(&full, Flag::Guard));
    assert!(!qualifies(&full, Flag::Exit));
    assert!(!qualifies(&no_running, Flag::Guard));
    assert!(!qualifies(&unflagged, Flag::Guard));
}

#[test]
fn exit_flag_alone_marks_an_exit_relay() {
    assert!(is_exit_relay(&relay(b"a", Some(vec![Flag::Exit]))));
    assert!(!is_exit_relay(&relay(b"b", Some(vec![Flag::Guard]))));
    assert!(!is_exit_relay(&relay(b"c", None)));
}

#[test]
fn relay_stats_count_guards_and_exits() {
    let relays = vec![
        relay(b"a", Some(vec![Flag::Guard, Flag::Valid, Flag::Running])),
        relay(b"b", Some(vec![Flag::Exit, Flag::Valid, Flag::Running])),
        relay(b"c", Some(vec![Flag::Guard, Flag::Exit, Flag::Valid, Flag::Running])),
        relay(b"d", Some(vec![Flag::Guard, Flag::Valid])),
        relay(b"e", None),
    ];
    let (total, guards, exits) = epoch_relay_stats(&relays);
    assert_eq!(total, 5);
    assert_eq!(guards, 2);
    assert_eq!(exits, 2);
}

#[test]
fn relay_stats_of_empty_snapshot_are_zero() {
    let (total, guards, exits) = epoch_relay_stats(&Vec::new());
    assert_eq!(total, 0);
    assert_eq!(guards, 0);
    assert_eq!(exits, 0);
}

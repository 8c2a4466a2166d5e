use qbot::notify::{pop_notification, toggle_message};
use qbot::queue::Entry;
use qbot::web::{
    authorization_cookie_value, owner_flag, rejection_code_and_message, NextQueryArg,
    RejectionKind, DEFAULT_POP_COUNT,
};

fn entry(id: u64, nickname: &str) -> Entry {
    Entry { id, nickname: nickname.to_string(), joined_at_ms: 0 }
}

#[test]
fn toggle_messages_are_exact() {
    assert_eq!(toggle_message(true), "The queue is now open.");
    assert_eq!(toggle_message(false), "The queue is now closed.");
}

#[test]
fn nothing_popped_stays_silent() {
    assert!(pop_notification(&None).is_none());
}

#[test]
fn empty_batch_still_speaks() {
    let m = pop_notification(&Some(vec![])).expect("a popped batch speaks");
    assert_eq!(
        m,
        "Up next: @. You can reach BK in game with the following message: @brittleknee Hi."
    );
}

#[test]
fn popped_names_are_listed_in_order() {
    let batch = vec![entry(0, "alice"), entry(1, "bob"), entry(2, "carol")];
    let m = pop_notification(&Some(batch)).expect("a popped batch speaks");
    assert_eq!(
        m,
        "Up next: @alice, @bob, @carol. You can reach BK in game with the following message: @brittleknee Hi."
    );
}

#[test]
fn one_popped_name_gets_no_separator() {
    let m = pop_notification(&Some(vec![entry(7, "dora")])).expect("a popped batch speaks");
    assert_eq!(
        m,
        "Up next: @dora. You can reach BK in game with the following message: @brittleknee Hi."
    );
}

#[test]
fn pop_count_defaults_to_four() {
    assert_eq!(DEFAULT_POP_COUNT, 4);
    assert_eq!(NextQueryArg::new(None).count_or_default(), 4);
    assert_eq!(NextQueryArg::new(Some(9)).count_or_default(), 9);
    assert_eq!(NextQueryArg::new(Some(0)).count_or_default(), 0);
}

#[test]
fn rejections_map_to_their_answers() {
    let (code, message) = rejection_code_and_message(&RejectionKind::NotFound);
    assert_eq!((code, message.as_str()), (404, "NOT_FOUND"));
    let (code, message) = rejection_code_and_message(&RejectionKind::Unauthorized);
    assert_eq!((code, message.as_str()), (401, "Unauthorized"));
    let (code, message) = rejection_code_and_message(&RejectionKind::Other);
    assert_eq!((code, message.as_str()), (500, "UNHANDLED_REJECTION"));
}

#[test]
fn cookie_value_wraps_the_token() {
    assert_eq!(
        authorization_cookie_value("abc.def.ghi"),
        "id_token=abc.def.ghi; HttpOnly; Secure"
    );
}

#[test]
fn owner_flag_compares_case_insensitively() {
    assert_eq!(owner_flag("Alice", "alice"), Some(true));
    assert_eq!(owner_flag("alice", "ALICE"), Some(true));
    assert_eq!(owner_flag("alice", "bob"), None);
    assert_eq!(owner_flag("", ""), Some(true));
}

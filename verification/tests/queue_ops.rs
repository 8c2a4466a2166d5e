use qbot::actor::{handle_command, handle_command_at, Command, Response};
use qbot::queue::QueueState;

#[test]
fn new_queue_is_empty_and_closed() {
    let q = QueueState::new();
    assert_eq!(q.len(), 0);
    assert!(!q.status());
    let snap = q.snapshot();
    assert_eq!(snap.entries.len(), 0);
    assert!(!snap.is_open);
}

#[test]
fn add_users_keep_arrival_order() {
    let mut q = QueueState::new();
    assert_eq!(q.add_user_at("alice".to_string(), 10), 0);
    assert_eq!(q.add_user_at("bob".to_string(), 20), 1);
    assert_eq!(q.add_user_at("carol".to_string(), 30), 2);
    let snap = q.snapshot();
    let names: Vec<&str> = snap.entries.iter().map(|e| e.nickname.as_str()).collect();
    assert_eq!(names, vec!["alice", "bob", "carol"]);
    assert_eq!(snap.entries[0].id, 0);
    assert_eq!(snap.entries[1].id, 1);
    assert_eq!(snap.entries[2].id, 2);
    assert_eq!(snap.entries[0].joined_at_ms, 10);
}

#[test]
fn rejoin_returns_existing_index_and_changes_nothing() {
    let mut q = QueueState::new();
    assert_eq!(q.add_user_at("alice".to_string(), 1), 0);
    assert_eq!(q.add_user_at("bob".to_string(), 2), 1);
    assert_eq!(q.add_user_at("alice".to_string(), 99), 0);
    assert_eq!(q.len(), 2);
    let snap = q.snapshot();
    assert_eq!(snap.entries[0].nickname, "alice");
    assert_eq!(snap.entries[0].joined_at_ms, 1);
}

#[test]
fn add_user_with_clock_still_orders_and_numbers() {
    let mut q = QueueState::new();
    assert_eq!(q.add_user("alice".to_string()), 0);
    assert_eq!(q.add_user("bob".to_string()), 1);
    assert_eq!(q.add_user("alice".to_string()), 0);
    assert_eq!(q.len(), 2);
}

#[test]
fn find_user_reports_first_index_or_nothing() {
    let mut q = QueueState::new();
    q.add_user_at("alice".to_string(), 1);
    q.add_user_at("bob".to_string(), 2);
    assert_eq!(q.find_user(&"alice".to_string()), Some(0));
    assert_eq!(q.find_user(&"bob".to_string()), Some(1));
    assert_eq!(q.find_user(&"carol".to_string()), None);
    assert_eq!(q.find_user(&"Alice".to_string()), None);
}

#[test]
fn peek_copies_front_without_mutation() {
    let mut q = QueueState::new();
    q.add_user_at("alice".to_string(), 1);
    q.add_user_at("bob".to_string(), 2);
    q.add_user_at("carol".to_string(), 3);
    for _ in 0..3 {
        let two = q.peek_queue(2);
        assert_eq!(two.len(), 2);
        assert_eq!(two[0].nickname, "alice");
        assert_eq!(two[1].nickname, "bob");
        assert_eq!(q.len(), 3);
    }
    let all = q.peek_queue(10);
    assert_eq!(all.len(), 3);
    let none = q.peek_queue(0);
    assert_eq!(none.len(), 0);
    assert_eq!(q.len(), 3);
}

#[test]
fn pop_takes_min_of_count_and_length_from_front() {
    let mut q = QueueState::new();
    q.add_user_at("alice".to_string(), 1);
    q.add_user_at("bob".to_string(), 2);
    q.add_user_at("carol".to_string(), 3);
    let popped = q.pop_queue(2).expect("non-empty queue pops");
    assert_eq!(popped.len(), 2);
    assert_eq!(popped[0].nickname, "alice");
    assert_eq!(popped[1].nickname, "bob");
    assert_eq!(q.len(), 1);
    assert_eq!(q.find_user(&"carol".to_string()), Some(0));
    let rest = q.pop_queue(5).expect("non-empty queue pops");
    assert_eq!(rest.len(), 1);
    assert_eq!(rest[0].nickname, "carol");
    assert_eq!(q.len(), 0);
}

#[test]
fn pop_on_empty_is_nothing_popped_not_an_empty_batch() {
    let mut q = QueueState::new();
    assert!(q.pop_queue(4).is_none());
    q.add_user_at("alice".to_string(), 1);
    let empty_batch = q.pop_queue(0).expect("zero off a non-empty queue is an empty batch");
    assert_eq!(empty_batch.len(), 0);
    assert_eq!(q.len(), 1);
}

#[test]
fn remove_user_takes_exactly_the_named_entry() {
    let mut q = QueueState::new();
    q.add_user_at("alice".to_string(), 1);
    q.add_user_at("bob".to_string(), 2);
    q.add_user_at("carol".to_string(), 3);
    let gone = q.remove_user(&"bob".to_string()).expect("bob waits");
    assert_eq!(gone.nickname, "bob");
    assert_eq!(gone.id, 1);
    assert_eq!(q.len(), 2);
    assert_eq!(q.find_user(&"alice".to_string()), Some(0));
    assert_eq!(q.find_user(&"carol".to_string()), Some(1));
    assert_eq!(q.find_user(&"bob".to_string()), None);
}

#[test]
fn remove_user_on_absent_name_is_a_noop() {
    let mut q = QueueState::new();
    q.add_user_at("alice".to_string(), 1);
    assert!(q.remove_user(&"bob".to_string()).is_none());
    assert_eq!(q.len(), 1);
    assert_eq!(q.find_user(&"alice".to_string()), Some(0));
}

#[test]
fn toggle_reports_post_flip_and_round_trips() {
    let mut q = QueueState::new();
    assert!(q.toggle());
    assert!(q.status());
    assert!(!q.toggle());
    assert!(!q.status());
    assert_eq!(q.len(), 0);
}

#[test]
fn removed_ids_are_never_reused() {
    let mut q = QueueState::new();
    q.add_user_at("alice".to_string(), 1);
    q.pop_queue(1);
    q.add_user_at("alice".to_string(), 2);
    let snap = q.snapshot();
    assert_eq!(snap.entries[0].id, 1);
}

#[test]
fn snapshot_is_independent_of_live_state() {
    let mut q = QueueState::new();
    q.add_user_at("alice".to_string(), 1);
    let snap = q.snapshot();
    q.pop_queue(1);
    assert_eq!(snap.entries.len(), 1);
    assert_eq!(snap.entries[0].nickname, "alice");
    assert_eq!(q.len(), 0);
}

#[test]
fn commands_drive_the_same_operations() {
    let mut q = QueueState::new();
    match handle_command_at(&mut q, Command::AddUser { name: "alice".to_string() }, 5) {
        Response::Added(i) => assert_eq!(i, 0),
        _ => panic!("AddUser answers with the index"),
    }
    match handle_command(&mut q, Command::AddUser { name: "bob".to_string() }) {
        Response::Added(i) => assert_eq!(i, 1),
        _ => panic!("AddUser answers with the index"),
    }
    match handle_command(&mut q, Command::FindUser { name: "bob".to_string() }) {
        Response::Found(i) => assert_eq!(i, Some(1)),
        _ => panic!("FindUser answers with the position"),
    }
    match handle_command(&mut q, Command::PeekQueue { count: 5 }) {
        Response::Peeked(v) => assert_eq!(v.len(), 2),
        _ => panic!("PeekQueue answers with copies"),
    }
    match handle_command(&mut q, Command::GetQueueStatus) {
        Response::Open(b) => assert!(!b),
        _ => panic!("GetQueueStatus answers with the flag"),
    }
    match handle_command(&mut q, Command::ToggleQueue) {
        Response::Open(b) => assert!(b),
        _ => panic!("ToggleQueue answers with the post-flip flag"),
    }
    match handle_command(&mut q, Command::RemoveUser { name: "alice".to_string() }) {
        Response::Removed(e) => assert_eq!(e.expect("alice waits").nickname, "alice"),
        _ => panic!("RemoveUser answers with the entry"),
    }
    match handle_command(&mut q, Command::PopQueue { count: 4 }) {
        Response::Popped(Some(v)) => {
            assert_eq!(v.len(), 1);
            assert_eq!(v[0].nickname, "bob");
        },
        _ => panic!("PopQueue on a non-empty queue pops"),
    }
    match handle_command(&mut q, Command::PopQueue { count: 4 }) {
        Response::Popped(None) => {},
        _ => panic!("PopQueue on an empty queue reports nothing popped"),
    }
    match handle_command(&mut q, Command::GetQueue) {
        Response::Snapshot(s) => {
            assert_eq!(s.entries.len(), 0);
            assert!(s.is_open);
        },
        _ => panic!("GetQueue answers with the snapshot"),
    }
}

#[test]
fn end_to_end_scenario() {
    let mut q = QueueState::new();
    assert!(q.toggle());
    assert_eq!(q.add_user_at("alice".to_string(), 1), 0);
    assert_eq!(q.add_user_at("bob".to_string(), 2), 1);
    assert_eq!(q.add_user_at("alice".to_string(), 3), 0);
    assert_eq!(q.len(), 2);
    let popped = q.pop_queue(1).expect("non-empty queue pops");
    assert_eq!(popped.len(), 1);
    assert_eq!(popped[0].nickname, "alice");
    let snap = q.snapshot();
    assert_eq!(snap.entries.len(), 1);
    assert_eq!(snap.entries[0].nickname, "bob");
    assert!(snap.is_open);
}

use tero_server::{
    collect_failures,
    DataHandle, Delivery, DispatchStack, Message, ServerState, SessionAction, Step, Store,
    SyncError, Tero, Value, CHANNEL_SIZE,
};

fn message(key: &str, value: Value) -> Message {
    Message { key: key.to_string(), value }
}

#[test]
fn on_change_handler_with_inner_self_set() {
    let mut tero = Tero::new();
    let handle = tero.data("test1", Value::Int(1)).unwrap();
    handle.on_change(&mut tero.store, 0);
    assert_eq!(tero.store.elements[handle.element].callbacks, vec![0]);
    // The callback sets the key again; dispatch must not block on the store.
    let report = handle.set(&mut tero.store, Value::Int(2)).unwrap();
    let mut stack = DispatchStack::new();
    stack.push(report.callbacks);
    assert_eq!(stack.next(), Some(Step::Run(0)));
    let inner = handle.set(&mut tero.store, Value::Int(2)).unwrap();
    assert_eq!(handle.get(&tero.store), Value::Int(2));
    assert_eq!(inner.callbacks, vec![0]);
}

#[test]
fn duplicate_key_is_refused_and_original_kept() {
    let mut tero = Tero::new();
    let handle = tero.data("counter", Value::Int(7)).unwrap();
    handle.on_change(&mut tero.store, 3);
    let again = tero.data("counter", Value::Int(9));
    assert!(matches!(again, Err(SyncError::DuplicateKey)));
    assert_eq!(handle.get(&tero.store), Value::Int(7));
    assert_eq!(tero.store.elements.len(), 1);
    assert_eq!(tero.store.elements[0].callbacks, vec![3]);
}

#[test]
fn store_register_duplicate() {
    let mut store = Store::new();
    assert_eq!(store.register("a", Value::Bool(true)), Ok(0));
    assert_eq!(store.register("b", Value::Bool(false)), Ok(1));
    assert_eq!(store.register("a", Value::Int(1)), Err(SyncError::DuplicateKey));
    assert_eq!(store.lookup("a"), Some(0));
    assert_eq!(store.lookup("b"), Some(1));
    assert_eq!(store.lookup("c"), None);
    assert_eq!(store.get(0), Value::Bool(true));
}

#[test]
fn get_returns_what_set_wrote() {
    let mut tero = Tero::new();
    let text = tero.data("name", Value::Text("a".to_string())).unwrap();
    let flag = tero.data("flag", Value::Bool(false)).unwrap();
    text.set(&mut tero.store, Value::Text("hello".to_string())).unwrap();
    assert_eq!(text.get(&tero.store), Value::Text("hello".to_string()));
    flag.set(&mut tero.store, Value::Bool(true)).unwrap();
    assert_eq!(flag.get(&tero.store), Value::Bool(true));
    assert_eq!(text.get(&tero.store), Value::Text("hello".to_string()));
}

#[test]
fn set_with_another_type_is_refused() {
    let mut tero = Tero::new();
    let h = tero.data("n", Value::Int(4)).unwrap();
    let r = h.set(&mut tero.store, Value::Text("x".to_string()));
    assert!(matches!(r, Err(SyncError::KindMismatch)));
    assert_eq!(h.get(&tero.store), Value::Int(4));
}

#[test]
fn callbacks_run_once_each_in_order() {
    let mut tero = Tero::new();
    let h = tero.data("k", Value::Int(0)).unwrap();
    let other = tero.attach("k").unwrap();
    h.on_change(&mut tero.store, 10);
    other.on_change(&mut tero.store, 11);
    h.on_change(&mut tero.store, 12);
    let report = other.set(&mut tero.store, Value::Int(1)).unwrap();
    assert_eq!(report.callbacks, vec![10, 11, 12]);
    let mut stack = DispatchStack::new();
    stack.push(report.callbacks);
    assert_eq!(stack.next(), Some(Step::Run(10)));
    assert_eq!(stack.next(), Some(Step::Run(11)));
    assert_eq!(stack.next(), Some(Step::Run(12)));
    assert_eq!(stack.next(), Some(Step::FrameDone));
    assert_eq!(stack.next(), None);
}

fn dispatch(
    tero: &mut Tero,
    h: &DataHandle,
    stack: &mut DispatchStack,
    v: i64,
    trace: &mut Vec<String>,
) {
    let report = h.set(&mut tero.store, Value::Int(v)).unwrap();
    trace.push(format!("set {}", v));
    stack.push(report.callbacks);
    loop {
        match stack.next() {
            Some(Step::Run(cb)) => {
                trace.push(format!("cb {} at {}", cb, v));
                if cb == 1 && v == 1 {
                    dispatch(tero, h, stack, 2, trace);
                }
            }
            _ => break,
        }
    }
    trace.push(format!("done {}", v));
}

#[test]
fn reentrant_set_runs_inner_callbacks_first() {
    let mut tero = Tero::new();
    let h = tero.data("k", Value::Int(0)).unwrap();
    for cb in 0..3u64 {
        h.on_change(&mut tero.store, cb);
    }
    let mut stack = DispatchStack::new();
    let mut trace = Vec::new();
    dispatch(&mut tero, &h, &mut stack, 1, &mut trace);
    let expected = vec![
        "set 1", "cb 0 at 1", "cb 1 at 1", "set 2", "cb 0 at 2", "cb 1 at 2", "cb 2 at 2",
        "done 2", "cb 2 at 1", "done 1",
    ];
    assert_eq!(trace, expected);
    assert_eq!(h.get(&tero.store), Value::Int(2));
    assert_eq!(stack.next(), None);
}

#[test]
fn fan_out_reaches_earlier_subscribers_only() {
    let mut tero = Tero::new();
    let h = tero.data("k", Value::Int(0)).unwrap();
    let mut a = tero.subscribe();
    let mut b = tero.subscribe();
    let report = h.set(&mut tero.store, Value::Int(5)).unwrap();
    assert_eq!(report.published_to, Some(3));
    let mut late = tero.subscribe();
    assert_eq!(a.poll(), Delivery::Message(message("k", Value::Int(5))));
    assert_eq!(b.poll(), Delivery::Message(message("k", Value::Int(5))));
    assert_eq!(late.poll(), Delivery::Empty);
    assert_eq!(a.poll(), Delivery::Empty);
}

#[test]
fn lagging_subscriber_sees_gap_then_later_messages() {
    let mut tero = Tero::new();
    let h = tero.data("k", Value::Int(0)).unwrap();
    let mut slow = tero.subscribe();
    let total = CHANNEL_SIZE as i64 + 8;
    for i in 0..total {
        h.set(&mut tero.store, Value::Int(i)).unwrap();
    }
    assert_eq!(slow.poll(), Delivery::Lagged(8));
    for i in 8..total {
        assert_eq!(slow.poll(), Delivery::Message(message("k", Value::Int(i))));
    }
    assert_eq!(slow.poll(), Delivery::Empty);
}

#[test]
fn session_actions() {
    let m = message("k", Value::Int(1));
    assert_eq!(tero_server::bus::session_action(Delivery::Message(m.clone())), SessionAction::Forward(m));
    assert_eq!(tero_server::bus::session_action(Delivery::Empty), SessionAction::Wait);
    assert_eq!(tero_server::bus::session_action(Delivery::Lagged(4)), SessionAction::NoteGap(4));
    assert_eq!(tero_server::bus::session_action(Delivery::Closed), SessionAction::Close);
}

#[test]
fn stop_then_restart() {
    let mut tero = Tero::new();
    assert_eq!(tero.get_state(), ServerState::Down);
    assert_eq!(tero.start(Some(1)), Ok(()));
    assert_eq!(tero.get_state(), ServerState::Up);
    assert!(tero.record_session(2));
    assert!(tero.record_session(3));
    assert_eq!(tero.stop(), vec![2, 3, 1]);
    assert_eq!(tero.get_state(), ServerState::Down);
    assert_eq!(tero.stop(), Vec::<u64>::new());
    assert_eq!(tero.get_state(), ServerState::Down);
    assert!(!tero.record_session(4));
    assert_eq!(tero.start(Some(5)), Ok(()));
    assert_eq!(tero.get_state(), ServerState::Up);
    assert_eq!(tero.stop(), vec![5]);
}

#[test]
fn start_errors() {
    let mut tero = Tero::new();
    assert_eq!(tero.start(None), Err(SyncError::Bind));
    assert_eq!(tero.get_state(), ServerState::Down);
    assert_eq!(tero.start(Some(1)), Ok(()));
    assert_eq!(tero.start(Some(2)), Err(SyncError::AlreadyUp));
    assert_eq!(tero.stop(), vec![1]);
}

#[test]
fn data_is_allowed_while_up() {
    let mut tero = Tero::new();
    tero.start(Some(1)).unwrap();
    let h = tero.data("late", Value::Int(3)).unwrap();
    assert_eq!(h.get(&tero.store), Value::Int(3));
}

#[test]
fn end_to_end_counter() {
    let mut tero = Tero::new();
    assert_eq!(tero.start(Some(100)), Ok(()));
    let h = tero.data("counter", Value::Int(0)).unwrap();
    let mut conn_a = tero.subscribe();
    let mut conn_b = tero.subscribe();
    assert!(tero.record_session(101));
    assert!(tero.record_session(102));
    let report = tero.apply(message("counter", Value::Int(1))).unwrap();
    assert!(report.published_to.is_some());
    assert_eq!(conn_a.poll(), Delivery::Message(message("counter", Value::Int(1))));
    assert_eq!(conn_b.poll(), Delivery::Message(message("counter", Value::Int(1))));
    let other = tero.attach("counter").unwrap();
    assert_eq!(h.get(&tero.store), Value::Int(1));
    assert_eq!(other.get(&tero.store), Value::Int(1));
}

#[test]
fn apply_errors() {
    let mut tero = Tero::new();
    tero.data("counter", Value::Int(0)).unwrap();
    assert!(matches!(tero.apply(message("missing", Value::Int(1))), Err(SyncError::UnknownKey)));
    assert!(matches!(tero.apply(message("counter", Value::Bool(true))), Err(SyncError::KindMismatch)));
    assert!(tero.attach("missing").is_none());
}

#[test]
fn value_kind_and_duplicate() {
    let v = Value::Text("abc".to_string());
    assert_eq!(v.duplicate(), Value::Text("abc".to_string()));
    assert_eq!(v.kind(), tero_server::ValueKind::Text);
    assert_eq!(Value::Int(3).kind(), tero_server::ValueKind::Int);
}

#[test]
fn publisher_without_subscribers() {
    let (publisher, first) = tero_server::Publisher::channel(4);
    drop(first);
    assert_eq!(publisher.publish(message("k", Value::Int(1))), None);
    let mut sub = publisher.subscribe();
    let shared = publisher.share();
    assert_eq!(shared.publish(message("k", Value::Int(2))), Some(1));
    assert_eq!(sub.poll(), Delivery::Message(message("k", Value::Int(2))));
    drop(publisher);
    drop(shared);
    assert_eq!(sub.poll(), Delivery::Closed);
}

#[test]
fn callback_failures_are_gathered_in_order() {
    let outcomes: Vec<Result<(), String>> =
        vec![Ok(()), Err("first".to_string()), Ok(()), Err("second".to_string())];
    assert_eq!(collect_failures(&outcomes), vec!["first".to_string(), "second".to_string()]);
    assert_eq!(collect_failures(&vec![Ok(()), Ok(())]), Vec::<String>::new());
}

#[test]
fn bus_of_the_server_has_fixed_capacity() {
    let mut tero = Tero::new();
    let h = tero.data("k", Value::Int(0)).unwrap();
    let mut slow = tero.subscribe();
    for i in 0..CHANNEL_SIZE as i64 {
        h.set(&mut tero.store, Value::Int(i)).unwrap();
    }
    assert_eq!(slow.poll(), Delivery::Message(message("k", Value::Int(0))));
    let mut slower = tero.subscribe();
    for i in 0..CHANNEL_SIZE as i64 + 1 {
        h.set(&mut tero.store, Value::Int(i)).unwrap();
    }
    assert_eq!(slower.poll(), Delivery::Lagged(1));
}

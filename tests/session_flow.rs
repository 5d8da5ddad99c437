use sideband::{
    Action, ChannelState, CommandQueue, Dispatch, Dispatcher, Event, ParamSlot, Phase, Session,
    Status, Variant, CONNECT_FLAGS, PARAM_OK, on_invoke, push_decimal,
};

fn texts(reports: &[Status]) -> Vec<String> {
    reports.iter().map(|r| String::from_utf8(r.text()).unwrap()).collect()
}

#[test]
fn new_session_waits_for_init() {
    let s = Session::new();
    assert_eq!(s.phase, Phase::Initializing);
    assert_eq!(s.object, None);
    assert!(s.holds_lock());
}

#[test]
fn init_failure_aborts() {
    let mut s = Session::new();
    let step = s.step(Event::InitDone(false));
    assert_eq!(step.action, Action::Abort);
    assert_eq!(s.phase, Phase::Failed);
    let step = s.step(Event::SleepDone);
    assert_eq!(step.action, Action::Idle);
    assert_eq!(s.phase, Phase::Failed);
}

#[test]
fn never_connected_reports_and_retries() {
    let mut s = Session::new();
    let mut dispatcher = Dispatcher::new();
    let mut queue = CommandQueue::new();
    assert!(matches!(dispatcher.next_dispatch(&mut queue), Dispatch::InitTrigger));
    let mut log: Vec<String> = Vec::new();
    let mut action = s.step(Event::InitDone(true)).action;
    assert_eq!(action, Action::Connect(CONNECT_FLAGS));
    for _ in 0..5 {
        let step = s.step(Event::ConnectDone(0));
        assert_eq!(step.action, Action::ReadState);
        log.extend(texts(&step.reports));
        let step = s.step(Event::StateRead(ChannelState::Disconnected));
        assert_eq!(step.action, Action::Poll);
        log.extend(texts(&step.reports));
        let step = s.step(Event::PollDone);
        assert_eq!(step.action, Action::Sleep);
        assert!(step.reports.is_empty());
        let step = s.step(Event::SleepDone);
        action = step.action;
        assert_eq!(action, Action::Connect(0));
        assert!(s.object.is_none());
    }
    assert_eq!(log.len(), 15);
    for chunk in log.chunks(3) {
        assert_eq!(chunk[0], "Connect (0) = 0");
        assert_eq!(chunk[1], "Channel state = <disconnected>");
        assert_eq!(chunk[2], "Polling...");
    }
    assert!(matches!(dispatcher.next_dispatch(&mut queue), Dispatch::Wait));
}

#[test]
fn connect_rate_bounded_by_sleeps() {
    let mut s = Session::new();
    let mut connects: usize = 0;
    let mut sleeps: usize = 0;
    let mut count = |a: Action, c: &mut usize, z: &mut usize| match a {
        Action::Connect(_) => *c += 1,
        Action::Sleep => *z += 1,
        _ => {}
    };
    let a = s.step(Event::InitDone(true)).action;
    count(a, &mut connects, &mut sleeps);
    for i in 0..200 {
        let st = if i % 2 == 0 { ChannelState::Disconnected } else { ChannelState::Pending };
        for e in [Event::ConnectDone(-1), Event::StateRead(st), Event::PollDone, Event::SleepDone] {
            let a = s.step(e).action;
            count(a, &mut connects, &mut sleeps);
            assert!(connects <= sleeps + 1);
        }
    }
    assert_eq!(connects, 201);
    assert_eq!(sleeps, 200);
}

#[test]
fn connect_then_one_invocation_then_disconnect() {
    let mut s = Session::new();
    let mut queue = CommandQueue::new();
    let mut dispatcher = Dispatcher::new();
    let mut triggers: Vec<Vec<u8>> = Vec::new();
    let mut log: Vec<String> = Vec::new();

    assert_eq!(s.step(Event::InitDone(true)).action, Action::Connect(0));
    let step = s.step(Event::ConnectDone(1));
    log.extend(texts(&step.reports));
    let step = s.step(Event::StateRead(ChannelState::Connected));
    assert_eq!(step.action, Action::CreateObject);
    log.extend(texts(&step.reports));
    let step = s.step(Event::ObjectCreated(Some(42)));
    assert_eq!(step.action, Action::Poll);
    log.extend(texts(&step.reports));
    assert!(!s.holds_lock());
    assert_eq!(s.object, Some(42));

    let mut slot = ParamSlot::fetched(Variant::Text(b"go\0".to_vec()));
    on_invoke(&mut queue, PARAM_OK, &mut slot);
    assert!(slot.released);

    assert!(matches!(dispatcher.next_dispatch(&mut queue), Dispatch::InitTrigger));
    while let Dispatch::Trigger(t) = dispatcher.next_dispatch(&mut queue) {
        triggers.push(t);
    }
    assert_eq!(triggers, vec![b"go\0".to_vec()]);

    assert_eq!(s.step(Event::PollDone).action, Action::ReadState);
    let step = s.step(Event::StateRead(ChannelState::Disconnected));
    assert_eq!(step.action, Action::DestroyObject(42));
    let step = s.step(Event::ObjectDestroyed);
    assert_eq!(step.action, Action::Sleep);
    log.extend(texts(&step.reports));
    assert_eq!(s.object, None);
    assert_eq!(s.step(Event::SleepDone).action, Action::Init);
    assert_eq!(s.phase, Phase::Initializing);
    assert_eq!(s.step(Event::InitDone(true)).action, Action::Connect(0));

    assert_eq!(
        log,
        vec![
            "Connect (0) = 1",
            "Channel state = <connected>",
            "Channel object created",
            "Channel object destroyed",
        ]
    );
}

#[test]
fn destroy_precedes_next_create() {
    let mut s = Session::new();
    let mut actions: Vec<Action> = Vec::new();
    let epoch = |s: &mut Session, h: u64, acts: &mut Vec<Action>| {
        for e in [
            Event::InitDone(true),
            Event::ConnectDone(0),
            Event::StateRead(ChannelState::Connected),
            Event::ObjectCreated(Some(h)),
            Event::PollDone,
            Event::StateRead(ChannelState::Connected),
            Event::PollDone,
            Event::StateRead(ChannelState::Disconnected),
            Event::ObjectDestroyed,
            Event::SleepDone,
        ] {
            acts.push(s.step(e).action);
        }
    };
    epoch(&mut s, 7, &mut actions);
    epoch(&mut s, 8, &mut actions);
    let creates: Vec<usize> =
        (0..actions.len()).filter(|&i| actions[i] == Action::CreateObject).collect();
    let destroys: Vec<usize> =
        (0..actions.len()).filter(|&i| matches!(actions[i], Action::DestroyObject(_))).collect();
    assert_eq!(creates.len(), 2);
    assert_eq!(destroys.len(), 2);
    assert!(creates[0] < destroys[0] && destroys[0] < creates[1] && creates[1] < destroys[1]);
    assert_eq!(actions[destroys[0]], Action::DestroyObject(7));
    assert_eq!(actions[destroys[1]], Action::DestroyObject(8));
}

#[test]
fn failed_create_sleeps_then_reconnects() {
    let mut s = Session::new();
    s.step(Event::InitDone(true));
    s.step(Event::ConnectDone(0));
    s.step(Event::StateRead(ChannelState::Connected));
    let step = s.step(Event::ObjectCreated(None));
    assert_eq!(step.action, Action::Sleep);
    assert_eq!(texts(&step.reports), vec!["Channel object creation failed"]);
    assert_eq!(s.object, None);
    assert_eq!(s.step(Event::SleepDone).action, Action::Connect(0));
}

#[test]
fn unexpected_event_changes_nothing() {
    let mut s = Session::new();
    s.step(Event::InitDone(true));
    let step = s.step(Event::PollDone);
    assert_eq!(step.action, Action::Idle);
    assert!(step.reports.is_empty());
    assert_eq!(s.phase, Phase::Connecting);
}

#[test]
fn status_texts() {
    let t = |st: Status| String::from_utf8(st.text()).unwrap();
    assert_eq!(t(Status::Connect { flags: 0, result: -5 }), "Connect (0) = -5");
    assert_eq!(t(Status::Connect { flags: 4000000000, result: 2147483647 }), "Connect (4000000000) = 2147483647");
    assert_eq!(t(Status::ChannelState(ChannelState::Pending)), "Channel state = <pending>");
    assert_eq!(t(Status::Polling), "Polling...");
}

#[test]
fn decimal_extremes() {
    let mut out: Vec<u8> = b"x".to_vec();
    push_decimal(&mut out, i64::MIN);
    assert_eq!(out, b"x-9223372036854775808".to_vec());
    let mut out: Vec<u8> = Vec::new();
    push_decimal(&mut out, 0);
    assert_eq!(out, b"0".to_vec());
    let mut out: Vec<u8> = Vec::new();
    push_decimal(&mut out, 1203);
    assert_eq!(out, b"1203".to_vec());
}

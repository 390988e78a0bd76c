use presence::codec::Op;
use presence::json::Cmd;
use presence::rpc::Rpc;
use presence::slot::{
    backoff_ms, token_from_grant, token_plan, Action, Event, OpenOutcome, Phase, Session,
    SlotStatus, Token, TokenPlan,
};

fn token(expires_at: i64) -> Token {
    Token {
        access_token: "access".to_string(),
        refresh_token: "refresh".to_string(),
        expires_at,
    }
}

fn response(nonce: &[u8], code: Option<&str>, error: bool) -> Event {
    Event::Received {
        op: Op::Frame,
        body: b"{}".to_vec(),
        nonce: Some(nonce.to_vec()),
        code: code.map(|c| c.to_string()),
        error,
    }
}

fn body_of(action: &Action) -> serde_json::Value {
    match action {
        Action::Write(p) | Action::StoreAndWrite(_, p) => serde_json::from_slice(&p.data).unwrap(),
        other => panic!("no packet in {other:?}"),
    }
}

/// Drives a fresh slot through opening and the handshake up to the token load.
fn to_loading(s: &mut Session) {
    assert!(matches!(s.on_event(Event::Start), Action::OpenPipe));
    let a = s.on_event(Event::Opened(OpenOutcome::Opened));
    match &a {
        Action::Write(p) => {
            assert_eq!(p.op, Op::Handshake);
            assert_eq!(p.data, br#"{"v":1,"client_id":"5"}"#.to_vec());
        }
        other => panic!("{other:?}"),
    }
    let ready = Event::Received { op: Op::Frame, body: b"{}".to_vec(), nonce: None, code: None, error: false };
    assert!(matches!(s.on_event(ready), Action::LoadToken));
}

#[test]
fn slot_retirement() {
    let rpc = Rpc::new(5, 100);
    let mut sessions = rpc.sessions();
    assert_eq!(sessions.len(), 10);
    let s = &mut sessions[7];
    assert_eq!(s.id, 7);
    assert!(matches!(s.on_event(Event::Start), Action::OpenPipe));
    assert!(matches!(s.on_event(Event::Opened(OpenOutcome::NotFound)), Action::Retire));
    assert_eq!(s.status(), SlotStatus::Dead);
    // nothing revives it
    assert!(matches!(s.on_event(Event::Start), Action::Retire));
    assert!(matches!(s.on_event(Event::Opened(OpenOutcome::Opened)), Action::Retire));
    assert!(matches!(
        s.on_event(Event::Send { cmd: Cmd::SetActivity, args: b"{}".to_vec() }),
        Action::Retire
    ));
    assert_eq!(s.status(), SlotStatus::Dead);

    let mut statuses = vec![SlotStatus::Open; 10];
    statuses[7] = SlotStatus::Dead;
    let out = rpc.set_activity(&br#"{"type":2}"#.to_vec(), &statuses);
    assert_eq!(out.len(), 9);
    assert!(out.iter().all(|(slot, _)| *slot != 7));
    for (slot, ev) in &out {
        assert!(*slot < 10);
        match ev {
            Event::Send { cmd, args } => {
                assert_eq!(*cmd, Cmd::SetActivity);
                assert_eq!(args, &br#"{"pid":100,"activity":{"type":2}}"#.to_vec());
            }
            other => panic!("{other:?}"),
        }
    }
}

#[test]
fn token_refresh_boundary() {
    let now = 1_700_000_000i64;
    let mut s = Session::new(0, 5);
    to_loading(&mut s);
    let a = s.on_event(Event::TokenLoaded { token: Some(token(now + 23 * 3600)), now });
    match a {
        Action::RefreshToken(r) => assert_eq!(r, "refresh"),
        other => panic!("expected a refresh, got {other:?}"),
    }
    assert_eq!(s.status(), SlotStatus::Opening);
    let fresh = token(now + 7 * 24 * 3600);
    let a = s.on_event(Event::TokenGranted(fresh));
    let nonce = match &a {
        Action::StoreAndWrite(t, p) => {
            assert_eq!(t.access_token, "access");
            assert_eq!(t.expires_at, now + 7 * 24 * 3600);
            assert_eq!(p.op, Op::Frame);
            let v = body_of(&a);
            assert_eq!(v["cmd"], "AUTHENTICATE");
            assert_eq!(v["args"]["access_token"], "access");
            v["nonce"].as_str().unwrap().as_bytes().to_vec()
        }
        other => panic!("{other:?}"),
    };
    assert_eq!(s.status(), SlotStatus::Opening);
    // a response to something else changes nothing
    assert!(matches!(s.on_event(response(b"00000000000000000000000000", None, false)), Action::Nothing));
    assert_eq!(s.status(), SlotStatus::Opening);
    assert!(matches!(s.on_event(response(&nonce, None, false)), Action::Nothing));
    assert_eq!(s.status(), SlotStatus::Open);
}

#[test]
fn expired_token_authorizes_again() {
    let now = 1_700_000_000i64;
    let mut s = Session::new(1, 5);
    to_loading(&mut s);
    let a = s.on_event_with_nonce(Event::TokenLoaded { token: Some(token(now - 1)), now }, 0);
    let v = body_of(&a);
    assert_eq!(v["cmd"], "AUTHORIZE");
    assert_eq!(v["nonce"], "00000000000000000000000000");
    assert_eq!(v["args"]["client_id"], "5");
    assert_eq!(v["args"]["scopes"][1], "rpc.activities.write");
    let a = s.on_event(response(b"00000000000000000000000000", Some("the-code"), false));
    match a {
        Action::ExchangeCode(c) => assert_eq!(c, "the-code"),
        other => panic!("{other:?}"),
    }
    assert!(matches!(s.on_event(Event::TokenFailed), Action::Reconnect(10)));
    assert_eq!(s.status(), SlotStatus::Opening);
}

#[test]
fn fresh_token_is_reused() {
    let now = 1_700_000_000i64;
    let mut s = Session::new(1, 5);
    to_loading(&mut s);
    let a = s.on_event(Event::TokenLoaded { token: Some(token(now + 25 * 3600)), now });
    assert!(matches!(a, Action::StoreAndWrite(_, _)));
    assert_eq!(body_of(&a)["cmd"], "AUTHENTICATE");
}

#[test]
fn missing_token_authorizes() {
    let mut s = Session::new(1, 5);
    to_loading(&mut s);
    let a = s.on_event(Event::TokenLoaded { token: None, now: 0 });
    assert_eq!(body_of(&a)["cmd"], "AUTHORIZE");
}

fn open_session() -> Session {
    let now = 1_700_000_000i64;
    let mut s = Session::new(2, 5);
    to_loading(&mut s);
    let a = s.on_event_with_nonce(Event::TokenLoaded { token: Some(token(now + 30 * 3600)), now }, 7);
    assert!(matches!(a, Action::StoreAndWrite(_, _)));
    let nonce = body_of(&a)["nonce"].as_str().unwrap().as_bytes().to_vec();
    assert_eq!(nonce, b"00000000000000000000000007".to_vec());
    s.on_event(response(&nonce, None, false));
    assert_eq!(s.status(), SlotStatus::Open);
    s
}

#[test]
fn outbound_command_is_one_frame() {
    let mut s = open_session();
    let a = s.on_event(Event::Send { cmd: Cmd::SetActivity, args: br#"{"pid":1}"#.to_vec() });
    match &a {
        Action::Write(p) => assert_eq!(p.op, Op::Frame),
        other => panic!("{other:?}"),
    }
    let v = body_of(&a);
    let obj = v.as_object().unwrap();
    assert_eq!(obj.len(), 3);
    assert_eq!(v["cmd"], "SET_ACTIVITY");
    assert_eq!(v["args"]["pid"], 1);
    let nonce = v["nonce"].as_str().unwrap();
    assert_eq!(nonce.len(), 26);
    assert!(nonce.chars().all(|c| "0123456789ABCDEFGHJKMNPQRSTVWXYZ".contains(c)));
}

#[test]
fn nonce_spelling() {
    let mut s = open_session();
    let a = s.on_event_with_nonce(Event::Send { cmd: Cmd::SetActivity, args: b"{}".to_vec() }, u128::MAX);
    assert_eq!(body_of(&a)["nonce"], "7ZZZZZZZZZZZZZZZZZZZZZZZZZ");
    let a = s.on_event_with_nonce(Event::Send { cmd: Cmd::SetActivity, args: b"{}".to_vec() }, 32 * 32 + 10);
    assert_eq!(body_of(&a)["nonce"], "0000000000000000000000010A");
}

#[test]
fn ping_is_answered_and_close_reconnects() {
    let mut s = open_session();
    let a = s.on_event(Event::Received { op: Op::Ping, body: br#"{"x":1}"#.to_vec(), nonce: None, code: None, error: false });
    match a {
        Action::Write(p) => {
            assert_eq!(p.op, Op::Pong);
            assert_eq!(p.data, br#"{"x":1}"#.to_vec());
        }
        other => panic!("{other:?}"),
    }
    assert_eq!(s.status(), SlotStatus::Open);
    let a = s.on_event(Event::Received { op: Op::Close, body: b"{}".to_vec(), nonce: None, code: None, error: false });
    assert!(matches!(a, Action::Reconnect(10)));
    assert_eq!(s.status(), SlotStatus::Opening);
    assert!(matches!(s.phase, Phase::Idle));
}

#[test]
fn commands_are_dropped_while_not_open() {
    let mut s = Session::new(3, 5);
    let a = s.on_event(Event::Send { cmd: Cmd::SetActivity, args: b"{}".to_vec() });
    assert!(matches!(a, Action::Nothing));
    assert_eq!(s.status(), SlotStatus::Opening);
}

#[test]
fn busy_pipe_waits_and_failures_back_off() {
    let mut s = Session::new(4, 5);
    s.on_event(Event::Start);
    assert!(matches!(s.on_event(Event::Opened(OpenOutcome::Busy)), Action::OpenPipeAfter(500)));
    let mut delays = Vec::new();
    for _ in 0..15 {
        match s.on_event(Event::Opened(OpenOutcome::Failed)) {
            Action::Reconnect(d) => delays.push(d),
            other => panic!("{other:?}"),
        }
        assert!(matches!(s.on_event(Event::Start), Action::OpenPipe));
    }
    assert_eq!(
        delays,
        vec![10, 20, 40, 80, 160, 320, 640, 1280, 2560, 5120, 10240, 20480, 40960, 60000, 60000]
    );
    assert_eq!(s.failures, 15);
}

#[test]
fn status_path_of_a_session() {
    let mut s = Session::new(6, 5);
    let mut path = vec![s.status()];
    to_loading(&mut s);
    path.push(s.status());
    s.on_event(Event::TokenLoaded { token: Some(token(i64::MAX)), now: 0 });
    path.push(s.status());
    s.on_event(Event::Failed);
    path.push(s.status());
    s.on_event(Event::Start);
    s.on_event(Event::Opened(OpenOutcome::NotFound));
    path.push(s.status());
    s.on_event(Event::Start);
    path.push(s.status());
    let (opening, dead) = (SlotStatus::Opening, SlotStatus::Dead);
    assert_eq!(path, vec![opening, opening, opening, opening, dead, dead]);
}

#[test]
fn backoff_schedule() {
    assert_eq!(backoff_ms(0), 10);
    assert_eq!(backoff_ms(1), 20);
    assert_eq!(backoff_ms(12), 40960);
    assert_eq!(backoff_ms(13), 60000);
    assert_eq!(backoff_ms(u32::MAX), 60000);
}

#[test]
fn token_plans() {
    let now = 1_000_000i64;
    assert_eq!(token_plan(&None, now), TokenPlan::Authorize);
    assert_eq!(token_plan(&Some(token(now - 1)), now), TokenPlan::Authorize);
    assert_eq!(token_plan(&Some(token(now)), now), TokenPlan::Refresh);
    assert_eq!(token_plan(&Some(token(now + 86399)), now), TokenPlan::Refresh);
    assert_eq!(token_plan(&Some(token(now + 86400)), now), TokenPlan::Reuse);
    assert_eq!(token_plan(&Some(token(i64::MAX)), i64::MAX), TokenPlan::Refresh);
}

#[test]
fn grant_expiry() {
    let t = token_from_grant("a".to_string(), "r".to_string(), 100, 604800).unwrap();
    assert_eq!(t.expires_at, 604900);
    assert!(token_from_grant("a".to_string(), "r".to_string(), i64::MAX, 1).is_none());
}

#[test]
fn clear_activity_reaches_open_slots_only() {
    let rpc = Rpc::new(5, 42);
    let statuses = vec![
        SlotStatus::Dead,
        SlotStatus::Open,
        SlotStatus::Opening,
        SlotStatus::Open,
    ];
    let out = rpc.clear_activity(&statuses);
    let slots: Vec<u8> = out.iter().map(|(s, _)| *s).collect();
    assert_eq!(slots, vec![1, 3]);
    match &out[0].1 {
        Event::Send { cmd, args } => {
            assert_eq!(*cmd, Cmd::SetActivity);
            assert_eq!(args, &br#"{"pid":42}"#.to_vec());
        }
        other => panic!("{other:?}"),
    }
    assert!(rpc.clear_activity(&vec![SlotStatus::Dead; 10]).is_empty());
}

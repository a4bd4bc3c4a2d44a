use presence_relay::message::{ClientMessage, FileActivity, ServerMessage};
use presence_relay::registry::Registry;
use presence_relay::session::{Event, Session, SessionState};
use presence_relay::user::User;

fn user(id: &str, name: &str, avatar: &str, file: Option<&str>) -> User {
    User {
        user_id: id.to_string(),
        name: name.to_string(),
        avatar: avatar.to_string(),
        current_file: file.map(|f| f.to_string()),
    }
}

fn register(u: User) -> Event {
    Event::Message(ClientMessage::Register(u))
}

fn focus(path: &str, repo: &str) -> Event {
    Event::Message(ClientMessage::FileFocus {
        file_path: path.to_string(),
        repo_id: repo.to_string(),
    })
}

fn snapshot_of(msg: &Option<ServerMessage>) -> Vec<User> {
    match msg {
        Some(ServerMessage::UserUpdate(v)) => {
            let mut v: Vec<User> = v.iter().map(|u| u.clone()).collect();
            v.sort_by(|a, b| a.user_id.cmp(&b.user_id));
            v
        }
        other => panic!("expected a snapshot, got {:?}", other),
    }
}

fn ids(reg: &Registry) -> Vec<String> {
    let mut v: Vec<String> = reg.snapshot().into_iter().map(|u| u.user_id).collect();
    v.sort();
    v
}

#[test]
fn scenario_register_focus_disconnect() {
    let mut reg = Registry::new();
    let mut a = Session::new();
    let b = Session::new();
    let alice = user("a1", "Alice", "a.png", None);

    let r = a.on_event(&mut reg, register(alice.clone()));
    assert!(!r.stop);
    assert_eq!(snapshot_of(&r.publish), vec![alice.clone()]);

    let r = a.on_event(&mut reg, focus("/src/lib.rs", "r1"));
    assert!(!r.stop);
    assert_eq!(
        r.publish,
        Some(ServerMessage::FileActivityUpdate(FileActivity {
            user_id: "a1".to_string(),
            file_path: "/src/lib.rs".to_string(),
            repo_id: "r1".to_string(),
        }))
    );

    let r = a.on_event(&mut reg, Event::Disconnected);
    assert!(r.stop);
    assert_eq!(snapshot_of(&r.publish), Vec::<User>::new());
    assert_eq!(a.state, SessionState::Closed);
    assert_eq!(b.state, SessionState::Connected);
}

#[test]
fn focus_before_register_is_ignored() {
    let mut reg = Registry::new();
    let mut other = Session::new();
    other.on_event(&mut reg, register(user("b2", "Bob", "b.png", None)));
    let before = reg.snapshot();

    let mut s = Session::new();
    let r = s.on_event(&mut reg, focus("/x.rs", "r1"));
    assert_eq!(r.publish, None);
    assert!(!r.stop);
    assert_eq!(s.state, SessionState::Connected);
    assert_eq!(reg.snapshot(), before);
}

#[test]
fn register_publishes_snapshot_with_participant() {
    let mut reg = Registry::new();
    let mut a = Session::new();
    let mut b = Session::new();
    a.on_event(&mut reg, register(user("a1", "Alice", "a.png", None)));
    let bob = user("b2", "Bob", "b.png", Some("/main.rs"));
    let r = b.on_event(&mut reg, register(bob.clone()));
    let snap = snapshot_of(&r.publish);
    assert_eq!(snap.len(), 2);
    assert_eq!(snap[1], bob);
    assert_eq!(b.state, SessionState::Registered("b2".to_string()));
}

#[test]
fn disconnect_publishes_snapshot_without_participant() {
    let mut reg = Registry::new();
    let mut a = Session::new();
    let mut b = Session::new();
    a.on_event(&mut reg, register(user("a1", "Alice", "a.png", None)));
    b.on_event(&mut reg, register(user("b2", "Bob", "b.png", None)));
    let r = a.on_event(&mut reg, Event::Disconnected);
    let snap = snapshot_of(&r.publish);
    assert_eq!(snap, vec![user("b2", "Bob", "b.png", None)]);
}

#[test]
fn disconnect_without_register_publishes_nothing() {
    let mut reg = Registry::new();
    let mut s = Session::new();
    let r = s.on_event(&mut reg, Event::Disconnected);
    assert_eq!(r.publish, None);
    assert!(r.stop);
    assert_eq!(s.state, SessionState::Closed);
}

#[test]
fn malformed_frame_changes_nothing_and_session_goes_on() {
    let mut reg = Registry::new();
    let mut s = Session::new();
    s.on_event(&mut reg, register(user("a1", "Alice", "a.png", None)));
    let before = reg.snapshot();
    let r = s.on_event(&mut reg, Event::Malformed);
    assert_eq!(r.publish, None);
    assert!(!r.stop);
    assert_eq!(reg.snapshot(), before);
    let r = s.on_event(&mut reg, focus("/next.rs", "r2"));
    assert!(matches!(r.publish, Some(ServerMessage::FileActivityUpdate(_))));
}

#[test]
fn focus_updates_registry_but_publishes_no_snapshot() {
    let mut reg = Registry::new();
    let mut s = Session::new();
    s.on_event(&mut reg, register(user("a1", "Alice", "a.png", None)));
    let r = s.on_event(&mut reg, focus("/f.rs", "r"));
    assert!(!matches!(r.publish, Some(ServerMessage::UserUpdate(_))));
    assert_eq!(reg.snapshot()[0].current_file, Some("/f.rs".to_string()));
}

#[test]
fn reregister_overwrites_and_republishes() {
    let mut reg = Registry::new();
    let mut s = Session::new();
    s.on_event(&mut reg, register(user("a1", "Alice", "a.png", None)));
    let r = s.on_event(&mut reg, register(user("a1", "Al", "b.png", None)));
    assert_eq!(snapshot_of(&r.publish), vec![user("a1", "Al", "b.png", None)]);
}

#[test]
fn focus_after_entry_removed_by_other_session_is_dropped() {
    let mut reg = Registry::new();
    let mut a = Session::new();
    let mut b = Session::new();
    a.on_event(&mut reg, register(user("x", "A", "a", None)));
    b.on_event(&mut reg, register(user("x", "B", "b", None)));
    b.on_event(&mut reg, Event::Disconnected);
    let r = a.on_event(&mut reg, focus("/f", "r"));
    assert_eq!(r.publish, None);
    assert!(reg.snapshot().is_empty());
}

#[test]
fn closed_session_ignores_further_events() {
    let mut reg = Registry::new();
    let mut s = Session::new();
    s.on_event(&mut reg, Event::Disconnected);
    let r = s.on_event(&mut reg, register(user("a1", "Alice", "a.png", None)));
    assert_eq!(r.publish, None);
    assert!(r.stop);
    assert!(reg.snapshot().is_empty());
}

#[test]
fn registry_holds_exactly_live_sessions() {
    let mut reg = Registry::new();
    let mut s: Vec<Session> = (0..4).map(|_| Session::new()).collect();
    s[0].on_event(&mut reg, register(user("u0", "n0", "a0", None)));
    s[1].on_event(&mut reg, register(user("u1", "n1", "a1", None)));
    s[3].on_event(&mut reg, focus("/early", "r"));
    s[2].on_event(&mut reg, register(user("u2", "n2", "a2", None)));
    s[1].on_event(&mut reg, focus("/f", "r"));
    s[0].on_event(&mut reg, Event::Disconnected);
    s[3].on_event(&mut reg, Event::Disconnected);
    s[2].on_event(&mut reg, Event::Malformed);
    assert_eq!(ids(&reg), vec!["u1".to_string(), "u2".to_string()]);
    s[1].on_event(&mut reg, Event::Disconnected);
    s[2].on_event(&mut reg, Event::Disconnected);
    assert!(ids(&reg).is_empty());
}

#[test]
fn reregister_under_new_id_then_disconnect_leaves_nothing() {
    let mut reg = Registry::new();
    let mut s = Session::new();
    s.on_event(&mut reg, register(user("a", "Ann", "a.png", None)));
    let r = s.on_event(&mut reg, register(user("b", "Ann", "a.png", None)));
    assert_eq!(snapshot_of(&r.publish), vec![user("b", "Ann", "a.png", None)]);
    assert_eq!(ids(&reg), vec!["b".to_string()]);
    let r = s.on_event(&mut reg, Event::Disconnected);
    assert_eq!(snapshot_of(&r.publish), Vec::<User>::new());
    assert!(ids(&reg).is_empty());
}

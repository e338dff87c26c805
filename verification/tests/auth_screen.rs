use rdbs_interface::auth::{Message, View};
use rdbs_interface::task::{Credentials, Task};

type M = Message<u8>;

fn filled() -> View {
    let mut v = View::default();
    let _ = v.update::<u8>(Message::UsernameInput("alice".to_string()));
    let _ = v.update::<u8>(Message::PasswordInput("secret".to_string()));
    let _ = v.update::<u8>(Message::HostInput("localhost".to_string()));
    let _ = v.update::<u8>(Message::DbNameChange("shop".to_string()));
    let _ = v.update::<u8>(Message::PortInput(5432));
    v
}

#[test]
fn default_screen_is_empty() {
    let v = View::default();
    assert!(v.username.is_none() && v.password.is_none() && v.host.is_none());
    assert!(v.dbname.is_none() && v.port.is_none() && v.errmsg.is_none());
}

#[test]
fn inputs_are_stored() {
    let v = filled();
    assert_eq!(v.username.as_deref(), Some("alice"));
    assert_eq!(v.password.as_deref(), Some("secret"));
    assert_eq!(v.host.as_deref(), Some("localhost"));
    assert_eq!(v.dbname.as_deref(), Some("shop"));
    assert_eq!(v.port, Some(5432));
}

#[test]
fn start_reports_the_first_missing_parameter() {
    let mut v = View::default();
    assert!(v.update::<u8>(Message::Start) == Task::Done(M::Error("No username provided")));
    let _ = v.update::<u8>(Message::UsernameInput("u".to_string()));
    assert!(v.update::<u8>(Message::Start) == Task::Done(M::Error("No password provided")));
    let _ = v.update::<u8>(Message::PasswordInput("p".to_string()));
    assert!(v.update::<u8>(Message::Start) == Task::Done(M::Error("No host provided")));
    let _ = v.update::<u8>(Message::HostInput("h".to_string()));
    assert!(v.update::<u8>(Message::Start) == Task::Done(M::Error("No dbname provided")));
    let _ = v.update::<u8>(Message::DbNameChange("d".to_string()));
    assert!(v.update::<u8>(Message::Start) == Task::Done(M::Error("No port provided")));
}

#[test]
fn start_connects_with_the_entered_parameters() {
    let mut v = filled();
    let _ = v.update::<u8>(Message::Error("old"));
    let task = v.update::<u8>(Message::Start);
    let expected = Credentials {
        username: "alice".to_string(),
        password: "secret".to_string(),
        host: "localhost".to_string(),
        port: 5432,
        dbname: "shop".to_string(),
    };
    assert!(task == Task::Connect(expected, M::Error("Couldn't connect to DB")));
    assert!(v.errmsg.is_none());
}

#[test]
fn error_is_shown() {
    let mut v = View::default();
    assert!(v.update::<u8>(Message::Error("Couldn't connect to DB")) == Task::Nothing);
    assert_eq!(v.errmsg, Some("Couldn't connect to DB"));
}

#[test]
fn connected_must_be_handled_above() {
    let mut v = View::default();
    let task = v.update::<u8>(Message::Connected(7));
    assert!(task == Task::Done(M::Error("Connected message should have been handled higher")));
    assert!(v.errmsg.is_none());
}

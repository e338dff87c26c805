use std::sync::Arc;

use rdbs_interface::auth;
use rdbs_interface::input::{Event, Key, Modifiers};
use rdbs_interface::manage::{self, publication};
use rdbs_interface::root::{shortcut, Message, View, ViewVariant};
use rdbs_interface::task::Task;
use rdbs_interface::theme::{self, ThemeChoice};
use rdbs_interface::widgets::event_catcher::{decide, enter_catcher, Catch, State};

type Db = Arc<u32>;

fn none() -> Modifiers {
    Modifiers { shift: false, control: false, alt: false, logo: false }
}

fn logged_in() -> View<Db> {
    let mut v = View::<Db>::default();
    let task = v.update(Message::connected(Arc::new(11)));
    assert!(task == Task::Nothing);
    v
}

#[test]
fn starts_on_the_login_screen() {
    let v = View::<Db>::default();
    assert!(matches!(v.view, ViewVariant::Auth));
    assert!(v.auth.username.is_none());
}

#[test]
fn connection_opens_the_chooser() {
    let v = logged_in();
    match &v.view {
        ViewVariant::Manage(m) => {
            assert!(matches!(m.view, manage::ViewVariant::Choose(_)));
            assert!(m.errmsg.is_none());
        }
        ViewVariant::Auth => panic!("should be logged in"),
    }
}

#[test]
fn login_messages_reach_the_login_screen() {
    let mut v = View::<Db>::default();
    let task = v.update(Message::Auth(auth::Message::Start));
    assert!(task == Task::Done(Message::Auth(auth::Message::Error("No username provided"))));
    let _ = v.update(Message::Auth(auth::Message::UsernameInput("u".to_string())));
    assert_eq!(v.auth.username.as_deref(), Some("u"));
}

#[test]
fn manager_message_before_login_is_refused() {
    let mut v = View::<Db>::default();
    let task = v.update(Message::Manage(manage::Message::PubChosen));
    assert!(
        task == Task::Done(Message::Auth(auth::Message::Error(
            "Weren't in a Manage state. Might be improper login?"
        )))
    );
    assert!(matches!(v.view, ViewVariant::Auth));
}

#[test]
fn chooser_back_logs_out() {
    let mut v = logged_in();
    assert!(v.update(Message::Manage(manage::Message::Back)) == Task::Nothing);
    assert!(matches!(v.view, ViewVariant::Auth));
}

#[test]
fn little_back_on_login_does_nothing() {
    let mut v = View::<Db>::default();
    assert!(v.update(Message::LittleBack) == Task::Nothing);
}

#[test]
fn little_back_leaves_one_screen_at_a_time() {
    let mut v = logged_in();
    let _ = v.update(Message::Manage(manage::Message::PubChosen));
    let _ = v.update(Message::Manage(manage::Message::PubMsg(publication::Message::AddTable)));
    // add-table screen -> publication menu
    let task = v.update(Message::LittleBack);
    let msg = match task {
        Task::Done(m) => m,
        _ => panic!("LittleBack answers with a message"),
    };
    assert!(v.update(msg) == Task::Nothing);
    match &v.view {
        ViewVariant::Manage(m) => match &m.view {
            manage::ViewVariant::Pub(p) => {
                assert!(matches!(p.view, publication::ViewVariant::Main(_)))
            }
            _ => panic!("should be in the publication menu"),
        },
        _ => panic!("should be logged in"),
    }
    // publication menu -> chooser -> login
    for _ in 0..2 {
        let msg = match v.update(Message::LittleBack) {
            Task::Done(m) => m,
            _ => panic!("LittleBack answers with a message"),
        };
        assert!(v.update(msg) == Task::Nothing);
    }
    assert!(matches!(v.view, ViewVariant::Auth));
}

#[test]
fn focus_messages() {
    let mut v = View::<Db>::default();
    assert!(v.update(Message::FocusNext) == Task::FocusNext);
    assert!(v.update(Message::FocusPrev) == Task::FocusPrevious);
}

#[test]
fn keyboard_shortcuts() {
    let shift = Modifiers { shift: true, ..none() };
    let ctrl = Modifiers { control: true, ..none() };
    assert!(shortcut::<u8>(Key::Tab, none()) == Some(Message::FocusNext));
    assert!(shortcut::<u8>(Key::Tab, shift) == Some(Message::FocusPrev));
    assert!(shortcut::<u8>(Key::Tab, ctrl).is_none());
    assert!(shortcut::<u8>(Key::Backspace, ctrl) == Some(Message::LittleBack));
    assert!(shortcut::<u8>(Key::Enter, none()).is_none());
    assert!(shortcut::<u8>(Key::Other, shift).is_none());
}

#[test]
fn theme_follows_the_color_scheme() {
    assert_eq!(theme::get("prefer-light"), ThemeChoice::GruvboxLight);
    assert_eq!(theme::get("default"), ThemeChoice::GruvboxLight);
    assert_eq!(theme::get("prefer-dark"), ThemeChoice::GruvboxDark);
    assert_eq!(theme::get("something-else"), ThemeChoice::Default);
    assert_eq!(theme::get(""), ThemeChoice::Default);
}

#[test]
fn focus_state() {
    let mut s = State::new();
    assert!(!s.is_focused());
    s.focus();
    assert!(s.is_focused());
    s.unfocus();
    assert!(!s.is_focused());
}

#[test]
fn catcher_publishes_only_with_focus() {
    let mut s = State::new();
    assert_eq!(decide(Some(1u8), &s), Catch::Forward);
    s.focus();
    assert_eq!(decide(Some(1u8), &s), Catch::Publish(1));
    assert_eq!(decide(None::<u8>, &s), Catch::Forward);
}

#[test]
fn enter_catcher_reacts_to_enter_only() {
    let enter = Event::KeyPressed { key: Key::Enter, modifiers: none() };
    let tab = Event::KeyPressed { key: Key::Tab, modifiers: none() };
    assert_eq!(enter_catcher(enter, "go"), Some("go"));
    assert_eq!(enter_catcher(tab, "go"), None);
    assert_eq!(enter_catcher(Event::Other, "go"), None);
}

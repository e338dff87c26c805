//! The whole application: the login screen, then the managers.
use vstd::prelude::*;

use crate::auth;
use crate::input::{Key, Modifiers};
use crate::manage;
use crate::task::{Rows, Task, Wrap};
use crate::traits::{AsClient, GetDb, Viewable};

verus! {

#[derive(Clone, PartialEq, Eq)]
pub enum Message<DB> {
    Auth(auth::Message<DB>),
    Manage(manage::Message),
    LittleBack,
    FocusNext,
    FocusPrev,
}

pub struct View<DB> {
    pub view: ViewVariant<DB>,
    pub auth: auth::View,
}

pub enum ViewVariant<DB> {
    Auth,
    Manage(manage::View<DB>),
}

impl<DB> Wrap<auth::Message<DB>> for Message<DB> {
    open spec fn wrapped(c: auth::Message<DB>) -> Self {
        Message::Auth(c)
    }

    fn wrap(c: auth::Message<DB>) -> (r: Self) {
        Message::Auth(c)
    }
}

impl<DB> Wrap<manage::Message> for Message<DB> {
    open spec fn wrapped(c: manage::Message) -> Self {
        Message::Manage(c)
    }

    fn wrap(c: manage::Message) -> (r: Self) {
        Message::Manage(c)
    }
}

impl<DB> Rows for Message<DB> {
    open spec fn filled(self, rows: Vec<String>) -> Self {
        match self {
            Message::Auth(m) => Message::Auth(m.filled(rows)),
            Message::Manage(m) => Message::Manage(m.filled(rows)),
            _ => self,
        }
    }

    fn with_rows(self, rows: Vec<String>) -> (r: Self) {
        match self {
            Message::Auth(m) => Message::Auth(m.with_rows(rows)),
            Message::Manage(m) => Message::Manage(m.with_rows(rows)),
            _ => self,
        }
    }
}

impl<DB> Message<DB> {
    /// The message that delivers a newly opened connection (the success of
    /// [`Task::Connect`]).
    pub fn connected(client: DB) -> (r: Self)
        ensures
            r == Message::Auth(auth::Message::Connected(client)),
    {
        Message::Auth(auth::Message::Connected(client))
    }
}

/// The message a key press stands for: Tab moves the focus forward, Shift+Tab
/// backward, Backspace leaves the current screen.
pub open spec fn shortcut_for<DB>(key: Key, modifiers: Modifiers) -> Option<Message<DB>> {
    match key {
        Key::Tab => if modifiers.none_held() {
            Some(Message::FocusNext)
        } else if modifiers.shift_only() {
            Some(Message::FocusPrev)
        } else {
            None
        },
        Key::Backspace => Some(Message::LittleBack),
        _ => None,
    }
}

pub fn shortcut<DB>(key: Key, modifiers: Modifiers) -> (r: Option<Message<DB>>)
    ensures
        r == shortcut_for::<DB>(key, modifiers),
{
    match key {
        Key::Tab => if !modifiers.shift && !modifiers.control && !modifiers.alt && !modifiers.logo {
            Some(Message::FocusNext)
        } else if modifiers.shift && !modifiers.control && !modifiers.alt && !modifiers.logo {
            Some(Message::FocusPrev)
        } else {
            None
        },
        Key::Backspace => Some(Message::LittleBack),
        _ => None,
    }
}

impl<DB> Default for View<DB> {
    fn default() -> (r: Self)
        ensures
            r == (View::<DB> { view: ViewVariant::Auth, auth: auth::View::empty() }),
    {
        View { view: ViewVariant::Auth, auth: auth::View::default() }
    }
}

impl<DB> View<DB> {
    /// What handling `msg` in `self` leads to: the next state and the task.
    pub open spec fn step(self, msg: Message<DB>, next: Self, task: Task<Message<DB>>) -> bool {
        match msg {
            Message::LittleBack => next == self && match self.view {
                ViewVariant::Auth => task == Task::<Message<DB>>::Nothing,
                ViewVariant::Manage(v) => task == Task::Done(
                    Message::<DB>::Manage(v.back_message()),
                ),
            },
            Message::FocusNext => next == self && task == Task::<Message<DB>>::FocusNext,
            Message::FocusPrev => next == self && task == Task::<Message<DB>>::FocusPrevious,
            Message::Auth(auth::Message::Connected(client)) => next == View {
                view: ViewVariant::Manage(
                    manage::View { view: manage::ViewVariant::Choose(client), errmsg: None },
                ),
                ..self
            } && task == Task::<Message<DB>>::Nothing,
            Message::Auth(m) => next.view == self.view && exists|
                a: auth::View,
                t: Task<auth::Message<DB>>,
            |
                #[trigger] self.auth.step(m, a, t) && next.auth == a && task == t.lifted::<
                    Message<DB>,
                >(),
            Message::Manage(manage::Message::Back) => next == View {
                view: ViewVariant::Auth,
                ..self
            } && task == Task::<Message<DB>>::Nothing,
            Message::Manage(m) => match self.view {
                ViewVariant::Manage(v) => exists|v2: manage::View<DB>, t: Task<manage::Message>|
                    #[trigger] v.step(m, v2, t) && next == View {
                        view: ViewVariant::Manage(v2),
                        ..self
                    } && task == t.lifted::<Message<DB>>(),
                ViewVariant::Auth => next == self && task == Task::Done(
                    Message::<DB>::Auth(
                        auth::Message::Error("Weren't in a Manage state. Might be improper login?"),
                    ),
                ),
            },
        }
    }
}

impl<DB: AsClient> View<DB> {
    pub fn update(&mut self, msg: Message<DB>) -> (r: Task<Message<DB>>)
        ensures
            old(self).step(msg, *final(self), r),
    {
        match msg {
            Message::LittleBack => match &self.view {
                ViewVariant::Auth => Task::Nothing,
                ViewVariant::Manage(view) => Task::Done(Message::Manage(view.back())),
            },
            Message::FocusNext => Task::FocusNext,
            Message::FocusPrev => Task::FocusPrevious,
            Message::Auth(auth::Message::Connected(client)) => {
                let manage = manage::View::new(client);
                self.view = ViewVariant::Manage(manage);
                Task::Nothing
            },
            Message::Auth(message) => self.auth.update(message).lift(),
            Message::Manage(manage::Message::Back) => {
                self.view = ViewVariant::Auth;
                Task::Nothing
            },
            Message::Manage(message) => match &mut self.view {
                ViewVariant::Manage(manage) => manage.update(message).lift(),
                ViewVariant::Auth => Task::Done(
                    Message::Auth(
                        auth::Message::Error("Weren't in a Manage state. Might be improper login?"),
                    ),
                ),
            },
        }
    }
}

} // verus!

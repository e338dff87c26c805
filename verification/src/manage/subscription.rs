//! Managing subscriptions: a menu that opens one of three sub-screens.
use vstd::prelude::*;

use crate::task::{Rows, Task, Wrap};
use crate::traits::{AsClient, GetDb, Viewable};

pub mod disable_sub;
pub mod enable_sub;
pub mod rename_sub;

verus! {

#[derive(Debug)]
pub struct View<DB> {
    pub view: ViewVariant<DB>,
    pub errmsg: Option<&'static str>,
}

#[derive(Debug)]
pub enum ViewVariant<DB> {
    Main(DB),
    EnableSub(enable_sub::View<DB>),
    DisableSub(disable_sub::View<DB>),
    RenameSub(rename_sub::View<DB>),
}

#[derive(Clone, PartialEq, Eq, Debug)]
pub enum Message {
    Back,
    EnableSubscription,
    EnableSub(enable_sub::Message),
    DisableSubscription,
    DisableSub(disable_sub::Message),
    RenameSubscription,
    RenameSub(rename_sub::Message),
    Error(&'static str),
}

impl Wrap<enable_sub::Message> for Message {
    open spec fn wrapped(c: enable_sub::Message) -> Self {
        Message::EnableSub(c)
    }

    fn wrap(c: enable_sub::Message) -> (r: Self) {
        Message::EnableSub(c)
    }
}

impl Wrap<disable_sub::Message> for Message {
    open spec fn wrapped(c: disable_sub::Message) -> Self {
        Message::DisableSub(c)
    }

    fn wrap(c: disable_sub::Message) -> (r: Self) {
        Message::DisableSub(c)
    }
}

impl Wrap<rename_sub::Message> for Message {
    open spec fn wrapped(c: rename_sub::Message) -> Self {
        Message::RenameSub(c)
    }

    fn wrap(c: rename_sub::Message) -> (r: Self) {
        Message::RenameSub(c)
    }
}

impl Rows for Message {
    open spec fn filled(self, rows: Vec<String>) -> Self {
        match self {
            Message::EnableSub(m) => Message::EnableSub(m.filled(rows)),
            Message::DisableSub(m) => Message::DisableSub(m.filled(rows)),
            Message::RenameSub(m) => Message::RenameSub(m.filled(rows)),
            _ => self,
        }
    }

    fn with_rows(self, rows: Vec<String>) -> (r: Self) {
        match self {
            Message::EnableSub(m) => Message::EnableSub(m.with_rows(rows)),
            Message::DisableSub(m) => Message::DisableSub(m.with_rows(rows)),
            Message::RenameSub(m) => Message::RenameSub(m.with_rows(rows)),
            _ => self,
        }
    }
}

impl<DB> View<DB> {
    pub open spec fn client(self) -> DB {
        match self.view {
            ViewVariant::Main(db) => db,
            ViewVariant::EnableSub(v) => v.client,
            ViewVariant::DisableSub(v) => v.client,
            ViewVariant::RenameSub(v) => v.client,
        }
    }

    /// How many screens are open below this menu: 0 on the menu itself.
    pub open spec fn depth(self) -> nat {
        match self.view {
            ViewVariant::Main(_) => 0,
            _ => 1,
        }
    }

    pub open spec fn back_message(self) -> Message {
        match self.view {
            ViewVariant::Main(_) => Message::Back,
            ViewVariant::EnableSub(_) => Message::EnableSub(enable_sub::Message::Back),
            ViewVariant::DisableSub(_) => Message::DisableSub(disable_sub::Message::Back),
            ViewVariant::RenameSub(_) => Message::RenameSub(rename_sub::Message::Back),
        }
    }

    /// `next` is `self` with the screen `variant` open and the error message kept.
    pub open spec fn opens(self, next: Self, variant: ViewVariant<DB>) -> bool {
        next == View { view: variant, ..self }
    }

    /// `self` stays and the task reports `e`.
    pub open spec fn refuses(self, next: Self, task: Task<Message>, e: &'static str) -> bool {
        next == self && task == Task::Done(Message::Error(e))
    }

    /// What handling `msg` in `self` leads to: the next state and the task.
    pub open spec fn step(self, msg: Message, next: Self, task: Task<Message>) -> bool {
        match msg {
            Message::Back => self.refuses(next, task, "This should have been propagated higher"),
            Message::Error(e) => next == View { errmsg: Some(e), ..self } && task
                == Task::<Message>::Nothing,
            Message::EnableSubscription => match self.view {
                ViewVariant::Main(db) => self.opens(
                    next,
                    ViewVariant::EnableSub(enable_sub::View { client: db }),
                ) && task == Task::<Message>::Nothing,
                _ => self.refuses(next, task, "DB is probably uninit"),
            },
            Message::DisableSubscription => match self.view {
                ViewVariant::Main(db) => next.errmsg == self.errmsg && exists|
                    v: disable_sub::View<DB>,
                    t: Task<disable_sub::Message>,
                |
                    #![trigger disable_sub::View::fresh(v, db), t.lifted::<Message>()]
                    v.fresh(db) && (t matches Task::Perform(q) && disable_sub::is_subs_request(
                        q,
                        "Error occurred while getting publications",
                    )) && next.view == ViewVariant::DisableSub(v) && task == t.lifted::<Message>(),
                _ => self.refuses(next, task, "DB is probably uninit"),
            },
            Message::RenameSubscription => match self.view {
                ViewVariant::Main(db) => next.errmsg == self.errmsg && exists|
                    v: rename_sub::View<DB>,
                    t: Task<rename_sub::Message>,
                |
                    #![trigger rename_sub::View::fresh(v, db), t.lifted::<Message>()]
                    v.fresh(db) && (t matches Task::Perform(q) && rename_sub::is_subs_request(
                        q,
                        "Error occurred while getting subscriptions",
                    )) && next.view == ViewVariant::RenameSub(v) && task == t.lifted::<Message>(),
                _ => self.refuses(next, task, "DB is probably uninit"),
            },
            Message::EnableSub(_) => match self.view {
                ViewVariant::EnableSub(v) => self.opens(next, ViewVariant::Main(v.client)) && task
                    == Task::<Message>::Nothing,
                _ => self.refuses(next, task, "Couldn't create subscription"),
            },
            Message::DisableSub(m) => match self.view {
                ViewVariant::DisableSub(v) => if m is Back {
                    self.opens(next, ViewVariant::Main(v.client)) && task == Task::<Message>::Nothing
                } else {
                    exists|v2: disable_sub::View<DB>, t: Task<disable_sub::Message>|
                        #[trigger] v.step(m, v2, t) && self.opens(next, ViewVariant::DisableSub(v2))
                            && task == t.lifted::<Message>()
                },
                _ => self.refuses(next, task, "Couldn't create subscription"),
            },
            Message::RenameSub(m) => match self.view {
                ViewVariant::RenameSub(v) => if m is Back {
                    self.opens(next, ViewVariant::Main(v.client)) && task == Task::<Message>::Nothing
                } else {
                    exists|v2: rename_sub::View<DB>, t: Task<rename_sub::Message>|
                        #[trigger] v.step(m, v2, t) && self.opens(next, ViewVariant::RenameSub(v2))
                            && task == t.lifted::<Message>()
                },
                _ => self.refuses(next, task, "Couldn't create subscription"),
            },
        }
    }
}

impl<DB: AsClient> View<DB> {
    /// The menu on `client`.
    pub fn new(client: DB) -> (r: Self)
        ensures
            r == (View { view: ViewVariant::Main(client), errmsg: None }),
    {
        View { view: ViewVariant::Main(client), errmsg: None }
    }

    fn err(msg: &'static str) -> (r: Task<Message>)
        ensures
            r == Task::Done(Message::Error(msg)),
    {
        Task::Done(Message::Error(msg))
    }

    /// The connection of the menu, when the menu itself is shown.
    fn main_db(&self) -> (r: Option<DB>)
        ensures
            match self.view {
                ViewVariant::Main(db) => r == Some(db),
                _ => r is None,
            },
    {
        match &self.view {
            ViewVariant::Main(db) => Some(db.share()),
            _ => None,
        }
    }
}

impl<DB: AsClient> GetDb for View<DB> {
    type DB = DB;

    open spec fn db(&self) -> DB {
        self.client()
    }

    fn get_db(&self) -> (r: DB) {
        match &self.view {
            ViewVariant::Main(client) => client.share(),
            ViewVariant::EnableSub(view) => view.get_db(),
            ViewVariant::DisableSub(view) => view.get_db(),
            ViewVariant::RenameSub(view) => view.get_db(),
        }
    }
}

impl<DB: AsClient> Viewable for View<DB> {
    type Message = Message;

    fn back(&self) -> (r: Message)
        ensures
            r == self.back_message(),
    {
        match &self.view {
            ViewVariant::Main(_) => Message::Back,
            ViewVariant::EnableSub(view) => Message::EnableSub(view.back()),
            ViewVariant::DisableSub(view) => Message::DisableSub(view.back()),
            ViewVariant::RenameSub(view) => Message::RenameSub(view.back()),
        }
    }

    fn update(&mut self, msg: Message) -> (r: Task<Message>)
        ensures
            old(self).step(msg, *final(self), r),
    {
        match msg {
            Message::Back => Self::err("This should have been propagated higher"),
            Message::EnableSubscription => {
                let Some(db) = self.main_db() else {
                    return Self::err("DB is probably uninit");
                };
                let (view, task) = enable_sub::View::new(db);
                self.view = ViewVariant::EnableSub(view);
                task.lift()
            },
            Message::EnableSub(enable_sub::Message::Back) => {
                let db = match &self.view {
                    ViewVariant::EnableSub(view) => view.get_db(),
                    _ => {
                        return Self::err("Couldn't create subscription");
                    },
                };
                self.view = ViewVariant::Main(db);
                Task::Nothing
            },
            Message::DisableSubscription => {
                let Some(db) = self.main_db() else {
                    return Self::err("DB is probably uninit");
                };
                let (view, task) = disable_sub::View::new(db);
                self.view = ViewVariant::DisableSub(view);
                task.lift()
            },
            Message::DisableSub(disable_sub::Message::Back) => {
                let db = match &self.view {
                    ViewVariant::DisableSub(view) => view.get_db(),
                    _ => {
                        return Self::err("Couldn't create subscription");
                    },
                };
                self.view = ViewVariant::Main(db);
                Task::Nothing
            },
            Message::DisableSub(msg) => match &mut self.view {
                ViewVariant::DisableSub(view) => view.update(msg).lift(),
                _ => Self::err("Couldn't create subscription"),
            },
            Message::RenameSubscription => {
                let Some(db) = self.main_db() else {
                    return Self::err("DB is probably uninit");
                };
                let (view, task) = rename_sub::View::new(db);
                self.view = ViewVariant::RenameSub(view);
                task.lift()
            },
            Message::RenameSub(rename_sub::Message::Back) => {
                let db = match &self.view {
                    ViewVariant::RenameSub(view) => view.get_db(),
                    _ => {
                        return Self::err("Couldn't create subscription");
                    },
                };
                self.view = ViewVariant::Main(db);
                Task::Nothing
            },
            Message::RenameSub(msg) => match &mut self.view {
                ViewVariant::RenameSub(view) => view.update(msg).lift(),
                _ => Self::err("Couldn't create subscription"),
            },
            Message::Error(msg) => {
                self.errmsg = Some(msg);
                Task::Nothing
            },
        }
    }
}

} // verus!

//! Choosing between the publication and the subscription managers.
use vstd::prelude::*;

use crate::task::{Rows, Task, Wrap};
use crate::traits::{AsClient, GetDb, Viewable};

pub mod publication;
pub mod subscription;

verus! {

#[derive(Debug)]
pub struct View<DB> {
    pub view: ViewVariant<DB>,
    pub errmsg: Option<&'static str>,
}

#[derive(Debug)]
pub enum ViewVariant<DB> {
    Choose(DB),
    Pub(publication::View<DB>),
    Sub(subscription::View<DB>),
}

#[derive(Clone, PartialEq, Eq, Debug)]
pub enum Message {
    PubChosen,
    SubChosen,
    Back,
    PubMsg(publication::Message),
    SubMsg(subscription::Message),
    Error(&'static str),
}

impl Wrap<publication::Message> for Message {
    open spec fn wrapped(c: publication::Message) -> Self {
        Message::PubMsg(c)
    }

    fn wrap(c: publication::Message) -> (r: Self) {
        Message::PubMsg(c)
    }
}

impl Wrap<subscription::Message> for Message {
    open spec fn wrapped(c: subscription::Message) -> Self {
        Message::SubMsg(c)
    }

    fn wrap(c: subscription::Message) -> (r: Self) {
        Message::SubMsg(c)
    }
}

impl Rows for Message {
    open spec fn filled(self, rows: Vec<String>) -> Self {
        match self {
            Message::PubMsg(m) => Message::PubMsg(m.filled(rows)),
            Message::SubMsg(m) => Message::SubMsg(m.filled(rows)),
            _ => self,
        }
    }

    fn with_rows(self, rows: Vec<String>) -> (r: Self) {
        match self {
            Message::PubMsg(m) => Message::PubMsg(m.with_rows(rows)),
            Message::SubMsg(m) => Message::SubMsg(m.with_rows(rows)),
            _ => self,
        }
    }
}

impl<DB> View<DB> {
    pub open spec fn client(self) -> DB {
        match self.view {
            ViewVariant::Choose(db) => db,
            ViewVariant::Pub(v) => v.client(),
            ViewVariant::Sub(v) => v.client(),
        }
    }

    /// How many screens are open below the chooser: 0 on the chooser itself.
    pub open spec fn depth(self) -> nat {
        match self.view {
            ViewVariant::Choose(_) => 0,
            ViewVariant::Pub(v) => 1 + v.depth(),
            ViewVariant::Sub(v) => 1 + v.depth(),
        }
    }

    pub open spec fn back_message(self) -> Message {
        match self.view {
            ViewVariant::Choose(_) => Message::Back,
            ViewVariant::Pub(v) => Message::PubMsg(v.back_message()),
            ViewVariant::Sub(v) => Message::SubMsg(v.back_message()),
        }
    }

    /// `self` stays and the task reports `e`.
    pub open spec fn refuses(self, next: Self, task: Task<Message>, e: &'static str) -> bool {
        next == self && task == Task::Done(Message::Error(e))
    }

    /// What handling `msg` in `self` leads to: the next state and the task.
    pub open spec fn step(self, msg: Message, next: Self, task: Task<Message>) -> bool {
        match msg {
            Message::PubMsg(publication::Message::Back)
            | Message::SubMsg(subscription::Message::Back) => next == View {
                view: ViewVariant::Choose(self.client()),
                ..self
            } && task == Task::<Message>::Nothing,
            Message::PubChosen => match self.view {
                ViewVariant::Choose(db) => next == View {
                    view: ViewVariant::Pub(
                        publication::View { view: publication::ViewVariant::Main(db), errmsg: None },
                    ),
                    ..self
                } && task == Task::<Message>::Nothing,
                _ => self.refuses(
                    next,
                    task,
                    "Couldn't change to publication: in an unintended state!",
                ),
            },
            Message::SubChosen => match self.view {
                ViewVariant::Choose(db) => next == View {
                    view: ViewVariant::Sub(
                        subscription::View {
                            view: subscription::ViewVariant::Main(db),
                            errmsg: None,
                        },
                    ),
                    ..self
                } && task == Task::<Message>::Nothing,
                _ => self.refuses(
                    next,
                    task,
                    "Couldn't change to publication: in an unintended state!",
                ),
            },
            Message::PubMsg(m) => match self.view {
                ViewVariant::Pub(v) => exists|v2: publication::View<DB>, t: Task<publication::Message>|
                    #[trigger] v.step(m, v2, t) && next == View { view: ViewVariant::Pub(v2), ..self }
                        && task == t.lifted::<Message>(),
                _ => self.refuses(
                    next,
                    task,
                    "Couldn't manage publication: in an unintended state!",
                ),
            },
            Message::SubMsg(m) => match self.view {
                ViewVariant::Sub(v) => exists|
                    v2: subscription::View<DB>,
                    t: Task<subscription::Message>,
                |
                    #[trigger] v.step(m, v2, t) && next == View { view: ViewVariant::Sub(v2), ..self }
                        && task == t.lifted::<Message>(),
                _ => self.refuses(
                    next,
                    task,
                    "Couldn't manage subscription: in an unintended state!",
                ),
            },
            Message::Error(e) => next == View { errmsg: Some(e), ..self } && task
                == Task::<Message>::Nothing,
            Message::Back => self.refuses(next, task, "We should go back before this happened"),
        }
    }
}

impl<DB: AsClient> View<DB> {
    /// The chooser on `client`.
    pub fn new(client: DB) -> (r: Self)
        ensures
            r == (View { view: ViewVariant::Choose(client), errmsg: None }),
    {
        View { view: ViewVariant::Choose(client), errmsg: None }
    }

    fn err(val: &'static str) -> (r: Task<Message>)
        ensures
            r == Task::Done(Message::Error(val)),
    {
        Task::Done(Message::Error(val))
    }
}

impl<DB: AsClient> GetDb for View<DB> {
    type DB = DB;

    open spec fn db(&self) -> DB {
        self.client()
    }

    fn get_db(&self) -> (r: DB) {
        match &self.view {
            ViewVariant::Choose(db) => db.share(),
            ViewVariant::Sub(view) => view.get_db(),
            ViewVariant::Pub(view) => view.get_db(),
        }
    }
}

impl<DB: AsClient> Viewable for View<DB> {
    type Message = Message;

    fn back(&self) -> (r: Message)
        ensures
            r == self.back_message(),
    {
        match &self.view {
            ViewVariant::Pub(view) => Message::PubMsg(view.back()),
            ViewVariant::Sub(view) => Message::SubMsg(view.back()),
            ViewVariant::Choose(_) => Message::Back,
        }
    }

    fn update(&mut self, msg: Message) -> (r: Task<Message>)
        ensures
            old(self).step(msg, *final(self), r),
    {
        match msg {
            Message::PubMsg(publication::Message::Back)
            | Message::SubMsg(subscription::Message::Back) => {
                let client = self.get_db();
                self.view = ViewVariant::Choose(client);
                Task::Nothing
            },
            Message::PubChosen => {
                let client = match &self.view {
                    ViewVariant::Choose(client) => client.share(),
                    _ => {
                        return Self::err("Couldn't change to publication: in an unintended state!");
                    },
                };
                self.view = ViewVariant::Pub(publication::View::new(client));
                Task::Nothing
            },
            Message::SubChosen => {
                let client = match &self.view {
                    ViewVariant::Choose(client) => client.share(),
                    _ => {
                        return Self::err("Couldn't change to publication: in an unintended state!");
                    },
                };
                self.view = ViewVariant::Sub(subscription::View::new(client));
                Task::Nothing
            },
            Message::PubMsg(message) => match &mut self.view {
                ViewVariant::Pub(value) => value.update(message).lift(),
                _ => Self::err("Couldn't manage publication: in an unintended state!"),
            },
            Message::SubMsg(message) => match &mut self.view {
                ViewVariant::Sub(value) => value.update(message).lift(),
                _ => Self::err("Couldn't manage subscription: in an unintended state!"),
            },
            Message::Error(val) => {
                self.errmsg = Some(val);
                Task::Nothing
            },
            Message::Back => Self::err("We should go back before this happened"),
        }
    }
}

} // verus!

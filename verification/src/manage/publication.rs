//! Managing publications: a menu that opens one of three sub-screens.
use vstd::prelude::*;

use crate::task::{Rows, Task, Wrap};
use crate::traits::{AsClient, GetDb, Viewable};

pub mod add_table;
pub mod delete_table;
pub mod rename_publication;

verus! {

#[derive(Debug)]
pub struct View<DB> {
    pub view: ViewVariant<DB>,
    pub errmsg: Option<&'static str>,
}

#[derive(Debug)]
pub enum ViewVariant<DB> {
    Main(DB),
    AddTable(add_table::View<DB>),
    DeleteTable(delete_table::View<DB>),
    RenameTable(rename_publication::View<DB>),
}

#[derive(Clone, PartialEq, Eq, Debug)]
pub enum Message {
    Back,
    AddTable,
    AddTableMsg(add_table::Message),
    DeleteTable,
    DeleteTableMsg(delete_table::Message),
    RenameTable,
    RenameTableMsg(rename_publication::Message),
    Error(&'static str),
}

impl Wrap<add_table::Message> for Message {
    open spec fn wrapped(c: add_table::Message) -> Self {
        Message::AddTableMsg(c)
    }

    fn wrap(c: add_table::Message) -> (r: Self) {
        Message::AddTableMsg(c)
    }
}

impl Wrap<delete_table::Message> for Message {
    open spec fn wrapped(c: delete_table::Message) -> Self {
        Message::DeleteTableMsg(c)
    }

    fn wrap(c: delete_table::Message) -> (r: Self) {
        Message::DeleteTableMsg(c)
    }
}

impl Wrap<rename_publication::Message> for Message {
    open spec fn wrapped(c: rename_publication::Message) -> Self {
        Message::RenameTableMsg(c)
    }

    fn wrap(c: rename_publication::Message) -> (r: Self) {
        Message::RenameTableMsg(c)
    }
}

impl Rows for Message {
    open spec fn filled(self, rows: Vec<String>) -> Self {
        match self {
            Message::AddTableMsg(m) => Message::AddTableMsg(m.filled(rows)),
            Message::DeleteTableMsg(m) => Message::DeleteTableMsg(m.filled(rows)),
            Message::RenameTableMsg(m) => Message::RenameTableMsg(m.filled(rows)),
            _ => self,
        }
    }

    fn with_rows(self, rows: Vec<String>) -> (r: Self) {
        match self {
            Message::AddTableMsg(m) => Message::AddTableMsg(m.with_rows(rows)),
            Message::DeleteTableMsg(m) => Message::DeleteTableMsg(m.with_rows(rows)),
            Message::RenameTableMsg(m) => Message::RenameTableMsg(m.with_rows(rows)),
            _ => self,
        }
    }
}

impl<DB> View<DB> {
    pub open spec fn client(self) -> DB {
        match self.view {
            ViewVariant::Main(db) => db,
            ViewVariant::AddTable(v) => v.client,
            ViewVariant::DeleteTable(v) => v.client,
            ViewVariant::RenameTable(v) => v.client,
        }
    }

    /// How many screens are open below this menu: 0 on the menu itself.
    pub open spec fn depth(self) -> nat {
        match self.view {
            ViewVariant::Main(_) => 0,
            _ => 1,
        }
    }

    pub open spec fn back_message(self) -> Message {
        match self.view {
            ViewVariant::Main(_) => Message::Back,
            ViewVariant::AddTable(_) => Message::AddTableMsg(add_table::Message::Back),
            ViewVariant::DeleteTable(_) => Message::DeleteTableMsg(delete_table::Message::Back),
            ViewVariant::RenameTable(_) => Message::RenameTableMsg(
                rename_publication::Message::Back,
            ),
        }
    }

    /// `next` is `self` with the screen `variant` open and the error message kept.
    pub open spec fn opens(self, next: Self, variant: ViewVariant<DB>) -> bool {
        next == View { view: variant, ..self }
    }

    /// `self` stays and the task reports `e`.
    pub open spec fn refuses(self, next: Self, task: Task<Message>, e: &'static str) -> bool {
        next == self && task == Task::Done(Message::Error(e))
    }

    /// What handling `msg` in `self` leads to: the next state and the task.
    pub open spec fn step(self, msg: Message, next: Self, task: Task<Message>) -> bool {
        match msg {
            Message::Back => self.refuses(next, task, "This should have been propagated higher"),
            Message::Error(e) => next == View { errmsg: Some(e), ..self } && task
                == Task::<Message>::Nothing,
            Message::AddTable => match self.view {
                ViewVariant::Main(db) => next.errmsg == self.errmsg && exists|
                    v: add_table::View<DB>,
                    t: Task<add_table::Message>,
                |
                    #![trigger add_table::View::fresh(v, db), t.lifted::<Message>()]
                    v.fresh(db) && (t matches Task::Perform(q) && add_table::is_pubs_request(q))
                        && next.view == ViewVariant::AddTable(v) && task == t.lifted::<Message>(),
                _ => self.refuses(next, task, "DB is probably uninit"),
            },
            Message::DeleteTable => match self.view {
                ViewVariant::Main(db) => next == View {
                    view: ViewVariant::DeleteTable(delete_table::View { client: db }),
                    errmsg: None,
                } && task == Task::<Message>::Nothing,
                _ => self.refuses(next, task, "DB is probably uninit"),
            },
            Message::RenameTable => match self.view {
                ViewVariant::Main(db) => next.errmsg is None && exists|
                    v: rename_publication::View<DB>,
                    t: Task<rename_publication::Message>,
                |
                    #![trigger rename_publication::View::fresh(v, db), t.lifted::<Message>()]
                    v.fresh(db) && (t matches Task::Perform(q)
                        && rename_publication::is_pubs_request(
                        q,
                        "Error occurred while getting publications",
                    )) && next.view == ViewVariant::RenameTable(v) && task == t.lifted::<Message>(),
                _ => self.refuses(next, task, "DB is probably uninit"),
            },
            Message::AddTableMsg(m) => match self.view {
                ViewVariant::AddTable(v) => if m is Back {
                    self.opens(next, ViewVariant::Main(v.client)) && task == Task::<Message>::Nothing
                } else {
                    exists|v2: add_table::View<DB>, t: Task<add_table::Message>|
                        #[trigger] v.step(m, v2, t) && self.opens(next, ViewVariant::AddTable(v2))
                            && task == t.lifted::<Message>()
                },
                _ => self.refuses(
                    next,
                    task,
                    if m is Back {
                        "Something happened"
                    } else {
                        "Couldn't add table"
                    },
                ),
            },
            Message::DeleteTableMsg(_) => match self.view {
                ViewVariant::DeleteTable(v) => self.opens(next, ViewVariant::Main(v.client)) && task
                    == Task::<Message>::Nothing,
                _ => self.refuses(next, task, "Something happened"),
            },
            Message::RenameTableMsg(m) => match self.view {
                ViewVariant::RenameTable(v) => if m is Back {
                    self.opens(next, ViewVariant::Main(v.client)) && task == Task::<Message>::Nothing
                } else {
                    exists|v2: rename_publication::View<DB>, t: Task<rename_publication::Message>|
                        #[trigger] v.step(m, v2, t) && self.opens(
                            next,
                            ViewVariant::RenameTable(v2),
                        ) && task == t.lifted::<Message>()
                },
                _ => self.refuses(
                    next,
                    task,
                    if m is Back {
                        "Something happened"
                    } else {
                        "Not in the right view to do that!"
                    },
                ),
            },
        }
    }
}

impl<DB: AsClient> View<DB> {
    /// The menu on `client`.
    pub fn new(client: DB) -> (r: Self)
        ensures
            r == (View { view: ViewVariant::Main(client), errmsg: None }),
    {
        View { view: ViewVariant::Main(client), errmsg: None }
    }

    fn err(msg: &'static str) -> (r: Task<Message>)
        ensures
            r == Task::Done(Message::Error(msg)),
    {
        Task::Done(Message::Error(msg))
    }
}

impl<DB: AsClient> GetDb for View<DB> {
    type DB = DB;

    open spec fn db(&self) -> DB {
        self.client()
    }

    fn get_db(&self) -> (r: DB) {
        match &self.view {
            ViewVariant::Main(client) => client.share(),
            ViewVariant::AddTable(view) => view.get_db(),
            ViewVariant::DeleteTable(view) => view.get_db(),
            ViewVariant::RenameTable(view) => view.get_db(),
        }
    }
}

impl<DB: AsClient> Viewable for View<DB> {
    type Message = Message;

    fn back(&self) -> (r: Message)
        ensures
            r == self.back_message(),
    {
        match &self.view {
            ViewVariant::Main(_) => Message::Back,
            ViewVariant::AddTable(view) => Message::AddTableMsg(view.back()),
            ViewVariant::DeleteTable(view) => Message::DeleteTableMsg(view.back()),
            ViewVariant::RenameTable(view) => Message::RenameTableMsg(view.back()),
        }
    }

    fn update(&mut self, msg: Message) -> (r: Task<Message>)
        ensures
            old(self).step(msg, *final(self), r),
    {
        match msg {
            Message::Back => Self::err("This should have been propagated higher"),
            Message::AddTable => {
                let db = match &self.view {
                    ViewVariant::Main(db) => db.share(),
                    _ => {
                        return Self::err("DB is probably uninit");
                    },
                };
                let (view, task) = add_table::View::new(db);
                self.view = ViewVariant::AddTable(view);
                task.lift()
            },
            Message::AddTableMsg(add_table::Message::Back) => {
                let db = match &self.view {
                    ViewVariant::AddTable(view) => view.get_db(),
                    _ => {
                        return Self::err("Something happened");
                    },
                };
                self.view = ViewVariant::Main(db);
                Task::Nothing
            },
            Message::AddTableMsg(msg) => match &mut self.view {
                ViewVariant::AddTable(view) => view.update(msg).lift(),
                _ => Self::err("Couldn't add table"),
            },
            Message::Error(msg) => {
                self.errmsg = Some(msg);
                Task::Nothing
            },
            Message::DeleteTable => {
                let db = match &self.view {
                    ViewVariant::Main(db) => db.share(),
                    _ => {
                        return Self::err("DB is probably uninit");
                    },
                };
                self.errmsg = None;
                let (view, task) = delete_table::View::new(db);
                self.view = ViewVariant::DeleteTable(view);
                task.lift()
            },
            Message::DeleteTableMsg(delete_table::Message::Back) => {
                let db = match &self.view {
                    ViewVariant::DeleteTable(view) => view.get_db(),
                    _ => {
                        return Self::err("Something happened");
                    },
                };
                self.view = ViewVariant::Main(db);
                Task::Nothing
            },
            Message::RenameTable => {
                let db = match &self.view {
                    ViewVariant::Main(db) => db.share(),
                    _ => {
                        return Self::err("DB is probably uninit");
                    },
                };
                self.errmsg = None;
                let (view, task) = rename_publication::View::new(db);
                self.view = ViewVariant::RenameTable(view);
                task.lift()
            },
            Message::RenameTableMsg(rename_publication::Message::Back) => {
                let db = match &self.view {
                    ViewVariant::RenameTable(view) => view.get_db(),
                    _ => {
                        return Self::err("Something happened");
                    },
                };
                self.view = ViewVariant::Main(db);
                Task::Nothing
            },
            Message::RenameTableMsg(msg) => match &mut self.view {
                ViewVariant::RenameTable(view) => view.update(msg).lift(),
                _ => Self::err("Not in the right view to do that!"),
            },
        }
    }
}

} // verus!

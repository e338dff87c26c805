//! Adding a table to a publication.
use vstd::prelude::*;
use vstd::view::View as _;

use crate::task::{Job, Request, Rows, Task};
use crate::traits::{AsClient, GetDb, Viewable};

verus! {

#[derive(Debug)]
pub struct View<DB> {
    pub client: DB,
    /// Tables of the `public` schema that the chosen publication lacks.
    pub table_list: Vec<String>,
    pub table_curr: Option<String>,
    pub pub_list: Vec<String>,
    pub pub_curr: Option<String>,
    pub errmsg: Option<&'static str>,
}

#[derive(Clone, PartialEq, Eq, Debug)]
pub enum Message {
    Tables(Vec<String>),
    TableSelected(String),
    Pubs(Vec<String>),
    PubSelected(String),
    Error(&'static str),
    AddTable,
    Back,
    Clear,
}

impl Rows for Message {
    open spec fn filled(self, rows: Vec<String>) -> Self {
        match self {
            Message::Tables(_) => Message::Tables(rows),
            Message::Pubs(_) => Message::Pubs(rows),
            _ => self,
        }
    }

    fn with_rows(self, rows: Vec<String>) -> (r: Self) {
        match self {
            Message::Tables(_) => Message::Tables(rows),
            Message::Pubs(_) => Message::Pubs(rows),
            _ => self,
        }
    }
}

/// The request that lists the publications.
pub open spec fn is_pubs_request(r: Request<Message>) -> bool {
    &&& r.job == Job::ListPublications
    &&& r.on_success matches Message::Pubs(v) && v@.len() == 0
    &&& r.on_failure == Message::Error("Error occurred while getting publications")
}

/// The request that lists the tables `publication` lacks.
pub open spec fn is_tables_request(r: Request<Message>, publication: String) -> bool {
    &&& r.job == (Job::ListUnpublishedTables { publication })
    &&& r.on_success matches Message::Tables(v) && v@.len() == 0
    &&& r.on_failure == Message::Error("Couldn't update tables")
}

/// The request that adds `table` to `publication`.
pub open spec fn is_add_request(r: Request<Message>, publication: String, table: String) -> bool {
    &&& r.job == (Job::AddTable { publication, table })
    &&& r.on_success == Message::Clear
    &&& r.on_failure == Message::Error("Couldn't add table")
}

fn tables_request(publication: String) -> (r: Request<Message>)
    ensures
        is_tables_request(r, publication),
{
    Request {
        job: Job::ListUnpublishedTables { publication },
        on_success: Message::Tables(Vec::new()),
        on_failure: Message::Error("Couldn't update tables"),
    }
}

impl<DB> View<DB> {
    /// The screen with nothing fetched or chosen yet.
    pub open spec fn fresh(self, client: DB) -> bool {
        &&& self.client == client
        &&& self.table_list@.len() == 0
        &&& self.table_curr is None
        &&& self.pub_list@.len() == 0
        &&& self.pub_curr is None
        &&& self.errmsg is None
    }

    /// `next` is `self` with only the error message set to `e`.
    pub open spec fn with_error(self, next: Self, e: &'static str) -> bool {
        next == View { errmsg: Some(e), ..self }
    }

    /// What handling `msg` in `self` leads to: the next state and the task.
    pub open spec fn step(self, msg: Message, next: Self, task: Task<Message>) -> bool {
        match msg {
            Message::Error(e) => self.with_error(next, e) && task == Task::<Message>::Nothing,
            Message::Tables(t) => next == View { table_list: t, ..self } && task
                == Task::<Message>::Nothing,
            Message::TableSelected(t) => next == View { table_curr: Some(t), ..self } && task
                == Task::<Message>::Nothing,
            Message::Pubs(p) => next == View { pub_list: p, ..self } && task
                == Task::<Message>::Nothing,
            Message::PubSelected(p) => {
                &&& next == View { pub_curr: Some(p), ..self }
                &&& task matches Task::Perform(r) && is_tables_request(r, p)
            },
            Message::Back => next == self && task == Task::Done(
                Message::Error("This should have been propagated higher"),
            ),
            Message::AddTable => {
                &&& next == self
                &&& match (self.pub_curr, self.table_curr) {
                    (None, _) => task == Task::Done(Message::Error("No publication provided")),
                    (Some(_), None) => task == Task::Done(Message::Error("No table provided")),
                    (Some(p), Some(t)) => task matches Task::Chain(a, b) && is_add_request(a, p, t)
                        && is_tables_request(b, p),
                }
            },
            Message::Clear => {
                &&& next.client == self.client
                &&& next.pub_list == self.pub_list
                &&& next.table_list@.len() == 0
                &&& next.table_curr is None
                &&& next.pub_curr is None
                &&& next.errmsg is None
                &&& task == Task::<Message>::Nothing
            },
        }
    }
}

impl<DB: AsClient> View<DB> {
    /// Opens the screen on `client` and asks for the list of publications.
    pub fn new(client: DB) -> (r: (Self, Task<Message>))
        ensures
            r.0.fresh(client),
            r.1 matches Task::Perform(q) && is_pubs_request(q),
    {
        let task = Task::Perform(
            Request {
                job: Job::ListPublications,
                on_success: Message::Pubs(Vec::new()),
                on_failure: Message::Error("Error occurred while getting publications"),
            },
        );
        (
            View {
                client,
                table_list: Vec::new(),
                table_curr: None,
                pub_list: Vec::new(),
                pub_curr: None,
                errmsg: None,
            },
            task,
        )
    }

    /// Whether the "Add table" button is enabled.
    pub fn can_add(&self) -> (r: bool)
        ensures
            r == self.table_curr is Some,
    {
        self.table_curr.is_some()
    }
}

impl<DB: AsClient> GetDb for View<DB> {
    type DB = DB;

    open spec fn db(&self) -> DB {
        self.client
    }

    fn get_db(&self) -> (r: DB) {
        self.client.share()
    }
}

impl<DB: AsClient> Viewable for View<DB> {
    type Message = Message;

    fn back(&self) -> (r: Message)
        ensures
            r == Message::Back,
    {
        Message::Back
    }

    fn update(&mut self, msg: Message) -> (r: Task<Message>)
        ensures
            old(self).step(msg, *final(self), r),
    {
        match msg {
            Message::Error(err) => {
                self.errmsg = Some(err);
                Task::Nothing
            },
            Message::Tables(tables) => {
                self.table_list = tables;
                Task::Nothing
            },
            Message::TableSelected(table) => {
                self.table_curr = Some(table);
                Task::Nothing
            },
            Message::Pubs(pubs) => {
                self.pub_list = pubs;
                Task::Nothing
            },
            Message::PubSelected(publication) => {
                self.pub_curr = Some(publication.clone());
                Task::Perform(tables_request(publication))
            },
            Message::Back => Task::Done(Message::Error("This should have been propagated higher")),
            Message::AddTable => {
                let publication = match &self.pub_curr {
                    Some(p) => p.clone(),
                    None => {
                        return Task::Done(Message::Error("No publication provided"));
                    },
                };
                let table = match &self.table_curr {
                    Some(t) => t.clone(),
                    None => {
                        return Task::Done(Message::Error("No table provided"));
                    },
                };
                let add = Request {
                    job: Job::AddTable { publication: publication.clone(), table },
                    on_success: Message::Clear,
                    on_failure: Message::Error("Couldn't add table"),
                };
                Task::Chain(add, tables_request(publication))
            },
            Message::Clear => {
                self.table_curr = None;
                self.pub_curr = None;
                self.table_list = Vec::new();
                self.errmsg = None;
                Task::Nothing
            },
        }
    }
}

} // verus!

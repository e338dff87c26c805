//! Renaming a publication.
use vstd::prelude::*;
use vstd::view::View as _;

use crate::task::{Job, Request, Rows, Task};
use crate::traits::{AsClient, GetDb, Viewable};

verus! {

#[derive(Debug)]
pub struct View<DB> {
    pub client: DB,
    pub pub_list: Vec<String>,
    pub pub_curr: Option<String>,
    pub new_name: String,
    pub errmsg: Option<&'static str>,
}

#[derive(Clone, PartialEq, Eq, Debug)]
pub enum Message {
    NewName(String),
    Pubs(Vec<String>),
    PubSelected(String),
    Error(&'static str),
    RenamePub,
    Back,
    Clear,
}

impl Rows for Message {
    open spec fn filled(self, rows: Vec<String>) -> Self {
        match self {
            Message::Pubs(_) => Message::Pubs(rows),
            _ => self,
        }
    }

    fn with_rows(self, rows: Vec<String>) -> (r: Self) {
        match self {
            Message::Pubs(_) => Message::Pubs(rows),
            _ => self,
        }
    }
}

/// The request that lists the publications, failing with `failure`.
pub open spec fn is_pubs_request(r: Request<Message>, failure: &'static str) -> bool {
    &&& r.job == Job::ListPublications
    &&& r.on_success matches Message::Pubs(v) && v@.len() == 0
    &&& r.on_failure == Message::Error(failure)
}

/// The request that renames `publication` to `new_name`.
pub open spec fn is_rename_request(r: Request<Message>, publication: String, new_name: String) -> bool {
    &&& r.job == (Job::RenamePublication { publication, new_name })
    &&& r.on_success == Message::Clear
    &&& r.on_failure == Message::Error("Couldn't rename publication")
}

fn pubs_request(failure: &'static str) -> (r: Request<Message>)
    ensures
        is_pubs_request(r, failure),
{
    Request {
        job: Job::ListPublications,
        on_success: Message::Pubs(Vec::new()),
        on_failure: Message::Error(failure),
    }
}

impl<DB> View<DB> {
    /// The screen with nothing fetched, chosen or typed yet.
    pub open spec fn fresh(self, client: DB) -> bool {
        &&& self.client == client
        &&& self.pub_list@.len() == 0
        &&& self.pub_curr is None
        &&& self.new_name@.len() == 0
        &&& self.errmsg is None
    }

    /// What handling `msg` in `self` leads to: the next state and the task.
    pub open spec fn step(self, msg: Message, next: Self, task: Task<Message>) -> bool {
        match msg {
            Message::Error(e) => next == View { errmsg: Some(e), ..self } && task
                == Task::<Message>::Nothing,
            Message::NewName(n) => next == View { new_name: n, ..self } && task
                == Task::<Message>::Nothing,
            Message::Pubs(p) => next == View { pub_list: p, ..self } && task
                == Task::<Message>::Nothing,
            Message::PubSelected(p) => next == View { pub_curr: Some(p), ..self } && task
                == Task::<Message>::Nothing,
            Message::Back => next == self && task == Task::Done(
                Message::Error("This should have been propagated higher"),
            ),
            Message::RenamePub => {
                &&& next == self
                &&& match self.pub_curr {
                    None => task == Task::Done(Message::Error("No publication provided")),
                    Some(p) => task matches Task::Perform(r) && is_rename_request(
                        r,
                        p,
                        self.new_name,
                    ),
                }
            },
            Message::Clear => {
                &&& next.client == self.client
                &&& next.pub_list == self.pub_list
                &&& next.pub_curr is None
                &&& next.new_name@.len() == 0
                &&& next.errmsg is None
                &&& task matches Task::Perform(r) && is_pubs_request(
                    r,
                    "Couldn't update publications",
                )
            },
        }
    }
}

impl<DB: AsClient> View<DB> {
    /// Opens the screen on `client` and asks for the list of publications.
    pub fn new(client: DB) -> (r: (Self, Task<Message>))
        ensures
            r.0.fresh(client),
            r.1 matches Task::Perform(q) && is_pubs_request(
                q,
                "Error occurred while getting publications",
            ),
    {
        (
            View {
                client,
                pub_list: Vec::new(),
                pub_curr: None,
                new_name: String::new(),
                errmsg: None,
            },
            Task::Perform(pubs_request("Error occurred while getting publications")),
        )
    }

    /// Whether the "Rename publication" button is enabled.
    pub fn can_rename(&self) -> (r: bool)
        ensures
            r == (self.new_name@.len() != 0),
    {
        !self.new_name.as_str().is_empty()
    }
}

impl<DB: AsClient> GetDb for View<DB> {
    type DB = DB;

    open spec fn db(&self) -> DB {
        self.client
    }

    fn get_db(&self) -> (r: DB) {
        self.client.share()
    }
}

impl<DB: AsClient> Viewable for View<DB> {
    type Message = Message;

    fn back(&self) -> (r: Message)
        ensures
            r == Message::Back,
    {
        Message::Back
    }

    fn update(&mut self, msg: Message) -> (r: Task<Message>)
        ensures
            old(self).step(msg, *final(self), r),
    {
        match msg {
            Message::Error(err) => {
                self.errmsg = Some(err);
                Task::Nothing
            },
            Message::NewName(name) => {
                self.new_name = name;
                Task::Nothing
            },
            Message::Pubs(pubs) => {
                self.pub_list = pubs;
                Task::Nothing
            },
            Message::PubSelected(publication) => {
                self.pub_curr = Some(publication);
                Task::Nothing
            },
            Message::Back => Task::Done(Message::Error("This should have been propagated higher")),
            Message::RenamePub => {
                let publication = match &self.pub_curr {
                    Some(p) => p.clone(),
                    None => {
                        return Task::Done(Message::Error("No publication provided"));
                    },
                };
                let new_name = self.new_name.clone();
                Task::Perform(
                    Request {
                        job: Job::RenamePublication { publication, new_name },
                        on_success: Message::Clear,
                        on_failure: Message::Error("Couldn't rename publication"),
                    },
                )
            },
            Message::Clear => {
                self.pub_curr = None;
                self.errmsg = None;
                self.new_name = String::new();
                Task::Perform(pubs_request("Couldn't update publications"))
            },
        }
    }
}

} // verus!

//! Renaming a subscription.
use vstd::prelude::*;
use vstd::view::View as _;

use crate::task::{Job, Request, Rows, Task};
use crate::traits::{AsClient, GetDb, Viewable};

verus! {

#[derive(Debug)]
pub struct View<DB> {
    pub client: DB,
    pub sub_list: Vec<String>,
    pub sub_curr: Option<String>,
    pub new_name: String,
    pub errmsg: Option<&'static str>,
}

#[derive(Clone, PartialEq, Eq, Debug)]
pub enum Message {
    NewName(String),
    Subs(Vec<String>),
    SubSelected(String),
    Error(&'static str),
    RenameSub,
    Back,
    Clear,
}

impl Rows for Message {
    open spec fn filled(self, rows: Vec<String>) -> Self {
        match self {
            Message::Subs(_) => Message::Subs(rows),
            _ => self,
        }
    }

    fn with_rows(self, rows: Vec<String>) -> (r: Self) {
        match self {
            Message::Subs(_) => Message::Subs(rows),
            _ => self,
        }
    }
}

/// The request that lists the subscriptions, failing with `failure`.
pub open spec fn is_subs_request(r: Request<Message>, failure: &'static str) -> bool {
    &&& r.job == Job::ListSubscriptions
    &&& r.on_success matches Message::Subs(v) && v@.len() == 0
    &&& r.on_failure == Message::Error(failure)
}

/// The request that renames `subscription` to `new_name`.
pub open spec fn is_rename_request(r: Request<Message>, subscription: String, new_name: String) -> bool {
    &&& r.job == (Job::RenameSubscription { subscription, new_name })
    &&& r.on_success == Message::Clear
    &&& r.on_failure == Message::Error("Couldn't rename subscription")
}

fn subs_request(failure: &'static str) -> (r: Request<Message>)
    ensures
        is_subs_request(r, failure),
{
    Request {
        job: Job::ListSubscriptions,
        on_success: Message::Subs(Vec::new()),
        on_failure: Message::Error(failure),
    }
}

impl<DB> View<DB> {
    /// The screen with nothing fetched, chosen or typed yet.
    pub open spec fn fresh(self, client: DB) -> bool {
        &&& self.client == client
        &&& self.sub_list@.len() == 0
        &&& self.sub_curr is None
        &&& self.new_name@.len() == 0
        &&& self.errmsg is None
    }

    /// What handling `msg` in `self` leads to: the next state and the task.
    pub open spec fn step(self, msg: Message, next: Self, task: Task<Message>) -> bool {
        match msg {
            Message::Error(e) => next == View { errmsg: Some(e), ..self } && task
                == Task::<Message>::Nothing,
            Message::NewName(n) => next == View { new_name: n, ..self } && task
                == Task::<Message>::Nothing,
            Message::Subs(p) => next == View { sub_list: p, ..self } && task
                == Task::<Message>::Nothing,
            Message::SubSelected(p) => next == View { sub_curr: Some(p), ..self } && task
                == Task::<Message>::Nothing,
            Message::Back => next == self && task == Task::Done(
                Message::Error("This should have been propagated higher"),
            ),
            Message::RenameSub => {
                &&& next == self
                &&& match self.sub_curr {
                    None => task == Task::Done(Message::Error("No subscription provided")),
                    Some(p) => task matches Task::Perform(r) && is_rename_request(
                        r,
                        p,
                        self.new_name,
                    ),
                }
            },
            Message::Clear => {
                &&& next.client == self.client
                &&& next.sub_list == self.sub_list
                &&& next.sub_curr is None
                &&& next.new_name@.len() == 0
                &&& next.errmsg is None
                &&& task matches Task::Perform(r) && is_subs_request(
                    r,
                    "Couldn't update subscriptions",
                )
            },
        }
    }
}

impl<DB: AsClient> View<DB> {
    /// Opens the screen on `client` and asks for the list of subscriptions.
    pub fn new(client: DB) -> (r: (Self, Task<Message>))
        ensures
            r.0.fresh(client),
            r.1 matches Task::Perform(q) && is_subs_request(
                q,
                "Error occurred while getting subscriptions",
            ),
    {
        (
            View {
                client,
                sub_list: Vec::new(),
                sub_curr: None,
                new_name: String::new(),
                errmsg: None,
            },
            Task::Perform(subs_request("Error occurred while getting subscriptions")),
        )
    }

    /// Whether the "Rename subscription" button is enabled.
    pub fn can_rename(&self) -> (r: bool)
        ensures
            r == (self.new_name@.len() != 0),
    {
        !self.new_name.as_str().is_empty()
    }
}

impl<DB: AsClient> GetDb for View<DB> {
    type DB = DB;

    open spec fn db(&self) -> DB {
        self.client
    }

    fn get_db(&self) -> (r: DB) {
        self.client.share()
    }
}

impl<DB: AsClient> Viewable for View<DB> {
    type Message = Message;

    fn back(&self) -> (r: Message)
        ensures
            r == Message::Back,
    {
        Message::Back
    }

    fn update(&mut self, msg: Message) -> (r: Task<Message>)
        ensures
            old(self).step(msg, *final(self), r),
    {
        match msg {
            Message::Error(err) => {
                self.errmsg = Some(err);
                Task::Nothing
            },
            Message::NewName(name) => {
                self.new_name = name;
                Task::Nothing
            },
            Message::Subs(pubs) => {
                self.sub_list = pubs;
                Task::Nothing
            },
            Message::SubSelected(subscription) => {
                self.sub_curr = Some(subscription);
                Task::Nothing
            },
            Message::Back => Task::Done(Message::Error("This should have been propagated higher")),
            Message::RenameSub => {
                let subscription = match &self.sub_curr {
                    Some(p) => p.clone(),
                    None => {
                        return Task::Done(Message::Error("No subscription provided"));
                    },
                };
                let new_name = self.new_name.clone();
                Task::Perform(
                    Request {
                        job: Job::RenameSubscription { subscription, new_name },
                        on_success: Message::Clear,
                        on_failure: Message::Error("Couldn't rename subscription"),
                    },
                )
            },
            Message::Clear => {
                self.sub_curr = None;
                self.errmsg = None;
                self.new_name = String::new();
                Task::Perform(subs_request("Couldn't update subscriptions"))
            },
        }
    }
}

} // verus!

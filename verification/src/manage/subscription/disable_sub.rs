//! Disabling an enabled subscription.
use vstd::prelude::*;
use vstd::view::View as _;

use crate::task::{Job, Request, Rows, Task};
use crate::traits::{AsClient, GetDb, Viewable};

verus! {

#[derive(Debug)]
pub struct View<DB> {
    pub client: DB,
    /// The enabled subscriptions.
    pub sub_list: Vec<String>,
    pub sub_curr: Option<String>,
    pub errmsg: Option<&'static str>,
}

#[derive(Clone, PartialEq, Eq, Debug)]
pub enum Message {
    Subs(Vec<String>),
    SubSelected(String),
    Error(&'static str),
    DisableSub,
    Back,
    Clear,
}

impl Rows for Message {
    open spec fn filled(self, rows: Vec<String>) -> Self {
        match self {
            Message::Subs(_) => Message::Subs(rows),
            _ => self,
        }
    }

    fn with_rows(self, rows: Vec<String>) -> (r: Self) {
        match self {
            Message::Subs(_) => Message::Subs(rows),
            _ => self,
        }
    }
}

/// The request that lists the enabled subscriptions, failing with `failure`.
pub open spec fn is_subs_request(r: Request<Message>, failure: &'static str) -> bool {
    &&& r.job == Job::ListEnabledSubscriptions
    &&& r.on_success matches Message::Subs(v) && v@.len() == 0
    &&& r.on_failure == Message::Error(failure)
}

/// The request that disables `subscription`.
pub open spec fn is_disable_request(r: Request<Message>, subscription: String) -> bool {
    &&& r.job == (Job::DisableSubscription { subscription })
    &&& r.on_success == Message::Clear
    &&& r.on_failure == Message::Error("Couldn't add table")
}

fn subs_request(failure: &'static str) -> (r: Request<Message>)
    ensures
        is_subs_request(r, failure),
{
    Request {
        job: Job::ListEnabledSubscriptions,
        on_success: Message::Subs(Vec::new()),
        on_failure: Message::Error(failure),
    }
}

impl<DB> View<DB> {
    /// The screen with nothing fetched or chosen yet.
    pub open spec fn fresh(self, client: DB) -> bool {
        &&& self.client == client
        &&& self.sub_list@.len() == 0
        &&& self.sub_curr is None
        &&& self.errmsg is None
    }

    /// What handling `msg` in `self` leads to: the next state and the task.
    pub open spec fn step(self, msg: Message, next: Self, task: Task<Message>) -> bool {
        match msg {
            Message::Error(e) => next == View { errmsg: Some(e), ..self } && task
                == Task::<Message>::Nothing,
            Message::Subs(s) => next == View { sub_list: s, ..self } && task
                == Task::<Message>::Nothing,
            Message::SubSelected(s) => {
                &&& next == View { sub_curr: Some(s), ..self }
                &&& task matches Task::Perform(r) && is_subs_request(r, "Couldn't update tables")
            },
            Message::Back => next == self && task == Task::Done(
                Message::Error("This should have been propagated higher"),
            ),
            Message::DisableSub => {
                &&& next == self
                &&& match self.sub_curr {
                    None => task == Task::Done(Message::Error("No publication provided")),
                    Some(s) => task matches Task::Chain(a, b) && is_disable_request(a, s)
                        && is_subs_request(b, "Couldn't update tables"),
                }
            },
            Message::Clear => {
                &&& next == View { sub_curr: None, errmsg: None, ..self }
                &&& task == Task::<Message>::Nothing
            },
        }
    }
}

impl<DB: AsClient> View<DB> {
    /// Opens the screen on `client` and asks for the enabled subscriptions.
    pub fn new(client: DB) -> (r: (Self, Task<Message>))
        ensures
            r.0.fresh(client),
            r.1 matches Task::Perform(q) && is_subs_request(
                q,
                "Error occurred while getting publications",
            ),
    {
        (
            View { client, sub_list: Vec::new(), sub_curr: None, errmsg: None },
            Task::Perform(subs_request("Error occurred while getting publications")),
        )
    }

    /// Whether the "Disable subscription" button is enabled.
    pub fn can_disable(&self) -> (r: bool)
        ensures
            r == self.sub_curr is Some,
    {
        self.sub_curr.is_some()
    }
}

impl<DB: AsClient> GetDb for View<DB> {
    type DB = DB;

    open spec fn db(&self) -> DB {
        self.client
    }

    fn get_db(&self) -> (r: DB) {
        self.client.share()
    }
}

impl<DB: AsClient> Viewable for View<DB> {
    type Message = Message;

    fn back(&self) -> (r: Message)
        ensures
            r == Message::Back,
    {
        Message::Back
    }

    fn update(&mut self, msg: Message) -> (r: Task<Message>)
        ensures
            old(self).step(msg, *final(self), r),
    {
        match msg {
            Message::Error(err) => {
                self.errmsg = Some(err);
                Task::Nothing
            },
            Message::Subs(subs) => {
                self.sub_list = subs;
                Task::Nothing
            },
            Message::SubSelected(sub) => {
                self.sub_curr = Some(sub);
                Task::Perform(subs_request("Couldn't update tables"))
            },
            Message::Back => Task::Done(Message::Error("This should have been propagated higher")),
            Message::DisableSub => {
                let sub = match &self.sub_curr {
                    Some(s) => s.clone(),
                    None => {
                        return Task::Done(Message::Error("No publication provided"));
                    },
                };
                let disable = Request {
                    job: Job::DisableSubscription { subscription: sub },
                    on_success: Message::Clear,
                    on_failure: Message::Error("Couldn't add table"),
                };
                Task::Chain(disable, subs_request("Couldn't update tables"))
            },
            Message::Clear => {
                self.sub_curr = None;
                self.errmsg = None;
                Task::Nothing
            },
        }
    }
}

} // verus!

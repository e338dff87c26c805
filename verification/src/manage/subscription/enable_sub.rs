//! Enabling a subscription. The screen is a placeholder: it only
//! offers the way back.
use vstd::prelude::*;

use crate::task::{Rows, Task};
use crate::traits::{AsClient, GetDb, Viewable};

verus! {

#[derive(Debug)]
pub struct View<DB> {
    pub client: DB,
}

#[derive(Clone, PartialEq, Eq, Debug)]
pub enum Message {
    Back,
}

impl Rows for Message {
    open spec fn filled(self, rows: Vec<String>) -> Self {
        self
    }

    fn with_rows(self, rows: Vec<String>) -> (r: Self) {
        self
    }
}

impl<DB: AsClient> View<DB> {
    /// Opens the screen on `client`; nothing needs fetching.
    pub fn new(client: DB) -> (r: (Self, Task<Message>))
        ensures
            r.0.client == client,
            r.1 == Task::<Message>::Nothing,
    {
        (View { client }, Task::Nothing)
    }
}

impl<DB: AsClient> GetDb for View<DB> {
    type DB = DB;

    open spec fn db(&self) -> DB {
        self.client
    }

    fn get_db(&self) -> (r: DB) {
        self.client.share()
    }
}

impl<DB: AsClient> Viewable for View<DB> {
    type Message = Message;

    fn back(&self) -> (r: Message)
        ensures
            r == Message::Back,
    {
        Message::Back
    }

    /// The only message, `Back`, is handled by the enclosing screen.
    fn update(&mut self, msg: Message) -> (r: Task<Message>)
        ensures
            *final(self) == *old(self),
            r == Task::<Message>::Nothing,
    {
        Task::Nothing
    }
}

} // verus!

//! The login screen: collects the connection parameters and asks for a connection.
use vstd::prelude::*;

use crate::task::{Credentials, Rows, Task};

verus! {

pub struct View {
    pub dbname: Option<String>,
    pub username: Option<String>,
    pub password: Option<String>,
    pub host: Option<String>,
    pub port: Option<u16>,
    pub errmsg: Option<&'static str>,
}

#[derive(Clone, PartialEq, Eq)]
pub enum Message<DB> {
    Error(&'static str),
    DbNameChange(String),
    UsernameInput(String),
    PasswordInput(String),
    HostInput(String),
    PortInput(u16),
    Start,
    Connected(DB),
}

impl<DB> Rows for Message<DB> {
    open spec fn filled(self, rows: Vec<String>) -> Self {
        self
    }

    fn with_rows(self, rows: Vec<String>) -> (r: Self) {
        self
    }
}

impl Default for View {
    fn default() -> (r: Self)
        ensures
            r == View::empty(),
    {
        View { dbname: None, username: None, password: None, host: None, port: None, errmsg: None }
    }
}

impl View {
    /// The screen with nothing entered.
    pub open spec fn empty() -> View {
        View { dbname: None, username: None, password: None, host: None, port: None, errmsg: None }
    }

    /// The error reported when `Start` finds a parameter missing, looking at
    /// the user name, password, host, database name and port in this order.
    pub open spec fn missing(self) -> Option<&'static str> {
        if self.username is None {
            Some("No username provided")
        } else if self.password is None {
            Some("No password provided")
        } else if self.host is None {
            Some("No host provided")
        } else if self.dbname is None {
            Some("No dbname provided")
        } else if self.port is None {
            Some("No port provided")
        } else {
            None
        }
    }

    /// What handling `msg` in `self` leads to: the next state and the task.
    pub open spec fn step<DB>(self, msg: Message<DB>, next: Self, task: Task<Message<DB>>) -> bool {
        match msg {
            Message::DbNameChange(n) => next == View { dbname: Some(n), ..self } && task
                == Task::<Message<DB>>::Nothing,
            Message::UsernameInput(n) => next == View { username: Some(n), ..self } && task
                == Task::<Message<DB>>::Nothing,
            Message::PasswordInput(p) => next == View { password: Some(p), ..self } && task
                == Task::<Message<DB>>::Nothing,
            Message::HostInput(h) => next == View { host: Some(h), ..self } && task
                == Task::<Message<DB>>::Nothing,
            Message::PortInput(p) => next == View { port: Some(p), ..self } && task
                == Task::<Message<DB>>::Nothing,
            Message::Start => match self.missing() {
                Some(e) => next == self && task == Task::Done(Message::<DB>::Error(e)),
                None => {
                    &&& next == View { errmsg: None, ..self }
                    &&& task == Task::Connect(
                        Credentials {
                            username: self.username.unwrap(),
                            password: self.password.unwrap(),
                            host: self.host.unwrap(),
                            port: self.port.unwrap(),
                            dbname: self.dbname.unwrap(),
                        },
                        Message::<DB>::Error("Couldn't connect to DB"),
                    )
                },
            },
            Message::Error(e) => next == View { errmsg: Some(e), ..self } && task
                == Task::<Message<DB>>::Nothing,
            Message::Connected(_) => next == self && task == Task::Done(
                Message::<DB>::Error("Connected message should have been handled higher"),
            ),
        }
    }

    pub fn update<DB>(&mut self, msg: Message<DB>) -> (r: Task<Message<DB>>)
        ensures
            old(self).step(msg, *final(self), r),
    {
        match msg {
            Message::DbNameChange(name) => {
                self.dbname = Some(name);
                Task::Nothing
            },
            Message::UsernameInput(name) => {
                self.username = Some(name);
                Task::Nothing
            },
            Message::PasswordInput(password) => {
                self.password = Some(password);
                Task::Nothing
            },
            Message::HostInput(host) => {
                self.host = Some(host);
                Task::Nothing
            },
            Message::PortInput(port) => {
                self.port = Some(port);
                Task::Nothing
            },
            Message::Start => {
                let username = match &self.username {
                    Some(u) => u.clone(),
                    None => {
                        return Task::Done(Message::Error("No username provided"));
                    },
                };
                let password = match &self.password {
                    Some(p) => p.clone(),
                    None => {
                        return Task::Done(Message::Error("No password provided"));
                    },
                };
                let host = match &self.host {
                    Some(h) => h.clone(),
                    None => {
                        return Task::Done(Message::Error("No host provided"));
                    },
                };
                let dbname = match &self.dbname {
                    Some(d) => d.clone(),
                    None => {
                        return Task::Done(Message::Error("No dbname provided"));
                    },
                };
                let port = match self.port {
                    Some(p) => p,
                    None => {
                        return Task::Done(Message::Error("No port provided"));
                    },
                };
                self.errmsg = None;
                Task::Connect(
                    Credentials { username, password, host, port, dbname },
                    Message::Error("Couldn't connect to DB"),
                )
            },
            Message::Error(err) => {
                self.errmsg = Some(err);
                Task::Nothing
            },
            Message::Connected(_) => Task::Done(
                Message::Error("Connected message should have been handled higher"),
            ),
        }
    }
}

} // verus!

use vstd::prelude::*;

verus! {

/// A database operation that a screen asks the runtime to perform.
#[derive(Clone, PartialEq, Eq, Debug)]
pub enum Job {
    ListPublications,
    ListUnpublishedTables { publication: String },
    AddTable { publication: String, table: String },
    RenamePublication { publication: String, new_name: String },
    ListEnabledSubscriptions,
    ListSubscriptions,
    DisableSubscription { subscription: String },
    RenameSubscription { subscription: String, new_name: String },
}

/// A job together with the message to deliver when it succeeds and when it fails.
///
/// For a job that fetches rows, `on_success` holds an empty list that the
/// fetched rows replace (see [`Rows::with_rows`]).
#[derive(Clone, PartialEq, Eq, Debug)]
pub struct Request<M> {
    pub job: Job,
    pub on_success: M,
    pub on_failure: M,
}

/// What is needed to open a connection.
#[derive(Clone, PartialEq, Eq)]
pub struct Credentials {
    pub username: String,
    pub password: String,
    pub host: String,
    pub port: u16,
    pub dbname: String,
}

/// What the runtime must do after a message was handled.
#[derive(Clone, PartialEq, Eq)]
pub enum Task<M> {
    /// Nothing.
    Nothing,
    /// Deliver this message next.
    Done(M),
    /// Run one request.
    Perform(Request<M>),
    /// Run the first request, then the second.
    Chain(Request<M>, Request<M>),
    /// Open a connection; on failure deliver the message, on success deliver
    /// the new connection as `root::Message::connected` builds it.
    Connect(Credentials, M),
    /// Move the keyboard focus forward.
    FocusNext,
    /// Move the keyboard focus backward.
    FocusPrevious,
}

/// The result of running a job.
#[derive(Clone, PartialEq, Eq, Debug)]
pub enum Outcome {
    Rows(Vec<String>),
    Completed,
    Failed,
}

/// Messages into which fetched rows can be placed.
pub trait Rows: Sized {
    /// The message with its list of names replaced by `rows`; a message that
    /// carries no list is returned unchanged.
    spec fn filled(self, rows: Vec<String>) -> Self;

    fn with_rows(self, rows: Vec<String>) -> (r: Self)
        ensures
            r == self.filled(rows),
    ;
}

/// A message type that embeds the messages of a sub-screen.
pub trait Wrap<C>: Sized {
    spec fn wrapped(c: C) -> Self;

    fn wrap(c: C) -> (r: Self)
        ensures
            r == Self::wrapped(c),
    ;
}

impl<M> Request<M> {
    pub open spec fn lifted<P: Wrap<M>>(self) -> Request<P> {
        Request { job: self.job, on_success: P::wrapped(self.on_success), on_failure: P::wrapped(self.on_failure) }
    }

    /// The request with its messages embedded into the parent screen's messages.
    pub fn lift<P: Wrap<M>>(self) -> (r: Request<P>)
        ensures
            r == self.lifted::<P>(),
    {
        Request { job: self.job, on_success: P::wrap(self.on_success), on_failure: P::wrap(self.on_failure) }
    }
}

impl<M: Rows> Request<M> {
    pub open spec fn resolved(self, outcome: Outcome) -> M {
        match outcome {
            Outcome::Rows(rows) => self.on_success.filled(rows),
            Outcome::Completed => self.on_success,
            Outcome::Failed => self.on_failure,
        }
    }

    /// The message to deliver once the job has run.
    pub fn resolve(self, outcome: Outcome) -> (r: M)
        ensures
            r == self.resolved(outcome),
    {
        match outcome {
            Outcome::Rows(rows) => self.on_success.with_rows(rows),
            Outcome::Completed => self.on_success,
            Outcome::Failed => self.on_failure,
        }
    }
}

impl<M> Task<M> {
    pub open spec fn lifted<P: Wrap<M>>(self) -> Task<P> {
        match self {
            Task::Nothing => Task::Nothing,
            Task::Done(m) => Task::Done(P::wrapped(m)),
            Task::Perform(r) => Task::Perform(r.lifted::<P>()),
            Task::Chain(a, b) => Task::Chain(a.lifted::<P>(), b.lifted::<P>()),
            Task::Connect(c, m) => Task::Connect(c, P::wrapped(m)),
            Task::FocusNext => Task::FocusNext,
            Task::FocusPrevious => Task::FocusPrevious,
        }
    }

    /// The task with its messages embedded into the parent screen's messages.
    pub fn lift<P: Wrap<M>>(self) -> (r: Task<P>)
        ensures
            r == self.lifted::<P>(),
    {
        match self {
            Task::Nothing => Task::Nothing,
            Task::Done(m) => Task::Done(P::wrap(m)),
            Task::Perform(r) => Task::Perform(r.lift::<P>()),
            Task::Chain(a, b) => Task::Chain(a.lift::<P>(), b.lift::<P>()),
            Task::Connect(c, m) => Task::Connect(c, P::wrap(m)),
            Task::FocusNext => Task::FocusNext,
            Task::FocusPrevious => Task::FocusPrevious,
        }
    }
}

} // verus!

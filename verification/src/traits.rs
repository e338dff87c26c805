use vstd::prelude::*;

use crate::task::Task;

verus! {

/// A handle on a database connection that can be shared between screens.
///
/// Sharing a handle yields a handle on the same connection.
pub trait AsClient: Sized {
    fn share(&self) -> (r: Self)
        ensures
            r == *self,
    ;
}

/// `Arc::clone`: makes another pointer to the same allocation. The contract
/// claims the result equals the argument, which is how Verus reads two `Arc`s
/// that point to the same value.
#[verifier::external_body]
fn arc_share<T>(a: &std::sync::Arc<T>) -> (r: std::sync::Arc<T>)
    ensures
        r == *a,
{
    std::sync::Arc::clone(a)
}

impl<T> AsClient for std::sync::Arc<T> {
    fn share(&self) -> (r: Self) {
        arc_share(self)
    }
}

/// A screen that knows which connection it works on.
pub trait GetDb {
    type DB: AsClient;

    /// The connection the screen works on.
    spec fn db(&self) -> Self::DB;

    fn get_db(&self) -> (r: Self::DB)
        ensures
            r == self.db(),
    ;
}

/// A screen driven by messages.
pub trait Viewable {
    type Message;

    /// The message that leaves the innermost open sub-screen.
    fn back(&self) -> Self::Message;

    /// Handles one message and returns what the runtime must do next.
    fn update(&mut self, msg: Self::Message) -> Task<Self::Message>;
}

} // verus!

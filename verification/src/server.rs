//! The server object that owns the monitor controller.
use vstd::prelude::*;
use vstd::string::*;
use crate::text::{cat, has_prefix};

verus! {

/// The errors of the server object.
#[derive(Debug)]
pub enum OpenDogError {
    /// A thread panicked while it held the controller.
    LockPoisoned(String),
}

/// The server: one monitor controller, reached only through an exclusive
/// borrow of the server, so that it is never in use twice at once.
#[verifier::reject_recursive_types(C)]
pub struct OpenDogServer<C> {
    pub inner: C,
}

impl<C> OpenDogServer<C> {
    /// A server around the controller, or the error that creating the
    /// controller gave.
    pub fn new<E>(controller: Result<C, E>) -> (r: Result<Self, E>)
        ensures
            r is Ok <==> controller is Ok,
            r matches Ok(s) ==> controller == Ok::<C, E>(s.inner),
            r matches Err(e) ==> controller == Err::<C, E>(e),
    {
        match controller {
            Ok(c) => Ok(OpenDogServer { inner: c }),
            Err(e) => Err(e),
        }
    }

    /// The controller, reached through an exclusive borrow of the server.
    /// The borrow of `self` lasts as long as the returned reference, so the
    /// controller cannot be reached a second time while it is in use; no
    /// lock is taken, so none can be found poisoned, and the controller is
    /// always handed out. What is written through the reference is what
    /// the server holds afterwards.
    pub fn lock_inner(&mut self) -> (r: Result<&mut C, OpenDogError>)
        ensures
            r is Ok,
            r matches Ok(c) ==> *c == old(self).inner && final(self).inner == *final(c),
    {
        Ok(&mut self.inner)
    }
}

/// The text that names the controller in a poisoned-lock error.
pub open spec fn poisoned_controller_message(cause: Seq<char>) -> Seq<char> {
    "OpenDogServer controller: "@ + cause
}

/// What becomes of the outcome of locking a shared controller: the value
/// is handed on; a poison error becomes `LockPoisoned`, its text prefixed
/// by the name of the controller.
pub fn lock_outcome<G>(outcome: Result<G, String>) -> (r: Result<G, OpenDogError>)
    ensures
        outcome matches Ok(g) ==> r == Ok::<G, OpenDogError>(g),
        outcome matches Err(cause) ==> r matches Err(OpenDogError::LockPoisoned(m))
            && m@ == poisoned_controller_message(cause@),
        r matches Err(e) ==> e matches OpenDogError::LockPoisoned(m)
            && has_prefix(m@, "OpenDogServer controller: "@),
{
    proof {
        reveal_strlit("OpenDogServer controller: ");
    }
    match outcome {
        Ok(value) => Ok(value),
        Err(cause) => {
            let message = cat("OpenDogServer controller: ", cause.as_str());
            assert(message@.subrange(0, 26) =~= "OpenDogServer controller: "@);
            Err(OpenDogError::LockPoisoned(message))
        },
    }
}

} // verus!

//! Questions the app has asked and is waiting to have answered.
//!
//! The app asks the page for a ticket by a script, and the page answers by
//! an event: each question carries a number, and its answer the same number,
//! so an answer finds the question it is for. An answer the app is not
//! waiting for -- one that came too late, or twice -- is dropped.

use std::collections::HashMap;

use vstd::prelude::*;

verus! {

broadcast use vstd::std_specs::hash::group_hash_axioms;

/// What waits for each question's answer, by the question's number.
pub struct Waiting<R> {
    replies: HashMap<u64, R>,
}

impl<R> View for Waiting<R> {
    type V = Map<u64, R>;

    closed spec fn view(&self) -> Map<u64, R> {
        self.replies@
    }
}

impl<R> Waiting<R> {
    /// Waiting for nothing.
    pub fn new() -> (waiting: Waiting<R>)
        ensures
            waiting@ == Map::<u64, R>::empty(),
    {
        Waiting { replies: HashMap::new() }
    }

    /// Waits for question `id`'s answer, to hand it to `reply`.
    pub fn wait(&mut self, id: u64, reply: R)
        ensures
            final(self)@ == old(self)@.insert(id, reply),
    {
        self.replies.insert(id, reply);
    }

    /// What waits for question `id`'s answer, which no longer waits: none
    /// when nothing waits for it.
    pub fn answered(&mut self, id: u64) -> (reply: Option<R>)
        ensures
            final(self)@ == old(self)@.remove(id),
            match reply {
                Some(r) => old(self)@.contains_key(id) && r == old(self)@[id],
                None => !old(self)@.contains_key(id),
            },
    {
        self.replies.remove(&id)
    }
}

/// Each answer reaches the question it names, and only once: once it is
/// taken, a second answer of the same number finds nothing waiting, and
/// every other question still waits as it did.
pub proof fn an_answer_is_taken_once<R>(waiting: Map<u64, R>, id: u64, other: u64)
    requires
        other != id,
    ensures
        !waiting.remove(id).contains_key(id),
        waiting.remove(id).contains_key(other) == waiting.contains_key(other),
        waiting.contains_key(other) ==> waiting.remove(id)[other] == waiting[other],
{
}

} // verus!

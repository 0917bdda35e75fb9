//! The requests for permission that wait for an answer.

use vstd::hash_map::StringHashMap;
use vstd::prelude::*;

verus! {

/// A request for permission that waits for an answer.
#[derive(Debug, Clone, PartialEq)]
pub struct PendingPermission {
    pub thread_id: String,
    pub request_id: String,
}

/// The waiting requests. To each request belongs the thread that it came from.
pub struct PendingPermissions {
    threads: StringHashMap<String>,
}

impl PendingPermissions {
    /// The thread of each waiting request, by the request's id.
    pub closed spec fn view(self) -> Map<Seq<char>, Seq<char>> {
        self.threads@.map_values(|thread: String| thread@)
    }

    /// No request waits.
    pub fn new() -> (r: PendingPermissions)
        ensures
            r@ == Map::<Seq<char>, Seq<char>>::empty(),
    {
        let r = PendingPermissions { threads: StringHashMap::new() };
        assert(r@ =~= Map::<Seq<char>, Seq<char>>::empty());
        r
    }

    /// Notes a request, in place of an earlier one with the same id.
    pub fn insert(&mut self, request: PendingPermission)
        ensures
            final(self)@ == old(self)@.insert(request.request_id@, request.thread_id@),
    {
        self.threads.insert(request.request_id, request.thread_id);
        assert(self@ =~= old(self)@.insert(request.request_id@, request.thread_id@));
    }

    /// Takes a request out, if it waits.
    pub fn remove(&mut self, request_id: &str) -> (r: Option<PendingPermission>)
        ensures
            final(self)@ == old(self)@.remove(request_id@),
            match r {
                Some(request) => {
                    &&& old(self)@.contains_key(request_id@)
                    &&& request.request_id@ == request_id@
                    &&& request.thread_id@ == old(self)@[request_id@]
                },
                None => !old(self)@.contains_key(request_id@),
            },
    {
        let r = match self.threads.get(request_id) {
            Some(thread) => Some(
                PendingPermission { thread_id: thread.clone(), request_id: request_id.to_string() },
            ),
            None => None,
        };
        self.threads.remove(request_id);
        assert(self@ =~= old(self)@.remove(request_id@));
        r
    }

    /// Whether a request waits.
    pub fn contains(&self, request_id: &str) -> (r: bool)
        ensures
            r == self@.contains_key(request_id@),
    {
        self.threads.contains_key(request_id)
    }
}

} // verus!

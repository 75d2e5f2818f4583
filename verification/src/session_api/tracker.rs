//! The table of task results of the session-style API.

use vstd::prelude::*;
use vstd::hash_map::StringHashMap;
use crate::session_api::types::{LocalAgentApiError, SendMessageResponse};

verus! {

/// The results of tasks, by task id.
pub struct TaskResultTracker {
    results: StringHashMap<SendMessageResponse>,
    ids: Vec<String>,
}

/// No two entries of `ids` are the same text.
pub open spec fn ids_distinct(ids: Seq<String>) -> bool {
    forall|i: int, j: int| 0 <= i < ids.len() && 0 <= j < ids.len() && i != j ==> #[trigger] ids[i]@ != #[trigger] ids[j]@
}

/// The message of the error for a task id that has no result.
pub open spec fn not_found_message(task_id: Seq<char>) -> Seq<char> {
    "Task result not found for ID: "@ + task_id
}

impl View for TaskResultTracker {
    type V = Map<Seq<char>, SendMessageResponse>;

    closed spec fn view(&self) -> Map<Seq<char>, SendMessageResponse> {
        self.results@
    }
}

impl TaskResultTracker {
    #[verifier::type_invariant]
    closed spec fn ids_match(&self) -> bool {
        &&& ids_distinct(self.ids@)
        &&& forall|i: int| 0 <= i < self.ids@.len() ==> self.results@.contains_key(#[trigger] self.ids@[i]@)
        &&& forall|k: Seq<char>|
            #[trigger] self.results@.contains_key(k) ==> exists|i: int| 0 <= i < self.ids@.len() && self.ids@[i]@ == k
    }

    /// An empty table.
    pub fn new() -> (r: Self)
        ensures
            r@ == Map::<Seq<char>, SendMessageResponse>::empty(),
    {
        TaskResultTracker { results: StringHashMap::new(), ids: Vec::new() }
    }

    fn index_of(&self, task_id: &str) -> (r: Option<usize>)
        ensures
            match r {
                Some(i) => i < self.ids@.len() && self.ids@[i as int]@ == task_id@,
                None => forall|i: int| 0 <= i < self.ids@.len() ==> self.ids@[i]@ != task_id@,
            },
    {
        let n = self.ids.len();
        let mut i: usize = 0;
        while i < n
            invariant
                n == self.ids@.len(),
                0 <= i <= n,
                forall|j: int| 0 <= j < i ==> self.ids@[j]@ != task_id@,
            decreases n - i,
        {
            if crate::text::str_eq(self.ids[i].as_str(), task_id) {
                return Some(i);
            }
            i = i + 1;
        }
        None
    }

    /// Stores the result of a task, in place of any earlier one.
    pub fn store_result(&mut self, task_id: String, result: SendMessageResponse)
        ensures
            final(self)@ == old(self)@.insert(task_id@, result),
    {
        proof {
            use_type_invariant(&*self);
        }
        let known = self.index_of(task_id.as_str());
        let mut taken = TaskResultTracker::new();
        std::mem::swap(&mut taken, self);
        let TaskResultTracker { results: mut results, ids: mut ids } = taken;
        let ghost old_ids = ids@;
        let ghost old_results = results@;
        if known.is_none() {
            ids.push(task_id.clone());
        }
        results.insert(task_id, result);
        proof {
            assert forall|k: Seq<char>| #[trigger] results@.contains_key(k) implies exists|i: int|
                0 <= i < ids@.len() && ids@[i]@ == k by {
                if old_results.contains_key(k) {
                    let i = choose|i: int| 0 <= i < old_ids.len() && old_ids[i]@ == k;
                    assert(ids@[i]@ == k);
                } else {
                    assert(ids@[ids@.len() - 1]@ == k);
                }
            }
        }
        *self = TaskResultTracker { results, ids };
    }

    /// The result of a task, or a `SessionNotFound` error naming the task.
    pub fn get_result(&self, task_id: &str) -> (r: Result<SendMessageResponse, LocalAgentApiError>)
        ensures
            self@.contains_key(task_id@) ==> r == Ok::<SendMessageResponse, LocalAgentApiError>(self@[task_id@]),
            !self@.contains_key(task_id@) ==> (r matches Err(LocalAgentApiError::SessionNotFound(m))
                && m@ == not_found_message(task_id@)),
    {
        match self.results.get(task_id) {
            Some(v) => Ok(v.clone()),
            None => Err(LocalAgentApiError::SessionNotFound(
                String::from_str("Task result not found for ID: ").concat(task_id),
            )),
        }
    }

    /// Removes the result of a task and hands it back, if there was one.
    pub fn remove_result(&mut self, task_id: &str) -> (r: Option<SendMessageResponse>)
        ensures
            final(self)@ == old(self)@.remove(task_id@),
            old(self)@.contains_key(task_id@) ==> r == Some(old(self)@[task_id@]),
            !old(self)@.contains_key(task_id@) ==> r is None,
    {
        proof {
            use_type_invariant(&*self);
        }
        let found = match self.results.get(task_id) {
            Some(v) => Some(v.clone()),
            None => None,
        };
        let known = self.index_of(task_id);
        let mut taken = TaskResultTracker::new();
        std::mem::swap(&mut taken, self);
        let TaskResultTracker { results: mut results, ids: mut ids } = taken;
        let ghost old_ids = ids@;
        let ghost old_results = results@;
        if let Some(i) = known {
            ids.remove(i);
            proof {
                assert forall|a: int, b: int| 0 <= a < ids@.len() && 0 <= b < ids@.len() && a != b implies
                    #[trigger] ids@[a]@ != #[trigger] ids@[b]@ by {
                    let a0 = if a < i { a } else { a + 1 };
                    let b0 = if b < i { b } else { b + 1 };
                    assert(ids@[a] == old_ids[a0]);
                    assert(ids@[b] == old_ids[b0]);
                }
            }
        }
        results.remove(task_id);
        proof {
            assert forall|j: int| 0 <= j < ids@.len() implies results@.contains_key(#[trigger] ids@[j]@) by {
                if let Some(i) = known {
                    let j0 = if j < i { j } else { j + 1 };
                    assert(ids@[j] == old_ids[j0]);
                    assert(j0 != i);
                }
            }
            assert forall|k: Seq<char>| #[trigger] results@.contains_key(k) implies exists|j: int|
                0 <= j < ids@.len() && ids@[j]@ == k by {
                let j0 = choose|j: int| 0 <= j < old_ids.len() && old_ids[j]@ == k;
                if let Some(i) = known {
                    assert(j0 != i);
                    let j = if j0 < i { j0 } else { j0 - 1 };
                    assert(ids@[j] == old_ids[j0]);
                } else {
                    assert(ids@[j0] == old_ids[j0]);
                }
            }
        }
        *self = TaskResultTracker { results, ids };
        found
    }

    /// Removes every result.
    pub fn clear(&mut self)
        ensures
            final(self)@ == Map::<Seq<char>, SendMessageResponse>::empty(),
    {
        *self = TaskResultTracker::new();
    }

    /// The number of stored results.
    pub fn len(&self) -> (r: usize)
        ensures
            r == self@.len(),
    {
        self.results.len()
    }

    /// Whether no result is stored.
    pub fn is_empty(&self) -> (r: bool)
        ensures
            r == (self@.len() == 0),
    {
        self.results.len() == 0
    }
}

impl Clone for TaskResultTracker {
    /// A table with the same results. It is a copy: a result stored in one table
    /// afterwards is not seen in the other.
    fn clone(&self) -> (r: Self)
        ensures
            r@ == self@,
    {
        proof {
            use_type_invariant(self);
        }
        let mut copy = TaskResultTracker::new();
        let n = self.ids.len();
        let mut i: usize = 0;
        while i < n
            invariant
                n == self.ids@.len(),
                0 <= i <= n,
                ids_distinct(self.ids@),
                forall|j: int| 0 <= j < self.ids@.len() ==> self.results@.contains_key(#[trigger] self.ids@[j]@),
                forall|k: Seq<char>|
                    copy@.contains_key(k) <==> exists|j: int| 0 <= j < i && self.ids@[j]@ == k,
                forall|k: Seq<char>| #[trigger] copy@.contains_key(k) ==> copy@[k] == self.results@[k],
            decreases n - i,
        {
            let id = &self.ids[i];
            assert(self.results@.contains_key(id@));
            let value = match self.results.get(id.as_str()) {
                Some(v) => v.clone(),
                None => {
                    assert(false);
                    return copy;
                },
            };
            copy.store_result(id.clone(), value);
            proof {
                assert forall|k: Seq<char>| copy@.contains_key(k) <==> exists|j: int| 0 <= j < i + 1 && self.ids@[j]@ == k by {
                    if k == self.ids@[i as int]@ {
                        assert(self.ids@[i as int]@ == k);
                    }
                }
            }
            i = i + 1;
        }
        proof {
            assert forall|k: Seq<char>| copy@.contains_key(k) <==> self.results@.contains_key(k) by {
                if self.results@.contains_key(k) {
                    let j = choose|j: int| 0 <= j < self.ids@.len() && self.ids@[j]@ == k;
                    assert(self.ids@[j]@ == k);
                }
            }
            assert(copy@ =~= self@);
        }
        copy
    }
}

} // verus!

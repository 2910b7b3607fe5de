//! The registry of uploads in progress, keyed by upload id.

use vstd::prelude::*;
use crate::upload::UploadRequest;

verus! {

broadcast use vstd::seq_lib::group_to_multiset_ensures;

/// No two requests share an upload id.
pub open spec fn ids_unique(reqs: Seq<UploadRequest>) -> bool {
    forall|i: int, j: int|
        0 <= i < reqs.len() && 0 <= j < reqs.len() && i != j ==> #[trigger] reqs[i].upload.id@
            != #[trigger] reqs[j].upload.id@
}

/// Some request has the given upload id.
pub open spec fn has_request(reqs: Seq<UploadRequest>, id: Seq<char>) -> bool {
    exists|i: int| 0 <= i < reqs.len() && #[trigger] reqs[i].upload.id@ == id
}

/// The position of the request with the given upload id.
pub open spec fn index_of(reqs: Seq<UploadRequest>, id: Seq<char>) -> int
    recommends
        has_request(reqs, id),
{
    choose|i: int| 0 <= i < reqs.len() && #[trigger] reqs[i].upload.id@ == id
}

/// The request with the given upload id, if one is held.
pub open spec fn lookup(reqs: Seq<UploadRequest>, id: Seq<char>) -> Option<UploadRequest> {
    if has_request(reqs, id) {
        Some(reqs[index_of(reqs, id)])
    } else {
        None
    }
}

/// The requests after adding one: unchanged when its upload id is held
/// already, else the request is appended.
pub open spec fn added(reqs: Seq<UploadRequest>, r: UploadRequest) -> Seq<UploadRequest> {
    if has_request(reqs, r.upload.id@) {
        reqs
    } else {
        reqs.push(r)
    }
}

/// The requests after replacing the one with the same upload id (unchanged
/// when there is none).
pub open spec fn updated(reqs: Seq<UploadRequest>, r: UploadRequest) -> Seq<UploadRequest> {
    if has_request(reqs, r.upload.id@) {
        reqs.update(index_of(reqs, r.upload.id@), r)
    } else {
        reqs
    }
}

/// The requests after removing the one with the given upload id (unchanged
/// when there is none).
pub open spec fn deleted(reqs: Seq<UploadRequest>, id: Seq<char>) -> Seq<UploadRequest> {
    if has_request(reqs, id) {
        reqs.remove(index_of(reqs, id))
    } else {
        reqs
    }
}

/// With unique ids, the request found at a position is the one `index_of`
/// names.
pub proof fn lemma_index_of_unique(reqs: Seq<UploadRequest>, i: int)
    requires
        ids_unique(reqs),
        0 <= i < reqs.len(),
    ensures
        has_request(reqs, reqs[i].upload.id@),
        index_of(reqs, reqs[i].upload.id@) == i,
{
    let id = reqs[i].upload.id@;
    assert(reqs[i].upload.id@ == id);
    let j = index_of(reqs, id);
    if j != i {
        assert(reqs[j].upload.id@ != reqs[i].upload.id@);
    }
}

/// Newest first: no request comes before one created later.
pub open spec fn newest_first(reqs: Seq<UploadRequest>) -> bool {
    forall|i: int, j: int|
        0 <= i < j < reqs.len() ==> #[trigger] reqs[i].upload.created_at
            >= #[trigger] reqs[j].upload.created_at
}

/// The same requests in the same number, in the newest-first order.
pub open spec fn listed_newest_first(listed: Seq<UploadRequest>, reqs: Seq<UploadRequest>) -> bool {
    &&& newest_first(listed)
    &&& listed.to_multiset() == reqs.to_multiset()
}

/// The uploads that the client is sending or has sent in this session.
#[derive(Debug)]
pub struct UploadsState {
    in_progress: Vec<UploadRequest>,
}

impl UploadsState {
    /// The requests held, in the order in which they were added.
    pub closed spec fn requests(&self) -> Seq<UploadRequest> {
        self.in_progress@
    }

    /// Every upload id is held at most once.
    pub open spec fn wf(&self) -> bool {
        ids_unique(self.requests())
    }

    /// An empty registry.
    pub fn new() -> (s: UploadsState)
        ensures
            s.wf(),
            s.requests() == Seq::<UploadRequest>::empty(),
    {
        UploadsState { in_progress: Vec::new() }
    }

    fn find_index(&self, id: &String) -> (r: Option<usize>)
        ensures
            match r {
                Some(i) => i < self.requests().len() && self.requests()[i as int].upload.id@ == id@,
                None => !has_request(self.requests(), id@),
            },
    {
        let mut i: usize = 0;
        while i < self.in_progress.len()
            invariant
                i <= self.in_progress.len(),
                forall|k: int| 0 <= k < i ==> self.in_progress@[k].upload.id@ != id@,
            decreases self.in_progress.len() - i,
        {
            if self.in_progress[i].upload.id == *id {
                return Some(i);
            }
            i = i + 1;
        }
        None
    }

    /// Adds a request unless one with the same upload id is held already, and
    /// lists all requests newest first.
    pub fn add_request(&mut self, upload_request: UploadRequest) -> (listed: Vec<UploadRequest>)
        requires
            old(self).wf(),
        ensures
            final(self).wf(),
            final(self).requests() == added(old(self).requests(), upload_request),
            listed_newest_first(listed@, final(self).requests()),
    {
        let found = self.find_index(&upload_request.upload.id);
        if found.is_none() {
            let ghost before = self.in_progress@;
            self.in_progress.push(upload_request);
            assert forall|i: int, j: int|
                0 <= i < self.in_progress@.len() && 0 <= j < self.in_progress@.len() && i != j
                implies #[trigger] self.in_progress@[i].upload.id@
                != #[trigger] self.in_progress@[j].upload.id@ by {
                if i == before.len() {
                    assert(self.in_progress@[j] == before[j]);
                } else if j == before.len() {
                    assert(self.in_progress@[i] == before[i]);
                }
            }
        }
        self.get_all_in_progress()
    }

    /// Replaces the request with the same upload id, if one is held.
    pub fn update_request(&mut self, upload_request: UploadRequest)
        requires
            old(self).wf(),
        ensures
            final(self).wf(),
            final(self).requests() == updated(old(self).requests(), upload_request),
    {
        let found = self.find_index(&upload_request.upload.id);
        match found {
            Some(i) => {
                let ghost before = self.in_progress@;
                proof {
                    lemma_index_of_unique(before, i as int);
                }
                self.in_progress.set(i, upload_request);
                assert forall|i2: int|
                    0 <= i2 < before.len() && #[trigger] before[i2].upload.id@
                        == self.in_progress@[i as int].upload.id@ implies i2 == i by {
                    if i2 != i {
                        assert(before[i2].upload.id@ != before[i as int].upload.id@);
                    }
                }
                assert forall|a: int, b: int|
                    0 <= a < self.in_progress@.len() && 0 <= b < self.in_progress@.len() && a != b
                    implies #[trigger] self.in_progress@[a].upload.id@
                    != #[trigger] self.in_progress@[b].upload.id@ by {
                    if a != i && b != i {
                        assert(self.in_progress@[a] == before[a]);
                        assert(self.in_progress@[b] == before[b]);
                    } else if a == i {
                        assert(self.in_progress@[b] == before[b]);
                        assert(before[a].upload.id@ != before[b].upload.id@);
                    } else {
                        assert(self.in_progress@[a] == before[a]);
                        assert(before[a].upload.id@ != before[b].upload.id@);
                    }
                }
            },
            None => {},
        }
    }

    /// The request with the given upload id, if one is held.
    pub fn get_request(&self, id: String) -> (r: Option<UploadRequest>)
        requires
            self.wf(),
        ensures
            r == lookup(self.requests(), id@),
    {
        match self.find_index(&id) {
            Some(i) => {
                proof {
                    lemma_index_of_unique(self.in_progress@, i as int);
                }
                Some(self.in_progress[i].clone())
            },
            None => None,
        }
    }

    /// Removes the request with the given upload id, if one is held, and
    /// lists the rest newest first.
    pub fn delete_request(&mut self, id: String) -> (listed: Vec<UploadRequest>)
        requires
            old(self).wf(),
        ensures
            final(self).wf(),
            final(self).requests() == deleted(old(self).requests(), id@),
            !has_request(final(self).requests(), id@),
            listed_newest_first(listed@, final(self).requests()),
    {
        match self.find_index(&id) {
            Some(i) => {
                let ghost before = self.in_progress@;
                proof {
                    lemma_index_of_unique(before, i as int);
                }
                self.in_progress.remove(i);
                assert forall|i2: int|
                    0 <= i2 < before.len() && #[trigger] before[i2].upload.id@ == id@ implies i2
                    == i by {
                    if i2 != i {
                        assert(before[i2].upload.id@ != before[i as int].upload.id@);
                    }
                }
                assert forall|a: int, b: int|
                    0 <= a < self.in_progress@.len() && 0 <= b < self.in_progress@.len() && a != b
                    implies #[trigger] self.in_progress@[a].upload.id@
                    != #[trigger] self.in_progress@[b].upload.id@ by {
                    let a0 = if a < i { a } else { a + 1 };
                    let b0 = if b < i { b } else { b + 1 };
                    assert(self.in_progress@[a] == before[a0]);
                    assert(self.in_progress@[b] == before[b0]);
                }
                assert forall|k: int| 0 <= k < self.in_progress@.len() implies #[trigger] self.in_progress@[k].upload.id@ != id@ by {
                    let k0 = if k < i { k } else { k + 1 };
                    assert(self.in_progress@[k] == before[k0]);
                    assert(before[k0].upload.id@ != before[i as int].upload.id@);
                }
            },
            None => {},
        }
        self.get_all_in_progress()
    }

    /// All requests held, newest first.
    pub fn get_all_in_progress(&self) -> (listed: Vec<UploadRequest>)
        ensures
            listed_newest_first(listed@, self.requests()),
    {
        let mut listed: Vec<UploadRequest> = Vec::new();
        let mut k: usize = 0;
        while k < self.in_progress.len()
            invariant
                k <= self.in_progress.len(),
                newest_first(listed@),
                listed@.to_multiset() == self.in_progress@.take(k as int).to_multiset(),
            decreases self.in_progress.len() - k,
        {
            let created_at = self.in_progress[k].upload.created_at;
            let mut p: usize = 0;
            while p < listed.len() && listed[p].upload.created_at > created_at
                invariant
                    p <= listed.len(),
                    forall|q: int| 0 <= q < p ==> #[trigger] listed@[q].upload.created_at > created_at,
                decreases listed.len() - p,
            {
                p = p + 1;
            }
            let ghost before = listed@;
            let item = self.in_progress[k].clone();
            listed.insert(p, item);
            assert forall|i: int, j: int|
                0 <= i < j < listed@.len() implies #[trigger] listed@[i].upload.created_at
                >= #[trigger] listed@[j].upload.created_at by {
                if j < p {
                    assert(listed@[i] == before[i] && listed@[j] == before[j]);
                } else if j == p {
                    assert(listed@[i] == before[i]);
                } else if i < p {
                    assert(listed@[i] == before[i] && listed@[j] == before[j - 1]);
                } else if i == p {
                    assert(listed@[j] == before[j - 1]);
                    assert(before[p as int].upload.created_at <= created_at);
                } else {
                    assert(listed@[i] == before[i - 1] && listed@[j] == before[j - 1]);
                }
            }
            assert(self.in_progress@.take(k + 1) == self.in_progress@.take(k as int).push(
                self.in_progress@[k as int],
            ));
            k = k + 1;
        }
        assert(self.in_progress@.take(k as int) == self.in_progress@);
        listed
    }
}

} // verus!

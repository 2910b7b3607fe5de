//! The cancellation tokens of the transfers under way, one per upload id.

use vstd::prelude::*;
use tokio_util::sync::CancellationToken;
use crate::text::str_eq;

verus! {

#[verifier::external_type_specification]
#[verifier::external_body]
pub struct ExCancellationToken(CancellationToken);

/// Some entry is for the given upload id.
pub open spec fn has_entry(entries: Seq<(String, CancellationToken)>, k: Seq<char>) -> bool {
    exists|i: int| 0 <= i < entries.len() && #[trigger] entries[i].0@ == k
}

/// The tokens of the transfers under way, by upload id.
pub struct UploadCancellations {
    entries: Vec<(String, CancellationToken)>,
    tokens: Ghost<Map<Seq<char>, CancellationToken>>,
    signaled: Ghost<Set<Seq<char>>>,
}

impl UploadCancellations {
    /// The token held for each upload id.
    pub closed spec fn tokens(&self) -> Map<Seq<char>, CancellationToken> {
        self.tokens@
    }

    /// The upload ids whose transfer this registry has told to stop (their
    /// token was cancelled).
    pub closed spec fn signaled(&self) -> Set<Seq<char>> {
        self.signaled@
    }

    /// The entries hold exactly the tokens of the map, each id once.
    pub closed spec fn wf(&self) -> bool {
        &&& forall|i: int|
            #![trigger self.entries@[i]]
            0 <= i < self.entries@.len() ==> self.tokens@.contains_key(self.entries@[i].0@)
                && self.tokens@[self.entries@[i].0@] == self.entries@[i].1
        &&& forall|k: Seq<char>| #[trigger] self.tokens@.contains_key(k) ==> has_entry(self.entries@, k)
        &&& forall|i: int, j: int|
            0 <= i < j < self.entries@.len() ==> #[trigger] self.entries@[i].0@
                != #[trigger] self.entries@[j].0@
    }

    /// No token held.
    pub fn new() -> (c: UploadCancellations)
        ensures
            c.wf(),
            c.tokens() == Map::<Seq<char>, CancellationToken>::empty(),
            c.signaled() == Set::<Seq<char>>::empty(),
    {
        UploadCancellations { entries: Vec::new(), tokens: Ghost(Map::empty()), signaled: Ghost(Set::empty()) }
    }

    /// `CancellationToken::cancel` on the token at a position: the transfer
    /// that holds a clone of it is told to stop. Trusted: the entries and the
    /// token map stay as they are, and the upload id at that position is
    /// recorded as signaled (what `cancel` does to the token's shared state,
    /// shown in tokio-util's source, is what that record stands for).
    #[verifier::external_body]
    fn signal(&mut self, i: usize)
        requires
            i < old(self).entries@.len(),
        ensures
            final(self).entries@ == old(self).entries@,
            final(self).tokens@ == old(self).tokens@,
            final(self).signaled@ == old(self).signaled@.insert(old(self).entries@[i as int].0@),
    {
        self.entries[i].1.cancel();
    }

    /// Where the token of an upload id is kept.
    fn position(&self, id: &str) -> (r: Option<usize>)
        requires
            self.wf(),
        ensures
            match r {
                Some(i) => i < self.entries@.len() && self.entries@[i as int].0@ == id@,
                None => !self.tokens().contains_key(id@),
            },
    {
        let mut i: usize = 0;
        while i < self.entries.len()
            invariant
                i <= self.entries@.len(),
                forall|j: int| 0 <= j < i ==> #[trigger] self.entries@[j].0@ != id@,
            decreases self.entries.len() - i,
        {
            if str_eq(self.entries[i].0.as_str(), id) {
                return Some(i);
            }
            i = i + 1;
        }
        None
    }

    /// Keeps the token of an upload's transfer; a token held for the same
    /// id before is replaced.
    pub fn add(&mut self, id: String, token: CancellationToken)
        requires
            old(self).wf(),
        ensures
            final(self).wf(),
            final(self).tokens() == old(self).tokens().insert(id@, token),
            final(self).signaled() == old(self).signaled(),
    {
        let ghost key = id@;
        let ghost old_entries = self.entries@;
        let ghost new_tokens = self.tokens@.insert(key, token);
        match self.position(id.as_str()) {
            Some(i) => {
                self.entries.set(i, (id, token));
                proof {
                    assert forall|a: int| 0 <= a < self.entries@.len() implies new_tokens.contains_key(
                        #[trigger] self.entries@[a].0@,
                    ) && new_tokens[self.entries@[a].0@] == self.entries@[a].1 by {
                        if a != i {
                            assert(old_entries[a] == self.entries@[a]);
                            assert(old_entries[a].0@ != old_entries[i as int].0@);
                        }
                    }
                    assert forall|a: int, b: int| 0 <= a < b < self.entries@.len() implies #[trigger] self.entries@[a].0@
                        != #[trigger] self.entries@[b].0@ by {
                        assert(old_entries[a].0@ == self.entries@[a].0@);
                        assert(old_entries[b].0@ == self.entries@[b].0@);
                    }
                    assert forall|k: Seq<char>| #[trigger] new_tokens.contains_key(k) implies has_entry(
                        self.entries@,
                        k,
                    ) by {
                        if k == key {
                            assert(self.entries@[i as int].0@ == k);
                        } else {
                            assert(self.tokens@.contains_key(k));
                            let j = choose|j: int| 0 <= j < old_entries.len() && #[trigger] old_entries[j].0@ == k;
                            assert(self.entries@[j].0@ == k);
                        }
                    }
                }
            },
            None => {
                self.entries.push((id, token));
                proof {
                    assert forall|a: int| 0 <= a < self.entries@.len() implies new_tokens.contains_key(
                        #[trigger] self.entries@[a].0@,
                    ) && new_tokens[self.entries@[a].0@] == self.entries@[a].1 by {
                        if a < old_entries.len() {
                            assert(old_entries[a] == self.entries@[a]);
                            assert(self.tokens@.contains_key(old_entries[a].0@));
                        }
                    }
                    assert forall|k: Seq<char>| #[trigger] new_tokens.contains_key(k) implies has_entry(
                        self.entries@,
                        k,
                    ) by {
                        if k == key {
                            assert(self.entries@[old_entries.len() as int].0@ == k);
                        } else {
                            assert(self.tokens@.contains_key(k));
                            let j = choose|j: int| 0 <= j < old_entries.len() && #[trigger] old_entries[j].0@ == k;
                            assert(self.entries@[j].0@ == k);
                        }
                    }
                    assert forall|a: int, b: int| 0 <= a < b < self.entries@.len() implies #[trigger] self.entries@[a].0@
                        != #[trigger] self.entries@[b].0@ by {
                        if b == old_entries.len() {
                            assert(self.tokens@.contains_key(old_entries[a].0@));
                        }
                    }
                }
            },
        }
        self.tokens = Ghost(new_tokens);
    }

    /// Takes out the token of an upload id; tells whether one was held.
    fn take(&mut self, id: &str) -> (r: Option<CancellationToken>)
        requires
            old(self).wf(),
        ensures
            final(self).wf(),
            match r {
                Some(t) => old(self).tokens().contains_key(id@) && old(self).tokens()[id@] == t,
                None => !old(self).tokens().contains_key(id@),
            },
            final(self).tokens() == old(self).tokens().remove(id@),
            final(self).signaled() == old(self).signaled(),
    {
        let ghost key = id@;
        let ghost old_entries = self.entries@;
        let ghost new_tokens = self.tokens@.remove(key);
        match self.position(id) {
            Some(i) => {
                let (_, token) = self.entries.remove(i);
                proof {
                    assert forall|k: Seq<char>| #[trigger] new_tokens.contains_key(k) implies has_entry(
                        self.entries@,
                        k,
                    ) by {
                        let j = choose|j: int| 0 <= j < old_entries.len() && #[trigger] old_entries[j].0@ == k;
                        if j < i {
                            assert(self.entries@[j].0@ == k);
                        } else {
                            assert(j != i);
                            assert(self.entries@[j - 1].0@ == k);
                        }
                    }
                    assert forall|a: int| 0 <= a < self.entries@.len() implies new_tokens.contains_key(
                        #[trigger] self.entries@[a].0@,
                    ) && new_tokens[self.entries@[a].0@] == self.entries@[a].1 by {
                        if a < i {
                            assert(old_entries[a] == self.entries@[a]);
                        } else {
                            assert(old_entries[a + 1] == self.entries@[a]);
                        }
                    }
                    assert forall|a: int, b: int| 0 <= a < b < self.entries@.len() implies #[trigger] self.entries@[a].0@
                        != #[trigger] self.entries@[b].0@ by {
                        let oa = if a < i { a } else { a + 1 };
                        let ob = if b < i { b } else { b + 1 };
                        assert(old_entries[oa] == self.entries@[a]);
                        assert(old_entries[ob] == self.entries@[b]);
                    }
                }
                self.tokens = Ghost(new_tokens);
                Some(token)
            },
            None => {
                proof {
                    assert(new_tokens =~= self.tokens@);
                }
                None
            },
        }
    }

    /// Cancels the transfer of an upload, if one is under way: its token is
    /// signaled, then forgotten. Tells whether there was one.
    pub fn cancel(&mut self, id: &str) -> (found: bool)
        requires
            old(self).wf(),
        ensures
            final(self).wf(),
            found == old(self).tokens().contains_key(id@),
            final(self).tokens() == old(self).tokens().remove(id@),
            final(self).signaled() == if found {
                old(self).signaled().insert(id@)
            } else {
                old(self).signaled()
            },
    {
        match self.position(id) {
            Some(i) => {
                self.signal(i);
                let _ = self.take(id);
                true
            },
            None => false,
        }
    }

    /// Forgets the token of an upload whose transfer ended.
    pub fn remove(&mut self, id: &str)
        requires
            old(self).wf(),
        ensures
            final(self).wf(),
            final(self).tokens() == old(self).tokens().remove(id@),
            final(self).signaled() == old(self).signaled(),
    {
        let _ = self.take(id);
    }
}

} // verus!

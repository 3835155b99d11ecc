//! The work distributor: a first-in-first-out backlog of URLs, loaded once
//! up front, from which each worker atomically claims the next unclaimed
//! URL. The mutual exclusion around it lives outside the library; the
//! claiming logic here guarantees that no URL is skipped or duplicated.

use vstd::prelude::*;

verus! {

/// The models of a sequence of strings.
pub open spec fn string_models(s: Seq<String>) -> Seq<Seq<char>> {
    s.map_values(|u: String| u@)
}

/// The fixed batch of URLs together with the claim position: everything
/// before `next` has been handed to some worker, everything from `next` on
/// is still pending.
pub struct Backlog {
    urls: Vec<String>,
    next: usize,
}

impl Backlog {
    /// The whole submitted batch, in submission order.
    pub closed spec fn submitted(&self) -> Seq<Seq<char>> {
        string_models(self.urls@)
    }

    /// The URLs handed out so far, in claim order.
    pub closed spec fn claimed(&self) -> Seq<Seq<char>> {
        self.submitted().take(self.next as int)
    }

    pub closed spec fn wf(&self) -> bool {
        self.next <= self.urls@.len()
    }

    /// No further claim will ever be served.
    pub closed spec fn depleted(&self) -> bool {
        self.next == self.urls@.len()
    }

    /// Loads the full batch up front; nothing can be added later.
    pub fn new(urls: Vec<String>) -> (b: Self)
        ensures
            b.wf(),
            b.submitted() == string_models(urls@),
            b.claimed() == Seq::<Seq<char>>::empty(),
    {
        let b = Backlog { urls, next: 0 };
        proof {
            assert(b.claimed() =~= Seq::<Seq<char>>::empty());
        }
        b
    }

    /// How many URLs the batch holds.
    pub fn total(&self) -> (n: usize)
        ensures
            n == self.submitted().len(),
    {
        self.urls.len()
    }

    /// Claims the next unclaimed URL, or reports depletion. A served claim
    /// hands out exactly the first still-pending URL of the batch, so no
    /// two claims ever receive the same position and no position is
    /// skipped.
    pub fn claim(&mut self) -> (r: Option<String>)
        requires
            old(self).wf(),
        ensures
            final(self).wf(),
            final(self).submitted() == old(self).submitted(),
            match r {
                Some(url) => {
                    &&& old(self).claimed().len() < old(self).submitted().len()
                    &&& url@ == old(self).submitted()[old(self).claimed().len() as int]
                    &&& final(self).claimed() == old(self).claimed().push(url@)
                    &&& !old(self).depleted()
                },
                None => {
                    &&& old(self).depleted()
                    &&& final(self).claimed() == old(self).claimed()
                    &&& final(self).depleted()
                },
            },
    {
        if self.next < self.urls.len() {
            let url = self.urls[self.next].clone();
            self.next = self.next + 1;
            proof {
                assert(self.claimed() =~= old(self).claimed().push(url@));
            }
            Some(url)
        } else {
            None
        }
    }
}

/// Depletion is exactly exhaustion: once the backlog reports no more work,
/// the sequence of served claims is the submitted batch itself — every URL
/// claimed exactly once, in order, none lost, none duplicated.
pub proof fn lemma_depleted_claims_whole_batch(b: &Backlog)
    requires
        b.wf(),
        b.depleted(),
    ensures
        b.claimed() == b.submitted(),
        b.claimed().len() == b.submitted().len(),
{
    assert(b.claimed() =~= b.submitted());
}

} // verus!

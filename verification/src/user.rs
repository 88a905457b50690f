use vstd::prelude::*;

use crate::assoc::{
    find_url, lemma_push_new_url, lemma_url_map_entry, lemma_url_map_keys, lemma_url_map_update,
    unique_urls, url_map,
};
use crate::random::random_in_range;
use crate::results::{Measurement, Results};
use crate::status::Status;

verus! {

/// How a user paces its requests (not used yet).
#[derive(Clone, Copy, Debug, PartialEq, Eq, Structural)]
pub enum UserBehaviour {
    AGGRESSIVE,
    PASSIVE,
    LAZY,
}

/// Results of one user, per endpoint url: each url occurs at most once.
pub type UrlResults = Vec<(String, Results)>;

/// The results kept for `url`, or empty results when there are none.
pub open spec fn results_for(entries: Seq<(String, Results)>, url: Seq<char>) -> Results {
    if url_map(entries).contains_key(url) {
        url_map(entries)[url]
    } else {
        Results::empty()
    }
}

/// The entries after recording `m` for `url`: the entry of `url` is
/// updated, or a new entry for `url` is appended when there is none.
pub open spec fn upserted(entries: Seq<(String, Results)>, url: String, m: Measurement) -> Seq<
    (String, Results),
> {
    if exists|i: int| 0 <= i < entries.len() && entries[i].0@ == url@ {
        let i = choose|i: int| 0 <= i < entries.len() && entries[i].0@ == url@;
        entries.update(i, (entries[i].0, entries[i].1.with(m)))
    } else {
        entries.push((url, Results::empty().with(m)))
    }
}

/// Recording a measurement for a url keeps the urls unique and changes the
/// url map only at that url, where the results (empty if the url was new)
/// take the measurement.
pub proof fn lemma_upserted_map(entries: Seq<(String, Results)>, url: String, m: Measurement)
    requires
        unique_urls(entries),
    ensures
        unique_urls(upserted(entries, url, m)),
        url_map(upserted(entries, url, m)) == url_map(entries).insert(
            url@,
            results_for(entries, url@).with(m),
        ),
{
    lemma_url_map_keys(entries, url@);
    if exists|i: int| 0 <= i < entries.len() && entries[i].0@ == url@ {
        let i = choose|i: int| 0 <= i < entries.len() && entries[i].0@ == url@;
        lemma_url_map_entry(entries, i);
        lemma_url_map_update(entries, i, entries[i].1.with(m));
    } else {
        lemma_push_new_url(entries, url, Results::empty().with(m));
    }
}

/// A simulated user of a test: its status, its pause between requests and
/// what it measured, in total and per endpoint url.
#[derive(Debug)]
pub struct User {
    pub id: String,
    pub status: Status,
    /// Bounds of the pause between two requests, in seconds: `sleep.0`
    /// included, `sleep.1` excluded.
    pub sleep: (u64, u64),
    pub results: Results,
    pub endpoints: UrlResults,
}

/// A copy of the per-url entries.
pub fn clone_url_results(entries: &UrlResults) -> (c: UrlResults)
    ensures
        c@ == entries@,
{
    let mut c: UrlResults = Vec::new();
    for i in 0..entries.len()
        invariant
            c@ == entries@.take(i as int),
    {
        c.push((entries[i].0.clone(), entries[i].1));
        proof {
            assert(c@ =~= entries@.take(i as int + 1));
        }
    }
    proof {
        assert(entries@.take(entries@.len() as int) =~= entries@);
    }
    c
}

impl Clone for User {
    fn clone(&self) -> (c: Self)
        ensures
            c.copy_of(self),
    {
        let c = User {
            id: self.id.clone(),
            status: self.status.clone(),
            sleep: self.sleep,
            results: self.results,
            endpoints: clone_url_results(&self.endpoints),
        };
        c
    }
}

impl User {
    /// `self` is a copy of `other`: the same id, status, pauses, results
    /// and per-url results.
    pub open spec fn copy_of(&self, other: &User) -> bool {
        &&& self.id == other.id
        &&& self.status == other.status
        &&& self.sleep == other.sleep
        &&& self.results == other.results
        &&& self.endpoints@ == other.endpoints@
    }

    /// Well-formedness: each endpoint url has at most one entry.
    pub open spec fn wf(&self) -> bool {
        unique_urls(self.endpoints@)
    }

    /// Whether `m`, measured on the endpoint at `url`, can be recorded
    /// without overflow.
    pub open spec fn can_record_at(&self, url: Seq<char>, m: Measurement) -> bool {
        &&& self.results.can_record(m)
        &&& results_for(self.endpoints@, url).can_record(m)
    }

    pub fn new(id: String, sleep: (u64, u64)) -> (u: User)
        ensures
            u.wf(),
            u.id == id,
            u.status == Status::Created,
            u.sleep == sleep,
            u.results == Results::empty(),
            u.endpoints@ == Seq::<(String, Results)>::empty(),
    {
        User { id, status: Status::Created, sleep, results: Results::new(), endpoints: Vec::new() }
    }

    fn set_status(&mut self, status: Status)
        ensures
            *final(self) == (User { status, ..*old(self) }),
    {
        self.status = status;
    }

    /// Marks the user stopped.
    pub fn stop(&mut self)
        ensures
            *final(self) == (User { status: Status::Stopped, ..*old(self) }),
    {
        self.set_status(Status::Stopped);
    }

    /// Marks the user finished, unless it was stopped.
    pub fn finish(&mut self)
        ensures
            *final(self) == (User { status: old(self).status.after_finish(), ..*old(self) }),
    {
        if !self.status.is_stopped() {
            self.set_status(Status::Finished);
        }
    }

    pub fn get_id(&self) -> (i: &String)
        ensures
            *i == self.id,
    {
        &self.id
    }

    pub fn get_status(&self) -> (s: Status)
        ensures
            s == self.status,
    {
        self.status.clone()
    }

    pub fn get_endpoints(&self) -> (e: &UrlResults)
        ensures
            *e == self.endpoints,
    {
        &self.endpoints
    }

    /// A random pause, in seconds, within the user's bounds.
    pub fn select_random_sleep(&self) -> (s: u64)
        requires
            self.sleep.0 < self.sleep.1,
        ensures
            self.sleep.0 <= s < self.sleep.1,
    {
        random_in_range(self.sleep.0, self.sleep.1)
    }

    /// Records `m`, measured on the endpoint at `url`, in the user's total
    /// and in the entry of `url`, which is created when missing.
    pub fn add_endpoint_measurement(&mut self, url: &String, m: Measurement)
        requires
            old(self).wf(),
            old(self).can_record_at(url@, m),
        ensures
            final(self).wf(),
            final(self).id == old(self).id,
            final(self).status == old(self).status,
            final(self).sleep == old(self).sleep,
            final(self).results == old(self).results.with(m),
            final(self).endpoints@ == upserted(old(self).endpoints@, *url, m),
            url_map(final(self).endpoints@) == url_map(old(self).endpoints@).insert(
                url@,
                results_for(old(self).endpoints@, url@).with(m),
            ),
    {
        proof {
            lemma_upserted_map(self.endpoints@, *url, m);
            lemma_url_map_keys(self.endpoints@, url@);
        }
        match find_url(&self.endpoints, url) {
            Some(i) => {
                proof {
                    lemma_url_map_entry(self.endpoints@, i as int);
                    assert forall|j: int|
                        0 <= j < self.endpoints@.len() && self.endpoints@[j].0@ == url@ implies j
                        == i by {}
                }
                let mut entry_results = self.endpoints[i].1;
                entry_results.record(m);
                let key = self.endpoints[i].0.clone();
                self.endpoints.set(i, (key, entry_results));
            },
            None => {
                let mut entry_results = Results::new();
                entry_results.record(m);
                self.endpoints.push((url.clone(), entry_results));
            },
        }
        self.results.record(m);
    }
}

} // verus!

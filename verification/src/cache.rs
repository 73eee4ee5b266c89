//! The sensor cache of a control loop: for each sensor topic, the payload
//! that came last.

use vstd::prelude::*;
use crate::envelope::{Envelope, text_eq};

verus! {

/// The latest payload of each topic. A topic has at most one entry.
pub struct SensorCache {
    entries: Vec<Envelope>,
}

impl SensorCache {
    spec fn holds(&self, topic: Seq<char>) -> bool {
        exists|i: int| 0 <= i < self.entries@.len() && (#[trigger] self.entries@[i]).topic@ == topic
    }

    spec fn slot(&self, topic: Seq<char>) -> int {
        choose|i: int| 0 <= i < self.entries@.len() && (#[trigger] self.entries@[i]).topic@ == topic
    }

    /// The invariant of a cache: no topic has two entries.
    pub closed spec fn wf(&self) -> bool {
        forall|i: int, j: int|
            0 <= i < j < self.entries@.len() ==> (#[trigger] self.entries@[i]).topic@ != (
            #[trigger] self.entries@[j]).topic@
    }

    proof fn lemma_slot(&self, k: int)
        requires
            self.wf(),
            0 <= k < self.entries@.len(),
        ensures
            self.holds(self.entries@[k].topic@),
            self.slot(self.entries@[k].topic@) == k,
    {
        let t = self.entries@[k].topic@;
        assert(self.holds(t));
        let s = self.slot(t);
        if s < k {
            assert(self.entries@[s].topic@ != self.entries@[k].topic@);
        } else if k < s {
            assert(self.entries@[k].topic@ != self.entries@[s].topic@);
        }
    }

    /// A cache that holds nothing.
    pub fn new() -> (cache: SensorCache)
        ensures
            cache.wf(),
            cache@ == Map::<Seq<char>, Seq<u8>>::empty(),
    {
        let cache = SensorCache { entries: Vec::new() };
        assert(cache@ =~= Map::<Seq<char>, Seq<u8>>::empty());
        cache
    }

    fn find(&self, topic: &str) -> (at: Option<usize>)
        requires
            self.wf(),
        ensures
            match at {
                Some(k) => k < self.entries@.len() && self.entries@[k as int].topic@ == topic@,
                None => !self.holds(topic@),
            },
    {
        let mut i: usize = 0;
        while i < self.entries.len()
            invariant
                i <= self.entries@.len(),
                forall|k: int| 0 <= k < i ==> (#[trigger] self.entries@[k]).topic@ != topic@,
            decreases self.entries@.len() - i,
        {
            if text_eq(self.entries[i].topic.as_str(), topic) {
                return Some(i);
            }
            i = i + 1;
        }
        None
    }

    /// Records a payload as the latest of its topic.
    pub fn insert(&mut self, topic: String, data: Vec<u8>)
        requires
            old(self).wf(),
        ensures
            final(self).wf(),
            final(self)@ == old(self)@.insert(topic@, data@),
    {
        let ghost before = *self;
        let found = self.find(topic.as_str());
        let ghost at: int;
        match found {
            Some(k) => {
                proof {
                    at = k as int;
                }
                self.entries[k] = Envelope { topic, data };
            },
            None => {
                proof {
                    at = self.entries@.len() as int;
                }
                self.entries.push(Envelope { topic, data });
            },
        }
        proof {
            assert(self.entries@[at].topic@ == topic@ && self.entries@[at].data@ == data@);
            assert forall|i: int| 0 <= i < before.entries@.len() && i != at implies (
            #[trigger] self.entries@[i]) == before.entries@[i] by {}
            assert(self.wf()) by {
                assert forall|i: int, j: int| 0 <= i < j < self.entries@.len() implies (
                #[trigger] self.entries@[i]).topic@ != (#[trigger] self.entries@[j]).topic@ by {
                    if found is None {
                        if j == at {
                            assert(before.entries@[i].topic@ != topic@);
                        }
                    } else {
                        assert(before.entries@[i].topic@ != before.entries@[j].topic@);
                    }
                }
            }
            assert forall|t: Seq<char>| self.holds(t) <==> (t == topic@ || before.holds(t)) by {
                if self.holds(t) {
                    let s = self.slot(t);
                    if s != at {
                        assert(before.entries@[s].topic@ == t);
                    }
                }
                if before.holds(t) {
                    let s = before.slot(t);
                    if s != at {
                        assert(self.entries@[s].topic@ == t);
                    } else {
                        assert(self.entries@[at].topic@ == t);
                    }
                }
                if t == topic@ {
                    assert(self.entries@[at].topic@ == t);
                }
            }
            assert forall|t: Seq<char>| self.holds(t) implies #[trigger] self@[t] == before@.insert(
                topic@,
                data@,
            )[t] by {
                let s = self.slot(t);
                self.lemma_slot(s);
                if t == topic@ {
                    self.lemma_slot(at);
                } else {
                    assert(s != at);
                    assert(before.entries@[s].topic@ == t);
                    before.lemma_slot(s);
                }
            }
            assert(self@ =~= before@.insert(topic@, data@));
        }
    }

    /// The latest payload of a topic, if one has come.
    pub fn get(&self, topic: &str) -> (data: Option<&Vec<u8>>)
        requires
            self.wf(),
        ensures
            match data {
                Some(d) => self@.contains_key(topic@) && self@[topic@] == d@,
                None => !self@.contains_key(topic@),
            },
    {
        match self.find(topic) {
            Some(k) => {
                proof {
                    self.lemma_slot(k as int);
                }
                Some(&self.entries[k].data)
            },
            None => None,
        }
    }
}

impl View for SensorCache {
    type V = Map<Seq<char>, Seq<u8>>;

    closed spec fn view(&self) -> Map<Seq<char>, Seq<u8>> {
        Map::new(|t: Seq<char>| self.holds(t), |t: Seq<char>| self.entries@[self.slot(t)].data@)
    }
}

} // verus!

//! Run configuration: the adapter selector, the round sequence, the template
//! mapping and the pacing parameters, all fixed before a run starts.

use vstd::prelude::*;

verus! {

/// Selector naming which protocol adapter should drive the run. Only a
/// selector with a registered implementation may start a run; every other
/// value is rejected up front with `TestflowError::UnsupportedAdapter`.
#[derive(Clone, Copy, PartialEq, Eq, Structural, Debug)]
pub enum Adapter {
    /// The hotshot backend, the one selector with a registered implementation.
    Hotshot,
    /// A selector value with no registered implementation behind it.
    Unregistered,
}

/// Which adapter selectors have a registered implementation.
pub open spec fn adapter_registered(adapter: Adapter) -> bool {
    adapter is Hotshot
}

/// One unit of scheduled traffic-generation work. The scheduler never
/// interprets a round; only the adapter reads it.
#[derive(Clone, Debug)]
pub struct Round {
    /// Name of the template this round expands, resolved by the adapter.
    pub template: String,
}

/// A named, reusable fragment that rounds reference by name.
#[derive(Clone, Debug)]
pub struct RoundTemplate {
    /// Adapter-interpreted template body.
    pub body: String,
}

/// Opaque payload produced by one successful round, stored by the scheduler
/// without interpretation.
#[derive(Clone, Debug)]
pub struct RoundResult {
    /// Adapter-produced description of what the round did.
    pub payload: String,
}

/// Mapping from template name to template. Names are kept unique: an insert
/// under a name that is already present is rejected rather than overwriting.
#[derive(Clone, Debug)]
pub struct TemplateMap {
    entries: Vec<(String, RoundTemplate)>,
}

impl TemplateMap {
    /// The entries, in insertion order.
    pub closed spec fn entries_seq(&self) -> Seq<(String, RoundTemplate)> {
        self.entries@
    }

    /// Whether some entry carries this name.
    pub open spec fn contains_name(&self, name: Seq<char>) -> bool {
        exists|j: int|
            0 <= j < self.entries_seq().len() && self.entries_seq()[j].0@ == name
    }

    /// No two entries share a name.
    pub open spec fn names_unique(&self) -> bool {
        forall|j: int, k: int|
            0 <= j < k < self.entries_seq().len()
                ==> self.entries_seq()[j].0@ != self.entries_seq()[k].0@
    }

    pub fn new() -> (m: Self)
        ensures
            m.entries_seq().len() == 0,
            m.names_unique(),
    {
        TemplateMap { entries: Vec::new() }
    }

    pub fn len(&self) -> (n: usize)
        ensures
            n == self.entries_seq().len(),
    {
        self.entries.len()
    }

    /// Look a template up by name: the entry under that name, if one exists.
    pub fn get(&self, name: &String) -> (found: Option<&RoundTemplate>)
        ensures
            match found {
                Some(t) => exists|j: int|
                    0 <= j < self.entries_seq().len()
                        && self.entries_seq()[j].0@ == name@
                        && *t == self.entries_seq()[j].1,
                None => !self.contains_name(name@),
            },
    {
        let n = self.entries.len();
        let mut idx: usize = 0;
        while idx < n
            invariant
                idx <= n,
                n == self.entries@.len(),
                forall|j: int| 0 <= j < idx ==> self.entries@[j].0@ != name@,
            decreases n - idx,
        {
            if self.entries[idx].0 == *name {
                assert(0 <= idx < self.entries_seq().len()
                    && self.entries_seq()[idx as int].0@ == name@);
                return Some(&self.entries[idx].1);
            }
            idx += 1;
        }
        None
    }

    /// Insert a template under a name. A duplicate name is rejected, keeping
    /// the mapping unchanged, so that names stay unique.
    pub fn insert(&mut self, name: String, template: RoundTemplate) -> (added: bool)
        requires
            old(self).names_unique(),
        ensures
            final(self).names_unique(),
            added == !old(self).contains_name(name@),
            added ==> final(self).entries_seq()
                == old(self).entries_seq().push((name, template)),
            !added ==> final(self).entries_seq() == old(self).entries_seq(),
    {
        let already = match self.get(&name) {
            Some(_) => true,
            None => false,
        };
        if already {
            false
        } else {
            self.entries.push((name, template));
            proof {
                let olds = old(self).entries_seq();
                let news = self.entries_seq();
                assert forall|j: int, k: int|
                    0 <= j < k < news.len() implies news[j].0@ != news[k].0@ by {
                    assert(news[j] == olds[j]);
                    if k < olds.len() {
                        assert(news[k] == olds[k]);
                    } else {
                        assert(news[k] == (name, template));
                        assert(olds[j].0@ != name@);
                    }
                };
            }
            true
        }
    }
}

/// Everything a run needs, fixed before the run starts.
#[derive(Clone, Debug)]
pub struct RunConfig {
    /// The rounds of one pass, dispatched in order.
    pub rounds: Vec<Round>,
    /// Templates the rounds may reference, keyed by unique name.
    pub round_templates: TemplateMap,
    /// Seconds to pause between consecutive rounds.
    pub interval: u64,
    /// Ceiling on the global iteration counter; absent means unbounded.
    pub iterations: Option<u32>,
    /// Which adapter drives the run.
    pub adapter: Adapter,
    /// Adapter-specific argument payload, passed through uninterpreted.
    pub args: String,
}

} // verus!

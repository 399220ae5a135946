use vstd::prelude::*;

verus! {

/// A read-only source of environment variables.
///
/// The resolver depends on this capability instead of reading the process
/// environment directly, so that resolution stays a pure function of the
/// snapshot it is handed. `env` is the mathematical content of the source:
/// what each variable name maps to, if anything. `get` must answer
/// according to `env`.
pub trait Context {
    /// What the variable named `key` holds, or `None` when it is unset.
    spec fn env(&self, key: Seq<char>) -> Option<Seq<char>>;

    /// Looks a variable up by name.
    fn get(&self, key: &str) -> (r: Option<String>)
        ensures
            match r {
                Some(value) => self.env(key@) == Some(value@),
                None => self.env(key@) is None,
            },
    ;
}

/// What a table of bindings maps `key` to: the value of the latest binding
/// for `key`, or `None` when there is none.
pub open spec fn spec_lookup(entries: Seq<(String, String)>, key: Seq<char>) -> Option<Seq<char>>
    decreases entries.len(),
{
    if entries.len() == 0 {
        None
    } else if entries.last().0@ == key {
        Some(entries.last().1@)
    } else {
        spec_lookup(entries.drop_last(), key)
    }
}

/// An environment source backed by a fixed in-memory table of bindings,
/// for deterministic use without touching the process environment.
///
/// A later [`FixedContext::insert`] for the same name wins over an earlier
/// one.
pub struct FixedContext {
    entries: Vec<(String, String)>,
}

impl Context for FixedContext {
    closed spec fn env(&self, key: Seq<char>) -> Option<Seq<char>> {
        spec_lookup(self.entries@, key)
    }

    fn get(&self, key: &str) -> (r: Option<String>) {
        let mut i: usize = self.entries.len();
        proof {
            assert(self.entries@.take(i as int) =~= self.entries@);
        }
        while i > 0
            invariant
                i <= self.entries@.len(),
                spec_lookup(self.entries@, key@) == spec_lookup(
                    self.entries@.take(i as int),
                    key@,
                ),
            decreases i,
        {
            let entry = &self.entries[i - 1];
            proof {
                let prefix = self.entries@.take(i as int);
                assert(prefix.last() == self.entries@[i - 1]);
                assert(prefix.drop_last() =~= self.entries@.take(i - 1));
            }
            if str_equal(entry.0.as_str(), key) {
                return Some(entry.1.clone());
            }
            i = i - 1;
        }
        proof {
            assert(self.entries@.take(0) =~= Seq::<(String, String)>::empty());
        }
        None
    }
}

/// Whether two string slices hold the same characters.
fn str_equal(left: &str, right: &str) -> (r: bool)
    ensures
        r == (left@ == right@),
{
    let left_owned: String = left.to_owned();
    let right_owned: String = right.to_owned();
    left_owned == right_owned
}

impl FixedContext {
    /// An empty source: every lookup misses.
    pub fn new() -> (r: FixedContext)
        ensures
            forall|k: Seq<char>| r.env(k) is None,
    {
        FixedContext { entries: Vec::new() }
    }

    /// Binds the variable named `key` to `value`, replacing any earlier
    /// binding for the same name and leaving every other name unchanged.
    pub fn insert(&mut self, key: &str, value: &str)
        ensures
            forall|k: Seq<char>|
                #[trigger] final(self).env(k) == (if k == key@ {
                    Some(value@)
                } else {
                    old(self).env(k)
                }),
    {
        let binding = (key.to_owned(), value.to_owned());
        self.entries.push(binding);
        proof {
            let pushed = self.entries@;
            let previous = old(self).entries@;
            assert(pushed.last() == pushed[previous.len() as int]);
            assert(pushed.last().0@ == key@ && pushed.last().1@ == value@);
            assert(pushed.drop_last() =~= previous);
        }
    }
}

} // verus!

//! The generic wire mapping: a self-describing, order-independent
//! string-keyed collection of typed values. Capability options are encoded
//! into it and typed results are decoded back out of it; absent keys mean
//! "use the broker's default", never "false" or "empty".

use vstd::prelude::*;

verus! {

/// One typed value carried in a portal option or result mapping.
#[derive(Debug, PartialEq, Eq)]
pub enum Value {
    Bool(bool),
    U32(u32),
    Str(String),
}

/// The mathematical shape of a [`Value`]: a string is a sequence of
/// characters, everything else stands for itself.
pub enum ValueView {
    Bool(bool),
    U32(u32),
    Str(Seq<char>),
}

impl View for Value {
    type V = ValueView;

    open spec fn view(&self) -> ValueView {
        match self {
            Value::Bool(b) => ValueView::Bool(*b),
            Value::U32(n) => ValueView::U32(*n),
            Value::Str(s) => ValueView::Str(s@),
        }
    }
}

/// The first entry with the given key, if any. Duplicate keys never arise
/// from the encoders in this crate, but a reply mapping is foreign input,
/// so the earliest entry is taken as authoritative.
pub open spec fn lookup(entries: Seq<(Seq<char>, ValueView)>, key: Seq<char>) -> Option<ValueView>
    decreases entries.len(),
{
    if entries.len() == 0 {
        None
    } else if entries[0].0 == key {
        Some(entries[0].1)
    } else {
        lookup(entries.drop_first(), key)
    }
}

/// If no entry among the first `i` matches `key`, the lookup is decided by
/// the remaining entries alone.
proof fn lemma_lookup_skip(entries: Seq<(Seq<char>, ValueView)>, key: Seq<char>, i: int)
    requires
        0 <= i <= entries.len(),
        forall|j: int| 0 <= j < i ==> entries[j].0 != key,
    ensures
        lookup(entries, key) == lookup(entries.skip(i), key),
    decreases i,
{
    if i > 0 {
        lemma_lookup_skip(entries, key, i - 1);
        let rest = entries.skip(i - 1);
        assert(rest[0] == entries[i - 1]);
        assert(rest.drop_first() =~= entries.skip(i));
    } else {
        assert(entries.skip(0) =~= entries);
    }
}

impl Clone for Value {
    /// A clone carries the same abstract value.
    fn clone(&self) -> (res: Self)
        ensures
            res@ == self@,
    {
        match self {
            Value::Bool(b) => Value::Bool(*b),
            Value::U32(n) => Value::U32(*n),
            Value::Str(s) => Value::Str(s.clone()),
        }
    }
}

/// A string-keyed mapping of typed values, the shape every capability's
/// options and reply payloads travel in.
#[derive(Debug, PartialEq)]
pub struct VariantMap {
    entries: Vec<(String, Value)>,
}

impl View for VariantMap {
    type V = Seq<(Seq<char>, ValueView)>;

    closed spec fn view(&self) -> Seq<(Seq<char>, ValueView)> {
        self.entries@.map_values(|e: (String, Value)| (e.0@, e.1@))
    }
}

impl Clone for VariantMap {
    /// A clone holds exactly the same entries.
    fn clone(&self) -> (res: Self)
        ensures
            res@ == self@,
    {
        let mut entries: Vec<(String, Value)> = Vec::new();
        let n = self.entries.len();
        let mut i: usize = 0;
        while i < n
            invariant
                n == self.entries.len(),
                0 <= i <= n,
                entries@.len() == i,
                forall|j: int|
                    0 <= j < i ==> entries@[j].0@ == self.entries@[j].0@
                        && entries@[j].1@ == self.entries@[j].1@,
            decreases n - i,
        {
            let entry = &self.entries[i];
            entries.push((entry.0.clone(), entry.1.clone()));
            i += 1;
        }
        let res = VariantMap { entries };
        proof {
            assert(res@ =~= self@);
        }
        res
    }
}

impl VariantMap {
    /// An empty mapping: every key is left to the broker's default.
    pub fn new() -> (m: Self)
        ensures
            m@ == Seq::<(Seq<char>, ValueView)>::empty(),
    {
        let m = VariantMap { entries: Vec::new() };
        proof {
            assert(m@ =~= Seq::<(Seq<char>, ValueView)>::empty());
        }
        m
    }

    /// Appends one entry; the encoders call this once per present key.
    pub fn insert(&mut self, key: &str, value: Value)
        ensures
            final(self)@ == old(self)@.push((key@, value@)),
    {
        let ghost v = value@;
        self.entries.push((key.to_owned(), value));
        proof {
            assert(final(self)@ =~= old(self)@.push((key@, v)));
        }
    }

    /// How many keys are present.
    pub fn len(&self) -> (n: usize)
        ensures
            n == self@.len(),
    {
        self.entries.len()
    }

    /// The first value stored under `key`, if the key is present at all.
    pub fn get(&self, key: &str) -> (r: Option<&Value>)
        ensures
            match r {
                Some(v) => lookup(self@, key@) == Some(v@),
                None => lookup(self@, key@) is None,
            },
    {
        let wanted: String = key.to_owned();
        let n = self.entries.len();
        let mut i: usize = 0;
        while i < n
            invariant
                n == self.entries.len(),
                0 <= i <= n,
                wanted@ == key@,
                forall|j: int| 0 <= j < i ==> self@[j].0 != key@,
            decreases n - i,
        {
            let entry = &self.entries[i];
            if entry.0 == wanted {
                proof {
                    lemma_lookup_skip(self@, key@, i as int);
                    let rest = self@.skip(i as int);
                    assert(rest[0] == self@[i as int]);
                }
                return Some(&entry.1);
            }
            assert(self@[i as int].0 != key@);
            i += 1;
        }
        proof {
            lemma_lookup_skip(self@, key@, n as int);
            assert(self@.skip(n as int) =~= Seq::<(Seq<char>, ValueView)>::empty());
        }
        None
    }
}

} // verus!

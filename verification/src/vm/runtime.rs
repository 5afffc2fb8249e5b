use vstd::prelude::*;
use crate::text::str_equal;
use crate::vm::value::{Value, ValueView};

verus! {

/// One static field: the key `"<class>.<field>"` and the value stored there.
#[derive(Debug)]
pub struct StaticField {
    pub key: String,
    pub value: Value,
}

/// The runtime data area: the static fields, by key.
///
/// The fields are kept in the order in which their keys were first stored;
/// of two entries with one key the first counts, and `insert` never makes a
/// second.
#[derive(Debug)]
pub struct RuntimeDataArea {
    static_fields: Vec<StaticField>,
}

/// The value that the first entry with key `key` at or after `from` holds.
pub open spec fn first_match(entries: Seq<StaticField>, key: Seq<char>, from: int) -> Option<
    ValueView,
>
    decreases entries.len() - from,
{
    if from < 0 || from >= entries.len() {
        None
    } else if entries[from].key@ == key {
        Some(entries[from].value@)
    } else {
        first_match(entries, key, from + 1)
    }
}

/// Entries that differ from `a` at most in the value at `at`, have the same
/// first match for every key but the one at `at`.
proof fn lemma_first_match_update(
    a: Seq<StaticField>,
    b: Seq<StaticField>,
    at: int,
    key: Seq<char>,
    from: int,
)
    requires
        0 <= from,
        0 <= at < a.len(),
        a.len() == b.len(),
        forall|k: int| 0 <= k < a.len() ==> a[k].key@ == #[trigger] b[k].key@,
        forall|k: int| 0 <= k < a.len() && k != at ==> a[k].value@ == #[trigger] b[k].value@,
        forall|k: int| 0 <= k < at ==> #[trigger] a[k].key@ != a[at].key@,
    ensures
        key != a[at].key@ ==> first_match(b, key, from) == first_match(a, key, from),
        key == a[at].key@ && from <= at ==> first_match(b, key, from) == Some(b[at].value@),
    decreases a.len() - from,
{
    if from < a.len() {
        lemma_first_match_update(a, b, at, key, from + 1);
    }
}

/// One more entry at the end changes the first match only for a key that
/// had none.
proof fn lemma_first_match_push(a: Seq<StaticField>, entry: StaticField, key: Seq<char>, from: int)
    requires
        0 <= from,
    ensures
        first_match(a.push(entry), key, from) == if first_match(a, key, from) is Some {
            first_match(a, key, from)
        } else if key == entry.key@ && from <= a.len() {
            Some(entry.value@)
        } else {
            None
        },
    decreases a.len() - from,
{
    let b = a.push(entry);
    if from < a.len() {
        assert(b[from] == a[from]);
        lemma_first_match_push(a, entry, key, from + 1);
    } else if from == a.len() {
        assert(b[from] == entry);
        assert(first_match(b, key, from + 1) is None);
    }
}

/// No entry before `upto` has the key: the first match lies at or after it.
proof fn lemma_first_match_skip(a: Seq<StaticField>, key: Seq<char>, from: int, upto: int)
    requires
        0 <= from <= upto <= a.len(),
        forall|k: int| from <= k < upto ==> #[trigger] a[k].key@ != key,
    ensures
        first_match(a, key, from) == first_match(a, key, upto),
    decreases upto - from,
{
    if from < upto {
        lemma_first_match_skip(a, key, from + 1, upto);
    }
}

impl View for RuntimeDataArea {
    type V = Map<Seq<char>, ValueView>;

    closed spec fn view(&self) -> Map<Seq<char>, ValueView> {
        Map::new(
            |key: Seq<char>| first_match(self.static_fields@, key, 0) is Some,
            |key: Seq<char>| first_match(self.static_fields@, key, 0)->0,
        )
    }
}

impl RuntimeDataArea {
    pub fn new() -> (r: Self)
        ensures
            r@ == Map::<Seq<char>, ValueView>::empty(),
    {
        let r = RuntimeDataArea { static_fields: Vec::new() };
        assert(r@ =~= Map::<Seq<char>, ValueView>::empty());
        r
    }

    /// The index of the first entry with key `key`, if there is one.
    fn position(&self, key: &str) -> (r: Option<usize>)
        ensures
            match r {
                Some(i) => i < self.static_fields.len() && self.static_fields[i as int].key@
                    == key@ && forall|k: int|
                    0 <= k < i ==> #[trigger] self.static_fields[k].key@ != key@,
                None => forall|k: int|
                    0 <= k < self.static_fields.len() ==> #[trigger] self.static_fields[k].key@
                        != key@,
            },
    {
        let mut i: usize = 0;
        while i < self.static_fields.len()
            invariant
                i <= self.static_fields.len(),
                forall|k: int| 0 <= k < i ==> #[trigger] self.static_fields[k].key@ != key@,
            decreases self.static_fields.len() - i,
        {
            if str_equal(self.static_fields[i].key.as_str(), key) {
                return Some(i);
            }
            i += 1;
        }
        None
    }

    /// The value of the static field stored under `key`.
    pub fn get(&self, key: &str) -> (r: Option<&Value>)
        ensures
            r is Some <==> self@.contains_key(key@),
            r is Some ==> r->0@ == self@[key@],
    {
        match self.position(key) {
            Some(i) => {
                proof {
                    lemma_first_match_skip(self.static_fields@, key@, 0, i as int);
                }
                Some(&self.static_fields[i].value)
            },
            None => {
                proof {
                    lemma_first_match_skip(
                        self.static_fields@,
                        key@,
                        0,
                        self.static_fields.len() as int,
                    );
                }
                None
            },
        }
    }

    /// Stores `value` under `key`, in place of what was stored there.
    pub fn insert(&mut self, key: String, value: Value)
        ensures
            final(self)@ == old(self)@.insert(key@, value@),
    {
        let ghost before = self.static_fields@;
        match self.position(key.as_str()) {
            Some(i) => {
                self.static_fields[i].value = value;
                proof {
                    let after = self.static_fields@;
                    assert forall|k: Seq<char>|
                        first_match(after, k, 0) == (if k == key@ {
                            Some(value@)
                        } else {
                            first_match(before, k, 0)
                        }) by {
                        lemma_first_match_update(before, after, i as int, k, 0);
                    }
                    assert(self@ =~= old(self)@.insert(key@, value@));
                }
            },
            None => {
                let ghost entry = StaticField { key, value };
                self.static_fields.push(StaticField { key, value });
                proof {
                    let after = self.static_fields@;
                    assert(after == before.push(entry));
                    assert forall|k: Seq<char>|
                        first_match(after, k, 0) == (if k == key@ {
                            Some(value@)
                        } else {
                            first_match(before, k, 0)
                        }) by {
                        lemma_first_match_push(before, entry, k, 0);
                        lemma_first_match_skip(before, key@, 0, before.len() as int);
                    }
                    assert(self@ =~= old(self)@.insert(key@, value@));
                }
            },
        }
    }
}

} // verus!

//! Records: one row of tabular data as an ordered field-name to value mapping.
use vstd::prelude::*;

verus! {

/// The mathematical model of a record: its (field, value) pairs in column order.
pub type RecordView = Seq<(Seq<char>, Seq<char>)>;

/// The value of the first entry whose field is `key`.
pub open spec fn lookup(entries: RecordView, key: Seq<char>) -> Option<Seq<char>>
    decreases entries.len(),
{
    if entries.len() == 0 {
        None
    } else if entries[0].0 == key {
        Some(entries[0].1)
    } else {
        lookup(entries.drop_first(), key)
    }
}

/// No field name occurs twice.
pub open spec fn fields_distinct(entries: RecordView) -> bool {
    forall|i: int, j: int|
        0 <= i < j < entries.len() ==> #[trigger] entries[i].0 != #[trigger] entries[j].0
}

/// The view of a sequence of (field, value) string pairs.
pub open spec fn pairs_view(s: Seq<(String, String)>) -> RecordView {
    s.map_values(|p: (String, String)| (p.0@, p.1@))
}

/// A lookup that finds nothing at index `i` goes on at `i + 1`.
proof fn lemma_lookup_step(entries: RecordView, key: Seq<char>, i: int)
    requires
        0 <= i < entries.len(),
    ensures
        lookup(entries.subrange(i, entries.len() as int), key) == (if entries[i].0 == key {
            Some(entries[i].1)
        } else {
            lookup(entries.subrange(i + 1, entries.len() as int), key)
        }),
{
    assert(entries.subrange(i, entries.len() as int).drop_first() =~= entries.subrange(
        i + 1,
        entries.len() as int,
    ));
}

/// In a record whose fields are distinct, the entry at `i` is what a lookup of
/// its field finds.
pub proof fn lemma_lookup_at(entries: RecordView, i: int)
    requires
        fields_distinct(entries),
        0 <= i < entries.len(),
    ensures
        lookup(entries, entries[i].0) == Some(entries[i].1),
    decreases i,
{
    if i > 0 {
        let rest = entries.drop_first();
        assert(rest[i - 1] == entries[i]);
        assert(entries[0].0 != entries[i].0);
        assert(fields_distinct(rest)) by {
            assert forall|a: int, b: int| 0 <= a < b < rest.len() implies rest[a].0
                != rest[b].0 by {
                assert(rest[a] == entries[a + 1] && rest[b] == entries[b + 1]);
            }
        }
        lemma_lookup_at(rest, i - 1);
    }
}

/// A row of tabular data: field names mapped to values, in column order.
pub struct Record {
    pub entries: Vec<(String, String)>,
}

impl View for Record {
    type V = RecordView;

    open spec fn view(&self) -> RecordView {
        pairs_view(self.entries@)
    }
}

impl Record {
    /// Field names are unique.
    pub open spec fn wf(&self) -> bool {
        fields_distinct(self@)
    }

    /// A record with no fields.
    pub fn new() -> (r: Record)
        ensures
            r@ == Seq::<(Seq<char>, Seq<char>)>::empty(),
            r.wf(),
    {
        Record { entries: Vec::new() }
    }

    /// The number of fields.
    pub fn len(&self) -> (n: usize)
        ensures
            n == self@.len(),
    {
        self.entries.len()
    }

    /// The value of `key`, if the record has that field.
    pub fn get(&self, key: &String) -> (r: Option<&String>)
        ensures
            match r {
                Some(v) => lookup(self@, key@) == Some(v@),
                None => lookup(self@, key@) is None,
            },
    {
        let n = self.entries.len();
        let mut i: usize = 0;
        assert(self@.subrange(0, n as int) =~= self@);
        while i < n
            invariant
                n == self.entries.len(),
                0 <= i <= n,
                lookup(self@, key@) == lookup(self@.subrange(i as int, n as int), key@),
            decreases n - i,
        {
            proof {
                lemma_lookup_step(self@, key@, i as int);
            }
            if self.entries[i].0 == *key {
                return Some(&self.entries[i].1);
            }
            i = i + 1;
        }
        None
    }

    /// Sets `key` to `value`: an existing field keeps its place and takes the
    /// new value, a new field is appended.
    pub fn insert(&mut self, key: String, value: String)
        requires
            old(self).wf(),
        ensures
            final(self).wf(),
            lookup(final(self)@, key@) == Some(value@),
            lookup(old(self)@, key@) is Some ==> final(self)@ == old(self)@.update(
                index_of(old(self)@, key@),
                (key@, value@),
            ),
            lookup(old(self)@, key@) is None ==> final(self)@ == old(self)@.push((key@, value@)),
    {
        let n = self.entries.len();
        let mut i: usize = 0;
        assert(self@.subrange(0, n as int) =~= self@);
        while i < n
            invariant
                n == self.entries.len(),
                self == old(self),
                old(self).wf(),
                0 <= i <= n,
                forall|j: int| 0 <= j < i ==> self@[j].0 != key@,
                lookup(self@, key@) == lookup(self@.subrange(i as int, n as int), key@),
            decreases n - i,
        {
            proof {
                lemma_lookup_step(self@, key@, i as int);
            }
            if self.entries[i].0 == key {
                proof {
                    lemma_index_of(self@, key@, i as int);
                }
                self.entries.set(i, (key, value));
                proof {
                    assert(self@ =~= old(self)@.update(i as int, (key@, value@)));
                    assert forall|j: int| 0 <= j < n implies #[trigger] self@[j].0 == old(
                        self,
                    )@[j].0 by {}
                    assert(fields_distinct(self@));
                    lemma_lookup_at(self@, i as int);
                }
                return;
            }
            i = i + 1;
        }
        self.entries.push((key, value));
        proof {
            assert(self@ =~= old(self)@.push((key@, value@)));
            lemma_lookup_at(self@, n as int);
        }
    }
}

/// The index of the first entry whose field is `key`.
pub open spec fn index_of(entries: RecordView, key: Seq<char>) -> int
    decreases entries.len(),
{
    if entries.len() == 0 || entries[0].0 == key {
        0
    } else {
        1 + index_of(entries.drop_first(), key)
    }
}

proof fn lemma_index_of(entries: RecordView, key: Seq<char>, i: int)
    requires
        0 <= i < entries.len(),
        entries[i].0 == key,
        forall|j: int| 0 <= j < i ==> entries[j].0 != key,
    ensures
        index_of(entries, key) == i,
        lookup(entries, key) == Some(entries[i].1),
    decreases i,
{
    if i > 0 {
        let rest = entries.drop_first();
        assert forall|j: int| 0 <= j < i - 1 implies rest[j].0 != key by {
            assert(rest[j] == entries[j + 1]);
        }
        lemma_index_of(rest, key, i - 1);
    }
}

} // verus!

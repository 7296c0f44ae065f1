//! The label store: one title and description per virtual desktop, keyed by
//! the desktop's identifier.

use vstd::prelude::*;
use vstd::string::*;

verus! {

/// What a label says, as plain text.
pub struct LabelView {
    pub title: Seq<char>,
    pub description: Seq<char>,
}

/// The label of one virtual desktop.
#[derive(Debug)]
pub struct DesktopLabel {
    pub title: String,
    pub description: String,
}

impl View for DesktopLabel {
    type V = LabelView;

    open spec fn view(&self) -> LabelView {
        LabelView { title: self.title@, description: self.description@ }
    }
}

impl Clone for DesktopLabel {
    fn clone(&self) -> (r: Self)
        ensures
            r == *self,
    {
        DesktopLabel { title: self.title.clone(), description: self.description.clone() }
    }
}

impl Default for DesktopLabel {
    /// The label of a desktop that has none: empty title, empty description.
    fn default() -> (r: Self)
        ensures
            r@ == empty_label(),
    {
        DesktopLabel { title: String::new(), description: String::new() }
    }
}

pub open spec fn empty_label() -> LabelView {
    LabelView { title: Seq::empty(), description: Seq::empty() }
}

/// No identifier occurs at two positions.
pub open spec fn distinct_keys(s: Seq<(String, DesktopLabel)>) -> bool {
    forall|i: int, j: int|
        0 <= i < j < s.len() ==> (#[trigger] s[i]).0@ != (#[trigger] s[j]).0@
}

pub open spec fn has_key(s: Seq<(String, DesktopLabel)>, k: Seq<char>) -> bool {
    exists|i: int| 0 <= i < s.len() && (#[trigger] s[i]).0@ == k
}

pub open spec fn position_of(s: Seq<(String, DesktopLabel)>, k: Seq<char>) -> int {
    choose|i: int| 0 <= i < s.len() && (#[trigger] s[i]).0@ == k
}

/// The mapping that a list of entries stands for.
pub open spec fn labels_of(s: Seq<(String, DesktopLabel)>) -> Map<Seq<char>, LabelView> {
    Map::new(|k: Seq<char>| has_key(s, k), |k: Seq<char>| s[position_of(s, k)].1@)
}

/// With distinct identifiers, the entry at a position is the one the mapping
/// holds for its identifier.
pub proof fn lemma_entry_is_mapped(s: Seq<(String, DesktopLabel)>, i: int)
    requires
        distinct_keys(s),
        0 <= i < s.len(),
    ensures
        has_key(s, s[i].0@),
        position_of(s, s[i].0@) == i,
        labels_of(s).dom().contains(s[i].0@),
        labels_of(s)[s[i].0@] == s[i].1@,
{
    let k = s[i].0@;
    assert(s[i].0@ == k);
    let j = position_of(s, k);
    assert(0 <= j < s.len() && s[j].0@ == k);
    if j < i {
        assert(s[j].0@ != s[i].0@);
    } else if i < j {
        assert(s[i].0@ != s[j].0@);
    }
}

/// Writing an entry, at the position that holds its identifier or at the end
/// when no position does, is an insertion into the mapping.
proof fn lemma_written(
    s: Seq<(String, DesktopLabel)>,
    t: Seq<(String, DesktopLabel)>,
    at: int,
    entry: (String, DesktopLabel),
)
    requires
        distinct_keys(s),
        0 <= at <= s.len(),
        at < s.len() ==> s[at].0@ == entry.0@ && t == s.update(at, entry),
        at == s.len() ==> !has_key(s, entry.0@) && t == s.push(entry),
    ensures
        distinct_keys(t),
        labels_of(t) == labels_of(s).insert(entry.0@, entry.1@),
{
    let k = entry.0@;
    assert(t.len() > at && t[at] == entry);
    assert forall|i: int, j: int| 0 <= i < j < t.len() implies (#[trigger] t[i]).0@ != (
    #[trigger] t[j]).0@ by {
        if i < s.len() && j < s.len() {
            assert(s[i].0@ != s[j].0@);
            assert(t[i].0@ == s[i].0@);
            assert(t[j].0@ == s[j].0@);
        } else {
            assert(j == at);
            assert(t[i] == s[i]);
            assert(s[i].0@ != k);
        }
    }
    let a = labels_of(t);
    let b = labels_of(s).insert(k, entry.1@);
    assert forall|q: Seq<char>| a.dom().contains(q) <==> b.dom().contains(q) by {
        if a.dom().contains(q) {
            let j = position_of(t, q);
            assert(0 <= j < t.len() && t[j].0@ == q);
            if j != at {
                assert(s[j].0@ == q);
            }
        }
        if b.dom().contains(q) {
            if q == k {
                assert(t[at].0@ == q);
            } else {
                let j = position_of(s, q);
                assert(0 <= j < s.len() && s[j].0@ == q);
                assert(t[j].0@ == q);
            }
        }
    }
    assert forall|q: Seq<char>| a.dom().contains(q) implies a[q] == b[q] by {
        let j = position_of(t, q);
        assert(0 <= j < t.len() && t[j].0@ == q);
        lemma_entry_is_mapped(t, j);
        if j != at {
            assert(s[j] == t[j]);
            lemma_entry_is_mapped(s, j);
            if q == k {
                assert(t[at].0@ == q);
                lemma_entry_is_mapped(t, at);
            }
        }
    }
    assert(a =~= b);
}

/// The mapping that comes of setting the entries one after the other: where
/// an identifier occurs twice, the later entry wins.
pub open spec fn collected(s: Seq<(String, DesktopLabel)>) -> Map<Seq<char>, LabelView>
    decreases s.len(),
{
    if s.len() == 0 {
        Map::empty()
    } else {
        collected(s.drop_last()).insert(s.last().0@, s.last().1@)
    }
}

/// A store that is written out entry by entry and built again from what was
/// written holds the same labels.
pub proof fn lemma_entries_round_trip(s: Seq<(String, DesktopLabel)>)
    requires
        distinct_keys(s),
    ensures
        collected(s) == labels_of(s),
    decreases s.len(),
{
    if s.len() == 0 {
        assert(labels_of(s) =~= Map::<Seq<char>, LabelView>::empty());
    } else {
        let front = s.drop_last();
        let last = s.last();
        assert forall|i: int, j: int| 0 <= i < j < front.len() implies (#[trigger] front[i]).0@ != (
        #[trigger] front[j]).0@ by {
            assert(s[i].0@ != s[j].0@);
        }
        lemma_entries_round_trip(front);
        if has_key(front, last.0@) {
            let i = position_of(front, last.0@);
            assert(s[i].0@ != s[s.len() - 1].0@);
        }
        assert(s =~= front.push(last));
        lemma_written(front, s, front.len() as int, last);
    }
}

/// Labels by desktop identifier. No identifier is stored twice.
#[derive(Debug)]
pub struct Labels {
    entries: Vec<(String, DesktopLabel)>,
}

impl View for Labels {
    type V = Map<Seq<char>, LabelView>;

    open spec fn view(&self) -> Map<Seq<char>, LabelView> {
        labels_of(self.items())
    }
}

impl Labels {
    /// The stored entries, in the order in which their identifiers first came.
    pub closed spec fn items(&self) -> Seq<(String, DesktopLabel)> {
        self.entries@
    }

    pub open spec fn wf(&self) -> bool {
        distinct_keys(self.items())
    }

    /// The label of `key`, or the empty label where the desktop has none.
    pub open spec fn label_or_empty(labels: Map<Seq<char>, LabelView>, key: Seq<char>) -> LabelView {
        if labels.dom().contains(key) {
            labels[key]
        } else {
            empty_label()
        }
    }

    pub fn new() -> (r: Self)
        ensures
            r.wf(),
            r@ == Map::<Seq<char>, LabelView>::empty(),
            r.items().len() == 0,
    {
        let r = Labels { entries: Vec::new() };
        assert(r@ =~= Map::<Seq<char>, LabelView>::empty());
        r
    }

    /// Builds a store from entries, as a reader of a written document does.
    /// Where an identifier occurs twice, the later entry wins.
    pub fn from_entries(entries: Vec<(String, DesktopLabel)>) -> (r: Self)
        ensures
            r.wf(),
            r@ == collected(entries@),
    {
        let mut labels = Labels::new();
        let mut i: usize = 0;
        while i < entries.len()
            invariant
                i <= entries@.len(),
                labels.wf(),
                labels@ == collected(entries@.take(i as int)),
            decreases entries@.len() - i,
        {
            let key = entries[i].0.clone();
            let label = entries[i].1.clone();
            assert(entries@.take(i + 1).drop_last() =~= entries@.take(i as int));
            labels.insert(key, label);
            i += 1;
        }
        assert(entries@.take(entries@.len() as int) =~= entries@);
        labels
    }

    /// The number of desktops that have a label.
    pub fn len(&self) -> (n: usize)
        ensures
            n == self.items().len(),
    {
        self.entries.len()
    }

    /// All entries, for a caller that writes the document out. Built again
    /// from them, the store holds the same labels.
    pub fn entries(&self) -> (r: &Vec<(String, DesktopLabel)>)
        requires
            self.wf(),
        ensures
            r@ == self.items(),
            collected(r@) == self@,
    {
        proof {
            lemma_entries_round_trip(self.items());
        }
        &self.entries
    }

    /// The position that holds `key`, or the number of entries when none does.
    fn find(&self, key: &String) -> (at: usize)
        ensures
            at <= self.items().len(),
            at < self.items().len() ==> self.items()[at as int].0@ == key@,
            at == self.items().len() ==> !has_key(self.items(), key@),
    {
        let mut i: usize = 0;
        while i < self.entries.len()
            invariant
                i <= self.entries@.len(),
                forall|j: int| 0 <= j < i ==> (#[trigger] self.entries@[j]).0@ != key@,
            decreases self.entries@.len() - i,
        {
            if self.entries[i].0 == *key {
                return i;
            }
            i += 1;
        }
        i
    }

    /// Looks up the label of one desktop.
    pub fn get(&self, key: &String) -> (r: Option<&DesktopLabel>)
        requires
            self.wf(),
        ensures
            r is Some <==> self@.dom().contains(key@),
            r is Some ==> r->0@ == self@[key@],
    {
        let at = self.find(key);
        if at < self.entries.len() {
            proof {
                lemma_entry_is_mapped(self.items(), at as int);
            }
            Some(&self.entries[at].1)
        } else {
            None
        }
    }

    /// The label of one desktop by value; the empty label where it has none.
    pub fn get_or_default(&self, key: &String) -> (r: DesktopLabel)
        requires
            self.wf(),
        ensures
            r@ == Self::label_or_empty(self@, key@),
    {
        match self.get(key) {
            Some(label) => label.clone(),
            None => DesktopLabel::default(),
        }
    }

    /// Sets the label of one desktop, replacing the one it had.
    pub fn insert(&mut self, key: String, label: DesktopLabel)
        requires
            old(self).wf(),
        ensures
            final(self).wf(),
            final(self)@ == old(self)@.insert(key@, label@),
    {
        let at = self.find(&key);
        let entry = (key, label);
        if at < self.entries.len() {
            proof {
                lemma_written(old(self).items(), old(self).items().update(at as int, entry), at as int, entry);
            }
            self.entries.set(at, entry);
        } else {
            proof {
                lemma_written(old(self).items(), old(self).items().push(entry), at as int, entry);
            }
            self.entries.push(entry);
        }
    }
}

impl Clone for Labels {
    fn clone(&self) -> (r: Self)
        ensures
            r.items() == self.items(),
    {
        let mut entries: Vec<(String, DesktopLabel)> = Vec::new();
        let mut i: usize = 0;
        while i < self.entries.len()
            invariant
                i <= self.entries@.len(),
                entries@ == self.entries@.take(i as int),
            decreases self.entries@.len() - i,
        {
            let entry = (self.entries[i].0.clone(), self.entries[i].1.clone());
            assert(entry == self.entries@[i as int]);
            entries.push(entry);
            assert(entries@ =~= self.entries@.take(i + 1));
            i += 1;
        }
        assert(entries@ =~= self.entries@);
        Labels { entries }
    }
}

} // verus!

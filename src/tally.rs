use vstd::prelude::*;

verus! {

/// The count after one more selection: counts stop at `u32::MAX`.
pub open spec fn bumped(c: u32) -> u32 {
    if c < u32::MAX {
        (c + 1) as u32
    } else {
        c
    }
}

/// How often `label` was chosen in the tally `m` (0 when it has no entry).
pub open spec fn count_in(m: Map<Seq<char>, u32>, label: Seq<char>) -> u32 {
    if m.contains_key(label) {
        m[label]
    } else {
        0
    }
}

/// The tally `m` after one more selection of `label`.
pub open spec fn incremented(m: Map<Seq<char>, u32>, label: Seq<char>) -> Map<Seq<char>, u32> {
    m.insert(label, bumped(count_in(m, label)))
}

/// The tally `m` after one selection of each text item of `items`, in order;
/// items that are not text (`None`) are skipped.
pub open spec fn incremented_all(m: Map<Seq<char>, u32>, items: Seq<Option<String>>) -> Map<
    Seq<char>,
    u32,
>
    decreases items.len(),
{
    if items.len() == 0 {
        m
    } else {
        let before = incremented_all(m, items.drop_last());
        match items.last() {
            Some(s) => incremented(before, s@),
            None => before,
        }
    }
}

/// A mapping from answer label to the number of times it was chosen.
pub struct Tally {
    entries: Vec<(String, u32)>,
    model: Ghost<Map<Seq<char>, u32>>,
}

impl View for Tally {
    type V = Map<Seq<char>, u32>;

    closed spec fn view(&self) -> Map<Seq<char>, u32> {
        self.model@
    }
}

impl Tally {
    /// Labels are unique, and the entries hold exactly the view.
    pub closed spec fn wf(&self) -> bool {
        &&& forall|i: int, j: int|
            0 <= i < j < self.entries@.len() ==> self.entries@[i].0@ != self.entries@[j].0@
        &&& forall|i: int|
            0 <= i < self.entries@.len() ==> #[trigger] self.model@.contains_key(
                self.entries@[i].0@,
            ) && self.model@[self.entries@[i].0@] == self.entries@[i].1
        &&& forall|k: Seq<char>|
            #[trigger] self.model@.contains_key(k) ==> exists|i: int|
                0 <= i < self.entries@.len() && self.entries@[i].0@ == k
    }

    /// An empty tally.
    pub fn new() -> (r: Tally)
        ensures
            r.wf(),
            r@ == Map::<Seq<char>, u32>::empty(),
    {
        Tally { entries: Vec::new(), model: Ghost(Map::empty()) }
    }

    /// Number of distinct labels.
    pub fn len(&self) -> (r: usize)
        requires
            self.wf(),
        ensures
            r == self@.dom().len(),
    {
        proof {
            self.lemma_dom_is_keys();
        }
        self.entries.len()
    }

    /// The label set has as many members as there are entries.
    proof fn lemma_dom_is_keys(&self)
        requires
            self.wf(),
        ensures
            self@.dom().len() == self.entries@.len(),
            self@.dom().finite(),
    {
        let keys = self.entries@.map_values(|e: (String, u32)| e.0@);
        assert forall|i: int, j: int|
            0 <= i < keys.len() && 0 <= j < keys.len() && i != j implies keys[i] != keys[j] by {
            assert(keys[i] == self.entries@[i].0@ && keys[j] == self.entries@[j].0@);
        }
        keys.unique_seq_to_set();
        assert(self@.dom() =~= keys.to_set()) by {
            assert forall|k: Seq<char>| self@.dom().contains(k) implies keys.to_set().contains(k) by {
                let i = choose|i: int| 0 <= i < self.entries@.len() && self.entries@[i].0@ == k;
                assert(keys[i] == k);
            }
            assert forall|k: Seq<char>| keys.to_set().contains(k) implies self@.dom().contains(k) by {
                let i = choose|i: int| 0 <= i < keys.len() && keys[i] == k;
                assert(self.model@.contains_key(self.entries@[i].0@));
            }
        }
    }

    /// How often `label` was chosen; 0 when it never was.
    pub fn count_of(&self, label: &String) -> (r: u32)
        requires
            self.wf(),
        ensures
            r == count_in(self@, label@),
    {
        let mut i: usize = 0;
        while i < self.entries.len()
            invariant
                self.wf(),
                i <= self.entries@.len(),
                forall|j: int| 0 <= j < i ==> self.entries@[j].0@ != label@,
            decreases self.entries@.len() - i,
        {
            if self.entries[i].0 == *label {
                return self.entries[i].1;
            }
            i = i + 1;
        }
        proof {
            lemma_absent(self, label);
        }
        0
    }

    /// Every label with its count, in the order in which labels first appeared.
    pub fn pairs(&self) -> (r: Vec<(String, u32)>)
        requires
            self.wf(),
        ensures
            r@.len() == self@.dom().len(),
            forall|i: int|
                0 <= i < r@.len() ==> #[trigger] self@.contains_key(r@[i].0@) && self@[r@[i].0@]
                    == r@[i].1,
            forall|k: Seq<char>|
                #[trigger] self@.contains_key(k) ==> exists|i: int| 0 <= i < r@.len() && r@[i].0@ == k,
    {
        let r = self.copy_entries();
        proof {
            self.lemma_dom_is_keys();
            assert forall|k: Seq<char>| #[trigger] self@.contains_key(k) implies exists|i: int|
                0 <= i < r@.len() && r@[i].0@ == k by {
                let i = choose|i: int| 0 <= i < self.entries@.len() && self.entries@[i].0@ == k;
                assert(r@[i].0@ == k);
            }
        }
        r
    }

    /// A copy with its own entries and the same counts.
    pub fn duplicate(&self) -> (r: Tally)
        requires
            self.wf(),
        ensures
            r.wf(),
            r@ == self@,
    {
        let entries = self.copy_entries();
        let r = Tally { entries, model: Ghost(self.model@) };
        proof {
            assert forall|i: int, j: int| 0 <= i < j < r.entries@.len() implies r.entries@[i].0@
                != r.entries@[j].0@ by {
                assert(r.entries@[i].0@ == self.entries@[i].0@);
                assert(r.entries@[j].0@ == self.entries@[j].0@);
            }
            assert forall|i: int| 0 <= i < r.entries@.len() implies #[trigger] r.model@.contains_key(
                r.entries@[i].0@,
            ) && r.model@[r.entries@[i].0@] == r.entries@[i].1 by {
                assert(r.entries@[i].0@ == self.entries@[i].0@);
                assert(self.model@.contains_key(self.entries@[i].0@));
            }
            assert forall|k: Seq<char>| #[trigger] r.model@.contains_key(k) implies exists|i: int|
                0 <= i < r.entries@.len() && r.entries@[i].0@ == k by {
                let i = choose|i: int| 0 <= i < self.entries@.len() && self.entries@[i].0@ == k;
                assert(r.entries@[i].0@ == k);
            }
        }
        r
    }

    /// The entries, copied one by one.
    fn copy_entries(&self) -> (r: Vec<(String, u32)>)
        requires
            self.wf(),
        ensures
            r@.len() == self.entries@.len(),
            forall|i: int| 0 <= i < r@.len() ==> #[trigger] r@[i].0@ == self.entries@[i].0@ && r@[i].1 == self.entries@[i].1,
    {
        let mut entries: Vec<(String, u32)> = Vec::new();
        let mut i: usize = 0;
        while i < self.entries.len()
            invariant
                self.wf(),
                i <= self.entries@.len(),
                entries@.len() == i,
                forall|j: int| 0 <= j < i ==> #[trigger] entries@[j].0@ == self.entries@[j].0@ && entries@[j].1 == self.entries@[j].1,
            decreases self.entries@.len() - i,
        {
            let label = self.entries[i].0.clone();
            entries.push((label, self.entries[i].1));
            i = i + 1;
        }
        entries
    }

    /// Records one more selection of `label`, adding it with count 1 when it is new.
    pub fn increment(&mut self, label: String)
        requires
            old(self).wf(),
        ensures
            final(self).wf(),
            final(self)@ == incremented(old(self)@, label@),
    {
        let mut i: usize = 0;
        while i < self.entries.len()
            invariant
                self.wf(),
                *self == *old(self),
                i <= self.entries@.len(),
                forall|j: int| 0 <= j < i ==> self.entries@[j].0@ != label@,
            decreases self.entries@.len() - i,
        {
            if self.entries[i].0 == label {
                let c = self.entries[i].1;
                let n = if c < u32::MAX { c + 1 } else { c };
                let ghost before = self.entries@;
                self.entries.set(i, (label, n));
                self.model = Ghost(self.model@.insert(before[i as int].0@, n));
                proof {
                    assert(self.entries@ == before.update(i as int, (label, n)));
                    assert forall|k: Seq<char>| #[trigger] self.model@.contains_key(k) implies exists|j: int|
                        0 <= j < self.entries@.len() && self.entries@[j].0@ == k by {
                        if k == label@ {
                            assert(self.entries@[i as int].0@ == k);
                        } else {
                            assert(old(self).model@.contains_key(k));
                            let j = choose|j: int| 0 <= j < before.len() && before[j].0@ == k;
                            assert(self.entries@[j].0@ == k);
                        }
                    }
                    assert(self.model@ =~= incremented(old(self)@, label@));
                }
                return;
            }
            i = i + 1;
        }
        proof {
            lemma_absent(self, &label);
        }
        let ghost before = self.entries@;
        let ghost key = label@;
        self.entries.push((label, 1));
        self.model = Ghost(self.model@.insert(key, 1));
        proof {
            assert(self.entries@ == before.push((label, 1u32)));
            assert forall|k: Seq<char>| #[trigger] self.model@.contains_key(k) implies exists|j: int|
                0 <= j < self.entries@.len() && self.entries@[j].0@ == k by {
                if k == key {
                    assert(self.entries@[before.len() as int].0@ == k);
                } else {
                    assert(old(self).model@.contains_key(k));
                    let j = choose|j: int| 0 <= j < before.len() && before[j].0@ == k;
                    assert(self.entries@[j].0@ == k);
                }
            }
            assert(self.model@ =~= incremented(old(self)@, key));
        }
    }

    /// Records one selection of each text item of `items`, in order.
    pub fn increment_all(&mut self, items: &Vec<Option<String>>)
        requires
            old(self).wf(),
        ensures
            final(self).wf(),
            final(self)@ == incremented_all(old(self)@, items@),
    {
        let mut i: usize = 0;
        while i < items.len()
            invariant
                self.wf(),
                i <= items@.len(),
                self@ == incremented_all(old(self)@, items@.take(i as int)),
            decreases items@.len() - i,
        {
            assert(items@.take(i + 1).drop_last() =~= items@.take(i as int));
            match &items[i] {
                Some(s) => self.increment(s.clone()),
                None => {},
            }
            i = i + 1;
        }
        assert(items@.take(items@.len() as int) =~= items@);
    }
}

/// A label that no entry carries is not in the view.
proof fn lemma_absent(t: &Tally, label: &String)
    requires
        t.wf(),
        forall|j: int| 0 <= j < t.entries@.len() ==> t.entries@[j].0@ != label@,
    ensures
        !t@.contains_key(label@),
{
}

} // verus!

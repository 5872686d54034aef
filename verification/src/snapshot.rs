//! The table of balances recorded before an operation changes them.

use crate::order::{comes_before, denom_before, lemma_denom_order};
use vstd::prelude::*;

verus! {

/// What the table holds: denominations with the balance recorded for each,
/// in the order in which the table is walked.
pub type Snapshots = Seq<(Seq<char>, u128)>;

/// Whether the denominations stand in ascending order.
pub open spec fn sorted(entries: Snapshots) -> bool {
    forall|i: int, j: int|
        0 <= i < j < entries.len() ==> denom_before(
            (#[trigger] entries[i]).0,
            (#[trigger] entries[j]).0,
        )
}

/// In a table in ascending order no denomination stands twice.
pub proof fn lemma_sorted_unique(entries: Snapshots)
    requires
        sorted(entries),
    ensures
        keys_unique(entries),
{
    assert forall|i: int, j: int|
        0 <= i < entries.len() && 0 <= j < entries.len() && i != j implies (
    #[trigger] entries[i]).0 != (#[trigger] entries[j]).0 by {
        lemma_denom_order(entries[i].0, entries[j].0, entries[j].0);
        if i < j {
            assert(denom_before(entries[i].0, entries[j].0));
        } else {
            assert(denom_before(entries[j].0, entries[i].0));
        }
    }
}

/// The number of denominations in the table that come before `denom`.
pub open spec fn place_of(entries: Snapshots, denom: Seq<char>) -> int
    decreases entries.len(),
{
    if entries.len() == 0 {
        0
    } else {
        place_of(entries.drop_last(), denom) + if denom_before(entries.last().0, denom) {
            1int
        } else {
            0int
        }
    }
}

/// In a table in ascending order the denominations that come before
/// `denom` are the first `place_of` ones.
pub proof fn lemma_place_of(entries: Snapshots, denom: Seq<char>)
    requires
        sorted(entries),
    ensures
        0 <= place_of(entries, denom) <= entries.len(),
        forall|i: int|
            0 <= i < entries.len() ==> (denom_before((#[trigger] entries[i]).0, denom) <==> i
                < place_of(entries, denom)),
    decreases entries.len(),
{
    if entries.len() > 0 {
        let shorter = entries.drop_last();
        let last = entries.last();
        assert forall|i: int, j: int| 0 <= i < j < shorter.len() implies denom_before(
            (#[trigger] shorter[i]).0,
            (#[trigger] shorter[j]).0,
        ) by {
            assert(shorter[i] == entries[i]);
            assert(shorter[j] == entries[j]);
        }
        lemma_place_of(shorter, denom);
        if denom_before(last.0, denom) {
            // Every denomination before the last one comes before `denom` too.
            if shorter.len() > 0 {
                let m = shorter.len() - 1;
                assert(shorter[m] == entries[m]);
                assert(denom_before(entries[m].0, entries[entries.len() - 1].0));
                lemma_denom_order(entries[m].0, last.0, denom);
            }
            assert(place_of(shorter, denom) == shorter.len());
        }
        assert forall|i: int| 0 <= i < entries.len() implies (denom_before(
            (#[trigger] entries[i]).0,
            denom,
        ) <==> i < place_of(entries, denom)) by {
            if i < shorter.len() {
                assert(shorter[i] == entries[i]);
            }
        }
    }
}

pub open spec fn keys_unique(entries: Snapshots) -> bool {
    forall|i: int, j: int|
        0 <= i < entries.len() && 0 <= j < entries.len() && i != j ==> (#[trigger] entries[i]).0
            != (#[trigger] entries[j]).0
}

pub open spec fn has_key(entries: Snapshots, denom: Seq<char>) -> bool {
    exists|i: int| 0 <= i < entries.len() && (#[trigger] entries[i]).0 == denom
}

/// A place at which `denom` stands. Where the keys are unique there is at
/// most one.
pub open spec fn index_of(entries: Snapshots, denom: Seq<char>) -> int {
    choose|i: int| 0 <= i < entries.len() && (#[trigger] entries[i]).0 == denom
}

/// The balance recorded for `denom`.
pub open spec fn recorded(entries: Snapshots, denom: Seq<char>) -> Option<u128> {
    if has_key(entries, denom) {
        Some(entries[index_of(entries, denom)].1)
    } else {
        None
    }
}

/// The table after `amount` is recorded for `denom`: in place of what was
/// recorded for it, or behind the denominations that come before it.
pub open spec fn record(entries: Snapshots, denom: Seq<char>, amount: u128) -> Snapshots {
    if has_key(entries, denom) {
        entries.update(index_of(entries, denom), (denom, amount))
    } else {
        entries.insert(place_of(entries, denom), (denom, amount))
    }
}

/// The table without the record for `denom`.
pub open spec fn forget(entries: Snapshots, denom: Seq<char>) -> Snapshots {
    if has_key(entries, denom) {
        entries.remove(index_of(entries, denom))
    } else {
        entries
    }
}

pub proof fn lemma_index_of(entries: Snapshots, denom: Seq<char>, i: int)
    requires
        keys_unique(entries),
        0 <= i < entries.len(),
        entries[i].0 == denom,
    ensures
        has_key(entries, denom),
        index_of(entries, denom) == i,
        recorded(entries, denom) == Some(entries[i].1),
{
    let k = index_of(entries, denom);
    assert(entries[k].0 == denom);
}

/// Recording keeps the table in ascending order, and the record can be
/// read back; records of other denominations stay as they were.
pub proof fn lemma_record(entries: Snapshots, denom: Seq<char>, amount: u128)
    requires
        sorted(entries),
    ensures
        sorted(record(entries, denom, amount)),
        keys_unique(record(entries, denom, amount)),
        recorded(record(entries, denom, amount), denom) == Some(amount),
        forall|other: Seq<char>|
            other != denom ==> #[trigger] recorded(record(entries, denom, amount), other)
                == recorded(entries, other),
{
    let after = record(entries, denom, amount);
    lemma_sorted_unique(entries);
    if has_key(entries, denom) {
        let k = index_of(entries, denom);
        assert(entries[k].0 == denom);
        assert(after[k] == (denom, amount));
        assert forall|i: int, j: int| 0 <= i < j < after.len() implies denom_before(
            (#[trigger] after[i]).0,
            (#[trigger] after[j]).0,
        ) by {
            assert(after[i].0 == entries[i].0);
            assert(after[j].0 == entries[j].0);
        }
        lemma_sorted_unique(after);
        lemma_index_of(after, denom, k);
        assert forall|other: Seq<char>| other != denom implies #[trigger] recorded(after, other)
            == recorded(entries, other) by {
            lemma_same_keys_elsewhere(entries, after, other, k);
        }
    } else {
        let k = place_of(entries, denom);
        lemma_place_of(entries, denom);
        assert(after[k] == (denom, amount));
        assert forall|i: int| 0 <= i < after.len() implies #[trigger] after[i] == (if i < k {
            entries[i]
        } else if i == k {
            (denom, amount)
        } else {
            entries[i - 1]
        }) by {}
        assert forall|i: int, j: int| 0 <= i < j < after.len() implies denom_before(
            (#[trigger] after[i]).0,
            (#[trigger] after[j]).0,
        ) by {
            if j == k {
                assert(after[i] == entries[i]);
            } else if i == k {
                assert(after[j] == entries[j - 1]);
                lemma_denom_order(entries[j - 1].0, denom, denom);
            } else {
                let i0 = if i < k { i } else { i - 1 };
                let j0 = if j < k { j } else { j - 1 };
                assert(after[i] == entries[i0]);
                assert(after[j] == entries[j0]);
            }
        }
        lemma_sorted_unique(after);
        lemma_index_of(after, denom, k);
        assert forall|other: Seq<char>| other != denom implies #[trigger] recorded(after, other)
            == recorded(entries, other) by {
            if has_key(entries, other) {
                let m = index_of(entries, other);
                let m1 = if m < k { m } else { m + 1 };
                assert(after[m1] == entries[m]);
                lemma_index_of(after, other, m1);
            } else if has_key(after, other) {
                let m = index_of(after, other);
                let m0 = if m < k { m } else { m - 1 };
                assert(after[m] == entries[m0]);
            }
        }
    }
}

/// Two tables of one length that agree everywhere but at `k`, where both
/// hold another denomination than `other`, record the same for `other`.
proof fn lemma_same_keys_elsewhere(a: Snapshots, b: Snapshots, other: Seq<char>, k: int)
    requires
        keys_unique(a),
        keys_unique(b),
        a.len() == b.len(),
        0 <= k < a.len(),
        a[k].0 != other,
        b[k].0 != other,
        forall|i: int| 0 <= i < a.len() && i != k ==> a[i] == b[i],
    ensures
        recorded(a, other) == recorded(b, other),
{
    if has_key(a, other) {
        let m = index_of(a, other);
        assert(b[m] == a[m]);
        lemma_index_of(b, other, m);
    } else if has_key(b, other) {
        let m = index_of(b, other);
        assert(a[m] == b[m]);
    }
}

/// Forgetting keeps the table in ascending order and leaves no record of
/// the denomination; records of other denominations stay as they were.
pub proof fn lemma_forget(entries: Snapshots, denom: Seq<char>)
    requires
        sorted(entries),
    ensures
        sorted(forget(entries, denom)),
        keys_unique(forget(entries, denom)),
        recorded(forget(entries, denom), denom) is None,
        forall|other: Seq<char>|
            other != denom ==> #[trigger] recorded(forget(entries, denom), other) == recorded(
                entries,
                other,
            ),
{
    let after = forget(entries, denom);
    lemma_sorted_unique(entries);
    if has_key(entries, denom) {
        let k = index_of(entries, denom);
        assert(entries[k].0 == denom);
        assert forall|i: int| 0 <= i < after.len() implies #[trigger] after[i] == entries[if i
            < k {
            i
        } else {
            i + 1
        }] by {}
        assert forall|i: int, j: int| 0 <= i < j < after.len() implies denom_before(
            (#[trigger] after[i]).0,
            (#[trigger] after[j]).0,
        ) by {
            let i0 = if i < k { i } else { i + 1 };
            let j0 = if j < k { j } else { j + 1 };
            assert(after[i] == entries[i0]);
            assert(after[j] == entries[j0]);
        }
        lemma_sorted_unique(after);
        if has_key(after, denom) {
            let m = index_of(after, denom);
            let m0 = if m < k { m } else { m + 1 };
            assert(after[m] == entries[m0]);
        }
        assert forall|other: Seq<char>| other != denom implies #[trigger] recorded(after, other)
            == recorded(entries, other) by {
            if has_key(entries, other) {
                let m = index_of(entries, other);
                let m1 = if m < k { m } else { m - 1 };
                assert(after[m1] == entries[m]);
                lemma_index_of(after, other, m1);
            } else if has_key(after, other) {
                let m = index_of(after, other);
                let m0 = if m < k { m } else { m + 1 };
                assert(after[m] == entries[m0]);
            }
        }
    }
}

/// The table of recorded balances. The denominations stand in ascending
/// order of their bytes, so none stands in it twice.
#[derive(Debug, PartialEq, Eq)]
pub struct SnapBalances {
    entries: Vec<(String, u128)>,
}

impl View for SnapBalances {
    type V = Snapshots;

    closed spec fn view(&self) -> Snapshots {
        self.entries.deep_view()
    }
}

impl SnapBalances {
    /// The denominations stand in ascending order.
    pub open spec fn wf(&self) -> bool {
        sorted(self@)
    }

    pub fn new() -> (table: SnapBalances)
        ensures
            table.wf(),
            table@ == Snapshots::empty(),
    {
        let table = SnapBalances { entries: Vec::new() };
        assert(table@ =~= Snapshots::empty());
        table
    }

    pub fn len(&self) -> (n: usize)
        ensures
            n == self@.len(),
    {
        self.entries.len()
    }

    /// The records, in the order in which the table is walked.
    pub fn entries(&self) -> (all: Vec<(String, u128)>)
        ensures
            all.deep_view() == self@,
    {
        let mut all: Vec<(String, u128)> = Vec::new();
        let mut i: usize = 0;
        while i < self.entries.len()
            invariant
                i <= self.entries.len(),
                all.len() == i,
                forall|j: int| 0 <= j < i ==> (#[trigger] all[j]).deep_view() == self@[j],
            decreases self.entries.len() - i,
        {
            all.push((self.entries[i].0.clone(), self.entries[i].1));
            i += 1;
        }
        assert(all.deep_view() =~= self@);
        all
    }

    /// The denomination at place `i`.
    pub(crate) fn denom_at(&self, i: usize) -> (denom: &String)
        requires
            i < self@.len(),
        ensures
            denom@ == self@[i as int].0,
    {
        &self.entries[i].0
    }

    /// The balance recorded at place `i`.
    pub(crate) fn amount_at(&self, i: usize) -> (amount: u128)
        requires
            i < self@.len(),
        ensures
            amount == self@[i as int].1,
    {
        self.entries[i].1
    }

    fn position(&self, denom: &String) -> (r: Option<usize>)
        requires
            self.wf(),
        ensures
            match r {
                Some(i) => i < self@.len() && self@[i as int].0 == denom@ && has_key(
                    self@,
                    denom@,
                ) && index_of(self@, denom@) == i,
                None => !has_key(self@, denom@),
            },
    {
        proof {
            lemma_sorted_unique(self@);
        }
        let mut i: usize = 0;
        while i < self.entries.len()
            invariant
                keys_unique(self@),
                i <= self.entries.len(),
                forall|j: int| 0 <= j < i ==> (#[trigger] self@[j]).0 != denom@,
            decreases self.entries.len() - i,
        {
            if self.entries[i].0 == *denom {
                proof {
                    lemma_index_of(self@, denom@, i as int);
                }
                return Some(i);
            }
            i += 1;
        }
        None
    }

    /// The number of denominations in the table that come before `denom`.
    fn place(&self, denom: &String) -> (r: usize)
        requires
            self.wf(),
        ensures
            r == place_of(self@, denom@),
            r <= self@.len(),
    {
        proof {
            lemma_place_of(self@, denom@);
        }
        let mut i: usize = 0;
        while i < self.entries.len() && comes_before(&self.entries[i].0, denom)
            invariant
                i <= self.entries.len(),
                forall|j: int| 0 <= j < i ==> denom_before((#[trigger] self@[j]).0, denom@),
            decreases self.entries.len() - i,
        {
            i += 1;
        }
        proof {
            let p = place_of(self@, denom@);
            if i < p {
                assert(denom_before(self@[i as int].0, denom@));
            }
            if p < i {
                assert(denom_before(self@[p].0, denom@));
            }
        }
        i
    }

    /// The balance recorded for `denom`, if one is.
    pub fn load(&self, denom: &String) -> (r: Option<u128>)
        requires
            self.wf(),
        ensures
            r == recorded(self@, denom@),
    {
        match self.position(denom) {
            Some(i) => Some(self.entries[i].1),
            None => None,
        }
    }

    /// Records `amount` for `denom`, in place of what was recorded for it.
    pub fn save(&mut self, denom: &String, amount: u128)
        requires
            old(self).wf(),
        ensures
            final(self).wf(),
            final(self)@ == record(old(self)@, denom@, amount),
    {
        proof {
            lemma_record(self@, denom@, amount);
        }
        match self.position(denom) {
            Some(i) => {
                self.entries.set(i, (denom.clone(), amount));
            },
            None => {
                let place = self.place(denom);
                self.entries.insert(place, (denom.clone(), amount));
                assert(self@ =~= old(self)@.insert(place as int, (denom@, amount)));
            },
        }
        assert(self@ =~= record(old(self)@, denom@, amount));
    }

    /// Removes the record for `denom`, if there is one.
    pub fn remove(&mut self, denom: &String)
        requires
            old(self).wf(),
        ensures
            final(self).wf(),
            final(self)@ == forget(old(self)@, denom@),
    {
        proof {
            lemma_forget(self@, denom@);
        }
        match self.position(denom) {
            Some(i) => {
                self.entries.remove(i);
            },
            None => {},
        }
        assert(self@ =~= forget(old(self)@, denom@));
    }

    /// Removes every record.
    pub fn clear(&mut self)
        ensures
            final(self).wf(),
            final(self)@ == Snapshots::empty(),
    {
        self.entries.clear();
        assert(self@ =~= Snapshots::empty());
    }
}

} // verus!

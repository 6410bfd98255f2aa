//! The contribution ledger: who has put in how much, in the order in which
//! the contributors first appeared.

use crate::address::Address;
use vstd::prelude::*;

verus! {

/// One line of the ledger: a contributor and the amount recorded for them.
pub struct EntryView {
    pub contributor: Seq<char>,
    pub amount: int,
}

/// The sum of the amounts of `entries`.
pub open spec fn sum(entries: Seq<EntryView>) -> int
    decreases entries.len(),
{
    if entries.len() == 0 {
        0
    } else {
        sum(entries.drop_last()) + entries.last().amount
    }
}

/// The ledger as a mathematical value: its lines in order of first
/// contribution.
pub struct LedgerView {
    pub entries: Seq<EntryView>,
}

impl LedgerView {
    /// The ledger without any line.
    pub open spec fn empty() -> LedgerView {
        LedgerView { entries: Seq::empty() }
    }

    /// The contributors in the order in which they first contributed.
    pub open spec fn contributors(self) -> Seq<Seq<char>> {
        self.entries.map_values(|e: EntryView| e.contributor)
    }

    /// Whether `who` has a line.
    pub open spec fn has(self, who: Seq<char>) -> bool {
        exists|i: int| 0 <= i < self.entries.len() && (#[trigger] self.entries[i]).contributor == who
    }

    /// The place of the line of `who`, where there is one.
    pub open spec fn index_of(self, who: Seq<char>) -> int {
        choose|i: int| 0 <= i < self.entries.len() && (#[trigger] self.entries[i]).contributor == who
    }

    /// The amount recorded for `who`: 0 for a party without a line.
    pub open spec fn amount_of(self, who: Seq<char>) -> int {
        if self.has(who) {
            self.entries[self.index_of(who)].amount
        } else {
            0
        }
    }

    /// The sum of all recorded amounts.
    pub open spec fn total(self) -> int {
        sum(self.entries)
    }

    /// No contributor has two lines.
    pub open spec fn distinct(self) -> bool {
        forall|i: int, j: int|
            0 <= i < j < self.entries.len() ==> (#[trigger] self.entries[i]).contributor != (
            #[trigger] self.entries[j]).contributor
    }

    /// No recorded amount is negative.
    pub open spec fn non_negative(self) -> bool {
        forall|i: int| 0 <= i < self.entries.len() ==> (#[trigger] self.entries[i]).amount >= 0
    }

    /// Every recorded amount is zero.
    pub open spec fn settled(self) -> bool {
        forall|i: int| 0 <= i < self.entries.len() ==> (#[trigger] self.entries[i]).amount == 0
    }

    /// What every ledger satisfies: one line per contributor, no negative
    /// amount, and a number of lines that a `u32` can hold.
    pub open spec fn wf(self) -> bool {
        &&& self.distinct()
        &&& self.non_negative()
        &&& self.entries.len() <= u32::MAX
    }

    /// The ledger once `amount` more is recorded for `who`. A party without a
    /// line gets one, at the end, with its first positive amount.
    pub open spec fn credited(self, who: Seq<char>, amount: int) -> LedgerView {
        if self.has(who) {
            let i = self.index_of(who);
            LedgerView {
                entries: self.entries.update(
                    i,
                    EntryView { contributor: who, amount: self.entries[i].amount + amount },
                ),
            }
        } else if amount > 0 {
            LedgerView { entries: self.entries.push(EntryView { contributor: who, amount }) }
        } else {
            self
        }
    }

    /// The ledger once the amount of `who` is given back: the line stays, at
    /// zero.
    pub open spec fn cleared(self, who: Seq<char>) -> LedgerView {
        if self.has(who) {
            LedgerView {
                entries: self.entries.update(
                    self.index_of(who),
                    EntryView { contributor: who, amount: 0 },
                ),
            }
        } else {
            self
        }
    }

    /// Whether `amount` is the largest recorded amount, or 0 for a ledger
    /// without lines.
    pub open spec fn largest_is(self, amount: int) -> bool {
        &&& forall|i: int| 0 <= i < self.entries.len() ==> (#[trigger] self.entries[i]).amount <= amount
        &&& if self.entries.len() == 0 {
            amount == 0
        } else {
            exists|i: int| 0 <= i < self.entries.len() && (#[trigger] self.entries[i]).amount == amount
        }
    }

    /// The contributors whose recorded amount is positive, in ledger order.
    pub open spec fn funded(self) -> Seq<Seq<char>> {
        funded_among(self.entries)
    }
}

/// In a ledger with one line per contributor, the line of a contributor is
/// found at the place where it stands.
pub proof fn lemma_index_of(ledger: LedgerView, i: int)
    requires
        ledger.distinct(),
        0 <= i < ledger.entries.len(),
    ensures
        ledger.has(ledger.entries[i].contributor),
        ledger.index_of(ledger.entries[i].contributor) == i,
        ledger.amount_of(ledger.entries[i].contributor) == ledger.entries[i].amount,
{
    let who = ledger.entries[i].contributor;
    let j = ledger.index_of(who);
    assert(0 <= j < ledger.entries.len() && ledger.entries[j].contributor == who);
    if j < i {
        assert(ledger.entries[j].contributor != ledger.entries[i].contributor);
    } else if i < j {
        assert(ledger.entries[i].contributor != ledger.entries[j].contributor);
    }
}

/// Replacing one line changes the sum by the difference of the amounts.
pub proof fn lemma_sum_update(entries: Seq<EntryView>, i: int, entry: EntryView)
    requires
        0 <= i < entries.len(),
    ensures
        sum(entries.update(i, entry)) == sum(entries) - entries[i].amount + entry.amount,
    decreases entries.len(),
{
    let updated = entries.update(i, entry);
    if i == entries.len() - 1 {
        assert(updated.drop_last() =~= entries.drop_last());
    } else {
        assert(updated.drop_last() =~= entries.drop_last().update(i, entry));
        lemma_sum_update(entries.drop_last(), i, entry);
    }
}

/// Where no amount is negative, no single amount exceeds the sum.
pub proof fn lemma_sum_bounds(entries: Seq<EntryView>, i: int)
    requires
        forall|k: int| 0 <= k < entries.len() ==> (#[trigger] entries[k]).amount >= 0,
        0 <= i < entries.len(),
    ensures
        0 <= entries[i].amount <= sum(entries),
    decreases entries.len(),
{
    lemma_sum_non_negative(entries.drop_last());
    if i < entries.len() - 1 {
        lemma_sum_bounds(entries.drop_last(), i);
    }
}

/// Where no amount is negative, the sum is not negative either.
pub proof fn lemma_sum_non_negative(entries: Seq<EntryView>)
    requires
        forall|k: int| 0 <= k < entries.len() ==> (#[trigger] entries[k]).amount >= 0,
    ensures
        sum(entries) >= 0,
    decreases entries.len(),
{
    if entries.len() > 0 {
        lemma_sum_non_negative(entries.drop_last());
    }
}

/// Where no amount is negative, the sum is zero exactly when every amount is.
pub proof fn lemma_sum_zero(entries: Seq<EntryView>)
    requires
        forall|k: int| 0 <= k < entries.len() ==> (#[trigger] entries[k]).amount >= 0,
    ensures
        sum(entries) == 0 <==> forall|k: int|
            0 <= k < entries.len() ==> (#[trigger] entries[k]).amount == 0,
    decreases entries.len(),
{
    if entries.len() > 0 {
        let rest = entries.drop_last();
        lemma_sum_zero(rest);
        lemma_sum_non_negative(rest);
        if sum(entries) == 0 {
            assert forall|k: int| 0 <= k < entries.len() implies (#[trigger] entries[k]).amount
                == 0 by {
                if k < rest.len() {
                    assert(rest[k].amount == 0);
                }
            }
        } else {
            if forall|k: int| 0 <= k < entries.len() ==> (#[trigger] entries[k]).amount == 0 {
                assert forall|k: int| 0 <= k < rest.len() implies (#[trigger] rest[k]).amount
                    == 0 by {
                    assert(entries[k].amount == 0);
                }
                assert(entries.last().amount == 0);
            }
        }
    }
}


/// Recording a further amount keeps the ledger well formed, adds the amount
/// to the line of `who` and to the sum, touches no other line, and lengthens
/// the list of contributors only by a party that was not on it.
pub proof fn lemma_credited(ledger: LedgerView, who: Seq<char>, amount: int)
    requires
        ledger.distinct(),
        ledger.non_negative(),
        amount >= 0,
    ensures
        ledger.credited(who, amount).distinct(),
        ledger.credited(who, amount).non_negative(),
        ledger.credited(who, amount).total() == ledger.total() + amount,
        ledger.credited(who, amount).amount_of(who) == ledger.amount_of(who) + amount,
        forall|other: Seq<char>|
            other != who ==> #[trigger] ledger.credited(who, amount).amount_of(other)
                == ledger.amount_of(other),
        ledger.credited(who, amount).contributors() == if ledger.has(who) || amount == 0 {
            ledger.contributors()
        } else {
            ledger.contributors().push(who)
        },
{
    let after = ledger.credited(who, amount);
    if ledger.has(who) {
        let i = ledger.index_of(who);
        lemma_sum_update(
            ledger.entries,
            i,
            EntryView { contributor: who, amount: ledger.entries[i].amount + amount },
        );
        assert(after.entries[i].contributor == who);
        assert(after.distinct()) by {
            assert forall|a: int, b: int| 0 <= a < b < after.entries.len() implies (
            #[trigger] after.entries[a]).contributor != (#[trigger] after.entries[b]).contributor by {
                assert(ledger.entries[a].contributor != ledger.entries[b].contributor);
            }
        }
        lemma_index_of(after, i);
        assert(after.contributors() =~= ledger.contributors());
    } else if amount > 0 {
        let i = ledger.entries.len() as int;
        assert(after.entries.drop_last() =~= ledger.entries);
        assert(after.distinct()) by {
            assert forall|a: int, b: int| 0 <= a < b < after.entries.len() implies (
            #[trigger] after.entries[a]).contributor != (#[trigger] after.entries[b]).contributor by {
                if b < i {
                    assert(ledger.entries[a].contributor != ledger.entries[b].contributor);
                } else {
                    assert(ledger.entries[a].contributor != who);
                }
            }
        }
        lemma_index_of(after, i);
        assert(after.contributors() =~= ledger.contributors().push(who));
    }
    assert forall|other: Seq<char>| other != who implies #[trigger] after.amount_of(other)
        == ledger.amount_of(other) by {
        lemma_same_elsewhere(ledger, after, other);
    }
}

/// Giving back the amount of `who` keeps the ledger well formed, takes the
/// amount off the sum, leaves the line of `who` at zero, and touches neither
/// another line nor the list of contributors.
pub proof fn lemma_cleared(ledger: LedgerView, who: Seq<char>)
    requires
        ledger.distinct(),
        ledger.non_negative(),
    ensures
        ledger.cleared(who).distinct(),
        ledger.cleared(who).non_negative(),
        ledger.cleared(who).total() == ledger.total() - ledger.amount_of(who),
        ledger.cleared(who).amount_of(who) == 0,
        forall|other: Seq<char>|
            other != who ==> #[trigger] ledger.cleared(who).amount_of(other) == ledger.amount_of(
                other,
            ),
        ledger.cleared(who).contributors() == ledger.contributors(),
        0 <= ledger.amount_of(who) <= ledger.total(),
{
    let after = ledger.cleared(who);
    if ledger.has(who) {
        let i = ledger.index_of(who);
        lemma_sum_update(ledger.entries, i, EntryView { contributor: who, amount: 0 });
        lemma_sum_bounds(ledger.entries, i);
        assert(after.entries[i].contributor == who);
        assert(after.distinct()) by {
            assert forall|a: int, b: int| 0 <= a < b < after.entries.len() implies (
            #[trigger] after.entries[a]).contributor != (#[trigger] after.entries[b]).contributor by {
                assert(ledger.entries[a].contributor != ledger.entries[b].contributor);
            }
        }
        lemma_index_of(after, i);
        assert(after.contributors() =~= ledger.contributors());
    } else {
        lemma_sum_non_negative(ledger.entries);
    }
    assert forall|other: Seq<char>| other != who implies #[trigger] after.amount_of(other)
        == ledger.amount_of(other) by {
        lemma_same_elsewhere(ledger, after, other);
    }
}

/// Two ledgers that agree on every line of `other`, and on which lines those
/// are, record the same amount for `other`.
proof fn lemma_same_elsewhere(before: LedgerView, after: LedgerView, other: Seq<char>)
    requires
        before.distinct(),
        after.distinct(),
        before.entries.len() <= after.entries.len(),
        forall|i: int|
            0 <= i < before.entries.len() ==> (#[trigger] after.entries[i]).contributor
                == before.entries[i].contributor,
        forall|i: int|
            0 <= i < before.entries.len() && before.entries[i].contributor == other ==> (
            #[trigger] after.entries[i]).amount == before.entries[i].amount,
        forall|i: int|
            before.entries.len() <= i < after.entries.len() ==> (
            #[trigger] after.entries[i]).contributor != other,
    ensures
        after.amount_of(other) == before.amount_of(other),
{
    if before.has(other) {
        let i = before.index_of(other);
        lemma_index_of(before, i);
        assert(after.entries[i].contributor == other);
        lemma_index_of(after, i);
    } else if after.has(other) {
        let j = after.index_of(other);
        assert(after.entries[j].contributor == other);
        if j < before.entries.len() {
            assert(before.entries[j].contributor == other);
        }
    }
}


/// The sum of the first `i + 1` lines is the sum of the first `i` and the
/// amount of the line after them.
pub proof fn lemma_sum_step(entries: Seq<EntryView>, i: int)
    requires
        0 <= i < entries.len(),
    ensures
        sum(entries.take(i + 1)) == sum(entries.take(i)) + entries[i].amount,
{
    assert(entries.take(i + 1).drop_last() =~= entries.take(i));
}

/// Where no amount is negative, the first lines sum to no more than all of
/// them.
pub proof fn lemma_sum_prefix(entries: Seq<EntryView>, i: int)
    requires
        forall|k: int| 0 <= k < entries.len() ==> (#[trigger] entries[k]).amount >= 0,
        0 <= i <= entries.len(),
    ensures
        0 <= sum(entries.take(i)) <= sum(entries),
    decreases entries.len() - i,
{
    if i == entries.len() {
        assert(entries.take(i) =~= entries);
        lemma_sum_non_negative(entries);
    } else {
        lemma_sum_step(entries, i);
        lemma_sum_prefix(entries, i + 1);
        assert forall|k: int| 0 <= k < entries.take(i).len() implies (#[trigger] entries.take(
            i,
        )[k]).amount >= 0 by {
            assert(entries[k].amount >= 0);
        }
        lemma_sum_non_negative(entries.take(i));
    }
}

/// One line of the ledger as it is stored.
#[derive(Debug, PartialEq, Eq)]
pub struct Entry {
    contributor: Address,
    amount: i128,
}

impl View for Entry {
    type V = EntryView;

    closed spec fn view(&self) -> EntryView {
        EntryView { contributor: self.contributor@, amount: self.amount as int }
    }
}

impl Clone for Entry {
    fn clone(&self) -> (copy: Entry)
        ensures
            copy == *self,
    {
        Entry { contributor: self.contributor.clone(), amount: self.amount }
    }
}

/// The contribution ledger.
///
/// It holds one line per contributor, in the order in which the contributors
/// first put in a positive amount. A line is never removed: a refund leaves it
/// at zero.
#[derive(Debug, PartialEq, Eq)]
pub struct Ledger {
    entries: Vec<Entry>,
}

impl View for Ledger {
    type V = LedgerView;

    closed spec fn view(&self) -> LedgerView {
        LedgerView { entries: self.entries@.map_values(|e: Entry| e@) }
    }
}

impl Clone for Ledger {
    fn clone(&self) -> (copy: Ledger)
        ensures
            copy@ == self@,
    {
        let copy = Ledger { entries: self.entries.clone() };
        assert(copy.entries@ =~= self.entries@);
        copy
    }
}

/// The ledger that holds `lines`, in their order.
pub open spec fn lines_view(lines: Seq<(Address, i128)>) -> LedgerView {
    LedgerView {
        entries: lines.map_values(
            |line: (Address, i128)| EntryView { contributor: line.0@, amount: line.1 as int },
        ),
    }
}

/// The texts of a list of addresses.
pub open spec fn texts(addresses: Seq<Address>) -> Seq<Seq<char>> {
    addresses.map_values(|a: Address| a@)
}

impl Ledger {
    /// A ledger without any line.
    pub fn new() -> (ledger: Ledger)
        ensures
            ledger@ == LedgerView::empty(),
            ledger@.wf(),
    {
        let ledger = Ledger { entries: Vec::new() };
        assert(ledger@.entries =~= Seq::empty());
        ledger
    }

    /// The ledger with the lines `lines`, in their order, if they make a
    /// ledger: one line per contributor, no negative amount, and no more
    /// lines than a `u32` can count.
    pub fn from_lines(lines: &Vec<(Address, i128)>) -> (ledger: Option<Ledger>)
        ensures
            match ledger {
                Some(ledger) => ledger@ == lines_view(lines@) && ledger@.wf(),
                None => !lines_view(lines@).wf(),
            },
    {
        if lines.len() > 0xffff_ffff {
            return None;
        }
        let mut ledger = Ledger { entries: Vec::new() };
        let mut i: usize = 0;
        while i < lines.len()
            invariant
                i <= lines.len(),
                lines.len() <= u32::MAX,
                ledger@.entries =~= lines_view(lines@).entries.take(i as int),
                ledger@.distinct(),
                ledger@.non_negative(),
            decreases lines.len() - i,
        {
            let ghost target = lines_view(lines@);
            if lines[i].1 < 0 {
                assert(target.entries[i as int].amount < 0);
                return None;
            }
            match ledger.position(&lines[i].0) {
                Some(j) => {
                    assert(target.entries[j as int] == ledger@.entries[j as int]);
                    assert(target.entries[j as int].contributor == target.entries[i as int].contributor);
                    return None;
                },
                None => {},
            }
            ledger.entries.push(Entry { contributor: lines[i].0.clone(), amount: lines[i].1 });
            assert(ledger@.entries =~= target.entries.take(i + 1));
            assert(ledger@.distinct()) by {
                assert forall|a: int, b: int| 0 <= a < b < ledger@.entries.len() implies (
                #[trigger] ledger@.entries[a]).contributor != (
                #[trigger] ledger@.entries[b]).contributor by {
                    if b < i {
                        assert(target.entries.take(i as int)[a].contributor != target.entries.take(
                            i as int,
                        )[b].contributor);
                    } else {
                        assert(target.entries.take(i as int)[a].contributor
                            != target.entries[i as int].contributor);
                    }
                }
            }
            i += 1;
        }
        assert(lines_view(lines@).entries.take(i as int) =~= lines_view(lines@).entries);
        Some(ledger)
    }

    /// The sum of all recorded amounts, or `None` where it is too large for
    /// the machine type.
    pub fn total(&self) -> (total: Option<i128>)
        requires
            self@.non_negative(),
        ensures
            match total {
                Some(total) => total == self@.total(),
                None => self@.total() > i128::MAX,
            },
    {
        let mut total: i128 = 0;
        let mut i: usize = 0;
        assert(self@.entries.take(0) =~= Seq::empty());
        while i < self.entries.len()
            invariant
                i <= self.entries.len(),
                self@.non_negative(),
                total == sum(self@.entries.take(i as int)),
            decreases self.entries.len() - i,
        {
            proof {
                lemma_sum_step(self@.entries, i as int);
                lemma_sum_prefix(self@.entries, i + 1);
            }
            total = match total.checked_add(self.entries[i].amount) {
                Some(total) => total,
                None => {
                    return None;
                },
            };
            i += 1;
        }
        assert(self@.entries.take(i as int) =~= self@.entries);
        Some(total)
    }

    /// The number of lines.
    pub fn len(&self) -> (n: usize)
        ensures
            n == self@.entries.len(),
    {
        self.entries.len()
    }

    /// The place of the line of `who`, if there is one.
    fn position(&self, who: &Address) -> (place: Option<usize>)
        ensures
            match place {
                Some(i) => i < self@.entries.len() && self@.entries[i as int].contributor == who@,
                None => !self@.has(who@),
            },
    {
        let mut i: usize = 0;
        while i < self.entries.len()
            invariant
                i <= self.entries.len(),
                forall|k: int| 0 <= k < i ==> (#[trigger] self@.entries[k]).contributor != who@,
            decreases self.entries.len() - i,
        {
            if self.entries[i].contributor == *who {
                return Some(i);
            }
            i += 1;
        }
        None
    }

    /// Whether `who` has a line.
    pub fn contains(&self, who: &Address) -> (found: bool)
        ensures
            found == self@.has(who@),
    {
        self.position(who).is_some()
    }

    /// The amount recorded for `who`: 0 for a party without a line.
    pub fn amount_of(&self, who: &Address) -> (amount: i128)
        requires
            self@.wf(),
        ensures
            amount == self@.amount_of(who@),
    {
        match self.position(who) {
            Some(i) => {
                proof {
                    lemma_index_of(self@, i as int);
                }
                self.entries[i].amount
            },
            None => 0,
        }
    }

    /// Records `amount` more for `who`.
    pub(crate) fn credit(&mut self, who: &Address, amount: i128)
        requires
            old(self)@.wf(),
            amount >= 0,
            old(self)@.total() + amount <= i128::MAX,
            old(self)@.has(who@) || amount == 0 || old(self)@.entries.len() < u32::MAX,
        ensures
            final(self)@ == old(self)@.credited(who@, amount as int),
            final(self)@.wf(),
    {
        proof {
            lemma_credited(self@, who@, amount as int);
        }
        match self.position(who) {
            Some(i) => {
                proof {
                    lemma_index_of(self@, i as int);
                    lemma_sum_bounds(self@.entries, i as int);
                }
                let sum = self.entries[i].amount + amount;
                self.entries[i].amount = sum;
                assert(self@.entries =~= old(self)@.credited(who@, amount as int).entries);
            },
            None => {
                if amount > 0 {
                    self.entries.push(Entry { contributor: who.clone(), amount });
                    assert(self@.entries =~= old(self)@.credited(who@, amount as int).entries);
                }
            },
        }
    }

    /// Gives back what is recorded for `who`: the line goes to zero, and the
    /// amount it held is returned.
    pub(crate) fn clear(&mut self, who: &Address) -> (amount: i128)
        requires
            old(self)@.wf(),
        ensures
            amount == old(self)@.amount_of(who@),
            final(self)@ == old(self)@.cleared(who@),
            final(self)@.wf(),
    {
        proof {
            lemma_cleared(self@, who@);
        }
        match self.position(who) {
            Some(i) => {
                proof {
                    lemma_index_of(self@, i as int);
                }
                let amount = self.entries[i].amount;
                self.entries[i].amount = 0;
                assert(self@.entries =~= old(self)@.cleared(who@).entries);
                amount
            },
            None => 0,
        }
    }

    /// The contributors in the order in which they first contributed.
    pub fn contributors(&self) -> (list: Vec<Address>)
        ensures
            texts(list@) == self@.contributors(),
    {
        let mut list: Vec<Address> = Vec::new();
        let mut i: usize = 0;
        while i < self.entries.len()
            invariant
                i <= self.entries.len(),
                list@.len() == i,
                forall|k: int| 0 <= k < i ==> (#[trigger] list@[k])@ == self@.entries[k].contributor,
            decreases self.entries.len() - i,
        {
            list.push(self.entries[i].contributor.clone());
            i += 1;
        }
        assert(texts(list@) =~= self@.contributors());
        list
    }

    /// The contributors whose recorded amount is positive, in ledger order.
    pub fn funded(&self) -> (list: Vec<Address>)
        ensures
            texts(list@) == self@.funded(),
    {
        let mut list: Vec<Address> = Vec::new();
        let mut i: usize = 0;
        assert(self@.entries.take(0) =~= Seq::empty());
        assert(texts(list@) =~= funded_among(self@.entries.take(0))) by {
            reveal(Seq::filter);
        }
        while i < self.entries.len()
            invariant
                i <= self.entries.len(),
                texts(list@) == funded_among(self@.entries.take(i as int)),
            decreases self.entries.len() - i,
        {
            proof {
                lemma_funded_step(self@.entries, i as int);
            }
            if self.entries[i].amount > 0 {
                let ghost before = list@;
                list.push(self.entries[i].contributor.clone());
                assert(texts(list@) =~= texts(before).push(self@.entries[i as int].contributor));
            }
            i += 1;
        }
        assert(self@.entries.take(i as int) =~= self@.entries);
        list
    }

    /// The largest recorded amount, or 0 for a ledger without lines.
    pub fn largest(&self) -> (amount: i128)
        requires
            self@.wf(),
        ensures
            self@.largest_is(amount as int),
    {
        let mut largest: i128 = 0;
        let mut i: usize = 0;
        while i < self.entries.len()
            invariant
                i <= self.entries.len(),
                self@.non_negative(),
                forall|k: int| 0 <= k < i ==> (#[trigger] self@.entries[k]).amount <= largest,
                if i == 0 {
                    largest == 0
                } else {
                    exists|k: int| 0 <= k < i && (#[trigger] self@.entries[k]).amount == largest
                },
            decreases self.entries.len() - i,
        {
            let amount = self.entries[i].amount;
            if amount > largest {
                largest = amount;
            } else if i == 0 {
                assert(self@.entries[0].amount >= 0);
            }
            assert(self@.entries[i as int].amount <= largest);
            i += 1;
        }
        largest
    }
}

/// The contributors of `entries` whose amount is positive, in order.
pub open spec fn funded_among(entries: Seq<EntryView>) -> Seq<Seq<char>> {
    entries.filter(|e: EntryView| e.amount > 0).map_values(|e: EntryView| e.contributor)
}

/// Looking at one more line adds its contributor to the funded ones exactly
/// when its amount is positive.
pub proof fn lemma_funded_step(entries: Seq<EntryView>, i: int)
    requires
        0 <= i < entries.len(),
    ensures
        funded_among(entries.take(i + 1)) == if entries[i].amount > 0 {
            funded_among(entries.take(i)).push(entries[i].contributor)
        } else {
            funded_among(entries.take(i))
        },
{
    reveal(Seq::filter);
    let longer = entries.take(i + 1);
    assert(longer.drop_last() =~= entries.take(i));
    assert(longer.last() == entries[i]);
    let keep = |e: EntryView| e.amount > 0;
    if entries[i].amount > 0 {
        assert(longer.filter(keep) == entries.take(i).filter(keep).push(entries[i]));
        assert(funded_among(longer) =~= funded_among(entries.take(i)).push(entries[i].contributor));
    } else {
        assert(longer.filter(keep) == entries.take(i).filter(keep));
    }
}

} // verus!

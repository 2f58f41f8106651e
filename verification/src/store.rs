//! The record store: a durable mapping from buyer identity to the two
//! strings a completed purchase leaves behind, the delivery destination and
//! the chosen order option. Both are written together by the same step, so
//! they are held in one entry per buyer; a later purchase by the same buyer
//! overwrites the earlier entry.

use vstd::prelude::*;

verus! {

/// One buyer's record: the identity it is keyed by, the delivery
/// destination, and the chosen order option.
pub struct Entry {
    pub account: String,
    pub shipping: String,
    pub option: String,
}

/// The store itself: one entry per buyer, no two entries for the same
/// identity. Viewed abstractly as two maps with the same set of keys.
pub struct RecordStore {
    entries: Vec<Entry>,
}

/// The order options recorded in `s`, later entries overriding earlier ones.
spec fn options_of(s: Seq<Entry>) -> Map<Seq<char>, Seq<char>>
    decreases s.len(),
{
    if s.len() == 0 {
        Map::empty()
    } else {
        options_of(s.drop_last()).insert(s.last().account@, s.last().option@)
    }
}

/// The delivery destinations recorded in `s`, keyed like `options_of`.
spec fn shipping_of(s: Seq<Entry>) -> Map<Seq<char>, Seq<char>>
    decreases s.len(),
{
    if s.len() == 0 {
        Map::empty()
    } else {
        shipping_of(s.drop_last()).insert(s.last().account@, s.last().shipping@)
    }
}

/// No two entries are keyed by the same identity.
spec fn unique_accounts(s: Seq<Entry>) -> bool {
    forall|i: int, j: int| 0 <= i < j < s.len() ==> s[i].account@ != s[j].account@
}

impl RecordStore {
    /// The recorded order options, as a map from identity to option.
    pub closed spec fn options(&self) -> Map<Seq<char>, Seq<char>> {
        options_of(self.entries@)
    }

    /// The recorded delivery destinations, as a map from identity to destination.
    pub closed spec fn shipping(&self) -> Map<Seq<char>, Seq<char>> {
        shipping_of(self.entries@)
    }

    /// Well-formedness: one entry per identity.
    pub closed spec fn wf(&self) -> bool {
        unique_accounts(self.entries@)
    }

    /// An empty store.
    pub fn new() -> (r: RecordStore)
        ensures
            r.wf(),
            r.options() == Map::<Seq<char>, Seq<char>>::empty(),
            r.shipping() == Map::<Seq<char>, Seq<char>>::empty(),
    {
        RecordStore { entries: Vec::new() }
    }

    /// The position of `account`'s entry, if one exists.
    fn find_index(&self, account: &String) -> (r: Option<usize>)
        ensures
            match r {
                Some(i) => i < self.entries@.len() && self.entries@[i as int].account@
                    == account@,
                None => forall|i: int|
                    0 <= i < self.entries@.len() ==> self.entries@[i].account@ != account@,
            },
    {
        let mut i: usize = 0;
        while i < self.entries.len()
            invariant
                i <= self.entries@.len(),
                forall|j: int| 0 <= j < i ==> self.entries@[j].account@ != account@,
            decreases self.entries@.len() - i,
        {
            if self.entries[i].account == *account {
                return Some(i);
            }
            i = i + 1;
        }
        None
    }

    /// Record `shipping` and `option` for `account`, replacing whatever the
    /// store held for that identity before.
    pub fn insert(&mut self, account: &String, shipping: String, option: String)
        requires
            old(self).wf(),
        ensures
            final(self).wf(),
            final(self).options() == old(self).options().insert(account@, option@),
            final(self).shipping() == old(self).shipping().insert(account@, shipping@),
    {
        let found = self.find_index(account);
        let e = Entry { account: account.clone(), shipping, option };
        match found {
            Some(i) => {
                proof {
                    lemma_update_entry(self.entries@, i as int, e);
                }
                self.entries[i] = e;
            },
            None => {
                proof {
                    lemma_push_entry(self.entries@, e);
                }
                self.entries.push(e);
            },
        }
    }

    /// The order option recorded for `account`, if any.
    pub fn get_option(&self, account: &String) -> (r: Option<String>)
        requires
            self.wf(),
        ensures
            match r {
                Some(v) => self.options().dom().contains(account@) && v@ == self.options()[account@],
                None => !self.options().dom().contains(account@),
            },
    {
        match self.find_index(account) {
            Some(i) => {
                proof {
                    lemma_entry_lookup(self.entries@, i as int);
                }
                Some(self.entries[i].option.clone())
            },
            None => {
                proof {
                    lemma_entry_absent(self.entries@, account@);
                }
                None
            },
        }
    }

    /// The delivery destination recorded for `account`, if any.
    pub fn get_shipping(&self, account: &String) -> (r: Option<String>)
        requires
            self.wf(),
        ensures
            match r {
                Some(v) => self.shipping().dom().contains(account@) && v@ == self.shipping()[account@],
                None => !self.shipping().dom().contains(account@),
            },
    {
        match self.find_index(account) {
            Some(i) => {
                proof {
                    lemma_entry_lookup(self.entries@, i as int);
                }
                Some(self.entries[i].shipping.clone())
            },
            None => {
                proof {
                    lemma_entry_absent(self.entries@, account@);
                }
                None
            },
        }
    }

    /// The stored entries, one per recorded buyer: each holds exactly what
    /// the maps hold for its identity, and every recorded identity has one.
    pub fn entries(&self) -> (r: &Vec<Entry>)
        requires
            self.wf(),
        ensures
            forall|i: int|
                0 <= i < r@.len() ==> self.options().dom().contains((#[trigger] r@[i]).account@)
                    && self.options()[r@[i].account@] == r@[i].option@
                    && self.shipping().dom().contains(r@[i].account@)
                    && self.shipping()[r@[i].account@] == r@[i].shipping@,
            forall|k: Seq<char>|
                #[trigger] self.options().dom().contains(k) ==> exists|i: int|
                    0 <= i < r@.len() && r@[i].account@ == k,
    {
        proof {
            assert forall|i: int| 0 <= i < self.entries@.len() implies self.options().dom().contains(
                (#[trigger] self.entries@[i]).account@,
            ) && self.options()[self.entries@[i].account@] == self.entries@[i].option@
                && self.shipping().dom().contains(self.entries@[i].account@)
                && self.shipping()[self.entries@[i].account@] == self.entries@[i].shipping@ by {
                lemma_entry_lookup(self.entries@, i);
            }
            assert forall|k: Seq<char>| #[trigger]
                self.options().dom().contains(k) implies exists|i: int|
                0 <= i < self.entries@.len() && self.entries@[i].account@ == k by {
                lemma_key_has_entry(self.entries@, k);
            }
        }
        &self.entries
    }

    /// The two maps are written together by the same step, so an identity has
    /// a recorded option exactly when it has a recorded destination.
    pub proof fn lemma_records_paired(&self)
        ensures
            self.options().dom() == self.shipping().dom(),
    {
        lemma_same_keys(self.entries@);
    }
}

/// An entry at position `i` of a well-keyed sequence is what the maps hold
/// for its identity.
proof fn lemma_entry_lookup(s: Seq<Entry>, i: int)
    requires
        unique_accounts(s),
        0 <= i < s.len(),
    ensures
        options_of(s).dom().contains(s[i].account@),
        options_of(s)[s[i].account@] == s[i].option@,
        shipping_of(s).dom().contains(s[i].account@),
        shipping_of(s)[s[i].account@] == s[i].shipping@,
    decreases s.len(),
{
    if i < s.len() - 1 {
        assert(s[i].account@ != s.last().account@);
        lemma_entry_lookup(s.drop_last(), i);
    }
}

/// An identity no entry is keyed by is absent from both maps.
proof fn lemma_entry_absent(s: Seq<Entry>, k: Seq<char>)
    requires
        forall|i: int| 0 <= i < s.len() ==> s[i].account@ != k,
    ensures
        !options_of(s).dom().contains(k),
        !shipping_of(s).dom().contains(k),
    decreases s.len(),
{
    if s.len() > 0 {
        lemma_entry_absent(s.drop_last(), k);
    }
}

/// Replacing the entry at `i` with one keyed by the same identity updates
/// the maps at that key alone.
proof fn lemma_update_entry(s: Seq<Entry>, i: int, e: Entry)
    requires
        unique_accounts(s),
        0 <= i < s.len(),
        e.account@ == s[i].account@,
    ensures
        unique_accounts(s.update(i, e)),
        options_of(s.update(i, e)) == options_of(s).insert(e.account@, e.option@),
        shipping_of(s.update(i, e)) == shipping_of(s).insert(e.account@, e.shipping@),
    decreases s.len(),
{
    let t = s.update(i, e);
    if i == s.len() - 1 {
        assert(t.drop_last() =~= s.drop_last());
        assert(options_of(t) =~= options_of(s).insert(e.account@, e.option@));
        assert(shipping_of(t) =~= shipping_of(s).insert(e.account@, e.shipping@));
    } else {
        lemma_update_entry(s.drop_last(), i, e);
        assert(t.drop_last() =~= s.drop_last().update(i, e));
        assert(s[i].account@ != s.last().account@);
        assert(options_of(t) =~= options_of(s).insert(e.account@, e.option@));
        assert(shipping_of(t) =~= shipping_of(s).insert(e.account@, e.shipping@));
    }
}

/// Appending an entry keyed by a fresh identity extends the maps at that key.
proof fn lemma_push_entry(s: Seq<Entry>, e: Entry)
    requires
        unique_accounts(s),
        forall|i: int| 0 <= i < s.len() ==> s[i].account@ != e.account@,
    ensures
        unique_accounts(s.push(e)),
        options_of(s.push(e)) == options_of(s).insert(e.account@, e.option@),
        shipping_of(s.push(e)) == shipping_of(s).insert(e.account@, e.shipping@),
{
    assert(s.push(e).drop_last() =~= s);
    assert(s.push(e).last() == e);
    assert forall|i: int, j: int| 0 <= i < j < s.push(e).len() implies s.push(e)[i].account@
        != s.push(e)[j].account@ by {
        if j == s.len() {
            assert(s.push(e)[i] == s[i]);
        }
    }
}

/// Every identity the maps know has an entry keyed by it.
proof fn lemma_key_has_entry(s: Seq<Entry>, k: Seq<char>)
    requires
        options_of(s).dom().contains(k),
    ensures
        exists|i: int| 0 <= i < s.len() && s[i].account@ == k,
    decreases s.len(),
{
    if s.len() > 0 && s.last().account@ != k {
        lemma_key_has_entry(s.drop_last(), k);
        let i = choose|i: int| 0 <= i < s.drop_last().len() && s.drop_last()[i].account@ == k;
        assert(s[i].account@ == k);
    } else if s.len() > 0 {
        assert(s[s.len() - 1].account@ == k);
    }
}

/// The two maps always share one set of keys.
proof fn lemma_same_keys(s: Seq<Entry>)
    ensures
        options_of(s).dom() == shipping_of(s).dom(),
    decreases s.len(),
{
    if s.len() > 0 {
        lemma_same_keys(s.drop_last());
    }
    assert(options_of(s).dom() =~= shipping_of(s).dom());
}

} // verus!

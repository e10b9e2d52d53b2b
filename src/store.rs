use vstd::prelude::*;
use crate::content::{FeedEntry, FeedEntryView};

verus! {

/// One feed key with its latest entry.
pub struct FeedSlot {
    pub key: String,
    pub entry: FeedEntry,
}

/// What is currently known of each feed: at most one entry per key.
pub struct FeedStore {
    slots: Vec<FeedSlot>,
}

/// The entries of a run of slots as a map; a later slot wins over an
/// earlier one with the same key.
pub open spec fn slots_map(s: Seq<FeedSlot>) -> Map<Seq<char>, FeedEntryView>
    decreases s.len(),
{
    if s.len() == 0 {
        Map::empty()
    } else {
        slots_map(s.drop_last()).insert(s.last().key@, s.last().entry.deep_view())
    }
}

/// No two slots share a key.
pub open spec fn keys_distinct(s: Seq<FeedSlot>) -> bool {
    forall|i: int, j: int| 0 <= i < s.len() && 0 <= j < s.len() && i != j ==> s[i].key@ != s[j].key@
}

proof fn lemma_slots_map_domain(s: Seq<FeedSlot>, k: Seq<char>)
    ensures
        slots_map(s).contains_key(k) <==> exists|i: int| 0 <= i < s.len() && s[i].key@ == k,
    decreases s.len(),
{
    if s.len() > 0 {
        lemma_slots_map_domain(s.drop_last(), k);
        if slots_map(s.drop_last()).contains_key(k) {
            let i = choose|i: int| 0 <= i < s.drop_last().len() && s.drop_last()[i].key@ == k;
            assert(s[i].key@ == k);
        }
        if exists|i: int| 0 <= i < s.len() && s[i].key@ == k {
            let i = choose|i: int| 0 <= i < s.len() && s[i].key@ == k;
            if i < s.len() - 1 {
                assert(s.drop_last()[i].key@ == k);
            }
        }
    }
}

proof fn lemma_slots_map_value(s: Seq<FeedSlot>, i: int)
    requires
        keys_distinct(s),
        0 <= i < s.len(),
    ensures
        slots_map(s).contains_key(s[i].key@),
        slots_map(s)[s[i].key@] == s[i].entry.deep_view(),
    decreases s.len(),
{
    if i < s.len() - 1 {
        lemma_slots_map_value(s.drop_last(), i);
    }
}

proof fn lemma_slots_map_len(s: Seq<FeedSlot>)
    requires
        keys_distinct(s),
    ensures
        slots_map(s).dom().finite(),
        slots_map(s).len() == s.len(),
    decreases s.len(),
{
    if s.len() > 0 {
        lemma_slots_map_len(s.drop_last());
        lemma_slots_map_domain(s.drop_last(), s.last().key@);
        assert(!slots_map(s.drop_last()).contains_key(s.last().key@));
    }
}

proof fn lemma_slots_map_update(s: Seq<FeedSlot>, i: int, slot: FeedSlot)
    requires
        keys_distinct(s),
        0 <= i < s.len(),
        slot.key@ == s[i].key@,
    ensures
        slots_map(s.update(i, slot)) == slots_map(s).insert(slot.key@, slot.entry.deep_view()),
    decreases s.len(),
{
    let t = s.update(i, slot);
    if i == s.len() - 1 {
        assert(t.drop_last() =~= s.drop_last());
        lemma_slots_map_domain(s.drop_last(), slot.key@);
        assert(slots_map(t) =~= slots_map(s).insert(slot.key@, slot.entry.deep_view()));
    } else {
        assert(t.drop_last() =~= s.drop_last().update(i, slot));
        lemma_slots_map_update(s.drop_last(), i, slot);
        assert(slots_map(t) =~= slots_map(s).insert(slot.key@, slot.entry.deep_view()));
    }
}

impl FeedStore {
    pub closed spec fn view(&self) -> Map<Seq<char>, FeedEntryView> {
        slots_map(self.slots@)
    }

    pub closed spec fn wf(&self) -> bool {
        keys_distinct(self.slots@)
    }

    pub fn new() -> (r: FeedStore)
        ensures
            r.wf(),
            r@ == Map::<Seq<char>, FeedEntryView>::empty(),
    {
        FeedStore { slots: Vec::new() }
    }

    /// The position of the slot for `key`.
    fn find(&self, key: &String) -> (r: Option<usize>)
        ensures
            r matches Some(i) ==> i < self.slots@.len() && self.slots@[i as int].key@ == key@,
            r is None ==> forall|i: int| 0 <= i < self.slots@.len() ==> self.slots@[i].key@ != key@,
    {
        let mut i: usize = 0;
        while i < self.slots.len()
            invariant
                i <= self.slots@.len(),
                forall|j: int| 0 <= j < i ==> self.slots@[j].key@ != key@,
            decreases self.slots@.len() - i,
        {
            if self.slots[i].key == *key {
                return Some(i);
            }
            i = i + 1;
        }
        None
    }

    /// The number of feeds with an entry.
    pub fn len(&self) -> (r: usize)
        requires
            self.wf(),
        ensures
            r == self@.len(),
    {
        proof {
            lemma_slots_map_len(self.slots@);
        }
        self.slots.len()
    }

    pub fn contains_key(&self, key: &String) -> (r: bool)
        ensures
            r == self@.contains_key(key@),
    {
        proof {
            lemma_slots_map_domain(self.slots@, key@);
        }
        self.find(key).is_some()
    }

    /// The latest entry for `key`.
    pub fn get(&self, key: &String) -> (r: Option<&FeedEntry>)
        requires
            self.wf(),
        ensures
            r is Some <==> self@.contains_key(key@),
            r matches Some(e) ==> self@[key@] == e.deep_view(),
    {
        proof {
            lemma_slots_map_domain(self.slots@, key@);
        }
        match self.find(key) {
            Some(i) => {
                proof {
                    lemma_slots_map_value(self.slots@, i as int);
                }
                Some(&self.slots[i].entry)
            },
            None => None,
        }
    }

    /// Stores `entry` as the latest for `key`, in place of any earlier one.
    pub fn insert(&mut self, key: String, entry: FeedEntry)
        requires
            old(self).wf(),
        ensures
            final(self).wf(),
            final(self)@ == old(self)@.insert(key@, entry.deep_view()),
    {
        let ghost k = key@;
        let ghost e = entry.deep_view();
        match self.find(&key) {
            Some(i) => {
                let slot = FeedSlot { key, entry };
                proof {
                    lemma_slots_map_update(self.slots@, i as int, slot);
                }
                self.slots.set(i, slot);
            },
            None => {
                let slot = FeedSlot { key, entry };
                self.slots.push(slot);
                assert(self.slots@.drop_last() =~= old(self).slots@);
            },
        }
    }
}

} // verus!

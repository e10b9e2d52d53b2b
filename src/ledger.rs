use vstd::prelude::*;
use vstd::multiset::Multiset;
use vstd::seq_lib::lemma_multiset_commutative;

verus! {

/// Appends `key` to `v`.
fn push_key(v: &mut Vec<String>, key: String)
    ensures
        final(v).deep_view() == old(v).deep_view().push(key@),
{
    v.push(key);
    assert(v.deep_view() =~= old(v).deep_view().push(key@));
}

/// Takes the key at position `i` out of `v`.
fn take_key(v: &mut Vec<String>, i: usize) -> (r: String)
    requires
        i < old(v)@.len(),
    ensures
        r@ == old(v).deep_view()[i as int],
        final(v).deep_view() == old(v).deep_view().remove(i as int),
{
    let r = v.remove(i);
    assert(v.deep_view() =~= old(v).deep_view().remove(i as int));
    r
}

/// Whether `v` holds `key`.
fn has_key(v: &Vec<String>, key: &String) -> (r: bool)
    ensures
        r == v.deep_view().contains(key@),
{
    let mut i: usize = 0;
    while i < v.len()
        invariant
            i <= v@.len(),
            forall|j: int| 0 <= j < i ==> v.deep_view()[j] != key@,
        decreases v@.len() - i,
    {
        if v[i] == *key {
            assert(v.deep_view()[i as int] == key@);
            return true;
        }
        i = i + 1;
    }
    false
}

/// Where each known feed key is shown: three ordered panels, and the keys
/// that wait for a panel in the order they were first seen.
pub struct Ledger {
    left: Vec<String>,
    center: Vec<String>,
    right: Vec<String>,
    unassigned: Vec<String>,
}

impl Ledger {
    /// The keys of panel `i` (0, 1 or 2), in order.
    pub closed spec fn panel(&self, i: int) -> Seq<Seq<char>> {
        if i == 0 {
            self.left.deep_view()
        } else if i == 1 {
            self.center.deep_view()
        } else if i == 2 {
            self.right.deep_view()
        } else {
            Seq::empty()
        }
    }

    /// The keys that no panel shows yet, in order.
    pub closed spec fn unassigned(&self) -> Seq<Seq<char>> {
        self.unassigned.deep_view()
    }

    /// Panel `l` for 0, 1 or 2, and the unassigned list for 3.
    pub open spec fn list(&self, l: int) -> Seq<Seq<char>> {
        if l == 3 {
            self.unassigned()
        } else {
            self.panel(l)
        }
    }

    /// The four lists one after another.
    pub open spec fn all_keys(&self) -> Seq<Seq<char>> {
        self.panel(0) + self.panel(1) + self.panel(2) + self.unassigned()
    }

    /// No key stands twice, in one list or across two.
    pub open spec fn wf(&self) -> bool {
        self.all_keys().no_duplicates()
    }

    /// The keys of all four lists, with their counts.
    pub open spec fn key_counts(&self) -> Multiset<Seq<char>> {
        self.panel(0).to_multiset().add(self.panel(1).to_multiset()).add(
            self.panel(2).to_multiset(),
        ).add(self.unassigned().to_multiset())
    }

    /// The other three lists are as in `other`.
    pub open spec fn same_except(&self, other: &Ledger, list: int) -> bool {
        &&& (list != 0 ==> self.panel(0) == other.panel(0))
        &&& (list != 1 ==> self.panel(1) == other.panel(1))
        &&& (list != 2 ==> self.panel(2) == other.panel(2))
        &&& (list != 3 ==> self.unassigned() == other.unassigned())
    }

    proof fn lemma_counts(&self)
        ensures
            self.all_keys().to_multiset() == self.key_counts(),
    {
        lemma_multiset_commutative(self.panel(0), self.panel(1));
        lemma_multiset_commutative(self.panel(0) + self.panel(1), self.panel(2));
        lemma_multiset_commutative(self.panel(0) + self.panel(1) + self.panel(2), self.unassigned());
    }

    /// A ledger that holds the keys of a well-formed one, each as often, is
    /// well formed.
    proof fn lemma_same_counts(a: &Ledger, b: &Ledger)
        requires
            a.wf(),
            a.key_counts() =~= b.key_counts(),
        ensures
            b.wf(),
    {
        a.lemma_counts();
        b.lemma_counts();
        a.all_keys().lemma_multiset_has_no_duplicates();
        b.all_keys().lemma_multiset_has_no_duplicates_conv();
    }

    pub fn new() -> (r: Ledger)
        ensures
            r.wf(),
            r.panel(0) == Seq::<Seq<char>>::empty(),
            r.panel(1) == Seq::<Seq<char>>::empty(),
            r.panel(2) == Seq::<Seq<char>>::empty(),
            r.unassigned() == Seq::<Seq<char>>::empty(),
    {
        let r = Ledger { left: Vec::new(), center: Vec::new(), right: Vec::new(), unassigned: Vec::new() };
        assert(r.all_keys() =~= Seq::<Seq<char>>::empty());
        r
    }

    /// The keys of panel `panel`.
    pub fn panel_keys(&self, panel: usize) -> (r: &Vec<String>)
        requires
            panel < 3,
        ensures
            r.deep_view() == self.panel(panel as int),
    {
        if panel == 0 {
            &self.left
        } else if panel == 1 {
            &self.center
        } else {
            &self.right
        }
    }

    /// The keys that wait for a panel.
    pub fn unassigned_keys(&self) -> (r: &Vec<String>)
        ensures
            r.deep_view() == self.unassigned(),
    {
        &self.unassigned
    }

    /// Whether any of the four lists holds `key`.
    pub fn contains(&self, key: &String) -> (r: bool)
        ensures
            r == self.all_keys().contains(key@),
    {
        let r = has_key(&self.left, key) || has_key(&self.center, key) || has_key(&self.right, key)
            || has_key(&self.unassigned, key);
        proof {
            broadcast use vstd::seq_lib::group_seq_properties;
            if r {
                assert(self.all_keys().contains(key@));
            } else {
                assert(!self.all_keys().contains(key@));
            }
        }
        r
    }

    /// Adds a key that no list holds yet to the end of the unassigned list;
    /// a key that is already placed is left where it is. Returns whether the
    /// key was added.
    pub fn register(&mut self, key: &String) -> (added: bool)
        requires
            old(self).wf(),
        ensures
            final(self).wf(),
            added == !old(self).all_keys().contains(key@),
            added ==> final(self).same_except(old(self), 3)
                && final(self).unassigned() == old(self).unassigned().push(key@),
            !added ==> *final(self) == *old(self),
    {
        if self.contains(key) {
            return false;
        }
        push_key(&mut self.unassigned, key.clone());
        proof {
            assert(self.all_keys() =~= old(self).all_keys().push(key@));
            assert forall|i: int, j: int|
                0 <= i < self.all_keys().len() && 0 <= j < self.all_keys().len() && i != j
                implies self.all_keys()[i] != self.all_keys()[j] by {
                if i == self.all_keys().len() - 1 {
                    assert(old(self).all_keys()[j] == self.all_keys()[j]);
                } else if j == self.all_keys().len() - 1 {
                    assert(old(self).all_keys()[i] == self.all_keys()[i]);
                }
            }
        }
        true
    }

    /// Appends `key` to panel `panel`, or to the unassigned list for 3.
    fn push_to(&mut self, list: usize, key: String)
        requires
            list < 4,
        ensures
            final(self).same_except(old(self), list as int),
            list < 3 ==> final(self).panel(list as int) == old(self).panel(list as int).push(key@),
            list == 3 ==> final(self).unassigned() == old(self).unassigned().push(key@),
    {
        if list == 0 {
            push_key(&mut self.left, key);
        } else if list == 1 {
            push_key(&mut self.center, key);
        } else if list == 2 {
            push_key(&mut self.right, key);
        } else {
            push_key(&mut self.unassigned, key);
        }
    }

    /// Takes the key at position `i` out of panel `list`, or out of the
    /// unassigned list for 3.
    fn take_from(&mut self, list: usize, i: usize) -> (r: String)
        requires
            list < 3 ==> i < old(self).panel(list as int).len(),
            list == 3 ==> i < old(self).unassigned().len(),
            list < 4,
        ensures
            final(self).same_except(old(self), list as int),
            list < 3 ==> r@ == old(self).panel(list as int)[i as int] && final(self).panel(list as int)
                == old(self).panel(list as int).remove(i as int),
            list == 3 ==> r@ == old(self).unassigned()[i as int] && final(self).unassigned()
                == old(self).unassigned().remove(i as int),
    {
        if list == 0 {
            take_key(&mut self.left, i)
        } else if list == 1 {
            take_key(&mut self.center, i)
        } else if list == 2 {
            take_key(&mut self.right, i)
        } else {
            take_key(&mut self.unassigned, i)
        }
    }

    /// Appends each of `keys` that no list holds yet to list `list`, where
    /// the lists after it are empty.
    #[verifier::loop_isolation(false)]
    fn place_all(&mut self, list: usize, keys: &Vec<String>)
        requires
            old(self).wf(),
            list < 4,
            forall|l: int| list < l < 4 ==> old(self).list(l).len() == 0,
        ensures
            final(self).wf(),
            final(self).same_except(old(self), list as int),
            final(self).all_keys() == keys.deep_view().remove_duplicates(old(self).all_keys()),
    {
        let ghost seen = old(self).all_keys();
        let ghost kv = keys.deep_view();
        let mut i: usize = 0;
        assert(kv.take(0) =~= Seq::<Seq<char>>::empty());
        while i < keys.len()
            invariant
                i <= keys@.len(),
                self.wf(),
                self.same_except(old(self), list as int),
                self.all_keys() == kv.take(i as int).remove_duplicates(seen),
            decreases keys@.len() - i,
        {
            let key = &keys[i];
            proof {
                kv.take(i as int).lemma_remove_duplicates_properties(seen);
                kv.take(i as int).lemma_remove_duplicates_append(key@, seen);
                assert(kv.take(i + 1) =~= kv.take(i as int) + seq![key@]);
            }
            if !self.contains(key) {
                let ghost before = *self;
                self.push_to(list, key.clone());
                proof {
                    if list == 0 {
                        assert(old(self).list(1).len() == 0 && old(self).list(2).len() == 0);
                        assert(old(self).list(3).len() == 0);
                        assert(before.panel(1) =~= Seq::<Seq<char>>::empty());
                        assert(before.panel(2) =~= Seq::<Seq<char>>::empty());
                        assert(before.unassigned() =~= Seq::<Seq<char>>::empty());
                        assert(self.all_keys() =~= before.all_keys().push(key@));
                    } else if list == 1 {
                        assert(old(self).list(2).len() == 0 && old(self).list(3).len() == 0);
                        assert(before.panel(2) =~= Seq::<Seq<char>>::empty());
                        assert(before.unassigned() =~= Seq::<Seq<char>>::empty());
                        assert(self.all_keys() =~= before.all_keys().push(key@));
                    } else if list == 2 {
                        assert(old(self).list(3).len() == 0);
                        assert(before.unassigned() =~= Seq::<Seq<char>>::empty());
                        assert(self.all_keys() =~= before.all_keys().push(key@));
                    } else {
                        assert(self.all_keys() =~= before.all_keys().push(key@));
                    }
                    lemma_push_keeps_distinct(before.all_keys(), key@);
                }
            }
            i = i + 1;
        }
        assert(kv.take(keys@.len() as int) =~= kv);
    }

    /// A ledger made from persisted lists: each key stays where it first
    /// stands, in the order panel 0, 1, 2, then the unassigned list, and its
    /// later occurrences are dropped.
    pub fn restore(left: &Vec<String>, center: &Vec<String>, right: &Vec<String>, unassigned: &Vec<String>) -> (r: Ledger)
        ensures
            r.wf(),
            r.panel(0) == left.deep_view().remove_duplicates(Seq::empty()),
            r.panel(0) + r.panel(1) == center.deep_view().remove_duplicates(r.panel(0)),
            r.panel(0) + r.panel(1) + r.panel(2) == right.deep_view().remove_duplicates(
                r.panel(0) + r.panel(1),
            ),
            r.all_keys() == unassigned.deep_view().remove_duplicates(
                r.panel(0) + r.panel(1) + r.panel(2),
            ),
    {
        let mut r = Ledger::new();
        r.place_all(0, left);
        let ghost a = r;
        assert(a.all_keys() =~= a.panel(0));
        r.place_all(1, center);
        let ghost b = r;
        assert(b.all_keys() =~= b.panel(0) + b.panel(1));
        r.place_all(2, right);
        let ghost c = r;
        assert(c.all_keys() =~= c.panel(0) + c.panel(1) + c.panel(2));
        r.place_all(3, unassigned);
        r
    }

    /// Moves the key at position `i` of list `from` to the end of list `to`.
    fn relocate(&mut self, from: usize, i: usize, to: usize)
        requires
            old(self).wf(),
            from < 4,
            to < 4,
            i < old(self).list(from as int).len(),
        ensures
            final(self).wf(),
            relocated(*old(self), *final(self), from as int, i as int, to as int),
    {
        let key = self.take_from(from, i);
        let ghost mid = *self;
        self.push_to(to, key);
        proof {
            broadcast use vstd::seq_lib::group_to_multiset_ensures;
            let k = key@;
            assert(old(self).list(from as int).to_multiset().contains(k));
            assert(old(self).key_counts().contains(k));
            assert(mid.key_counts() =~= old(self).key_counts().remove(k));
            assert(self.key_counts() =~= mid.key_counts().insert(k));
            Ledger::lemma_same_counts(old(self), self);
        }
    }

    /// Places the unassigned key at position `idx` at the end of panel
    /// `panel`. Returns `false`, and changes nothing, where there is no such
    /// key or no such panel.
    pub fn assign(&mut self, idx: usize, panel: usize) -> (done: bool)
        requires
            old(self).wf(),
        ensures
            final(self).wf(),
            done == (idx < old(self).unassigned().len() && panel < 3),
            done ==> relocated(*old(self), *final(self), 3, idx as int, panel as int),
            !done ==> *final(self) == *old(self),
    {
        if idx < self.unassigned.len() && panel < 3 {
            self.relocate(3, idx, panel);
            true
        } else {
            false
        }
    }

    /// Takes the key at position `idx` of panel `panel` off it, to the end
    /// of the unassigned list. Returns `false`, and changes nothing, where
    /// there is no such key.
    pub fn unassign(&mut self, panel: usize, idx: usize) -> (done: bool)
        requires
            old(self).wf(),
        ensures
            final(self).wf(),
            done == (panel < 3 && idx < old(self).panel(panel as int).len()),
            done ==> relocated(*old(self), *final(self), panel as int, idx as int, 3),
            !done ==> *final(self) == *old(self),
    {
        if panel < 3 && idx < self.panel_keys(panel).len() {
            self.relocate(panel, idx, 3);
            true
        } else {
            false
        }
    }

    /// Moves the key at position `idx` of panel `panel` to the end of panel
    /// `target`. Returns `false`, and changes nothing, where there is no
    /// such key or no such target.
    pub fn move_card(&mut self, panel: usize, idx: usize, target: usize) -> (done: bool)
        requires
            old(self).wf(),
        ensures
            final(self).wf(),
            done == (panel < 3 && target < 3 && idx < old(self).panel(panel as int).len()),
            done ==> relocated(*old(self), *final(self), panel as int, idx as int, target as int),
            !done ==> *final(self) == *old(self),
    {
        if panel < 3 && target < 3 && idx < self.panel_keys(panel).len() {
            self.relocate(panel, idx, target);
            true
        } else {
            false
        }
    }
}

/// `after` is `before` with the key at position `i` of list `from` taken out
/// and put at the end of list `to`; the other lists are as they were.
pub open spec fn relocated(before: Ledger, after: Ledger, from: int, i: int, to: int) -> bool {
    let key = before.list(from)[i];
    &&& 0 <= i < before.list(from).len()
    &&& forall|l: int| 0 <= l < 4 && l != from && l != to ==> after.list(l) == before.list(l)
    &&& from != to ==> after.list(from) == before.list(from).remove(i) && after.list(to)
        == before.list(to).push(key)
    &&& from == to ==> after.list(from) == before.list(from).remove(i).push(key)
}

/// Appending a key that a list of distinct keys lacks keeps them distinct.
pub proof fn lemma_push_keeps_distinct(s: Seq<Seq<char>>, key: Seq<char>)
    requires
        s.no_duplicates(),
        !s.contains(key),
    ensures
        s.push(key).no_duplicates(),
{
    assert forall|i: int, j: int| 0 <= i < s.len() + 1 && 0 <= j < s.len() + 1 && i != j implies s.push(key)[i]
        != s.push(key)[j] by {
        if i == s.len() {
            assert(s[j] == s.push(key)[j]);
        } else if j == s.len() {
            assert(s[i] == s.push(key)[i]);
        }
    }
}

/// In a well-formed ledger no key stands in two of the four lists, nor twice
/// in one of them.
pub proof fn lemma_key_in_one_list(l: Ledger, key: Seq<char>, a: int, b: int)
    requires
        l.wf(),
        0 <= a < 4,
        0 <= b < 4,
        a != b,
    ensures
        !(l.list(a).contains(key) && l.list(b).contains(key)),
        l.list(a).no_duplicates(),
{
    let first = l.panel(0);
    let second = l.panel(1);
    let third = l.panel(2);
    let all = l.all_keys();
    let off = seq![0, first.len() as int, (first.len() + second.len()) as int, (first.len() + second.len() + third.len()) as int];
    assert forall|m: int, i: int| 0 <= m < 4 && 0 <= i < l.list(m).len() implies all[off[m] + i] == l.list(m)[i]
        && 0 <= off[m] + i < all.len() && (m < 3 ==> off[m] + i < off[m + 1]) && off[m] <= off[m] + i by {
    }
    if l.list(a).contains(key) && l.list(b).contains(key) {
        let i = choose|i: int| 0 <= i < l.list(a).len() && l.list(a)[i] == key;
        let j = choose|j: int| 0 <= j < l.list(b).len() && l.list(b)[j] == key;
        assert(all[off[a] + i] == all[off[b] + j]);
        if a < b {
            assert(off[a] + i < off[a + 1] <= off[b]);
        } else {
            assert(off[b] + j < off[b + 1] <= off[a]);
        }
    }
    assert forall|i: int, j: int| 0 <= i < l.list(a).len() && 0 <= j < l.list(a).len() && i != j implies l.list(a)[i]
        != l.list(a)[j] by {
        assert(all[off[a] + i] == l.list(a)[i]);
        assert(all[off[a] + j] == l.list(a)[j]);
    }
}

} // verus!

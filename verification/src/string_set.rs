//! An ordered set of strings.
use vstd::prelude::*;
use crate::strings::{order, same, Order};
use crate::strings::{
    precedes, precedes_is_irreflexive, precedes_is_total, precedes_is_transitive,
};

verus! {

/// What the strings of `v` hold, one by one.
pub open spec fn texts(v: Seq<String>) -> Seq<Seq<char>> {
    v.map_values(|s: String| s@)
}

/// Every string of `s` precedes all that come after it; so none occurs twice.
pub open spec fn ascending(s: Seq<Seq<char>>) -> bool {
    forall|i: int, j: int| 0 <= i < j < s.len() ==> precedes(#[trigger] s[i], #[trigger] s[j])
}

/// A set of strings that is walked in ascending order.
#[derive(Debug)]
pub struct StringSet {
    names: Vec<String>,
}

impl View for StringSet {
    type V = Set<Seq<char>>;

    closed spec fn view(&self) -> Set<Seq<char>> {
        texts(self.names@).to_set()
    }
}

impl StringSet {
    #[verifier::type_invariant]
    spec fn well_formed(self) -> bool {
        ascending(texts(self.names@))
    }

    /// The empty set.
    pub fn new() -> (res: StringSet)
        ensures
            res@ == Set::<Seq<char>>::empty(),
    {
        let res = StringSet { names: Vec::new() };
        assert(res@ =~= Set::<Seq<char>>::empty());
        res
    }

    /// The set of the strings in `strings`, in whatever order and however often they occur there.
    pub fn from_vec(strings: Vec<String>) -> (res: StringSet)
        ensures
            res@ == texts(strings@).to_set(),
    {
        let mut res = StringSet::new();
        let mut rest = strings;
        assert(texts(rest@).to_set().union(res@) =~= texts(strings@).to_set());
        loop
            invariant
                texts(rest@).to_set().union(res@) == texts(strings@).to_set(),
            decreases rest@.len(),
        {
            let ghost before = rest@;
            let ghost held = res@;
            match rest.pop() {
                Some(s) => {
                    res.insert(s);
                    proof {
                        assert(before =~= rest@.push(s));
                        assert(texts(before) =~= texts(rest@).push(s@));
                        texts(rest@).lemma_push_to_set_commute(s@);
                        assert(texts(rest@).to_set().union(res@) =~= texts(before).to_set().union(
                            held,
                        ));
                    }
                },
                None => {
                    assert(texts(rest@).to_set().union(res@) =~= res@);
                    return res;
                },
            }
        }
    }

    /// The place of `s`: the number of members that precede it.
    fn place(&self, s: &str) -> (res: usize)
        ensures
            res <= self.names@.len(),
            forall|i: int| 0 <= i < res ==> precedes(#[trigger] self.names@[i]@, s@),
            forall|i: int|
                res <= i < self.names@.len() ==> !precedes(#[trigger] self.names@[i]@, s@),
            self@.contains(s@) == (res < self.names@.len() && self.names@[res as int]@ == s@),
    {
        proof {
            use_type_invariant(self);
        }
        let ghost all = texts(self.names@);
        let mut k: usize = 0;
        loop
            invariant
                ascending(texts(self.names@)),
                all == texts(self.names@),
                k <= self.names@.len(),
                forall|i: int| 0 <= i < k ==> precedes(#[trigger] self.names@[i]@, s@),
            decreases self.names@.len() - k,
        {
            proof {
                precedes_is_irreflexive(s@);
            }
            if k == self.names.len() {
                assert(!all.contains(s@));
                return k;
            }
            assert(all[k as int] == self.names@[k as int]@);
            let o = order(self.names[k].as_str(), s);
            if let Order::Before = o {
                k = k + 1;
            } else {
                assert forall|i: int| k <= i < self.names@.len() implies !precedes(
                    #[trigger] self.names@[i]@,
                    s@,
                ) by {
                    assert(all[i] == self.names@[i]@);
                    if precedes(self.names@[i]@, s@) {
                        if i > k {
                            precedes_is_transitive(all[k as int], all[i], s@);
                        }
                        if o is After {
                            precedes_is_transitive(s@, all[k as int], s@);
                        }
                    }
                }
                assert(all.contains(s@) == (all[k as int] == s@)) by {
                    if all.contains(s@) {
                        let i = choose|i: int| 0 <= i < all.len() && all[i] == s@;
                        assert(all[i] == self.names@[i]@);
                        if i > k {
                            assert(precedes(all[k as int], all[i]));
                            if o is After {
                                precedes_is_transitive(s@, all[k as int], s@);
                            }
                        }
                    }
                }
                return k;
            }
        }
    }

    /// Adds `s` to the set and says whether it was not there before.
    pub fn insert(&mut self, s: String) -> (res: bool)
        ensures
            final(self)@ == old(self)@.insert(s@),
            res == !old(self)@.contains(s@),
    {
        proof {
            use_type_invariant(&*self);
        }
        let k: usize = self.place(s.as_str());
        let ghost all = texts(self.names@);
        if k < self.names.len() {
            if let Order::Same = order(self.names[k].as_str(), s.as_str()) {
                assert(self@ =~= old(self)@.insert(s@));
                return false;
            }
        }
        let mut names: Vec<String> = Vec::new();
        std::mem::swap(&mut names, &mut self.names);
        names.insert(k, s);
        proof {
            lemma_inserted(all, k as int, s@);
            assert(texts(names@) =~= all.insert(k as int, s@));
        }
        self.names = names;
        true
    }

    /// Whether `s` is in the set.
    pub fn contains(&self, s: &str) -> (res: bool)
        ensures
            res == self@.contains(s@),
    {
        let k: usize = self.place(s);
        if k < self.names.len() {
            same(self.names[k].as_str(), s)
        } else {
            false
        }
    }

    /// Whether the set has no members.
    pub fn is_empty(&self) -> (res: bool)
        ensures
            res == (self@ == Set::<Seq<char>>::empty()),
    {
        let res = self.names.len() == 0;
        proof {
            if res {
                assert(self@ =~= Set::<Seq<char>>::empty());
            } else {
                assert(texts(self.names@)[0] == self.names@[0]@);
                assert(self@.contains(self.names@[0]@));
            }
        }
        res
    }

    /// The members, in ascending order.
    pub fn members(&self) -> (res: &Vec<String>)
        ensures
            texts(res@).to_set() == self@,
            ascending(texts(res@)),
    {
        proof {
            use_type_invariant(self);
        }
        &self.names
    }
}

/// Putting a new string in its place keeps the sequence ascending.
proof fn lemma_inserted(all: Seq<Seq<char>>, k: int, s: Seq<char>)
    requires
        ascending(all),
        0 <= k <= all.len(),
        forall|i: int| 0 <= i < k ==> precedes(#[trigger] all[i], s),
        forall|i: int| k <= i < all.len() ==> !precedes(#[trigger] all[i], s) && all[i] != s,
    ensures
        ascending(all.insert(k, s)),
        all.insert(k, s).to_set() == all.to_set().insert(s),
{
    let new = all.insert(k, s);
    assert forall|i: int, j: int| 0 <= i < j < new.len() implies precedes(
        #[trigger] new[i],
        #[trigger] new[j],
    ) by {
        if i == k {
            precedes_is_total(all[j - 1], s);
        }
    }
    assert forall|t: Seq<char>| all.to_set().insert(s).contains(t) implies new.to_set().contains(
        t,
    ) by {
        if t == s {
            assert(new[k] == s);
        } else {
            let i = choose|i: int| 0 <= i < all.len() && all[i] == t;
            assert(new[if i < k {
                i
            } else {
                i + 1
            }] == t);
        }
    }
    assert(new.to_set() =~= all.to_set().insert(s));
}

/// The texts of a list are what its strings hold, each in its place.
pub proof fn texts_are_what_the_strings_hold(v: Seq<String>, i: int)
    ensures
        texts(v).len() == v.len(),
        0 <= i < v.len() ==> texts(v)[i] == v[i]@,
{
}

/// In an ascending sequence what comes earlier precedes what comes later, and nothing comes twice;
/// and a sequence in which each string precedes the next one is ascending.
pub proof fn ascending_goes_up_step_by_step(s: Seq<Seq<char>>)
    ensures
        ascending(s) <==> forall|i: int|
            #![trigger s[i]]
            0 < i < s.len() ==> precedes(s[i - 1], s[i]),
        ascending(s) ==> s.no_duplicates(),
{
    if forall|i: int| #![trigger s[i]] 0 < i < s.len() ==> precedes(s[i - 1], s[i]) {
        assert forall|i: int, j: int| 0 <= i < j < s.len() implies precedes(
            #[trigger] s[i],
            #[trigger] s[j],
        ) by {
            lemma_steps(s, i, j);
        }
    }
    if ascending(s) {
        assert forall|i: int, j: int| 0 <= i < j < s.len() implies s[i] != s[j] by {
            precedes_is_irreflexive(s[i]);
        }
    }
}

proof fn lemma_steps(s: Seq<Seq<char>>, i: int, j: int)
    requires
        0 <= i < j < s.len(),
        forall|k: int| #![trigger s[k]] 0 < k < s.len() ==> precedes(s[k - 1], s[k]),
    ensures
        precedes(s[i], s[j]),
    decreases j - i,
{
    if i + 1 < j {
        lemma_steps(s, i, j - 1);
        precedes_is_transitive(s[i], s[j - 1], s[j]);
    }
}

/// There is only one way to list a set in ascending order: what is walked does not depend on how
/// the set came about.
pub proof fn ascending_order_is_unique(a: Seq<Seq<char>>, b: Seq<Seq<char>>)
    requires
        ascending(a),
        ascending(b),
        a.to_set() == b.to_set(),
    ensures
        a == b,
    decreases a.len(),
{
    if a.len() == 0 || b.len() == 0 {
        if a.len() > 0 {
            assert(a.to_set().contains(a[0]));
        }
        if b.len() > 0 {
            assert(b.to_set().contains(b[0]));
        }
        assert(a =~= b);
    } else {
        let (x, y) = (a.last(), b.last());
        assert(a.to_set().contains(x) && b.to_set().contains(y));
        let i = choose|i: int| 0 <= i < b.len() && b[i] == x;
        let j = choose|j: int| 0 <= j < a.len() && a[j] == y;
        if x != y {
            assert(precedes(b[i], b[b.len() - 1]));
            assert(precedes(a[j], a[a.len() - 1]));
            precedes_is_transitive(x, y, x);
            precedes_is_irreflexive(x);
        }
        let (c, d) = (a.drop_last(), b.drop_last());
        assert forall|s: Seq<char>| c.to_set().contains(s) == d.to_set().contains(s) by {
            lemma_drop_last_removes(a);
            lemma_drop_last_removes(b);
        }
        assert(c.to_set() =~= d.to_set());
        ascending_order_is_unique(c, d);
        assert(a =~= c.push(x));
        assert(b =~= d.push(y));
    }
}

/// Without its last string an ascending sequence holds all the others.
proof fn lemma_drop_last_removes(a: Seq<Seq<char>>)
    requires
        ascending(a),
        a.len() > 0,
    ensures
        a.drop_last().to_set() == a.to_set().remove(a.last()),
{
    let c = a.drop_last();
    assert forall|s: Seq<char>| c.to_set().contains(s) == a.to_set().remove(a.last()).contains(s) by {
        if c.contains(s) {
            let i = choose|i: int| 0 <= i < c.len() && c[i] == s;
            assert(a[i] == s);
            assert(precedes(a[i], a[a.len() - 1]));
            precedes_is_irreflexive(s);
        }
        if a.contains(s) && s != a.last() {
            let i = choose|i: int| 0 <= i < a.len() && a[i] == s;
            assert(c[i] == s);
        }
    }
    assert(c.to_set() =~= a.to_set().remove(a.last()));
}

} // verus!

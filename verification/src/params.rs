//! Named text parameters of a note or message (`{wage}`, `{years}`, ...).

use vstd::prelude::*;

verus! {

/// The map that a list of key/value pairs describes, a later pair for the
/// same key overriding an earlier one.
pub open spec fn pairs_map(s: Seq<(String, String)>) -> Map<Seq<char>, Seq<char>>
    decreases s.len(),
{
    if s.len() == 0 {
        Map::empty()
    } else {
        pairs_map(s.drop_last()).insert(s.last().0@, s.last().1@)
    }
}

/// No key occurs twice in `s`.
pub open spec fn keys_distinct(s: Seq<(String, String)>) -> bool {
    forall|i: int, j: int| 0 <= i < j < s.len() ==> s[i].0@ != s[j].0@
}

proof fn lemma_pairs_map_update(s: Seq<(String, String)>, i: int, e: (String, String))
    requires
        keys_distinct(s),
        0 <= i < s.len(),
        s[i].0@ == e.0@,
    ensures
        pairs_map(s.update(i, e)) == pairs_map(s).insert(e.0@, e.1@),
    decreases s.len(),
{
    let t = s.update(i, e);
    if i == s.len() - 1 {
        assert(t.drop_last() =~= s.drop_last());
        assert(pairs_map(t) =~= pairs_map(s).insert(e.0@, e.1@));
    } else {
        assert(t.drop_last() =~= s.drop_last().update(i, e));
        lemma_pairs_map_update(s.drop_last(), i, e);
        assert(s.last().0@ != e.0@);
        assert(pairs_map(t) =~= pairs_map(s).insert(e.0@, e.1@));
    }
}

/// Text parameters keyed by name, each name at most once.
#[derive(Debug)]
pub struct NoteParams {
    entries: Vec<(String, String)>,
}

impl View for NoteParams {
    type V = Map<Seq<char>, Seq<char>>;

    closed spec fn view(&self) -> Map<Seq<char>, Seq<char>> {
        pairs_map(self.entries@)
    }
}

impl NoteParams {
    #[verifier::type_invariant]
    closed spec fn well_formed(self) -> bool {
        keys_distinct(self.entries@)
    }

    /// No parameters.
    pub fn new() -> (r: NoteParams)
        ensures
            r@ == Map::<Seq<char>, Seq<char>>::empty(),
    {
        let r = NoteParams { entries: Vec::new() };
        assert(pairs_map(r.entries@) =~= Map::<Seq<char>, Seq<char>>::empty());
        r
    }

    /// Sets `key` to `value`, replacing an earlier value of `key`.
    pub fn insert(&mut self, key: String, value: String)
        ensures
            final(self)@ == old(self)@.insert(key@, value@),
    {
        proof {
            use_type_invariant(&*self);
        }
        let mut entries: Vec<(String, String)> = Vec::new();
        std::mem::swap(&mut entries, &mut self.entries);
        let ghost before = entries@;
        let n = entries.len();
        let mut i: usize = 0;
        while i < n
            invariant
                n == entries.len(),
                entries@ == before,
                0 <= i <= n,
                keys_distinct(before),
                pairs_map(before) == old(self)@,
                forall|j: int| 0 <= j < i ==> before[j].0@ != key@,
            decreases n - i,
        {
            if entries[i].0 == key {
                assert(before[i as int].0@ == key@);
                let e = (key, value);
                let ghost ge = e;
                proof {
                    lemma_pairs_map_update(before, i as int, ge);
                }
                entries.set(i, e);
                assert(entries@ =~= before.update(i as int, ge));
                assert forall|a: int, b: int| 0 <= a < b < entries@.len() implies entries@[a].0@ != entries@[b].0@ by {
                    assert(before[a].0@ != before[b].0@);
                }
                self.entries = entries;
                return;
            }
            i += 1;
        }
        entries.push((key, value));
        assert(entries@.drop_last() =~= before);
        assert(keys_distinct(entries@));
        self.entries = entries;
    }

    /// The value of `key`, if it has one.
    pub fn get(&self, key: &str) -> (r: Option<String>)
        ensures
            r is Some <==> self@.dom().contains(key@),
            r matches Some(v) ==> v@ == self@[key@],
    {
        proof {
            use_type_invariant(self);
        }
        let wanted = String::from_str(key);
        assert(wanted@ == key@);
        let n = self.entries.len();
        let mut i: usize = n;
        assert(self.entries@.subrange(0, n as int) =~= self.entries@);
        while i > 0
            invariant
                n == self.entries.len(),
                wanted@ == key@,
                i <= n,
                keys_distinct(self.entries@),
                forall|j: int| i <= j < n ==> self.entries@[j].0@ != key@,
                pairs_map(self.entries@.subrange(0, i as int)).dom().contains(key@)
                    <==> self@.dom().contains(key@),
                pairs_map(self.entries@.subrange(0, i as int)).dom().contains(key@)
                    ==> pairs_map(self.entries@.subrange(0, i as int))[key@] == self@[key@],
            decreases i,
        {
            let ghost prefix = self.entries@.subrange(0, i as int);
            assert(prefix.drop_last() =~= self.entries@.subrange(0, i - 1));
            assert(prefix.last() == self.entries@[i - 1]);
            assert(pairs_map(prefix) == pairs_map(prefix.drop_last()).insert(prefix.last().0@, prefix.last().1@));
            if self.entries[i - 1].0 == wanted {
                assert(pairs_map(prefix).dom().contains(key@));
                return Some(self.entries[i - 1].1.clone());
            }
            assert(pairs_map(prefix).dom().contains(key@) <==> pairs_map(prefix.drop_last()).dom().contains(key@));
            i -= 1;
        }
        assert(self.entries@.subrange(0, 0) =~= Seq::<(String, String)>::empty());
        None
    }

    /// A copy with the same parameters.
    pub fn duplicate(&self) -> (r: NoteParams)
        ensures
            r@ == self@,
    {
        proof {
            use_type_invariant(self);
        }
        let mut entries: Vec<(String, String)> = Vec::new();
        let mut i: usize = 0;
        while i < self.entries.len()
            invariant
                i <= self.entries.len(),
                entries@ == self.entries@.take(i as int),
            decreases self.entries.len() - i,
        {
            let key = self.entries[i].0.clone();
            let value = self.entries[i].1.clone();
            entries.push((key, value));
            assert(entries@ =~= self.entries@.take(i + 1));
            i += 1;
        }
        assert(entries@ =~= self.entries@);
        NoteParams { entries }
    }

    /// The number of parameters.
    pub fn len(&self) -> (r: usize)
        ensures
            r == self@.len(),
    {
        proof {
            use_type_invariant(self);
            lemma_pairs_map_len(self.entries@);
        }
        self.entries.len()
    }
}

proof fn lemma_pairs_map_len(s: Seq<(String, String)>)
    requires
        keys_distinct(s),
    ensures
        pairs_map(s).dom().finite(),
        pairs_map(s).len() == s.len(),
        forall|k: Seq<char>| pairs_map(s).dom().contains(k) <==> exists|i: int| 0 <= i < s.len() && s[i].0@ == k,
    decreases s.len(),
{
    if s.len() > 0 {
        lemma_pairs_map_len(s.drop_last());
        let k = s.last().0@;
        assert(!pairs_map(s.drop_last()).dom().contains(k)) by {
            if pairs_map(s.drop_last()).dom().contains(k) {
                let i = choose|i: int| 0 <= i < s.drop_last().len() && s.drop_last()[i].0@ == k;
                assert(s[i].0@ == s[s.len() - 1].0@);
            }
        }
        assert forall|k2: Seq<char>| pairs_map(s).dom().contains(k2) implies exists|i: int| 0 <= i < s.len() && s[i].0@ == k2 by {
            if k2 != k {
                let i = choose|i: int| 0 <= i < s.drop_last().len() && s.drop_last()[i].0@ == k2;
                assert(s[i].0@ == k2);
            } else {
                assert(s[s.len() - 1].0@ == k2);
            }
        }
        assert forall|k2: Seq<char>| (exists|i: int| 0 <= i < s.len() && s[i].0@ == k2) implies pairs_map(s).dom().contains(k2) by {
            let i = choose|i: int| 0 <= i < s.len() && s[i].0@ == k2;
            if i < s.len() - 1 {
                assert(s.drop_last()[i].0@ == k2);
            }
        }
    }
}

} // verus!

//! An in-memory reference of the storage collaborator's contract: a
//! `links` table keyed by identifier, with single-row insert, select and
//! update, the primary-key uniqueness invariant, and each operation
//! atomic — exactly what the handlers assume of the relational store.

use vstd::prelude::*;
use crate::model::Link;

verus! {

/// No two rows share an identifier: the primary-key constraint.
pub open spec fn unique_ids(s: Seq<Link>) -> bool {
    forall|i: int, j: int|
        0 <= i < s.len() && 0 <= j < s.len() && i != j ==> (#[trigger] s[i].id@) != (
        #[trigger] s[j].id@)
}

/// The table's contents as a map from identifier to target URL.
pub open spec fn as_map(s: Seq<Link>) -> Map<Seq<char>, Seq<char>>
    decreases s.len(),
{
    if s.len() == 0 {
        Map::empty()
    } else {
        as_map(s.drop_last()).insert(s.last().id@, s.last().target_url@)
    }
}

proof fn lemma_as_map_contains(s: Seq<Link>, k: Seq<char>)
    ensures
        as_map(s).contains_key(k) <==> exists|i: int| 0 <= i < s.len() && (#[trigger] s[i].id@)
            == k,
    decreases s.len(),
{
    if s.len() == 0 {
    } else {
        let d = s.drop_last();
        lemma_as_map_contains(d, k);
        if as_map(s).contains_key(k) {
            if k == s.last().id@ {
                assert(s[s.len() - 1].id@ == k);
            } else {
                let i = choose|i: int| 0 <= i < d.len() && (#[trigger] d[i].id@) == k;
                assert(s[i].id@ == k);
            }
        }
        if exists|i: int| 0 <= i < s.len() && (#[trigger] s[i].id@) == k {
            let i = choose|i: int| 0 <= i < s.len() && (#[trigger] s[i].id@) == k;
            if i < s.len() - 1 {
                assert(d[i].id@ == k);
            }
        }
    }
}

proof fn lemma_as_map_index(s: Seq<Link>, i: int)
    requires
        unique_ids(s),
        0 <= i < s.len(),
    ensures
        as_map(s).contains_key(s[i].id@),
        as_map(s)[s[i].id@] == s[i].target_url@,
    decreases s.len(),
{
    let d = s.drop_last();
    if i == s.len() - 1 {
    } else {
        assert(unique_ids(d));
        lemma_as_map_index(d, i);
        assert(s.last().id@ != s[i].id@);
    }
}

proof fn lemma_as_map_update(s: Seq<Link>, i: int, l: Link)
    requires
        unique_ids(s),
        0 <= i < s.len(),
        l.id@ == s[i].id@,
    ensures
        as_map(s.update(i, l)) == as_map(s).insert(l.id@, l.target_url@),
    decreases s.len(),
{
    let d = s.drop_last();
    let t = s.update(i, l);
    if i == s.len() - 1 {
        assert(t.drop_last() =~= d);
        assert(as_map(t) == as_map(d).insert(l.id@, l.target_url@));
        assert(as_map(d).insert(s.last().id@, s.last().target_url@).insert(l.id@, l.target_url@)
            =~= as_map(d).insert(l.id@, l.target_url@));
    } else {
        assert(unique_ids(d));
        assert(d[i] == s[i]);
        lemma_as_map_update(d, i, l);
        assert(t.drop_last() =~= d.update(i, l));
        assert(t.last() == s.last());
        assert(as_map(t) == as_map(d).insert(l.id@, l.target_url@).insert(
            s.last().id@,
            s.last().target_url@,
        ));
        assert(s.last().id@ != l.id@);
        assert(as_map(d).insert(l.id@, l.target_url@).insert(s.last().id@, s.last().target_url@)
            =~= as_map(d).insert(s.last().id@, s.last().target_url@).insert(
            l.id@,
            l.target_url@,
        ));
    }
}

/// The `links` table: rows of `(id, target_url)` with `id` the primary
/// key. Each method mirrors one single-statement, atomic operation of
/// the storage collaborator.
pub struct LinkStore {
    links: Vec<Link>,
}

impl LinkStore {
    /// The table as a map from identifier to stored target URL.
    pub closed spec fn view(&self) -> Map<Seq<char>, Seq<char>> {
        as_map(self.links@)
    }

    /// The stored rows, in insertion order.
    pub closed spec fn rows(&self) -> Seq<Link> {
        self.links@
    }

    /// The primary-key invariant holds of the rows.
    pub closed spec fn wf(&self) -> bool {
        unique_ids(self.links@)
    }

    /// The table never holds two rows with the same identifier.
    pub proof fn lemma_rows_unique(&self)
        requires
            self.wf(),
        ensures
            forall|i: int, j: int|
                0 <= i < self.rows().len() && 0 <= j < self.rows().len() && i != j ==> (
                #[trigger] self.rows()[i].id@) != (#[trigger] self.rows()[j].id@),
    {
    }

    /// An identifier is a key of the table's map exactly when some row
    /// holds it.
    pub proof fn lemma_contains(&self, k: Seq<char>)
        ensures
            self@.contains_key(k) <==> exists|i: int|
                0 <= i < self.rows().len() && (#[trigger] self.rows()[i].id@) == k,
    {
        lemma_as_map_contains(self.links@, k);
        if self@.contains_key(k) {
            let i = choose|i: int|
                0 <= i < self.links@.len() && (#[trigger] self.links@[i].id@) == k;
            assert(self.rows()[i].id@ == k);
        }
        if exists|i: int| 0 <= i < self.rows().len() && (#[trigger] self.rows()[i].id@) == k {
            let i = choose|i: int|
                0 <= i < self.rows().len() && (#[trigger] self.rows()[i].id@) == k;
            assert(self.links@[i].id@ == k);
        }
    }

    /// An empty table.
    pub fn new() -> (s: Self)
        ensures
            s.wf(),
            s@ == Map::<Seq<char>, Seq<char>>::empty(),
            s.rows() == Seq::<Link>::empty(),
    {
        let links: Vec<Link> = Vec::new();
        proof {
            assert(links@ =~= Seq::<Link>::empty());
        }
        LinkStore { links }
    }

    /// The index of the row holding `id`, if any.
    fn find_index(&self, id: &String) -> (r: Option<usize>)
        ensures
            r matches Some(i) ==> i < self.links@.len() && self.links@[i as int].id@ == id@,
            r is None ==> forall|j: int|
                0 <= j < self.links@.len() ==> (#[trigger] self.links@[j].id@) != id@,
    {
        let mut i: usize = 0;
        while i < self.links.len()
            invariant
                i <= self.links@.len(),
                forall|j: int| 0 <= j < i ==> (#[trigger] self.links@[j].id@) != id@,
            decreases self.links@.len() - i,
        {
            if self.links[i].id == *id {
                return Some(i);
            }
            i = i + 1;
        }
        None
    }

    /// Single-row insert under the primary-key constraint: a fresh
    /// identifier appends one row and returns it; an identifier already
    /// present violates the constraint, and the insert fails with the
    /// constraint error's description, leaving the table unchanged.
    pub fn insert(&mut self, id: &String, target_url: &String) -> (r: Result<Link, String>)
        requires
            old(self).wf(),
        ensures
            final(self).wf(),
            old(self)@.contains_key(id@) ==> r is Err && final(self)@ == old(self)@ && final(self).rows() == old(self).rows(),
            !old(self)@.contains_key(id@) ==> (r matches Ok(l) && l.id@ == id@ && l.target_url@
                == target_url@ && final(self)@ == old(self)@.insert(id@, target_url@) && final(self).rows() == old(self).rows().push(l)),
    {
        proof {
            lemma_as_map_contains(self.links@, id@);
        }
        match self.find_index(id) {
            Some(_) => Err("duplicate key value violates unique constraint \"links_pkey\"".to_string()),
            None => {
                let l = Link { id: id.clone(), target_url: target_url.clone() };
                let ghost pre = self.links@;
                self.links.push(l);
                proof {
                    assert(self.links@.drop_last() =~= pre);
                    assert(self.links@.last() == self.links@[pre.len() as int]);
                }
                let r = Link { id: id.clone(), target_url: target_url.clone() };
                Ok(r)
            },
        }
    }

    /// Exact-match, single-row select by identifier.
    pub fn lookup(&self, id: &String) -> (r: Option<Link>)
        requires
            self.wf(),
        ensures
            r is Some <==> self@.contains_key(id@),
            r matches Some(l) ==> l.id@ == id@ && l.target_url@ == self@[id@],
    {
        proof {
            lemma_as_map_contains(self.links@, id@);
        }
        match self.find_index(id) {
            Some(i) => {
                proof {
                    lemma_as_map_index(self.links@, i as int);
                }
                let row = &self.links[i];
                Some(Link { id: row.id.clone(), target_url: row.target_url.clone() })
            },
            None => None,
        }
    }

    /// Single-row update by identifier, returning the updated row. Where
    /// no row matches, the single-row-returning query yields no row: the
    /// operation fails with that error's description and the table is
    /// unchanged.
    pub fn update(&mut self, id: &String, target_url: &String) -> (r: Result<Link, String>)
        requires
            old(self).wf(),
        ensures
            final(self).wf(),
            !old(self)@.contains_key(id@) ==> r is Err && final(self)@ == old(self)@ && final(self).rows() == old(self).rows(),
            old(self)@.contains_key(id@) ==> (r matches Ok(l) && l.id@ == id@ && l.target_url@
                == target_url@ && final(self)@ == old(self)@.insert(id@, target_url@)),
    {
        proof {
            lemma_as_map_contains(self.links@, id@);
        }
        match self.find_index(id) {
            Some(i) => {
                let l = Link { id: id.clone(), target_url: target_url.clone() };
                let ghost pre = self.links@;
                proof {
                    lemma_as_map_update(pre, i as int, l);
                }
                self.links.set(i, l);
                proof {
                    assert forall|x: int, y: int|
                        0 <= x < self.links@.len() && 0 <= y < self.links@.len() && x
                            != y implies (#[trigger] self.links@[x].id@) != (
                    #[trigger] self.links@[y].id@) by {
                        assert(self.links@[x].id@ == pre[x].id@);
                        assert(self.links@[y].id@ == pre[y].id@);
                    }
                }
                let r = Link { id: id.clone(), target_url: target_url.clone() };
                Ok(r)
            },
            None => Err("no rows returned by a query that expected to return at least one row".to_string()),
        }
    }
}

} // verus!

//! The in-memory rules of the store: lookup by identifier, upsert and delete.
use crate::model::{Portfolio, PortfolioData};
use vstd::prelude::*;

verus! {

/// Some record in `s` carries the identifier `id`.
pub open spec fn has_id(s: Seq<Portfolio>, id: Seq<char>) -> bool {
    exists|i: int| 0 <= i < s.len() && (#[trigger] s[i]).id@ == id
}

/// `i` is the first position in `s` whose record carries `id`.
pub open spec fn is_first_with_id(s: Seq<Portfolio>, id: Seq<char>, i: int) -> bool {
    &&& 0 <= i < s.len()
    &&& s[i].id@ == id
    &&& forall|j: int| 0 <= j < i ==> (#[trigger] s[j]).id@ != id
}

/// The first position in `s` whose record carries `id` (meaningful when `has_id(s, id)`).
pub open spec fn position_of_id(s: Seq<Portfolio>, id: Seq<char>) -> int {
    choose|i: int| is_first_with_id(s, id, i)
}

/// No two records of `s` share an identifier.
pub open spec fn ids_unique(s: Seq<Portfolio>) -> bool {
    forall|i: int, j: int|
        0 <= i < s.len() && 0 <= j < s.len() && i != j ==> (#[trigger] s[i]).id@ != (#[trigger] s[j]).id@
}

/// `s` with every record that carries `id` taken out, the others kept in order.
pub open spec fn without_id(s: Seq<Portfolio>, id: Seq<char>) -> Seq<Portfolio>
    decreases s.len(),
{
    if s.len() == 0 {
        Seq::empty()
    } else {
        let rest = without_id(s.drop_first(), id);
        if s[0].id@ == id {
            rest
        } else {
            seq![s[0]] + rest
        }
    }
}

/// How many records of `s` carry `id`.
pub open spec fn count_id(s: Seq<Portfolio>, id: Seq<char>) -> nat
    decreases s.len(),
{
    if s.len() == 0 {
        0
    } else {
        count_id(s.drop_first(), id) + if s[0].id@ == id {
            1nat
        } else {
            0nat
        }
    }
}

/// The next display number after a new record numbered `number` has been added.
pub open spec fn next_after(next_number: i32, number: i32) -> int {
    if number + 1 > next_number {
        number + 1
    } else {
        next_number as int
    }
}

/// When `s` holds `id` nowhere, removing it changes nothing.
pub proof fn lemma_without_absent(s: Seq<Portfolio>, id: Seq<char>)
    requires
        !has_id(s, id),
    ensures
        without_id(s, id) == s,
    decreases s.len(),
{
    if s.len() > 0 {
        let t = s.drop_first();
        assert(!has_id(t, id)) by {
            if has_id(t, id) {
                let i = choose|i: int| 0 <= i < t.len() && (#[trigger] t[i]).id@ == id;
                assert(s[i + 1] == t[i]);
            }
        }
        lemma_without_absent(t, id);
        assert(s[0].id@ != id) by {
            assert(s[0] == s[0]);
        }
        assert(seq![s[0]] + t =~= s);
    }
}

/// Removing `id` shortens `s` by the number of records that carry it.
pub proof fn lemma_without_len(s: Seq<Portfolio>, id: Seq<char>)
    ensures
        without_id(s, id).len() + count_id(s, id) == s.len(),
    decreases s.len(),
{
    if s.len() > 0 {
        lemma_without_len(s.drop_first(), id);
    }
}

/// Every record left after removing `id` is a record of `s` that does not carry `id`.
pub proof fn lemma_without_members(s: Seq<Portfolio>, id: Seq<char>)
    ensures
        forall|k: int|
            0 <= k < without_id(s, id).len() ==> {
                &&& s.contains(#[trigger] without_id(s, id)[k])
                &&& without_id(s, id)[k].id@ != id
            },
    decreases s.len(),
{
    if s.len() > 0 {
        let t = s.drop_first();
        lemma_without_members(t, id);
        assert forall|k: int| 0 <= k < without_id(s, id).len() implies {
            &&& s.contains(#[trigger] without_id(s, id)[k])
            &&& without_id(s, id)[k].id@ != id
        } by {
            let w = without_id(s, id);
            if s[0].id@ != id && k == 0 {
                assert(w[0] == s[0]);
            } else {
                let kk = if s[0].id@ == id { k } else { k - 1 };
                assert(w[k] == without_id(t, id)[kk]);
                let j = choose|j: int| 0 <= j < t.len() && t[j] == without_id(t, id)[kk];
                assert(s[j + 1] == t[j]);
            }
        }
    }
}

/// Removing `id` keeps identifiers unique.
pub proof fn lemma_without_unique(s: Seq<Portfolio>, id: Seq<char>)
    requires
        ids_unique(s),
    ensures
        ids_unique(without_id(s, id)),
    decreases s.len(),
{
    if s.len() > 0 {
        let t = s.drop_first();
        assert(ids_unique(t)) by {
            assert forall|i: int, j: int|
                0 <= i < t.len() && 0 <= j < t.len() && i != j implies (#[trigger] t[i]).id@ != (
                #[trigger] t[j]).id@ by {
                assert(t[i] == s[i + 1] && t[j] == s[j + 1]);
            }
        }
        lemma_without_unique(t, id);
        lemma_without_members(t, id);
        let w = without_id(s, id);
        let wt = without_id(t, id);
        if s[0].id@ != id {
            assert forall|i: int, j: int|
                0 <= i < w.len() && 0 <= j < w.len() && i != j implies (#[trigger] w[i]).id@ != (
                #[trigger] w[j]).id@ by {
                if i == 0 || j == 0 {
                    let k = if i == 0 { j } else { i };
                    assert(w[k] == wt[k - 1]);
                    assert(t.contains(wt[k - 1]));
                    let m = choose|m: int| 0 <= m < t.len() && t[m] == wt[k - 1];
                    assert(s[m + 1] == t[m]);
                } else {
                    assert(w[i] == wt[i - 1] && w[j] == wt[j - 1]);
                }
            }
        }
    }
}

/// A store that holds `id` nowhere counts no record carrying it.
pub proof fn lemma_count_absent(s: Seq<Portfolio>, id: Seq<char>)
    requires
        !has_id(s, id),
    ensures
        count_id(s, id) == 0,
    decreases s.len(),
{
    if s.len() > 0 {
        let t = s.drop_first();
        assert(!has_id(t, id)) by {
            if has_id(t, id) {
                let i = choose|i: int| 0 <= i < t.len() && (#[trigger] t[i]).id@ == id;
                assert(s[i + 1] == t[i]);
            }
        }
        lemma_count_absent(t, id);
        assert(s[0].id@ != id) by {
            assert(s[0] == s[0]);
        }
    }
}

/// With unique identifiers, an identifier that is present is carried by exactly one record.
pub proof fn lemma_unique_count(s: Seq<Portfolio>, id: Seq<char>)
    requires
        ids_unique(s),
        has_id(s, id),
    ensures
        count_id(s, id) == 1,
    decreases s.len(),
{
    let t = s.drop_first();
    assert(ids_unique(t)) by {
        assert forall|i: int, j: int|
            0 <= i < t.len() && 0 <= j < t.len() && i != j implies (#[trigger] t[i]).id@ != (
            #[trigger] t[j]).id@ by {
            assert(t[i] == s[i + 1] && t[j] == s[j + 1]);
        }
    }
    let k = choose|k: int| 0 <= k < s.len() && (#[trigger] s[k]).id@ == id;
    if s[0].id@ == id {
        assert(!has_id(t, id)) by {
            if has_id(t, id) {
                let i = choose|i: int| 0 <= i < t.len() && (#[trigger] t[i]).id@ == id;
                assert(s[i + 1] == t[i]);
                assert(s[0].id@ != s[i + 1].id@);
            }
        }
        lemma_count_absent(t, id);
    } else {
        assert(k > 0);
        assert(t[k - 1] == s[k]);
        lemma_unique_count(t, id);
    }
}

impl PortfolioData {
    /// Identifiers are unique across the records.
    pub open spec fn wf(&self) -> bool {
        ids_unique(self.portfolios@)
    }

    /// The store before anything was ever saved: no records, next number 1.
    pub fn empty() -> (r: PortfolioData)
        ensures
            r.portfolios@.len() == 0,
            r.next_number == 1,
            r.wf(),
    {
        PortfolioData { portfolios: Vec::new(), next_number: 1 }
    }

    /// The first position whose record carries `id`, if any.
    pub fn position_of(&self, id: &String) -> (r: Option<usize>)
        ensures
            r is None <==> !has_id(self.portfolios@, id@),
            r matches Some(i) ==> is_first_with_id(self.portfolios@, id@, i as int)
                && i as int == position_of_id(self.portfolios@, id@),
    {
        let mut i: usize = 0;
        while i < self.portfolios.len()
            invariant
                0 <= i <= self.portfolios@.len(),
                forall|j: int| 0 <= j < i ==> (#[trigger] self.portfolios@[j]).id@ != id@,
            decreases self.portfolios@.len() - i,
        {
            if self.portfolios[i].id == *id {
                proof {
                    let s = self.portfolios@;
                    assert(is_first_with_id(s, id@, i as int));
                    let p = position_of_id(s, id@);
                    if p < i {
                        assert(s[p].id@ != id@);
                    } else if p > i {
                        assert(s[i as int].id@ == id@);
                    }
                }
                return Some(i);
            }
            i = i + 1;
        }
        None
    }
    /// Merges `portfolio` into the store. A record with the same identifier is
    /// replaced where it stands; otherwise the new record goes to the front and
    /// the next number moves past the new record's number.
    pub fn upsert(&mut self, portfolio: Portfolio)
        requires
            !has_id(old(self).portfolios@, portfolio.id@) ==> portfolio.number < i32::MAX,
        ensures
            has_id(old(self).portfolios@, portfolio.id@) ==> {
                &&& final(self).portfolios@ == old(self).portfolios@.update(
                    position_of_id(old(self).portfolios@, portfolio.id@),
                    portfolio,
                )
                &&& final(self).portfolios@.len() == old(self).portfolios@.len()
                &&& final(self).next_number == old(self).next_number
            },
            !has_id(old(self).portfolios@, portfolio.id@) ==> {
                &&& final(self).portfolios@ == old(self).portfolios@.insert(0, portfolio)
                &&& final(self).portfolios@[0] == portfolio
                &&& final(self).portfolios@.subrange(1, final(self).portfolios@.len() as int)
                    == old(self).portfolios@
                &&& final(self).next_number == next_after(old(self).next_number, portfolio.number)
            },
            !has_id(old(self).portfolios@, portfolio.id@) && portfolio.number + 1 > old(
                self,
            ).next_number ==> final(self).next_number == portfolio.number + 1,
            portfolio.number + 1 <= old(self).next_number ==> final(self).next_number == old(
                self,
            ).next_number,
            old(self).wf() ==> final(self).wf(),
    {
        let ghost s = self.portfolios@;
        match self.position_of(&portfolio.id) {
            Some(i) => {
                let ghost id = portfolio.id@;
                self.portfolios.set(i, portfolio);
                proof {
                    let t = self.portfolios@;
                    if ids_unique(s) {
                        assert forall|a: int, b: int|
                            0 <= a < t.len() && 0 <= b < t.len() && a != b implies (
                            #[trigger] t[a]).id@ != (#[trigger] t[b]).id@ by {
                            if a == i as int {
                                assert(s[a].id@ == id);
                                assert(t[b] == s[b]);
                            } else if b == i as int {
                                assert(s[b].id@ == id);
                                assert(t[a] == s[a]);
                            } else {
                                assert(t[a] == s[a] && t[b] == s[b]);
                            }
                        }
                    }
                }
            },
            None => {
                let number = portfolio.number;
                self.portfolios.insert(0, portfolio);
                if number + 1 > self.next_number {
                    self.next_number = number + 1;
                }
                proof {
                    let t = self.portfolios@;
                    assert(t.subrange(1, t.len() as int) =~= s);
                    if ids_unique(s) {
                        assert forall|a: int, b: int|
                            0 <= a < t.len() && 0 <= b < t.len() && a != b implies (
                            #[trigger] t[a]).id@ != (#[trigger] t[b]).id@ by {
                            if a == 0 {
                                assert(t[b] == s[b - 1]);
                            } else if b == 0 {
                                assert(t[a] == s[a - 1]);
                            } else {
                                assert(t[a] == s[a - 1] && t[b] == s[b - 1]);
                            }
                        }
                    }
                }
            },
        }
    }

    /// Takes out every record that carries `id`, keeping the others in order.
    pub fn remove_id(&mut self, id: &String)
        ensures
            final(self).portfolios@ == without_id(old(self).portfolios@, id@),
            final(self).next_number == old(self).next_number,
            !has_id(old(self).portfolios@, id@) ==> final(self).portfolios@ == old(self).portfolios@,
            count_id(old(self).portfolios@, id@) == 1 ==> final(self).portfolios@.len() + 1
                == old(self).portfolios@.len(),
            old(self).wf() && has_id(old(self).portfolios@, id@) ==> final(self).portfolios@.len()
                + 1 == old(self).portfolios@.len(),
            old(self).wf() ==> final(self).wf(),
    {
        let ghost orig = self.portfolios@;
        let mut rest: Vec<Portfolio> = Vec::new();
        std::mem::swap(&mut rest, &mut self.portfolios);
        assert(self.portfolios@ + without_id(rest@, id@) =~= without_id(orig, id@));
        while rest.len() > 0
            invariant
                self.portfolios@ + without_id(rest@, id@) == without_id(orig, id@),
                self.next_number == old(self).next_number,
            decreases rest@.len(),
        {
            let ghost before = rest@;
            let p = rest.remove(0);
            assert(before.drop_first() =~= rest@);
            if !(p.id == *id) {
                let ghost kept = self.portfolios@;
                self.portfolios.push(p);
                assert(kept.push(p) + without_id(rest@, id@) =~= kept + (seq![p] + without_id(
                    rest@,
                    id@,
                )));
            }
        }
        assert(self.portfolios@ + without_id(rest@, id@) =~= self.portfolios@);
        proof {
            lemma_without_len(orig, id@);
            if !has_id(orig, id@) {
                lemma_without_absent(orig, id@);
            }
            if ids_unique(orig) {
                lemma_without_unique(orig, id@);
                if has_id(orig, id@) {
                    lemma_unique_count(orig, id@);
                }
            }
        }
    }
}

} // verus!

//! The criteria by which pull requests are ignored.

use vstd::prelude::*;

use crate::discord::error::{DbError, HandledError};
use crate::discord::store::{IgnoredRow, Statement};
use crate::text::chars::same_text;

verus! {

/// What a criterion looks at.
#[derive(Clone, Copy, Debug, PartialEq, Eq, Structural)]
pub enum IgnoredKind {
    /// Who opened the pull request.
    Author,
    /// A label of the pull request.
    Label,
}

impl IgnoredKind {
    /// The number that stands for the kind in the database.
    pub open spec fn repr(self) -> i64 {
        match self {
            IgnoredKind::Author => 0,
            IgnoredKind::Label => 1,
        }
    }

    /// The number that stands for the kind in the database.
    pub fn to_repr(self) -> (r: i64)
        ensures
            r == self.repr(),
    {
        match self {
            IgnoredKind::Author => 0,
            IgnoredKind::Label => 1,
        }
    }

    /// The kind that a number stands for, if it stands for one.
    pub fn from_repr(n: i64) -> (r: Option<IgnoredKind>)
        ensures
            r == kind_of(n),
    {
        if n == 0 {
            Some(IgnoredKind::Author)
        } else if n == 1 {
            Some(IgnoredKind::Label)
        } else {
            None
        }
    }

    /// What the kind is called.
    pub open spec fn name_text(self) -> Seq<char> {
        match self {
            IgnoredKind::Author => "Author"@,
            IgnoredKind::Label => "Label"@,
        }
    }

    /// What the kind is called.
    pub fn name(self) -> (r: &'static str)
        ensures
            r@ == self.name_text(),
    {
        match self {
            IgnoredKind::Author => "Author",
            IgnoredKind::Label => "Label",
        }
    }
}

/// The kind that a number stands for, if it stands for one.
pub open spec fn kind_of(n: i64) -> Option<IgnoredKind> {
    if n == 0 {
        Some(IgnoredKind::Author)
    } else if n == 1 {
        Some(IgnoredKind::Label)
    } else {
        None
    }
}

/// The number of a kind stands for that kind.
pub proof fn law_kind_round_trip(kind: IgnoredKind)
    ensures
        kind_of(kind.repr()) == Some(kind),
{
}

/// A criterion: pull requests with this value are ignored.
#[derive(Debug, PartialEq, Eq)]
pub struct IgnoreCriterion {
    pub id: i64,
    pub kind: IgnoredKind,
    pub value: String,
}

impl Clone for IgnoreCriterion {
    fn clone(&self) -> (r: Self)
        ensures
            r == *self,
    {
        IgnoreCriterion { id: self.id, kind: self.kind, value: self.value.clone() }
    }
}

/// All criteria, in the order in which they were added.
#[derive(Debug)]
pub struct IgnoreCriteria {
    criteria: Vec<IgnoreCriterion>,
}

/// The criterion that a row describes.
pub open spec fn criterion_of(row: IgnoredRow) -> IgnoreCriterion {
    IgnoreCriterion {
        id: row.id,
        kind: kind_of(row.kind)->0,
        value: row.value,
    }
}

/// The criteria that rows describe. A row whose kind is unknown is passed over.
pub open spec fn criteria_of(rows: Seq<IgnoredRow>) -> Seq<IgnoreCriterion> {
    rows.filter(|row: IgnoredRow| kind_of(row.kind) is Some).map_values(
        |row: IgnoredRow| criterion_of(row),
    )
}

/// A list of criteria without the first one that has a given number.
pub open spec fn without_criterion(s: Seq<IgnoreCriterion>, id: i64) -> Seq<IgnoreCriterion>
    decreases s.len(),
{
    if s.len() == 0 {
        s
    } else if s[0].id == id {
        s.skip(1)
    } else {
        seq![s[0]] + without_criterion(s.skip(1), id)
    }
}

/// Whether some criterion has this kind and value.
pub open spec fn matches_criterion(
    s: Seq<IgnoreCriterion>,
    kind: IgnoredKind,
    value: Seq<char>,
) -> bool {
    exists|i: int| 0 <= i < s.len() && (#[trigger] s[i]).kind == kind && s[i].value@ == value
}

proof fn lemma_without_at(s: Seq<IgnoreCriterion>, id: i64, i: int)
    requires
        0 <= i < s.len(),
        s[i].id == id,
        forall|k: int| 0 <= k < i ==> (#[trigger] s[k]).id != id,
    ensures
        without_criterion(s, id) == s.remove(i),
    decreases i,
{
    if i == 0 {
        assert(s.skip(1) =~= s.remove(0));
    } else {
        assert forall|k: int| 0 <= k < i - 1 implies (#[trigger] s.skip(1)[k]).id != id by {
            assert(s.skip(1)[k] == s[k + 1]);
        }
        lemma_without_at(s.skip(1), id, i - 1);
        assert(seq![s[0]] + s.skip(1).remove(i - 1) =~= s.remove(i));
    }
}

proof fn lemma_without_absent(s: Seq<IgnoreCriterion>, id: i64)
    requires
        forall|k: int| 0 <= k < s.len() ==> (#[trigger] s[k]).id != id,
    ensures
        without_criterion(s, id) == s,
    decreases s.len(),
{
    if s.len() > 0 {
        assert forall|k: int| 0 <= k < s.skip(1).len() implies (#[trigger] s.skip(1)[k]).id
            != id by {
            assert(s.skip(1)[k] == s[k + 1]);
        }
        lemma_without_absent(s.skip(1), id);
        assert(seq![s[0]] + s.skip(1) =~= s);
    }
}

impl IgnoreCriteria {
    /// The criteria, in order.
    pub closed spec fn view(self) -> Seq<IgnoreCriterion> {
        self.criteria@
    }

    /// Asks for all criteria.
    pub fn from_db_statement() -> (r: Statement)
        ensures
            r == Statement::SelectIgnored,
    {
        Statement::SelectIgnored
    }

    /// The criteria that the database holds.
    pub fn from_db(rows: Result<Vec<IgnoredRow>, DbError>) -> (r: Result<IgnoreCriteria, DbError>)
        ensures
            match rows {
                Ok(x) => r is Ok && r->Ok_0@ == criteria_of(x@),
                Err(e) => r == Err::<IgnoreCriteria, DbError>(e),
            },
    {
        match rows {
            Ok(found) => {
                let ghost all = found@;
                let ghost known = |row: IgnoredRow| kind_of(row.kind) is Some;
                let ghost made = |row: IgnoredRow| criterion_of(row);
                let mut criteria: Vec<IgnoreCriterion> = Vec::new();
                proof {
                    reveal(Seq::filter);
                    assert(criteria@ =~= criteria_of(all.take(0)));
                }
                for row in it: found
                    invariant
                        it.seq() == all,
                        known == (|row: IgnoredRow| kind_of(row.kind) is Some),
                        made == (|row: IgnoredRow| criterion_of(row)),
                        criteria@ == criteria_of(all.take(it.index())),
                {
                    let ghost before = all.take(it.index());
                    proof {
                        reveal(Seq::filter);
                        assert(all.take(it.index() + 1).drop_last() =~= before);
                        assert(all.take(it.index() + 1).last() == row);
                    }
                    match IgnoredKind::from_repr(row.kind) {
                        Some(kind) => {
                            let ghost whole = row;
                            criteria.push(IgnoreCriterion { id: row.id, kind, value: row.value });
                            assert(before.filter(known).push(whole).map_values(made)
                                =~= before.filter(known).map_values(made).push(made(whole)));
                        },
                        None => {},
                    }
                    assert(criteria@ =~= criteria_of(all.take(it.index() + 1)));
                }
                assert(all.take(all.len() as int) =~= all);
                Ok(IgnoreCriteria { criteria })
            },
            Err(e) => Err(e),
        }
    }

    /// Adds a criterion to the database.
    pub fn add_statement(kind: IgnoredKind, value: String) -> (r: Statement)
        ensures
            r == (Statement::InsertIgnored { kind: kind.repr(), value }),
    {
        Statement::InsertIgnored { kind: kind.to_repr(), value }
    }

    /// Takes note of the criterion that the database has added.
    pub fn add(&mut self, row: Result<IgnoredRow, DbError>) -> (r: Result<(), HandledError>)
        requires
            row is Ok ==> kind_of(row->Ok_0.kind) is Some,
        ensures
            match row {
                Ok(x) => r is Ok && final(self)@ == old(self)@.push(criterion_of(x)),
                Err(_) => r == Err::<(), HandledError>(HandledError::InternalError) && final(self)@
                    == old(self)@,
            },
    {
        match row {
            Ok(x) => {
                if let Some(kind) = IgnoredKind::from_repr(x.kind) {
                    self.criteria.push(IgnoreCriterion { id: x.id, kind, value: x.value });
                }
                Ok(())
            },
            Err(_) => Err(HandledError::InternalError),
        }
    }

    /// Removes a criterion from the database.
    pub fn remove_statement(id: i64) -> (r: Statement)
        ensures
            r == (Statement::DeleteIgnored { id }),
    {
        Statement::DeleteIgnored { id }
    }

    /// Takes note that a criterion is gone, once the database has removed it.
    pub fn remove(&mut self, id: i64, written: Result<(), DbError>) -> (r: Result<
        (),
        HandledError,
    >)
        ensures
            match written {
                Ok(_) => r is Ok && final(self)@ == without_criterion(old(self)@, id),
                Err(_) => r == Err::<(), HandledError>(HandledError::InternalError) && final(self)@
                    == old(self)@,
            },
    {
        if written.is_err() {
            return Err(HandledError::InternalError);
        }
        let ghost before = self.criteria@;
        let mut i: usize = 0;
        while i < self.criteria.len()
            invariant
                i <= self.criteria.len(),
                self.criteria@ == before,
                before == old(self)@,
                written is Ok,
                forall|k: int| 0 <= k < i ==> (#[trigger] before[k]).id != id,
            decreases self.criteria.len() - i,
        {
            if self.criteria[i].id == id {
                proof {
                    lemma_without_at(before, id, i as int);
                }
                self.criteria.remove(i);
                return Ok(());
            }
            i = i + 1;
        }
        proof {
            lemma_without_absent(before, id);
        }
        Ok(())
    }

    /// All criteria, in order.
    pub fn get_all(&self) -> (r: Vec<IgnoreCriterion>)
        ensures
            r@ == self@,
    {
        let mut out: Vec<IgnoreCriterion> = Vec::new();
        let mut i: usize = 0;
        while i < self.criteria.len()
            invariant
                i <= self.criteria.len(),
                out@ == self.criteria@.take(i as int),
            decreases self.criteria.len() - i,
        {
            out.push(self.criteria[i].clone());
            assert(self.criteria@.take(i + 1) =~= self.criteria@.take(i as int).push(
                self.criteria@[i as int],
            ));
            i = i + 1;
        }
        assert(self.criteria@.take(self.criteria@.len() as int) =~= self.criteria@);
        out
    }

    /// Whether pull requests with this value are ignored.
    pub fn is_ignored(&self, kind: IgnoredKind, value: &str) -> (r: bool)
        ensures
            r == matches_criterion(self@, kind, value@),
    {
        let mut i: usize = 0;
        while i < self.criteria.len()
            invariant
                i <= self.criteria.len(),
                forall|k: int|
                    0 <= k < i ==> !((#[trigger] self.criteria@[k]).kind == kind
                        && self.criteria@[k].value@ == value@),
            decreases self.criteria.len() - i,
        {
            if self.criteria[i].kind == kind && same_text(self.criteria[i].value.as_str(), value) {
                return true;
            }
            i = i + 1;
        }
        false
    }
}

/// Once a criterion is added, what it names is ignored; everything else is as before.
pub proof fn law_added_criterion_matches(
    s: Seq<IgnoreCriterion>,
    c: IgnoreCriterion,
    kind: IgnoredKind,
    value: Seq<char>,
)
    ensures
        matches_criterion(s.push(c), kind, value) <==> matches_criterion(s, kind, value) || (c.kind
            == kind && c.value@ == value),
{
    let t = s.push(c);
    if matches_criterion(s, kind, value) {
        let i = choose|i: int|
            0 <= i < s.len() && (#[trigger] s[i]).kind == kind && s[i].value@ == value;
        assert(t[i] == s[i]);
    }
    if c.kind == kind && c.value@ == value {
        assert(t[s.len() as int] == c);
    }
    if matches_criterion(t, kind, value) {
        let i = choose|i: int|
            0 <= i < t.len() && (#[trigger] t[i]).kind == kind && t[i].value@ == value;
        if i < s.len() {
            assert(s[i] == t[i]);
        }
    }
}

/// Where every number stands for one criterion, a removed criterion is gone and every other one
/// stays.
pub proof fn law_removed_criterion_is_gone(s: Seq<IgnoreCriterion>, id: i64, c: IgnoreCriterion)
    requires
        forall|i: int, j: int|
            0 <= i < j < s.len() ==> (#[trigger] s[i]).id != (#[trigger] s[j]).id,
    ensures
        without_criterion(s, id).contains(c) <==> s.contains(c) && c.id != id,
    decreases s.len(),
{
    if s.len() > 0 {
        let rest = s.skip(1);
        assert forall|i: int, j: int| 0 <= i < j < rest.len() implies (#[trigger] rest[i]).id != (
        #[trigger] rest[j]).id by {
            assert(rest[i] == s[i + 1] && rest[j] == s[j + 1]);
        }
        law_removed_criterion_is_gone(rest, id, c);
        if s[0].id == id {
            if rest.contains(c) {
                let k = choose|k: int| 0 <= k < rest.len() && rest[k] == c;
                assert(s[k + 1] == c);
                assert(s[0].id != s[k + 1].id);
            }
            if s.contains(c) && c.id != id {
                let k = choose|k: int| 0 <= k < s.len() && s[k] == c;
                assert(rest[k - 1] == c);
            }
        } else {
            let w = without_criterion(rest, id);
            let whole = seq![s[0]] + w;
            if whole.contains(c) {
                let k = choose|k: int| 0 <= k < whole.len() && whole[k] == c;
                if k == 0 {
                    assert(s[0] == c);
                } else {
                    assert(w[k - 1] == c);
                    assert(rest.contains(c));
                    let m = choose|m: int| 0 <= m < rest.len() && rest[m] == c;
                    assert(s[m + 1] == c);
                }
            }
            if s.contains(c) && c.id != id {
                let k = choose|k: int| 0 <= k < s.len() && s[k] == c;
                if k == 0 {
                    assert(whole[0] == c);
                } else {
                    assert(rest[k - 1] == c);
                    assert(w.contains(c));
                    let m = choose|m: int| 0 <= m < w.len() && w[m] == c;
                    assert(whole[m + 1] == c);
                }
            }
        }
    }
}

/// The two kinds of criteria have their own numbers and names; no other number stands for a kind.
pub proof fn law_kinds_are_told_apart(n: i64)
    ensures
        kind_of(n) == Some(IgnoredKind::Author) <==> n == 0,
        kind_of(n) == Some(IgnoredKind::Label) <==> n == 1,
        kind_of(n) is Some <==> n == 0 || n == 1,
        IgnoredKind::Author.name_text() == "Author"@,
        IgnoredKind::Label.name_text() == "Label"@,
{
}

/// A pull request is ignored exactly if some criterion of the same kind has its value.
pub proof fn law_ignored_iff_some_criterion(
    s: Seq<IgnoreCriterion>,
    c: IgnoreCriterion,
    kind: IgnoredKind,
    value: Seq<char>,
)
    ensures
        matches_criterion(s.push(c), kind, value) <==> matches_criterion(s, kind, value) || (c.kind
            == kind && c.value@ == value),
        !matches_criterion(Seq::empty(), kind, value),
{
    let t = s.push(c);
    if matches_criterion(s, kind, value) {
        let i = choose|i: int|
            0 <= i < s.len() && (#[trigger] s[i]).kind == kind && s[i].value@ == value;
        assert(t[i] == s[i]);
    }
    if c.kind == kind && c.value@ == value {
        assert(t[s.len() as int] == c);
    }
    if matches_criterion(t, kind, value) {
        let i = choose|i: int|
            0 <= i < t.len() && (#[trigger] t[i]).kind == kind && t[i].value@ == value;
        if i < s.len() {
            assert(s[i] == t[i]);
        }
    }
}

} // verus!

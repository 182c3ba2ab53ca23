//! The verified card table: the data-access operations (create, get, get
//! all, edit, delete, sum of duration on a date) over an in-memory table
//! with unique server-assigned identifiers, together with the laws that
//! relate them.

use vstd::prelude::*;
use crate::date::Date;
use crate::domain::{card_of, Card, CardData, CardV};
use crate::errors::{AppError, ErrorType};

verus! {

/// Most rows the table accepts before a create reports an internal failure,
/// chosen so that every duration sum fits a 64-bit signed total.
pub const MAX_CARDS: usize = 0x7fff_ffff;

/// No two rows share an identifier.
pub open spec fn unique_ids(rows: Seq<CardV>) -> bool {
    forall|i: int, j: int|
        0 <= i < j < rows.len() ==> #[trigger] rows[i].id != #[trigger] rows[j].id
}

/// The first row carrying the given identifier, if any.
pub open spec fn spec_get(rows: Seq<CardV>, id: int) -> Option<CardV>
    decreases rows.len(),
{
    if rows.len() == 0 {
        None
    } else if rows[0].id == id {
        Some(rows[0])
    } else {
        spec_get(rows.drop_first(), id)
    }
}

/// Sum of the `duration` field over the rows whose date equals `d`.
pub open spec fn sum_duration_spec(rows: Seq<CardV>, d: Date) -> int
    decreases rows.len(),
{
    if rows.len() == 0 {
        0
    } else {
        sum_duration_spec(rows.drop_last(), d) + if rows.last().date == d {
            rows.last().duration
        } else {
            0
        }
    }
}

/// A lookup misses exactly when no row carries the identifier.
pub proof fn lemma_spec_get_none_iff(rows: Seq<CardV>, id: int)
    ensures
        (spec_get(rows, id) is None) <==> (forall|i: int|
            0 <= i < rows.len() ==> (#[trigger] rows[i]).id != id),
    decreases rows.len(),
{
    if rows.len() > 0 {
        let rest = rows.drop_first();
        lemma_spec_get_none_iff(rest, id);
        assert(forall|i: int| 0 <= i < rest.len() ==> #[trigger] rest[i] == rows[i + 1]);
        if (forall|i: int| 0 <= i < rows.len() ==> (#[trigger] rows[i]).id != id) {
            assert forall|i: int| 0 <= i < rest.len() implies (#[trigger] rest[i]).id != id by {
                assert(rest[i] == rows[i + 1]);
                assert(rows[i + 1].id != id);
            }
            assert(spec_get(rest, id) is None);
        } else {
            let k = choose|i: int| 0 <= i < rows.len() && (#[trigger] rows[i]).id == id;
            if k > 0 {
                assert(rest[k - 1] == rows[k]);
                assert(spec_get(rest, id) is Some);
            }
        }
    }
}

/// A lookup returns the row at the first position where the identifier
/// occurs.
pub proof fn lemma_spec_get_first_match(rows: Seq<CardV>, i: int, id: int)
    requires
        0 <= i < rows.len(),
        forall|j: int| 0 <= j < i ==> (#[trigger] rows[j]).id != id,
        rows[i].id == id,
    ensures
        spec_get(rows, id) == Some(rows[i]),
    decreases i,
{
    if i > 0 {
        let rest = rows.drop_first();
        assert(forall|j: int| 0 <= j < rest.len() ==> #[trigger] rest[j] == rows[j + 1]);
        lemma_spec_get_first_match(rest, i - 1, id);
    }
}

/// Creating a row with a fresh identifier, then looking that identifier up,
/// yields exactly the stored row.
pub proof fn lemma_create_then_get(rows: Seq<CardV>, c: CardV)
    requires
        spec_get(rows, c.id) is None,
    ensures
        spec_get(rows.push(c), c.id) == Some(c),
{
    lemma_spec_get_none_iff(rows, c.id);
    let grown = rows.push(c);
    assert(forall|j: int| 0 <= j < rows.len() ==> #[trigger] grown[j] == rows[j]);
    lemma_spec_get_first_match(grown, rows.len() as int, c.id);
}

/// A lookup for any other identifier is unaffected by a create.
pub proof fn lemma_get_other_after_create(rows: Seq<CardV>, c: CardV, id: int)
    requires
        id != c.id,
    ensures
        spec_get(rows.push(c), id) == spec_get(rows, id),
    decreases rows.len(),
{
    let grown = rows.push(c);
    if rows.len() == 0 {
        assert(grown[0] == c);
        assert(grown.drop_first() =~= Seq::<CardV>::empty());
    } else {
        assert(grown[0] == rows[0]);
        if rows[0].id != id {
            assert(grown.drop_first() =~= rows.drop_first().push(c));
            lemma_get_other_after_create(rows.drop_first(), c, id);
        }
    }
}

/// Editing in place is a full overwrite: looking the identifier up after the
/// update yields the fresh row, not a merge.
pub proof fn lemma_edit_then_get(rows: Seq<CardV>, i: int, c: CardV)
    requires
        unique_ids(rows),
        0 <= i < rows.len(),
        rows[i].id == c.id,
    ensures
        spec_get(rows.update(i, c), c.id) == Some(c),
{
    let updated = rows.update(i, c);
    assert(forall|j: int| 0 <= j < i ==> #[trigger] updated[j] == rows[j]);
    assert(forall|j: int| 0 <= j < i ==> (#[trigger] rows[j]).id != c.id);
    lemma_spec_get_first_match(updated, i, c.id);
}

/// After a row is removed, looking its identifier up misses: deleting it a
/// second time finds nothing.
pub proof fn lemma_delete_then_get(rows: Seq<CardV>, i: int)
    requires
        unique_ids(rows),
        0 <= i < rows.len(),
    ensures
        spec_get(rows.remove(i), rows[i].id) is None,
{
    let id = rows[i].id;
    let shrunk = rows.remove(i);
    assert(forall|j: int| 0 <= j < i ==> #[trigger] shrunk[j] == rows[j]);
    assert(forall|j: int| i <= j < shrunk.len() ==> #[trigger] shrunk[j] == rows[j + 1]);
    assert(forall|j: int| 0 <= j < shrunk.len() ==> (#[trigger] shrunk[j]).id != id);
    lemma_spec_get_none_iff(shrunk, id);
}

/// A date with no matching rows sums to zero.
pub proof fn lemma_sum_no_match(rows: Seq<CardV>, d: Date)
    requires
        forall|i: int| 0 <= i < rows.len() ==> (#[trigger] rows[i]).date != d,
    ensures
        sum_duration_spec(rows, d) == 0,
    decreases rows.len(),
{
    if rows.len() > 0 {
        assert(forall|i: int|
            0 <= i < rows.drop_last().len() ==> #[trigger] rows.drop_last()[i] == rows[i]);
        lemma_sum_no_match(rows.drop_last(), d);
    }
}

/// The card table. It is the sole owner of the rows; every operation's
/// effect is stated against the mathematical row sequence [`CardStore::rows`].
pub struct CardStore {
    cards: Vec<Card>,
    next_id: i64,
}

impl CardStore {
    /// The rows of the table, in storage order.
    pub closed spec fn rows(&self) -> Seq<CardV> {
        self.cards@.map(|i: int, c: Card| c@)
    }

    /// The identifier the next successful create will assign.
    pub closed spec fn next_id_spec(&self) -> int {
        self.next_id as int
    }

    /// Table invariant: identifiers are unique, positive, below the next one
    /// to be assigned, and the row count stays within capacity.
    pub closed spec fn wf(&self) -> bool {
        &&& unique_ids(self.rows())
        &&& 1 <= self.next_id
        &&& forall|i: int|
            0 <= i < self.rows().len() ==> 1 <= (#[trigger] self.rows()[i]).id
                < self.next_id
        &&& self.cards@.len() <= MAX_CARDS
    }

    /// A create will succeed: the table is below capacity and the identifier
    /// space is not exhausted.
    pub open spec fn can_insert(&self) -> bool {
        self.rows().len() < MAX_CARDS && self.next_id_spec() < i64::MAX
    }

    /// An empty table, assigning identifiers from 1 up.
    pub fn new() -> (s: CardStore)
        ensures
            s.wf(),
            s.rows() == Seq::<CardV>::empty(),
            s.next_id_spec() == 1,
    {
        let s = CardStore { cards: Vec::new(), next_id: 1 };
        proof {
            assert(s.rows() =~= Seq::<CardV>::empty());
        }
        s
    }

    /// Index of the first row carrying the identifier, if any, tied to what
    /// [`spec_get`] names.
    fn find_index(&self, id: i64) -> (r: Option<usize>)
        ensures
            r matches Some(i) ==> i < self.rows().len() && self.rows()[i as int].id == id as int
                && spec_get(self.rows(), id as int) == Some(self.rows()[i as int]),
            r is None ==> spec_get(self.rows(), id as int) is None,
    {
        let n = self.cards.len();
        let mut i: usize = 0;
        while i < n
            invariant
                n == self.cards@.len(),
                n == self.rows().len(),
                i <= n,
                forall|j: int| 0 <= j < i ==> (#[trigger] self.rows()[j]).id != id as int,
            decreases n - i,
        {
            if self.cards[i].id == id {
                proof {
                    assert(self.rows()[i as int] == self.cards@[i as int]@);
                    lemma_spec_get_first_match(self.rows(), i as int, id as int);
                }
                return Some(i);
            }
            proof {
                assert(self.rows()[i as int] == self.cards@[i as int]@);
            }
            i += 1;
        }
        proof {
            lemma_spec_get_none_iff(self.rows(), id as int);
        }
        None
    }

    /// Insert a new row built from the given field set, assigning a fresh
    /// identifier, and return the stored row. Succeeds exactly when the
    /// table can take one more row; a failure changes nothing and is
    /// internal.
    pub fn create_card(&mut self, data: CardData) -> (r: Result<Card, AppError>)
        requires
            old(self).wf(),
        ensures
            final(self).wf(),
            old(self).can_insert() ==> (r matches Ok(c) && c@ == card_of(
                old(self).next_id_spec(),
                data@,
            ) && final(self).rows() == old(self).rows().push(c@) && spec_get(
                old(self).rows(),
                c@.id,
            ) is None && final(self).next_id_spec() == old(self).next_id_spec() + 1),
            !old(self).can_insert() ==> (r matches Err(e) && e.err_type == ErrorType::Internal
                && final(self).rows() == old(self).rows() && final(self).next_id_spec() == old(
                self,
            ).next_id_spec()),
    {
        if self.cards.len() >= MAX_CARDS || self.next_id == i64::MAX {
            return Err(
                AppError::new("while creating card: storage unavailable", ErrorType::Internal),
            );
        }
        let id = self.next_id;
        self.next_id = self.next_id + 1;
        let card = data.into_card(id);
        let stored = card.duplicate();
        proof {
            let rows = old(self).rows();
            assert(forall|i: int|
                0 <= i < rows.len() ==> (#[trigger] rows[i]).id != id as int);
            lemma_spec_get_none_iff(rows, id as int);
        }
        self.cards.push(card);
        proof {
            assert(final(self).rows() =~= old(self).rows().push(stored@));
        }
        Ok(stored)
    }

    /// Fetch the row carrying the identifier. Misses are absence, not an
    /// internal failure: the error kind is then `NotFound`, exactly when no
    /// row carries the identifier.
    pub fn get_card_by_id(&self, id: i64) -> (r: Result<Card, AppError>)
        ensures
            r matches Ok(c) ==> spec_get(self.rows(), id as int) == Some(c@),
            r is Ok <==> spec_get(self.rows(), id as int) is Some,
            r matches Err(e) ==> e.err_type == ErrorType::NotFound,
    {
        match self.find_index(id) {
            Some(i) => Ok(self.cards[i].duplicate()),
            None => Err(AppError::new("while retrieving card: card not found", ErrorType::NotFound)),
        }
    }

    /// Every row of the table, in storage order. An empty table is a valid,
    /// non-error outcome.
    pub fn get_all_cards(&self) -> (r: Result<Vec<Card>, AppError>)
        ensures
            r matches Ok(v) && v@.len() == self.rows().len() && (forall|i: int|
                0 <= i < v@.len() ==> (#[trigger] v@[i])@ == self.rows()[i]),
    {
        let n = self.cards.len();
        let mut out: Vec<Card> = Vec::new();
        let mut i: usize = 0;
        while i < n
            invariant
                n == self.cards@.len(),
                n == self.rows().len(),
                i <= n,
                out@.len() == i,
                forall|j: int| 0 <= j < i ==> (#[trigger] out@[j])@ == self.rows()[j],
            decreases n - i,
        {
            proof {
                assert(self.rows()[i as int] == self.cards@[i as int]@);
            }
            out.push(self.cards[i].duplicate());
            i += 1;
        }
        Ok(out)
    }

    /// Overwrite every mutable field of the row carrying the identifier with
    /// the given field set, and return the freshly stored row. When no row
    /// carries the identifier, nothing is written and the error kind is
    /// `NotFound`.
    pub fn edit_card(&mut self, id: i64, data: CardData) -> (r: Result<Card, AppError>)
        requires
            old(self).wf(),
        ensures
            final(self).wf(),
            final(self).next_id_spec() == old(self).next_id_spec(),
            spec_get(old(self).rows(), id as int) is Some ==> (r matches Ok(c) && c@ == card_of(
                id as int,
                data@,
            ) && spec_get(final(self).rows(), id as int) == Some(card_of(id as int, data@)) && (
            exists|i: int|
                0 <= i < old(self).rows().len() && (#[trigger] old(self).rows()[i]).id == id as int
                    && final(self).rows() == old(self).rows().update(i, card_of(id as int, data@)))),
            spec_get(old(self).rows(), id as int) is None ==> (r matches Err(e) && e.err_type
                == ErrorType::NotFound && final(self).rows() == old(self).rows()),
    {
        match self.find_index(id) {
            Some(i) => {
                let fresh = data.into_card(id);
                let stored = fresh.duplicate();
                self.cards[i] = fresh;
                proof {
                    let rows = old(self).rows();
                    let updated = rows.update(i as int, stored@);
                    assert(final(self).rows() =~= updated);
                    lemma_edit_then_get(rows, i as int, stored@);
                    assert(forall|j: int|
                        0 <= j < updated.len() ==> (#[trigger] updated[j]).id == rows[j].id);
                }
                Ok(stored)
            },
            None => Err(AppError::new("card not found", ErrorType::NotFound)),
        }
    }

    /// Remove the row carrying the identifier; the count of removed rows is
    /// 1 on success. When no row carries the identifier — including when it
    /// was already deleted — nothing is removed and the error kind is
    /// `NotFound`.
    pub fn delete_card(&mut self, id: i64) -> (r: Result<usize, AppError>)
        requires
            old(self).wf(),
        ensures
            final(self).wf(),
            final(self).next_id_spec() == old(self).next_id_spec(),
            spec_get(old(self).rows(), id as int) is Some ==> (r == Ok::<usize, AppError>(1usize)
                && spec_get(final(self).rows(), id as int) is None && (exists|i: int|
                0 <= i < old(self).rows().len() && (#[trigger] old(self).rows()[i]).id == id as int
                    && final(self).rows() == old(self).rows().remove(i))),
            spec_get(old(self).rows(), id as int) is None ==> (r matches Err(e) && e.err_type
                == ErrorType::NotFound && final(self).rows() == old(self).rows()),
    {
        match self.find_index(id) {
            Some(i) => {
                self.cards.remove(i);
                proof {
                    let rows = old(self).rows();
                    let shrunk = rows.remove(i as int);
                    assert(final(self).rows() =~= shrunk);
                    lemma_delete_then_get(rows, i as int);
                    assert(forall|j: int| 0 <= j < i ==> #[trigger] shrunk[j] == rows[j]);
                    assert(forall|j: int|
                        i <= j < shrunk.len() ==> #[trigger] shrunk[j] == rows[j + 1]);
                }
                Ok(1)
            },
            None => Err(AppError::new("card not found", ErrorType::NotFound)),
        }
    }

    /// Sum the `duration` field over the rows whose date equals the given
    /// one. A date with no matching rows yields 0; this never fails and
    /// never reports absence.
    pub fn check_total_duration_on_date(&self, date: Date) -> (r: Result<i64, AppError>)
        requires
            self.wf(),
        ensures
            r matches Ok(t) && t == sum_duration_spec(self.rows(), date),
    {
        let n = self.cards.len();
        let mut total: i64 = 0;
        let mut i: usize = 0;
        while i < n
            invariant
                self.wf(),
                n == self.cards@.len(),
                n == self.rows().len(),
                n <= MAX_CARDS,
                i <= n,
                total == sum_duration_spec(self.rows().subrange(0, i as int), date),
                -(i as int) * 0x8000_0000 <= total <= (i as int) * 0x7fff_ffff,
            decreases n - i,
        {
            proof {
                let rows = self.rows();
                assert(rows[i as int] == self.cards@[i as int]@);
                let p = rows.subrange(0, i as int);
                let q = rows.subrange(0, i + 1 as int);
                assert(q.drop_last() =~= p);
                assert(q.last() == rows[i as int]);
                assert((i as int) * 0x8000_0000 + 0x8000_0000 == (i + 1 as int) * 0x8000_0000)
                    by (nonlinear_arith);
                assert((i as int) * 0x7fff_ffff + 0x7fff_ffff == (i + 1 as int) * 0x7fff_ffff)
                    by (nonlinear_arith);
                assert((i + 1 as int) * 0x8000_0000 <= 0x8000_0000 * 0x8000_0000int)
                    by (nonlinear_arith)
                    requires
                        i + 1 <= 0x8000_0000int,
                ;
                assert((i + 1 as int) * 0x7fff_ffff <= 0x8000_0000 * 0x7fff_ffffint)
                    by (nonlinear_arith)
                    requires
                        i + 1 <= 0x8000_0000int,
                ;
            }
            if self.cards[i].date == date {
                total = total + self.cards[i].duration as i64;
            }
            i += 1;
        }
        proof {
            assert(self.rows().subrange(0, n as int) =~= self.rows());
        }
        Ok(total)
    }
}

} // verus!

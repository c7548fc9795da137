//! Runtime contracts that a `listTopFilms` response is held to.
//!
//! Each function returns `Ok(())` when the contract holds and a typed
//! [`ContractViolation`] when it does not:
//!
//! 1. `hits.len() == k`: top-k honoured.
//! 2. `hits[0].score >= 0.0`: top score non-negative.
//! 3. `forall h. h.id > 0`: every film id is a positive integer.
//! 4. `forall i. hits[i].score >= hits[i+1].score`: pairwise descending.
//!
//! A NaN score compares as neither `>=` nor `<` to anything, so it fails
//! contracts 2 and 4.

use vstd::prelude::*;
use vstd::string::StringExecFns;

use crate::score::{spec_float_ge, spec_is_nan, spec_order_key, Score};
use crate::text::{push_decimal, push_signed_decimal, spec_decimal, spec_signed_decimal};
use crate::types::FilmHit;

verus! {

/// A contract obligation that the response failed to satisfy.
#[derive(Debug, PartialEq)]
pub enum ContractViolation {
    /// Returned row count differs from the requested top-k.
    RowCount {
        /// Expected number of hits (the `k` argument to `listTopFilms`).
        expected: usize,
        /// Actual number of hits the helix instance returned.
        actual: usize,
    },
    /// Top hit's score is not `>= 0.0` (it is negative or a NaN): it should be
    /// in [0, 1].
    TopScoreNegative(Score),
    /// One of the hits has a non-positive id: the schema says id > 0.
    IdNonPositive {
        /// Position of the offending hit in the response slice.
        index: usize,
        /// Offending id value.
        id: i64,
    },
    /// Hits are not pairwise sorted by descending score: the score at `index`
    /// is not `>=` the one after it.
    NotDescending {
        /// Index of the hit whose score is lower than its neighbour.
        index: usize,
        /// Score at `index`.
        lhs: Score,
        /// Score at `index + 1`.
        rhs: Score,
    },
}

/// The message of `v`, where `first` is the text of the first score it
/// carries (the top score, or the left one of a pair) and `second` the text of
/// the second (the right one of a pair).
pub open spec fn violation_message(v: ContractViolation, first: Seq<char>, second: Seq<char>) -> Seq<
    char,
> {
    match v {
        ContractViolation::RowCount { expected, actual } => "row count contract: expected "@
            + spec_decimal(expected as nat) + " hits, got "@ + spec_decimal(actual as nat),
        ContractViolation::TopScoreNegative(_) => "top score contract: top score is negative ("@
            + first + ")"@,
        ContractViolation::IdNonPositive { index, id } => "id positivity contract: hit at index "@
            + spec_decimal(index as nat) + " has non-positive id "@ + spec_signed_decimal(id as int),
        ContractViolation::NotDescending { index, .. } => "descending sort contract: hits["@
            + spec_decimal(index as nat) + "].score ("@ + first + ") < hits["@ + spec_decimal(
            (index + 1) as nat,
        ) + "].score ("@ + second + ")"@,
    }
}

impl ContractViolation {
    /// The message of this violation. Scores are printed as floating-point
    /// numbers, which this library does not render: `first` is the text of
    /// the first score the violation carries (the top score, or the left one
    /// of a pair) and `second` the text of the second (the right one of a
    /// pair); a violation that carries fewer scores ignores the rest.
    pub fn to_string_with_scores(&self, first: &str, second: &str) -> (s: String)
        ensures
            s@ == violation_message(*self, first@, second@),
    {
        match self {
            ContractViolation::RowCount { expected, actual } => {
                let mut s = String::from_str("row count contract: expected ");
                push_decimal(&mut s, *expected as u128);
                s.append(" hits, got ");
                push_decimal(&mut s, *actual as u128);
                s
            },
            ContractViolation::TopScoreNegative(_) => {
                let mut s = String::from_str("top score contract: top score is negative (");
                s.append(first);
                s.append(")");
                s
            },
            ContractViolation::IdNonPositive { index, id } => {
                let mut s = String::from_str("id positivity contract: hit at index ");
                push_decimal(&mut s, *index as u128);
                s.append(" has non-positive id ");
                push_signed_decimal(&mut s, *id);
                s
            },
            ContractViolation::NotDescending { index, .. } => {
                let mut s = String::from_str("descending sort contract: hits[");
                push_decimal(&mut s, *index as u128);
                s.append("].score (");
                s.append(first);
                s.append(") < hits[");
                push_decimal(&mut s, *index as u128 + 1);
                s.append("].score (");
                s.append(second);
                s.append(")");
                s
            },
        }
    }
}

/// Every id in `hits` is positive.
pub open spec fn all_ids_positive(hits: Seq<FilmHit>) -> bool {
    forall|i: int| 0 <= i < hits.len() ==> #[trigger] hits[i].id > 0
}

/// Every hit of `hits` scores `>=` the hit after it.
pub open spec fn pairwise_descending(hits: Seq<FilmHit>) -> bool {
    forall|i: int|
        0 <= i < hits.len() - 1 ==> spec_float_ge(#[trigger] hits[i].score.bits, hits[i + 1].score.bits)
}

/// The first hit of `hits`, if any, does not score `>= 0.0`.
pub open spec fn top_score_negative(hits: Seq<FilmHit>) -> bool {
    hits.len() > 0 && !spec_float_ge(hits[0].score.bits, 0)
}

/// Contract 1: the response carries exactly `expected` rows.
pub fn assert_row_count(hits: &[FilmHit], expected: usize) -> (r: Result<(), ContractViolation>)
    ensures
        r == (if hits@.len() == expected {
            Ok(())
        } else {
            Err(ContractViolation::RowCount { expected, actual: hits@.len() as usize })
        }),
{
    if hits.len() == expected {
        Ok(())
    } else {
        Err(ContractViolation::RowCount { expected, actual: hits.len() })
    }
}

/// Contract 2: `hits[0].score` is non-negative.
///
/// An empty slice satisfies the contract vacuously; the row count is enforced
/// by [`assert_row_count`].
pub fn assert_top_score_non_negative(hits: &[FilmHit]) -> (r: Result<(), ContractViolation>)
    ensures
        r == (if top_score_negative(hits@) {
            Err(ContractViolation::TopScoreNegative(hits@[0].score))
        } else {
            Ok(())
        }),
{
    if hits.len() > 0 && !hits[0].score.ge(&Score::zero()) {
        Err(ContractViolation::TopScoreNegative(hits[0].score))
    } else {
        Ok(())
    }
}

/// Contract 3: every film id is a positive integer. A violation names the
/// first hit whose id is not.
pub fn assert_all_ids_positive(hits: &[FilmHit]) -> (r: Result<(), ContractViolation>)
    ensures
        r is Ok <==> all_ids_positive(hits@),
        r matches Err(v) ==> {
            &&& v matches ContractViolation::IdNonPositive { index, id }
            &&& index < hits@.len()
            &&& id == hits@[index as int].id
            &&& id <= 0
            &&& forall|j: int| 0 <= j < index ==> #[trigger] hits@[j].id > 0
        },
{
    let n = hits.len();
    let mut index: usize = 0;
    while index < n
        invariant
            n == hits@.len(),
            index <= n,
            forall|j: int| 0 <= j < index ==> #[trigger] hits@[j].id > 0,
        decreases n - index,
    {
        let id = hits[index].id;
        if id <= 0 {
            return Err(ContractViolation::IdNonPositive { index, id });
        }
        index += 1;
    }
    Ok(())
}

/// Contract 4: hits are pairwise sorted by descending score. A violation names
/// the first pair whose left score is below its right one.
pub fn assert_descending_sort(hits: &[FilmHit]) -> (r: Result<(), ContractViolation>)
    ensures
        r is Ok <==> pairwise_descending(hits@),
        r matches Err(v) ==> {
            &&& v matches ContractViolation::NotDescending { index, lhs, rhs }
            &&& index + 1 < hits@.len()
            &&& lhs == hits@[index as int].score
            &&& rhs == hits@[index + 1].score
            &&& !spec_float_ge(lhs.bits, rhs.bits)
            &&& forall|j: int|
                0 <= j < index ==> spec_float_ge(#[trigger] hits@[j].score.bits, hits@[j + 1].score.bits)
        },
{
    let n = hits.len();
    let mut index: usize = 0;
    while index < n && index + 1 < n
        invariant
            n == hits@.len(),
            index <= n,
            forall|j: int|
                0 <= j < index && j + 1 < n ==> spec_float_ge(#[trigger] hits@[j].score.bits, hits@[j + 1].score.bits),
        decreases n - index,
    {
        let lhs = hits[index].score;
        let rhs = hits[index + 1].score;
        if !lhs.ge(&rhs) {
            return Err(ContractViolation::NotDescending { index, lhs, rhs });
        }
        index += 1;
    }
    Ok(())
}

/// An empty response satisfies contracts 2, 3 and 4 vacuously, and a
/// single-hit response satisfies contract 4.
pub proof fn law_short_responses_pass(hits: Seq<FilmHit>)
    ensures
        hits.len() == 0 ==> !top_score_negative(hits) && all_ids_positive(hits),
        hits.len() <= 1 ==> pairwise_descending(hits),
{
}

/// A response that passes contract 4 is sorted by descending score as a
/// whole: every hit scores `>=` every later one.
pub proof fn law_pairwise_descending_is_sorted(hits: Seq<FilmHit>, i: int, j: int)
    requires
        pairwise_descending(hits),
        0 <= i < j < hits.len(),
    ensures
        spec_float_ge(hits[i].score.bits, hits[j].score.bits),
    decreases j - i,
{
    assert(spec_float_ge(hits[i].score.bits, hits[i + 1].score.bits));
    if i + 1 < j {
        law_pairwise_descending_is_sorted(hits, i + 1, j);
    }
}

/// Contract 2 rejects a non-empty response exactly when its first score is a
/// NaN or below zero (a zero of either sign passes), whatever the length.
pub proof fn law_top_score_verdict(hits: Seq<FilmHit>)
    requires
        hits.len() > 0,
    ensures
        top_score_negative(hits) <==> (spec_is_nan(hits[0].score.bits) || spec_order_key(
            hits[0].score.bits,
        ) < 0),
{
}

/// Contract 2 looks at the first hit only: two non-empty responses with the
/// same first hit get the same verdict, and so do a response and the same one
/// with hits added at its end.
pub proof fn law_top_score_depends_on_first_hit(a: Seq<FilmHit>, b: Seq<FilmHit>, extra: Seq<FilmHit>)
    requires
        a.len() > 0,
        b.len() > 0,
        a[0] == b[0],
    ensures
        top_score_negative(a) == top_score_negative(b),
        top_score_negative(a + extra) == top_score_negative(a),
{
    assert((a + extra)[0] == a[0]);
}

/// Contract 3 over every hit: the empty response passes, and a response with
/// one more hit at its end passes exactly when the shorter one does and the
/// new hit's id is positive.
pub proof fn law_ids_positive_extend(hits: Seq<FilmHit>, h: FilmHit)
    ensures
        all_ids_positive(Seq::<FilmHit>::empty()),
        all_ids_positive(hits.push(h)) <==> all_ids_positive(hits) && h.id > 0,
{
    let longer = hits.push(h);
    if all_ids_positive(longer) {
        assert(longer[hits.len() as int] == h);
        assert forall|i: int| 0 <= i < hits.len() implies #[trigger] hits[i].id > 0 by {
            assert(longer[i] == hits[i]);
        }
    }
    if all_ids_positive(hits) && h.id > 0 {
        assert forall|i: int| 0 <= i < longer.len() implies #[trigger] longer[i].id > 0 by {
            if i < hits.len() {
                assert(longer[i] == hits[i]);
            }
        }
    }
}

/// A response fails contract 3 exactly when some hit, at any position, has an
/// id that is not positive.
pub proof fn law_ids_positive_everywhere(hits: Seq<FilmHit>, i: int)
    requires
        0 <= i < hits.len(),
    ensures
        hits[i].id <= 0 ==> !all_ids_positive(hits),
        all_ids_positive(hits) ==> hits[i].id > 0,
{
}

/// Contract 4 over every pair: a response with one more hit at its end passes
/// exactly when the shorter one does and its last score is `>=` the new one.
pub proof fn law_descending_extend(hits: Seq<FilmHit>, h: FilmHit)
    ensures
        pairwise_descending(hits.push(h)) <==> pairwise_descending(hits) && (hits.len() == 0
            || spec_float_ge(hits.last().score.bits, h.score.bits)),
{
    let longer = hits.push(h);
    if pairwise_descending(longer) {
        if hits.len() > 0 {
            assert(longer[hits.len() - 1] == hits.last());
            assert(longer[hits.len() as int] == h);
            assert(spec_float_ge(longer[hits.len() - 1].score.bits, longer[hits.len() as int].score.bits));
        }
        assert forall|i: int| 0 <= i < hits.len() - 1 implies spec_float_ge(
            #[trigger] hits[i].score.bits,
            hits[i + 1].score.bits,
        ) by {
            assert(longer[i] == hits[i]);
            assert(longer[i + 1] == hits[i + 1]);
            assert(spec_float_ge(longer[i].score.bits, longer[i + 1].score.bits));
        }
    }
    if pairwise_descending(hits) && (hits.len() == 0 || spec_float_ge(hits.last().score.bits, h.score.bits)) {
        assert forall|i: int| 0 <= i < longer.len() - 1 implies spec_float_ge(
            #[trigger] longer[i].score.bits,
            longer[i + 1].score.bits,
        ) by {
            assert(longer[i] == hits[i]);
            if i + 1 < hits.len() {
                assert(longer[i + 1] == hits[i + 1]);
                assert(spec_float_ge(hits[i].score.bits, hits[i + 1].score.bits));
            } else {
                assert(longer[i + 1] == h);
            }
        }
    }
}

} // verus!

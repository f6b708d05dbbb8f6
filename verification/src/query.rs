//! The query engine: deriving one crew's year-by-year position history from
//! a division's full standings.
//!
//! Every operation here is a pure, total transform over immutable input: a
//! crew that never raced yields an empty series, never an error. The input
//! sequence's order is trusted as given (no defensive re-sort by year), so
//! the output series follows the source order exactly.

use vstd::prelude::*;
use crate::model::{AnnualResult, Crew, CrewResult, Position, Year};

verus! {

/// `i` is the index of the first occurrence of `crew` in `standings`.
pub open spec fn is_first_match(standings: Seq<Crew>, crew: Crew, i: int) -> bool {
    &&& 0 <= i < standings.len()
    &&& standings[i] == crew
    &&& forall|j: int| 0 <= j < i ==> standings[j] != crew
}

/// The index of the first occurrence of `crew` in `standings`; meaningful
/// only when `standings.contains(crew)`.
pub open spec fn first_match(standings: Seq<Crew>, crew: Crew) -> int {
    choose|i: int| is_first_match(standings, crew, i)
}

/// The position history of `crew` over `results`: one `(year, position)`
/// entry per year whose standings list the crew, in source order, where the
/// position is one more than the zero-based index of the crew's first
/// occurrence in that year's standings.
pub open spec fn crew_series(results: Seq<AnnualResult>, crew: Crew) -> Seq<(Year, Position)>
    decreases results.len(),
{
    if results.len() == 0 {
        Seq::empty()
    } else {
        let earlier = crew_series(results.drop_last(), crew);
        let last = results.last();
        if last.standings@.contains(crew) {
            earlier.push((last.year, (first_match(last.standings@, crew) + 1) as u8))
        } else {
            earlier
        }
    }
}

/// A first match at `i` pins `first_match` down to exactly `i`.
proof fn lemma_first_match_is(standings: Seq<Crew>, crew: Crew, i: int)
    requires
        is_first_match(standings, crew, i),
    ensures
        standings.contains(crew),
        first_match(standings, crew) == i,
{
    assert(standings.contains(crew)) by {
        assert(standings[i] == crew);
    }
    let w = choose|k: int| is_first_match(standings, crew, k);
    assert(is_first_match(standings, crew, w)) by {
        assert(is_first_match(standings, crew, i));
    }
    if w < i {
        assert(standings[w] == crew);
        assert(false);
    }
    if w > i {
        assert(standings[i] != crew);
        assert(false);
    }
}

/// Derives the full multi-year position history of one crew from a
/// division's year-by-year standings.
///
/// For each annual result in input order, if the crew appears in that year's
/// standings, the output gains one entry `(year, index + 1)` for the first
/// index at which the crew appears; years without the crew are skipped
/// silently. The bound on each year's standings reflects that a position is
/// stored in a `u8`.
pub fn get_all_results_for_crew(crew: Crew, all_results: Vec<AnnualResult>) -> (r: CrewResult)
    requires
        forall|i: int|
            0 <= i < all_results@.len() ==> (#[trigger] all_results@[i]).standings@.len() <= 255,
    ensures
        r.crew == crew,
        r.results@ == crew_series(all_results@, crew),
{
    let mut results: Vec<(Year, Position)> = Vec::new();
    let mut i: usize = 0;
    while i < all_results.len()
        invariant
            i <= all_results@.len(),
            forall|k: int|
                0 <= k < all_results@.len() ==> (#[trigger] all_results@[k]).standings@.len()
                    <= 255,
            results@ == crew_series(all_results@.take(i as int), crew),
        decreases all_results@.len() - i,
    {
        let annual = &all_results[i];
        let n = annual.standings.len();
        let mut k: usize = 0;
        while k < n && annual.standings[k] != crew
            invariant
                n == annual.standings@.len(),
                k <= n,
                forall|j: int| 0 <= j < k ==> annual.standings@[j] != crew,
            decreases n - k,
        {
            k += 1;
        }
        proof {
            assert(all_results@.take(i + 1).drop_last() =~= all_results@.take(i as int));
            assert(all_results@.take(i + 1).last() == all_results@[i as int]);
        }
        if k < n {
            proof {
                lemma_first_match_is(annual.standings@, crew, k as int);
            }
            let position: Position = (k + 1) as Position;
            results.push((annual.year, position));
        } else {
            proof {
                assert(!annual.standings@.contains(crew));
            }
        }
        i += 1;
    }
    proof {
        assert(all_results@.take(all_results@.len() as int) =~= all_results@);
    }
    CrewResult::new(crew, results)
}

/// Index-to-position law: if `crew` first occurs at zero-based index `i` in
/// one year's standings, a query against that year alone yields exactly one
/// entry, `(year, i + 1)`.
pub proof fn lemma_index_to_position(r: AnnualResult, crew: Crew, i: int)
    requires
        0 <= i < r.standings@.len(),
        r.standings@[i] == crew,
        forall|j: int| 0 <= j < i ==> r.standings@[j] != crew,
    ensures
        crew_series(seq![r], crew) == seq![(r.year, (i + 1) as u8)],
{
    let s = seq![r];
    let entry = (r.year, (i + 1) as u8);
    lemma_first_match_is(r.standings@, crew, i);
    assert(s.drop_last() =~= Seq::<AnnualResult>::empty());
    assert(crew_series(Seq::<AnnualResult>::empty(), crew) == Seq::<(Year, Position)>::empty());
    assert(s.last() == r);
    assert(crew_series(s, crew) == crew_series(s.drop_last(), crew).push(entry));
    assert(crew_series(s, crew) =~= seq![entry]);
}

/// Absence law: a crew that appears in none of the supplied standings has an
/// empty series — absence is a normal outcome, not an error.
pub proof fn lemma_absent_crew_empty_series(results: Seq<AnnualResult>, crew: Crew)
    requires
        forall|i: int|
            0 <= i < results.len() ==> !(#[trigger] results[i]).standings@.contains(crew),
    ensures
        crew_series(results, crew) == Seq::<(Year, Position)>::empty(),
    decreases results.len(),
{
    if results.len() > 0 {
        let rest = results.drop_last();
        assert(forall|i: int|
            0 <= i < rest.len() ==> !(#[trigger] rest[i]).standings@.contains(crew)) by {
            assert(forall|i: int| 0 <= i < rest.len() ==> rest[i] == results[i]);
        }
        lemma_absent_crew_empty_series(rest, crew);
        assert(!results[results.len() - 1].standings@.contains(crew));
    }
}

/// Order law: the series of a concatenation is the concatenation of the
/// series, so every entry derived from an earlier annual result precedes
/// every entry derived from a later one — the output follows the input
/// order, with no implicit sorting.
pub proof fn lemma_series_concat(a: Seq<AnnualResult>, b: Seq<AnnualResult>, crew: Crew)
    ensures
        crew_series(a + b, crew) == crew_series(a, crew) + crew_series(b, crew),
    decreases b.len(),
{
    if b.len() == 0 {
        assert(a + b =~= a);
        assert(crew_series(b, crew) =~= Seq::<(Year, Position)>::empty());
        assert(crew_series(a, crew) + crew_series(b, crew) =~= crew_series(a, crew));
    } else {
        lemma_series_concat(a, b.drop_last(), crew);
        assert((a + b).drop_last() =~= a + b.drop_last());
        assert((a + b).last() == b.last());
        if b.last().standings@.contains(crew) {
            let entry = (b.last().year, (first_match(b.last().standings@, crew) + 1) as u8);
            assert(crew_series(a + b, crew) =~= (crew_series(a, crew) + crew_series(
                b.drop_last(),
                crew,
            )).push(entry));
            assert((crew_series(a, crew) + crew_series(b.drop_last(), crew)).push(entry)
                =~= crew_series(a, crew) + crew_series(b.drop_last(), crew).push(entry));
            assert(crew_series(b, crew) =~= crew_series(b.drop_last(), crew).push(entry));
        }
    }
}

/// Totality law: for every year in the input and every index in that year's
/// standings, querying for the crew standing at that index reproduces the
/// pair `(year, index + 1)` somewhere in the series, provided that index is
/// the crew's first occurrence that year (with well-formed data, its only
/// one).
pub proof fn lemma_totality(results: Seq<AnnualResult>, k: int, i: int)
    requires
        0 <= k < results.len(),
        0 <= i < results[k].standings@.len(),
        forall|j: int| 0 <= j < i ==> results[k].standings@[j] != results[k].standings@[i],
    ensures
        crew_series(results, results[k].standings@[i]).contains(
            (results[k].year, (i + 1) as u8),
        ),
    decreases results.len(),
{
    let crew = results[k].standings@[i];
    let entry = (results[k].year, (i + 1) as u8);
    let series = crew_series(results, crew);
    if k == results.len() - 1 {
        lemma_first_match_is(results.last().standings@, crew, i);
        assert(series == crew_series(results.drop_last(), crew).push(entry));
        assert(series[series.len() - 1] == entry);
        assert(series.contains(entry));
    } else {
        let rest = results.drop_last();
        assert(rest[k] == results[k]);
        lemma_totality(rest, k, i);
        let sub = crew_series(rest, crew);
        let w = choose|idx: int| 0 <= idx < sub.len() && sub[idx] == entry;
        assert(sub[w] == entry);
        if results.last().standings@.contains(crew) {
            assert(series == sub.push(
                (results.last().year, (first_match(results.last().standings@, crew) + 1) as u8),
            ));
            assert(series[w] == entry);
        } else {
            assert(series == sub);
        }
        assert(series.contains(entry));
    }
}

} // verus!

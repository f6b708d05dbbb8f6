use eights::model::{AnnualResult, College, Crew};
use eights::query::get_all_results_for_crew;

fn year(y: u16, crews: &[(College, u8)]) -> AnnualResult {
    let standings = crews.iter().map(|&(c, b)| Crew::new(c, b)).collect();
    AnnualResult::new(y, standings)
}

#[test]
fn index_maps_to_position_plus_one() {
    let r = year(
        2001,
        &[
            (College::Oriel, 1),
            (College::Pembroke, 1),
            (College::Trinity, 1),
            (College::Oriel, 2),
        ],
    );
    // Querying each crew against that single year yields (year, index + 1).
    for (i, crew) in r.standings().clone().into_iter().enumerate() {
        let out = get_all_results_for_crew(crew, vec![r.clone()]);
        assert_eq!(out.crew(), crew);
        assert_eq!(out.results(), vec![(2001u16, i as u8 + 1)]);
    }
}

#[test]
fn absent_crew_yields_empty_series_not_error() {
    let data = vec![
        year(1990, &[(College::Balliol, 1), (College::Merton, 1)]),
        year(1991, &[(College::Merton, 1), (College::Balliol, 1)]),
    ];
    let ghost_crew = Crew::new(College::Somerville, 4);
    let out = get_all_results_for_crew(ghost_crew, data);
    assert_eq!(out.crew(), ghost_crew);
    assert!(out.results().is_empty());
}

#[test]
fn no_years_yields_empty_series() {
    let crew = Crew::new(College::Wadham, 1);
    let out = get_all_results_for_crew(crew, Vec::new());
    assert_eq!(out.crew(), crew);
    assert!(out.results().is_empty());
}

#[test]
fn series_follows_input_order_without_sorting() {
    let crew = Crew::new(College::Jesus, 1);
    // Input years deliberately out of ascending order: the output must keep
    // the input's order, not re-sort by year.
    let data = vec![
        year(1999, &[(College::Jesus, 1)]),
        year(1997, &[(College::Exeter, 1), (College::Jesus, 1)]),
        year(1998, &[(College::Jesus, 1), (College::Exeter, 1)]),
    ];
    let out = get_all_results_for_crew(crew, data);
    assert_eq!(out.results(), vec![(1999, 1), (1997, 2), (1998, 1)]);
}

#[test]
fn sparse_years_are_omitted_entirely() {
    let crew = Crew::new(College::Hertford, 2);
    let data = vec![
        year(1980, &[(College::Hertford, 1), (College::Hertford, 2)]),
        year(1981, &[(College::Hertford, 1)]),
        year(1982, &[(College::StHildas, 1), (College::Hertford, 2)]),
        year(1983, &[(College::StHildas, 1)]),
        year(1984, &[(College::Hertford, 2)]),
    ];
    let out = get_all_results_for_crew(crew, data);
    assert_eq!(out.results(), vec![(1980, 2), (1982, 2), (1984, 1)]);
}

#[test]
fn every_listed_crew_is_reproduced_by_its_own_query() {
    let data = vec![
        year(2010, &[(College::Wolfson, 1), (College::Linacre, 1)]),
        year(
            2011,
            &[
                (College::Linacre, 1),
                (College::Wolfson, 1),
                (College::Wolfson, 2),
            ],
        ),
        year(2012, &[(College::Wolfson, 2)]),
    ];
    for r in &data {
        for (i, crew) in r.standings().iter().enumerate() {
            let out = get_all_results_for_crew(*crew, data.clone());
            assert!(
                out.results().contains(&(r.year(), i as u8 + 1)),
                "missing ({}, {}) for {crew:?}",
                r.year(),
                i + 1
            );
        }
    }
}

#[test]
fn duplicate_entries_first_occurrence_wins() {
    let crew = Crew::new(College::Queens, 1);
    // Malformed input listing the same crew twice in one year: the position
    // of the first occurrence is reported.
    let data = vec![year(
        1975,
        &[
            (College::Magdalen, 1),
            (College::Queens, 1),
            (College::Wadham, 1),
            (College::Queens, 1),
        ],
    )];
    let out = get_all_results_for_crew(crew, data);
    assert_eq!(out.results(), vec![(1975, 2)]);
}

#[test]
fn position_can_fill_the_full_ranking_range() {
    let crew = Crew::new(College::Worcester, 255);
    // 255 boats on the river: the last one stands at position 255.
    let mut crews: Vec<(College, u8)> = (0..254).map(|b| (College::University, b)).collect();
    crews.push((College::Worcester, 255));
    let data = vec![year(1960, &crews)];
    let out = get_all_results_for_crew(crew, data);
    assert_eq!(out.results(), vec![(1960, 255)]);
}

#[test]
fn boat_number_distinguishes_crews_of_one_college() {
    let data = vec![year(
        2005,
        &[
            (College::StCatherines, 1),
            (College::StJohns, 1),
            (College::StCatherines, 2),
        ],
    )];
    let first = get_all_results_for_crew(Crew::new(College::StCatherines, 1), data.clone());
    let second = get_all_results_for_crew(Crew::new(College::StCatherines, 2), data);
    assert_eq!(first.results(), vec![(2005, 1)]);
    assert_eq!(second.results(), vec![(2005, 3)]);
}

#[test]
fn full_participation_series_has_one_entry_per_recorded_year() {
    // 120 recorded years in which Trinity's first boat always raced: the
    // series has exactly one entry per recorded year.
    let trinity = Crew::new(College::Trinity, 1);
    let data: Vec<AnnualResult> = (0..120u16)
        .map(|k| {
            year(
                1905 + k,
                &[(College::Trinity, 1), (College::Balliol, 1)],
            )
        })
        .collect();
    let out = get_all_results_for_crew(trinity, data);
    assert_eq!(out.results().len(), 120, "Should contain 120 years of results");
}

#[test]
fn partial_participation_series_counts_only_raced_years() {
    // 47 recorded years of which Hertford's second boat raced in 38: the
    // series omits the 9 non-participating years entirely.
    let hertford2 = Crew::new(College::Hertford, 2);
    let data: Vec<AnnualResult> = (0..47u16)
        .map(|k| {
            if k % 5 == 0 && k < 45 {
                year(1977 + k, &[(College::Hertford, 1)])
            } else {
                year(
                    1977 + k,
                    &[(College::Hertford, 1), (College::Hertford, 2)],
                )
            }
        })
        .collect();
    let out = get_all_results_for_crew(hertford2, data);
    assert_eq!(out.results().len(), 38, "Should contain 38 years of results");
}

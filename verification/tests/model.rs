use eights::errors::{ApiError, UnknownCollege};
use eights::model::{parse_college, render_college, AnnualResult, College, Crew, CrewResult};

fn all_colleges() -> Vec<College> {
    vec![
        College::Balliol,
        College::Brasenose,
        College::BrasenoseStPeters,
        College::ChristChurch,
        College::CorpusChristi,
        College::Exeter,
        College::GreenTempleton,
        College::HarrisManchester,
        College::Hertford,
        College::Jesus,
        College::Keble,
        College::LadyMargaretHall,
        College::Linacre,
        College::Lincoln,
        College::Magdalen,
        College::Mansfield,
        College::Merton,
        College::New,
        College::Oriel,
        College::OslerGreen,
        College::OslerHouse,
        College::Pembroke,
        College::Queens,
        College::RegentsPark,
        College::Reuben,
        College::StAnnes,
        College::StAntonys,
        College::StBenetsHall,
        College::StCatherines,
        College::StEdmundHall,
        College::StHildas,
        College::StHughs,
        College::StJohns,
        College::StMaryHall,
        College::StPeters,
        College::Somerville,
        College::Trinity,
        College::University,
        College::Wadham,
        College::Westminster,
        College::Wolfson,
        College::Worcester,
    ]
}

#[test]
fn round_trip_every_college() {
    let colleges = all_colleges();
    assert_eq!(colleges.len(), 42);
    for c in colleges {
        let name = render_college(c);
        assert_eq!(parse_college(&name), Ok(c), "round trip failed for {name}");
    }
}

#[test]
fn rendered_names_are_canonical() {
    assert_eq!(render_college(College::Trinity), "Trinity");
    assert_eq!(render_college(College::LadyMargaretHall), "LadyMargaretHall");
    assert_eq!(render_college(College::ChristChurch), "ChristChurch");
    assert_eq!(render_college(College::StEdmundHall), "StEdmundHall");
    assert_eq!(render_college(College::New), "New");
}

#[test]
fn parse_trinity_succeeds_and_unknown_fails() {
    assert_eq!(parse_college("Trinity"), Ok(College::Trinity));
    assert_eq!(parse_college("NotACollege"), Err(UnknownCollege));
}

#[test]
fn parse_is_exact_no_fuzzy_matching() {
    assert_eq!(parse_college("trinity"), Err(UnknownCollege));
    assert_eq!(parse_college("TRINITY"), Err(UnknownCollege));
    assert_eq!(parse_college("Trinity "), Err(UnknownCollege));
    assert_eq!(parse_college("St Annes"), Err(UnknownCollege));
    assert_eq!(parse_college(""), Err(UnknownCollege));
    assert_eq!(parse_college("Linacr"), Err(UnknownCollege));
    assert_eq!(parse_college("Lincoln"), Ok(College::Lincoln));
    assert_eq!(parse_college("Linacre"), Ok(College::Linacre));
}

#[test]
fn crew_construction_and_equality() {
    let a = Crew::new(College::Hertford, 2);
    assert_eq!(a.college(), College::Hertford);
    assert_eq!(a.boat(), 2);

    // Structural equality: both fields must match.
    assert_eq!(a, Crew::new(College::Hertford, 2));
    assert_ne!(a, Crew::new(College::Hertford, 3));
    assert_ne!(a, Crew::new(College::Trinity, 2));

    // No validation on boat numbers: 0 and the largest value are accepted.
    assert_eq!(Crew::new(College::Wolfson, 0).boat(), 0);
    assert_eq!(Crew::new(College::Wolfson, 255).boat(), 255);
}

#[test]
fn annual_result_accessors() {
    let standings = vec![
        Crew::new(College::Oriel, 1),
        Crew::new(College::Pembroke, 1),
        Crew::new(College::Oriel, 2),
    ];
    let r = AnnualResult::new(1993, standings.clone());
    assert_eq!(r.year(), 1993);
    assert_eq!(r.standings(), &standings);
}

#[test]
fn crew_result_accessors() {
    let crew = Crew::new(College::Keble, 1);
    let series = vec![(1990u16, 3u8), (1991u16, 2u8), (1992u16, 2u8)];
    let r = CrewResult::new(crew, series.clone());
    assert_eq!(r.crew(), crew);
    assert_eq!(r.results(), series);
}

#[test]
fn api_error_messages() {
    let bad = ApiError::BadRequest("No such college: NotACollege".to_owned());
    assert_eq!(bad.message(), "No such college: NotACollege");
    assert_eq!(
        ApiError::InternalServerError.message(),
        "Internal Server Error"
    );
}

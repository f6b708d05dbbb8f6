//! The data model: colleges, crews, yearly standings and per-crew histories.

use vstd::prelude::*;
use crate::errors::UnknownCollege;

verus! {

/// Ranking on the river: 1 is the head of the river.
pub type Position = u8;

/// The competition year.
pub type Year = u16;

/// The colleges which have participated in eights. Some of these (e.g.
/// Westminster) no longer exist as colleges and some (e.g. BrasenoseStPeters)
/// are combination teams. This is also not an exhaustive list of all Oxford
/// colleges, just those which have participated in eights according to the
/// data we have.
#[derive(Debug, PartialEq, Eq, Structural, Copy, Clone)]
pub enum College {
    Balliol,
    Brasenose,
    BrasenoseStPeters,
    ChristChurch,
    CorpusChristi,
    Exeter,
    GreenTempleton,
    HarrisManchester,
    Hertford,
    Jesus,
    Keble,
    LadyMargaretHall,
    Linacre,
    Lincoln,
    Magdalen,
    Mansfield,
    Merton,
    New,
    Oriel,
    OslerGreen,
    OslerHouse,
    Pembroke,
    Queens,
    RegentsPark,
    Reuben,
    StAnnes,
    StAntonys,
    StBenetsHall,
    StCatherines,
    StEdmundHall,
    StHildas,
    StHughs,
    StJohns,
    StMaryHall,
    StPeters,
    Somerville,
    Trinity,
    University,
    Wadham,
    Westminster,
    Wolfson,
    Worcester,
}

/// A crew is defined by their college and what boat they were in (1st, 2nd,
/// etc). Any boat number is accepted, including 0 and arbitrarily large
/// values: crew identities are open, actual participation is sparse
/// historical fact.
#[derive(Debug, PartialEq, Eq, Structural, Copy, Clone)]
pub struct Crew {
    pub college: College,
    pub boat: u8,
}

impl Crew {
    pub fn new(college: College, boat: u8) -> (r: Self)
        ensures
            r.college == college,
            r.boat == boat,
    {
        Self { college, boat }
    }

    pub fn college(&self) -> (r: College)
        ensures
            r == self.college,
    {
        self.college
    }

    pub fn boat(&self) -> (r: u8)
        ensures
            r == self.boat,
    {
        self.boat
    }
}

/// The result for a particular year for either men's or women's eights.
///
/// The order of `standings` is semantically significant: the crew at index
/// `i` finished the year at position `i + 1`, the most senior surviving
/// result first. Well-formed data lists each crew at most once per year.
#[derive(Debug, Clone)]
pub struct AnnualResult {
    pub year: Year,
    pub standings: Vec<Crew>,
}

impl AnnualResult {
    pub fn new(year: Year, standings: Vec<Crew>) -> (r: Self)
        ensures
            r.year == year,
            r.standings@ == standings@,
    {
        Self { year, standings }
    }

    pub fn year(&self) -> (r: Year)
        ensures
            r == self.year,
    {
        self.year
    }

    pub fn standings(&self) -> (r: &Vec<Crew>)
        ensures
            r@ == self.standings@,
    {
        &self.standings
    }
}

/// The result for a particular crew over time: a sparse series of
/// (year, position) entries, one for each year in which the crew raced,
/// in the order of the source standings.
#[derive(Debug, Clone)]
pub struct CrewResult {
    pub crew: Crew,
    pub results: Vec<(Year, Position)>,
}

impl CrewResult {
    pub fn new(crew: Crew, results: Vec<(Year, Position)>) -> (r: Self)
        ensures
            r.crew == crew,
            r.results@ == results@,
    {
        Self { crew, results }
    }

    pub fn crew(&self) -> (r: Crew)
        ensures
            r == self.crew,
    {
        self.crew
    }

    pub fn results(&self) -> (r: Vec<(Year, Position)>)
        ensures
            r@ == self.results@,
    {
        let mut out: Vec<(Year, Position)> = Vec::new();
        let mut i: usize = 0;
        while i < self.results.len()
            invariant
                i <= self.results@.len(),
                out@ == self.results@.take(i as int),
            decreases self.results@.len() - i,
        {
            let entry = self.results[i];
            out.push(entry);
            proof {
                assert(self.results@.take(i + 1) =~= self.results@.take(i as int).push(
                    self.results@[i as int],
                ));
            }
            i += 1;
        }
        proof {
            assert(self.results@.take(self.results@.len() as int) =~= self.results@);
        }
        out
    }
}

/// Equality of two strings, character by character.
fn str_eq(a: &str, b: &str) -> (r: bool)
    ensures
        r == (a@ == b@),
{
    let a_len = a.unicode_len();
    let b_len = b.unicode_len();
    if a_len != b_len {
        return false;
    }
    let mut i: usize = 0;
    while i < a_len
        invariant
            a_len == a@.len(),
            a_len == b@.len(),
            i <= a_len,
            forall|j: int| 0 <= j < i ==> a@[j] == b@[j],
        decreases a_len - i,
    {
        if a.get_char(i) != b.get_char(i) {
            return false;
        }
        i += 1;
    }
    proof {
        assert(a@ =~= b@);
    }
    true
}

/// The canonical name of each college: the exact spelling that parses back
/// to the same value.
pub open spec fn college_name(c: College) -> Seq<char> {
    match c {
        College::Balliol => "Balliol"@,
        College::Brasenose => "Brasenose"@,
        College::BrasenoseStPeters => "BrasenoseStPeters"@,
        College::ChristChurch => "ChristChurch"@,
        College::CorpusChristi => "CorpusChristi"@,
        College::Exeter => "Exeter"@,
        College::GreenTempleton => "GreenTempleton"@,
        College::HarrisManchester => "HarrisManchester"@,
        College::Hertford => "Hertford"@,
        College::Jesus => "Jesus"@,
        College::Keble => "Keble"@,
        College::LadyMargaretHall => "LadyMargaretHall"@,
        College::Linacre => "Linacre"@,
        College::Lincoln => "Lincoln"@,
        College::Magdalen => "Magdalen"@,
        College::Mansfield => "Mansfield"@,
        College::Merton => "Merton"@,
        College::New => "New"@,
        College::Oriel => "Oriel"@,
        College::OslerGreen => "OslerGreen"@,
        College::OslerHouse => "OslerHouse"@,
        College::Pembroke => "Pembroke"@,
        College::Queens => "Queens"@,
        College::RegentsPark => "RegentsPark"@,
        College::Reuben => "Reuben"@,
        College::StAnnes => "StAnnes"@,
        College::StAntonys => "StAntonys"@,
        College::StBenetsHall => "StBenetsHall"@,
        College::StCatherines => "StCatherines"@,
        College::StEdmundHall => "StEdmundHall"@,
        College::StHildas => "StHildas"@,
        College::StHughs => "StHughs"@,
        College::StJohns => "StJohns"@,
        College::StMaryHall => "StMaryHall"@,
        College::StPeters => "StPeters"@,
        College::Somerville => "Somerville"@,
        College::Trinity => "Trinity"@,
        College::University => "University"@,
        College::Wadham => "Wadham"@,
        College::Westminster => "Westminster"@,
        College::Wolfson => "Wolfson"@,
        College::Worcester => "Worcester"@,
    }
}

/// The college, if any, whose canonical name is `s`.
pub open spec fn college_of_name(s: Seq<char>) -> Option<College> {
    if s == "Balliol"@ {
        Some(College::Balliol)
    } else if s == "Brasenose"@ {
        Some(College::Brasenose)
    } else if s == "BrasenoseStPeters"@ {
        Some(College::BrasenoseStPeters)
    } else if s == "ChristChurch"@ {
        Some(College::ChristChurch)
    } else if s == "CorpusChristi"@ {
        Some(College::CorpusChristi)
    } else if s == "Exeter"@ {
        Some(College::Exeter)
    } else if s == "GreenTempleton"@ {
        Some(College::GreenTempleton)
    } else if s == "HarrisManchester"@ {
        Some(College::HarrisManchester)
    } else if s == "Hertford"@ {
        Some(College::Hertford)
    } else if s == "Jesus"@ {
        Some(College::Jesus)
    } else if s == "Keble"@ {
        Some(College::Keble)
    } else if s == "LadyMargaretHall"@ {
        Some(College::LadyMargaretHall)
    } else if s == "Linacre"@ {
        Some(College::Linacre)
    } else if s == "Lincoln"@ {
        Some(College::Lincoln)
    } else if s == "Magdalen"@ {
        Some(College::Magdalen)
    } else if s == "Mansfield"@ {
        Some(College::Mansfield)
    } else if s == "Merton"@ {
        Some(College::Merton)
    } else if s == "New"@ {
        Some(College::New)
    } else if s == "Oriel"@ {
        Some(College::Oriel)
    } else if s == "OslerGreen"@ {
        Some(College::OslerGreen)
    } else if s == "OslerHouse"@ {
        Some(College::OslerHouse)
    } else if s == "Pembroke"@ {
        Some(College::Pembroke)
    } else if s == "Queens"@ {
        Some(College::Queens)
    } else if s == "RegentsPark"@ {
        Some(College::RegentsPark)
    } else if s == "Reuben"@ {
        Some(College::Reuben)
    } else if s == "StAnnes"@ {
        Some(College::StAnnes)
    } else if s == "StAntonys"@ {
        Some(College::StAntonys)
    } else if s == "StBenetsHall"@ {
        Some(College::StBenetsHall)
    } else if s == "StCatherines"@ {
        Some(College::StCatherines)
    } else if s == "StEdmundHall"@ {
        Some(College::StEdmundHall)
    } else if s == "StHildas"@ {
        Some(College::StHildas)
    } else if s == "StHughs"@ {
        Some(College::StHughs)
    } else if s == "StJohns"@ {
        Some(College::StJohns)
    } else if s == "StMaryHall"@ {
        Some(College::StMaryHall)
    } else if s == "StPeters"@ {
        Some(College::StPeters)
    } else if s == "Somerville"@ {
        Some(College::Somerville)
    } else if s == "Trinity"@ {
        Some(College::Trinity)
    } else if s == "University"@ {
        Some(College::University)
    } else if s == "Wadham"@ {
        Some(College::Wadham)
    } else if s == "Westminster"@ {
        Some(College::Westminster)
    } else if s == "Wolfson"@ {
        Some(College::Wolfson)
    } else if s == "Worcester"@ {
        Some(College::Worcester)
    } else {
        None
    }
}


/// Renders a college to its canonical name: the inverse of [`parse_college`].
pub fn render_college(c: College) -> (r: String)
    ensures
        r@ == college_name(c),
{
    match c {
        College::Balliol => "Balliol".to_owned(),
        College::Brasenose => "Brasenose".to_owned(),
        College::BrasenoseStPeters => "BrasenoseStPeters".to_owned(),
        College::ChristChurch => "ChristChurch".to_owned(),
        College::CorpusChristi => "CorpusChristi".to_owned(),
        College::Exeter => "Exeter".to_owned(),
        College::GreenTempleton => "GreenTempleton".to_owned(),
        College::HarrisManchester => "HarrisManchester".to_owned(),
        College::Hertford => "Hertford".to_owned(),
        College::Jesus => "Jesus".to_owned(),
        College::Keble => "Keble".to_owned(),
        College::LadyMargaretHall => "LadyMargaretHall".to_owned(),
        College::Linacre => "Linacre".to_owned(),
        College::Lincoln => "Lincoln".to_owned(),
        College::Magdalen => "Magdalen".to_owned(),
        College::Mansfield => "Mansfield".to_owned(),
        College::Merton => "Merton".to_owned(),
        College::New => "New".to_owned(),
        College::Oriel => "Oriel".to_owned(),
        College::OslerGreen => "OslerGreen".to_owned(),
        College::OslerHouse => "OslerHouse".to_owned(),
        College::Pembroke => "Pembroke".to_owned(),
        College::Queens => "Queens".to_owned(),
        College::RegentsPark => "RegentsPark".to_owned(),
        College::Reuben => "Reuben".to_owned(),
        College::StAnnes => "StAnnes".to_owned(),
        College::StAntonys => "StAntonys".to_owned(),
        College::StBenetsHall => "StBenetsHall".to_owned(),
        College::StCatherines => "StCatherines".to_owned(),
        College::StEdmundHall => "StEdmundHall".to_owned(),
        College::StHildas => "StHildas".to_owned(),
        College::StHughs => "StHughs".to_owned(),
        College::StJohns => "StJohns".to_owned(),
        College::StMaryHall => "StMaryHall".to_owned(),
        College::StPeters => "StPeters".to_owned(),
        College::Somerville => "Somerville".to_owned(),
        College::Trinity => "Trinity".to_owned(),
        College::University => "University".to_owned(),
        College::Wadham => "Wadham".to_owned(),
        College::Westminster => "Westminster".to_owned(),
        College::Wolfson => "Wolfson".to_owned(),
        College::Worcester => "Worcester".to_owned(),

    }
}

/// Parses a college from its canonical name. Succeeds iff `name` exactly
/// matches one enumerated college: no fuzzy matching, no case folding, and
/// no catch-all variant for unrecognized names.
pub fn parse_college(name: &str) -> (r: Result<College, UnknownCollege>)
    ensures
        match college_of_name(name@) {
            Some(c) => r == Ok::<College, UnknownCollege>(c),
            None => r == Err::<College, UnknownCollege>(UnknownCollege),
        },
{
    if str_eq(name, "Balliol") {
        Ok(College::Balliol)
    } else if str_eq(name, "Brasenose") {
        Ok(College::Brasenose)
    } else if str_eq(name, "BrasenoseStPeters") {
        Ok(College::BrasenoseStPeters)
    } else if str_eq(name, "ChristChurch") {
        Ok(College::ChristChurch)
    } else if str_eq(name, "CorpusChristi") {
        Ok(College::CorpusChristi)
    } else if str_eq(name, "Exeter") {
        Ok(College::Exeter)
    } else if str_eq(name, "GreenTempleton") {
        Ok(College::GreenTempleton)
    } else if str_eq(name, "HarrisManchester") {
        Ok(College::HarrisManchester)
    } else if str_eq(name, "Hertford") {
        Ok(College::Hertford)
    } else if str_eq(name, "Jesus") {
        Ok(College::Jesus)
    } else if str_eq(name, "Keble") {
        Ok(College::Keble)
    } else if str_eq(name, "LadyMargaretHall") {
        Ok(College::LadyMargaretHall)
    } else if str_eq(name, "Linacre") {
        Ok(College::Linacre)
    } else if str_eq(name, "Lincoln") {
        Ok(College::Lincoln)
    } else if str_eq(name, "Magdalen") {
        Ok(College::Magdalen)
    } else if str_eq(name, "Mansfield") {
        Ok(College::Mansfield)
    } else if str_eq(name, "Merton") {
        Ok(College::Merton)
    } else if str_eq(name, "New") {
        Ok(College::New)
    } else if str_eq(name, "Oriel") {
        Ok(College::Oriel)
    } else if str_eq(name, "OslerGreen") {
        Ok(College::OslerGreen)
    } else if str_eq(name, "OslerHouse") {
        Ok(College::OslerHouse)
    } else if str_eq(name, "Pembroke") {
        Ok(College::Pembroke)
    } else if str_eq(name, "Queens") {
        Ok(College::Queens)
    } else if str_eq(name, "RegentsPark") {
        Ok(College::RegentsPark)
    } else if str_eq(name, "Reuben") {
        Ok(College::Reuben)
    } else if str_eq(name, "StAnnes") {
        Ok(College::StAnnes)
    } else if str_eq(name, "StAntonys") {
        Ok(College::StAntonys)
    } else if str_eq(name, "StBenetsHall") {
        Ok(College::StBenetsHall)
    } else if str_eq(name, "StCatherines") {
        Ok(College::StCatherines)
    } else if str_eq(name, "StEdmundHall") {
        Ok(College::StEdmundHall)
    } else if str_eq(name, "StHildas") {
        Ok(College::StHildas)
    } else if str_eq(name, "StHughs") {
        Ok(College::StHughs)
    } else if str_eq(name, "StJohns") {
        Ok(College::StJohns)
    } else if str_eq(name, "StMaryHall") {
        Ok(College::StMaryHall)
    } else if str_eq(name, "StPeters") {
        Ok(College::StPeters)
    } else if str_eq(name, "Somerville") {
        Ok(College::Somerville)
    } else if str_eq(name, "Trinity") {
        Ok(College::Trinity)
    } else if str_eq(name, "University") {
        Ok(College::University)
    } else if str_eq(name, "Wadham") {
        Ok(College::Wadham)
    } else if str_eq(name, "Westminster") {
        Ok(College::Westminster)
    } else if str_eq(name, "Wolfson") {
        Ok(College::Wolfson)
    } else if str_eq(name, "Worcester") {
        Ok(College::Worcester)
    } else {
        Err(UnknownCollege)
    }
}

/// Round-trip law: every college's canonical name parses back to the same
/// college, so `parse_college(render_college(c))` always returns `Ok(c)`.
pub proof fn lemma_college_round_trip(c: College)
    ensures
        college_of_name(college_name(c)) == Some(c),
{
    reveal_strlit("Balliol");
    reveal_strlit("Brasenose");
    reveal_strlit("BrasenoseStPeters");
    reveal_strlit("ChristChurch");
    reveal_strlit("CorpusChristi");
    reveal_strlit("Exeter");
    reveal_strlit("GreenTempleton");
    reveal_strlit("HarrisManchester");
    reveal_strlit("Hertford");
    reveal_strlit("Jesus");
    reveal_strlit("Keble");
    reveal_strlit("LadyMargaretHall");
    reveal_strlit("Linacre");
    reveal_strlit("Lincoln");
    reveal_strlit("Magdalen");
    reveal_strlit("Mansfield");
    reveal_strlit("Merton");
    reveal_strlit("New");
    reveal_strlit("Oriel");
    reveal_strlit("OslerGreen");
    reveal_strlit("OslerHouse");
    reveal_strlit("Pembroke");
    reveal_strlit("Queens");
    reveal_strlit("RegentsPark");
    reveal_strlit("Reuben");
    reveal_strlit("StAnnes");
    reveal_strlit("StAntonys");
    reveal_strlit("StBenetsHall");
    reveal_strlit("StCatherines");
    reveal_strlit("StEdmundHall");
    reveal_strlit("StHildas");
    reveal_strlit("StHughs");
    reveal_strlit("StJohns");
    reveal_strlit("StMaryHall");
    reveal_strlit("StPeters");
    reveal_strlit("Somerville");
    reveal_strlit("Trinity");
    reveal_strlit("University");
    reveal_strlit("Wadham");
    reveal_strlit("Westminster");
    reveal_strlit("Wolfson");
    reveal_strlit("Worcester");
    // Surface the length and enough characters of each name for the solver
    // to tell any two distinct names apart.
    assert("Balliol"@.len() == 7 && "Balliol"@[0] == 'B');
    assert("Brasenose"@.len() == 9 && "Brasenose"@[0] == 'B');
    assert("BrasenoseStPeters"@.len() == 17 && "BrasenoseStPeters"@[0] == 'B');
    assert("ChristChurch"@.len() == 12 && "ChristChurch"@[0] == 'C');
    assert("CorpusChristi"@.len() == 13 && "CorpusChristi"@[0] == 'C');
    assert("Exeter"@.len() == 6 && "Exeter"@[0] == 'E');
    assert("GreenTempleton"@.len() == 14 && "GreenTempleton"@[0] == 'G');
    assert("HarrisManchester"@.len() == 16 && "HarrisManchester"@[0] == 'H');
    assert("Hertford"@.len() == 8 && "Hertford"@[0] == 'H');
    assert("Jesus"@.len() == 5 && "Jesus"@[0] == 'J');
    assert("Keble"@.len() == 5 && "Keble"@[0] == 'K');
    assert("LadyMargaretHall"@.len() == 16 && "LadyMargaretHall"@[0] == 'L');
    assert("Linacre"@.len() == 7 && "Linacre"@[0] == 'L' && "Linacre"@[3] == 'a');
    assert("Lincoln"@.len() == 7 && "Lincoln"@[0] == 'L' && "Lincoln"@[3] == 'c');
    assert("Magdalen"@.len() == 8 && "Magdalen"@[0] == 'M');
    assert("Mansfield"@.len() == 9 && "Mansfield"@[0] == 'M');
    assert("Merton"@.len() == 6 && "Merton"@[0] == 'M');
    assert("New"@.len() == 3 && "New"@[0] == 'N');
    assert("Oriel"@.len() == 5 && "Oriel"@[0] == 'O');
    assert("OslerGreen"@.len() == 10 && "OslerGreen"@[0] == 'O' && "OslerGreen"@[5] == 'G');
    assert("OslerHouse"@.len() == 10 && "OslerHouse"@[0] == 'O' && "OslerHouse"@[5] == 'H');
    assert("Pembroke"@.len() == 8 && "Pembroke"@[0] == 'P');
    assert("Queens"@.len() == 6 && "Queens"@[0] == 'Q');
    assert("RegentsPark"@.len() == 11 && "RegentsPark"@[0] == 'R');
    assert("Reuben"@.len() == 6 && "Reuben"@[0] == 'R');
    assert("StAnnes"@.len() == 7 && "StAnnes"@[0] == 'S' && "StAnnes"@[2] == 'A');
    assert("StAntonys"@.len() == 9 && "StAntonys"@[0] == 'S');
    assert("StBenetsHall"@.len() == 12 && "StBenetsHall"@[0] == 'S' && "StBenetsHall"@[2] == 'B');
    assert("StCatherines"@.len() == 12 && "StCatherines"@[0] == 'S' && "StCatherines"@[2] == 'C');
    assert("StEdmundHall"@.len() == 12 && "StEdmundHall"@[0] == 'S' && "StEdmundHall"@[2] == 'E');
    assert("StHildas"@.len() == 8 && "StHildas"@[0] == 'S' && "StHildas"@[2] == 'H');
    assert("StHughs"@.len() == 7 && "StHughs"@[0] == 'S' && "StHughs"@[2] == 'H');
    assert("StJohns"@.len() == 7 && "StJohns"@[0] == 'S' && "StJohns"@[2] == 'J');
    assert("StMaryHall"@.len() == 10 && "StMaryHall"@[0] == 'S' && "StMaryHall"@[1] == 't');
    assert("StPeters"@.len() == 8 && "StPeters"@[0] == 'S' && "StPeters"@[2] == 'P');
    assert("Somerville"@.len() == 10 && "Somerville"@[0] == 'S' && "Somerville"@[1] == 'o');
    assert("Trinity"@.len() == 7 && "Trinity"@[0] == 'T');
    assert("University"@.len() == 10 && "University"@[0] == 'U');
    assert("Wadham"@.len() == 6 && "Wadham"@[0] == 'W');
    assert("Westminster"@.len() == 11 && "Westminster"@[0] == 'W');
    assert("Wolfson"@.len() == 7 && "Wolfson"@[0] == 'W');
    assert("Worcester"@.len() == 9 && "Worcester"@[0] == 'W');
    match c {
        College::Balliol => {
            assert(college_of_name("Balliol"@) == Some(College::Balliol));
        },
        College::Brasenose => {
            assert(college_of_name("Brasenose"@) == Some(College::Brasenose));
        },
        College::BrasenoseStPeters => {
            assert(college_of_name("BrasenoseStPeters"@) == Some(College::BrasenoseStPeters));
        },
        College::ChristChurch => {
            assert(college_of_name("ChristChurch"@) == Some(College::ChristChurch));
        },
        College::CorpusChristi => {
            assert(college_of_name("CorpusChristi"@) == Some(College::CorpusChristi));
        },
        College::Exeter => {
            assert(college_of_name("Exeter"@) == Some(College::Exeter));
        },
        College::GreenTempleton => {
            assert(college_of_name("GreenTempleton"@) == Some(College::GreenTempleton));
        },
        College::HarrisManchester => {
            assert(college_of_name("HarrisManchester"@) == Some(College::HarrisManchester));
        },
        College::Hertford => {
            assert(college_of_name("Hertford"@) == Some(College::Hertford));
        },
        College::Jesus => {
            assert(college_of_name("Jesus"@) == Some(College::Jesus));
        },
        College::Keble => {
            assert(college_of_name("Keble"@) == Some(College::Keble));
        },
        College::LadyMargaretHall => {
            assert(college_of_name("LadyMargaretHall"@) == Some(College::LadyMargaretHall));
        },
        College::Linacre => {
            assert(college_of_name("Linacre"@) == Some(College::Linacre));
        },
        College::Lincoln => {
            assert(college_of_name("Lincoln"@) == Some(College::Lincoln));
        },
        College::Magdalen => {
            assert(college_of_name("Magdalen"@) == Some(College::Magdalen));
        },
        College::Mansfield => {
            assert(college_of_name("Mansfield"@) == Some(College::Mansfield));
        },
        College::Merton => {
            assert(college_of_name("Merton"@) == Some(College::Merton));
        },
        College::New => {
            assert(college_of_name("New"@) == Some(College::New));
        },
        College::Oriel => {
            assert(college_of_name("Oriel"@) == Some(College::Oriel));
        },
        College::OslerGreen => {
            assert(college_of_name("OslerGreen"@) == Some(College::OslerGreen));
        },
        College::OslerHouse => {
            assert(college_of_name("OslerHouse"@) == Some(College::OslerHouse));
        },
        College::Pembroke => {
            assert(college_of_name("Pembroke"@) == Some(College::Pembroke));
        },
        College::Queens => {
            assert(college_of_name("Queens"@) == Some(College::Queens));
        },
        College::RegentsPark => {
            assert(college_of_name("RegentsPark"@) == Some(College::RegentsPark));
        },
        College::Reuben => {
            assert(college_of_name("Reuben"@) == Some(College::Reuben));
        },
        College::StAnnes => {
            assert(college_of_name("StAnnes"@) == Some(College::StAnnes));
        },
        College::StAntonys => {
            assert(college_of_name("StAntonys"@) == Some(College::StAntonys));
        },
        College::StBenetsHall => {
            assert(college_of_name("StBenetsHall"@) == Some(College::StBenetsHall));
        },
        College::StCatherines => {
            assert(college_of_name("StCatherines"@) == Some(College::StCatherines));
        },
        College::StEdmundHall => {
            assert(college_of_name("StEdmundHall"@) == Some(College::StEdmundHall));
        },
        College::StHildas => {
            assert(college_of_name("StHildas"@) == Some(College::StHildas));
        },
        College::StHughs => {
            assert(college_of_name("StHughs"@) == Some(College::StHughs));
        },
        College::StJohns => {
            assert(college_of_name("StJohns"@) == Some(College::StJohns));
        },
        College::StMaryHall => {
            assert(college_of_name("StMaryHall"@) == Some(College::StMaryHall));
        },
        College::StPeters => {
            assert(college_of_name("StPeters"@) == Some(College::StPeters));
        },
        College::Somerville => {
            assert(college_of_name("Somerville"@) == Some(College::Somerville));
        },
        College::Trinity => {
            assert(college_of_name("Trinity"@) == Some(College::Trinity));
        },
        College::University => {
            assert(college_of_name("University"@) == Some(College::University));
        },
        College::Wadham => {
            assert(college_of_name("Wadham"@) == Some(College::Wadham));
        },
        College::Westminster => {
            assert(college_of_name("Westminster"@) == Some(College::Westminster));
        },
        College::Wolfson => {
            assert(college_of_name("Wolfson"@) == Some(College::Wolfson));
        },
        College::Worcester => {
            assert(college_of_name("Worcester"@) == Some(College::Worcester));
        },
    }
}

} // verus!

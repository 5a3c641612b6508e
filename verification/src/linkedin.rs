//! The decisions of the LinkedIn job directory: search URLs, reading of the
//! scraped job cards, filtering of listings and the application dialogue.

use vstd::prelude::*;
use crate::directory::{
    Answer, ExperienceLevel, JobDirectoryMetadata, JobEntry, Modality, Money, Question, Salary,
};
use crate::text::{
    chars_of, concat, concat_strs, contains, find, join, join_strings, lowercase, push_char,
    split_char, split_on_char, str_contains, str_find, str_views, to_lowercase, to_uppercase, trim,
    trim_str, uppercase, views,
};

verus! {

/// The search filters of a job fetch.
#[derive(Debug, Clone)]
pub struct FetchJobFilters {
    pub role: String,
    pub location: Option<String>,
    pub modalities: Option<Vec<Modality>>,
    pub org_blacklist: Option<Vec<String>>,
    pub minimum_salary: Option<Money>,
    pub experience_level: Option<Vec<ExperienceLevel>>,
}

/// The job directory backed by LinkedIn.
pub struct LinkedinJobDirectory {}

/// LinkedIn's code for a work modality (`f_WT`).
pub open spec fn modality_code(m: Modality) -> u8 {
    match m {
        Modality::Onsite => 1,
        Modality::Remote => 2,
        Modality::Hybrid => 3,
    }
}

/// LinkedIn's code for an experience level (`f_E`).
pub open spec fn experience_code(e: ExperienceLevel) -> u8 {
    match e {
        ExperienceLevel::Internship => 1,
        ExperienceLevel::EntryLevel => 2,
        ExperienceLevel::Associate => 3,
        ExperienceLevel::MidLevel => 4,
        ExperienceLevel::SeniorLevel => 4,
        ExperienceLevel::Director => 5,
        ExperienceLevel::Executive => 6,
        ExperienceLevel::NotApplicable => 0,
    }
}

/// The decimal text of a one-digit code.
pub open spec fn digit_text(d: u8) -> Seq<char> {
    seq![(('0' as u8) + d) as char]
}

/// The codes of `ms`, as text joined with ",".
pub open spec fn modality_codes_text(ms: Seq<Modality>) -> Seq<char> {
    join(ms.map_values(|m: Modality| digit_text(modality_code(m))), ","@)
}

/// The codes of `es`, as text joined with ",".
pub open spec fn experience_codes_text(es: Seq<ExperienceLevel>) -> Seq<char> {
    join(es.map_values(|e: ExperienceLevel| digit_text(experience_code(e))), ","@)
}

/// The search URL for `f`.
pub open spec fn start_url(f: FetchJobFilters) -> Seq<char> {
    let base = "https://www.linkedin.com/jobs/search?keywords="@ + f.role@
        + "&origin=JOB_SEARCH_PAGE_JOB_FILTER&refresh=true&spellCorrectionEnabled=true&f_AL=true"@;
    let with_modalities = match f.modalities {
        Some(ms) => base + "&f_WT="@ + modality_codes_text(ms@),
        None => base,
    };
    let with_location = match f.location {
        Some(l) => with_modalities + "&location="@ + l@,
        None => with_modalities,
    };
    match f.experience_level {
        Some(es) => with_location + "&f_E="@ + experience_codes_text(es@),
        None => with_location,
    }
}

/// The part of every search URL before the filters: the role as keywords
/// and Easy Apply only.
pub open spec fn search_base(role: Seq<char>) -> Seq<char> {
    "https://www.linkedin.com/jobs/search?keywords="@ + role
        + "&origin=JOB_SEARCH_PAGE_JOB_FILTER&refresh=true&spellCorrectionEnabled=true&f_AL=true"@
}

/// Law: each filter of a search URL is independent of the others. With no
/// filter the URL is the base for the role; a modality filter appends
/// "&f_WT=" and its codes, a location appends "&location=" and the
/// location, and an experience filter appends "&f_E=" and its codes —
/// each whether or not the others are set, in that order.
pub proof fn lemma_start_url_filters(f: FetchJobFilters)
    ensures
        f.modalities is None && f.location is None && f.experience_level is None ==> start_url(f)
            == search_base(f.role@),
        f.modalities matches Some(ms) ==> (f.location is None && f.experience_level is None
            ==> start_url(f) == search_base(f.role@) + "&f_WT="@ + modality_codes_text(ms@)),
        f.location matches Some(l) ==> (f.experience_level is None ==> start_url(f) == start_url(
            FetchJobFilters { location: None, ..f },
        ) + "&location="@ + l@),
        f.experience_level matches Some(es) ==> start_url(f) == start_url(
            FetchJobFilters { experience_level: None, ..f },
        ) + "&f_E="@ + experience_codes_text(es@),
{
}

/// Law: LinkedIn's codes, one decimal digit each: modalities on-site 1,
/// remote 2, hybrid 3; experience internship 1, entry 2, associate 3, mid and
/// senior 4, director 5, executive 6, not applicable 0.
pub proof fn lemma_filter_codes()
    ensures
        digit_text(modality_code(Modality::Onsite)) == "1"@,
        digit_text(modality_code(Modality::Remote)) == "2"@,
        digit_text(modality_code(Modality::Hybrid)) == "3"@,
        digit_text(experience_code(ExperienceLevel::Internship)) == "1"@,
        digit_text(experience_code(ExperienceLevel::EntryLevel)) == "2"@,
        digit_text(experience_code(ExperienceLevel::Associate)) == "3"@,
        digit_text(experience_code(ExperienceLevel::MidLevel)) == "4"@,
        digit_text(experience_code(ExperienceLevel::SeniorLevel)) == "4"@,
        digit_text(experience_code(ExperienceLevel::Director)) == "5"@,
        digit_text(experience_code(ExperienceLevel::Executive)) == "6"@,
        digit_text(experience_code(ExperienceLevel::NotApplicable)) == "0"@,
{
    reveal_strlit("0");
    reveal_strlit("1");
    reveal_strlit("2");
    reveal_strlit("3");
    reveal_strlit("4");
    reveal_strlit("5");
    reveal_strlit("6");
    assert(digit_text(0) =~= "0"@);
    assert(digit_text(1) =~= "1"@);
    assert(digit_text(2) =~= "2"@);
    assert(digit_text(3) =~= "3"@);
    assert(digit_text(4) =~= "4"@);
    assert(digit_text(5) =~= "5"@);
    assert(digit_text(6) =~= "6"@);
}

/// Law: the code list of a filter holds one code per item, in order,
/// parted by commas.
pub proof fn lemma_codes_push(ms: Seq<Modality>, m: Modality, es: Seq<ExperienceLevel>, e: ExperienceLevel)
    ensures
        modality_codes_text(Seq::empty()) == Seq::<char>::empty(),
        experience_codes_text(Seq::empty()) == Seq::<char>::empty(),
        modality_codes_text(ms.push(m)) == if ms.len() == 0 {
            digit_text(modality_code(m))
        } else {
            modality_codes_text(ms) + ","@ + digit_text(modality_code(m))
        },
        experience_codes_text(es.push(e)) == if es.len() == 0 {
            digit_text(experience_code(e))
        } else {
            experience_codes_text(es) + ","@ + digit_text(experience_code(e))
        },
{
    let mt = ms.push(m).map_values(|x: Modality| digit_text(modality_code(x)));
    assert(mt.drop_last() =~= ms.map_values(|x: Modality| digit_text(modality_code(x))));
    let et = es.push(e).map_values(|x: ExperienceLevel| digit_text(experience_code(x)));
    assert(et.drop_last() =~= es.map_values(|x: ExperienceLevel| digit_text(experience_code(x))));
}

/// The text of a one-digit code.
fn digit_str(d: u8) -> (r: &'static str)
    requires
        d < 10,
    ensures
        r@ == digit_text(d),
{
    proof {
        reveal_strlit("0");
        reveal_strlit("1");
        reveal_strlit("2");
        reveal_strlit("3");
        reveal_strlit("4");
        reveal_strlit("5");
        reveal_strlit("6");
        reveal_strlit("7");
        reveal_strlit("8");
        reveal_strlit("9");
    }
    let r = match d {
        0 => "0",
        1 => "1",
        2 => "2",
        3 => "3",
        4 => "4",
        5 => "5",
        6 => "6",
        7 => "7",
        8 => "8",
        _ => "9",
    };
    assert(r@ =~= digit_text(d));
    r
}

impl LinkedinJobDirectory {
    /// The identifier of the LinkedIn directory.
    pub const ID: &'static str = "linkedin";

    /// The directory's identifier.
    pub fn id(&self) -> (r: &'static str)
        ensures
            r@ == "linkedin"@,
    {
        "linkedin"
    }

    /// The directory's display name.
    pub fn name(&self) -> (r: &'static str)
        ensures
            r@ == "LinkedIn"@,
    {
        "LinkedIn"
    }

    /// The identifier and name of the directory.
    pub fn metadata(&self) -> (r: JobDirectoryMetadata)
        ensures
            r.id@ == "linkedin"@,
            r.name@ == "LinkedIn"@,
    {
        JobDirectoryMetadata { id: self.id().to_owned(), name: self.name().to_owned() }
    }

    /// LinkedIn's `f_WT` code for a modality.
    pub fn resolve_modality(modality: &Modality) -> (r: u8)
        ensures
            r == modality_code(*modality),
    {
        match modality {
            Modality::Onsite => 1,
            Modality::Remote => 2,
            Modality::Hybrid => 3,
        }
    }

    /// LinkedIn's `f_E` code for an experience level.
    pub fn resolve_experience(experience: &ExperienceLevel) -> (r: u8)
        ensures
            r == experience_code(*experience),
    {
        match experience {
            ExperienceLevel::Internship => 1,
            ExperienceLevel::EntryLevel => 2,
            ExperienceLevel::Associate => 3,
            ExperienceLevel::MidLevel => 4,
            ExperienceLevel::SeniorLevel => 4,
            ExperienceLevel::Director => 5,
            ExperienceLevel::Executive => 6,
            ExperienceLevel::NotApplicable => 0,
        }
    }

    fn modality_codes(ms: &Vec<Modality>) -> (r: String)
        ensures
            r@ == modality_codes_text(ms@),
    {
        let ghost texts = ms@.map_values(|m: Modality| digit_text(modality_code(m)));
        let mut codes: Vec<String> = Vec::new();
        let mut i: usize = 0;
        while i < ms.len()
            invariant
                i <= ms.len(),
                texts == ms@.map_values(|m: Modality| digit_text(modality_code(m))),
                views(codes@) =~= texts.take(i as int),
            decreases ms.len() - i,
        {
            let code = digit_str(Self::resolve_modality(&ms[i])).to_owned();
            let ghost before = views(codes@);
            codes.push(code);
            assert(views(codes@) =~= before.push(code@));
            assert(texts.take(i + 1) =~= texts.take(i as int).push(texts[i as int]));
            i = i + 1;
        }
        assert(texts.take(i as int) =~= texts);
        join_strings(&codes, ",")
    }

    fn experience_codes(es: &Vec<ExperienceLevel>) -> (r: String)
        ensures
            r@ == experience_codes_text(es@),
    {
        let ghost texts = es@.map_values(|e: ExperienceLevel| digit_text(experience_code(e)));
        let mut codes: Vec<String> = Vec::new();
        let mut i: usize = 0;
        while i < es.len()
            invariant
                i <= es.len(),
                texts == es@.map_values(|e: ExperienceLevel| digit_text(experience_code(e))),
                views(codes@) =~= texts.take(i as int),
            decreases es.len() - i,
        {
            let code = digit_str(Self::resolve_experience(&es[i])).to_owned();
            let ghost before = views(codes@);
            codes.push(code);
            assert(views(codes@) =~= before.push(code@));
            assert(texts.take(i + 1) =~= texts.take(i as int).push(texts[i as int]));
            i = i + 1;
        }
        assert(texts.take(i as int) =~= texts);
        join_strings(&codes, ",")
    }

    /// The search URL that a job fetch starts from: the role as keywords,
    /// Easy Apply only, and the modality, location and experience filters
    /// that are set.
    pub fn build_start_url(&self, filters: &FetchJobFilters) -> (r: String)
        ensures
            r@ == start_url(*filters),
    {
        let mut url = "https://www.linkedin.com/jobs/search?keywords=".to_owned();
        url.append(filters.role.as_str());
        url.append(
            "&origin=JOB_SEARCH_PAGE_JOB_FILTER&refresh=true&spellCorrectionEnabled=true&f_AL=true",
        );
        if let Some(modalities) = &filters.modalities {
            let codes = Self::modality_codes(modalities);
            url.append("&f_WT=");
            url.append(codes.as_str());
        }
        if let Some(location) = &filters.location {
            url.append("&location=");
            url.append(location.as_str());
        }
        if let Some(experience) = &filters.experience_level {
            let codes = Self::experience_codes(experience);
            url.append("&f_E=");
            url.append(codes.as_str());
        }
        url
    }
}

/// The modality that a lower-cased text names, if any.
pub open spec fn modality_named(l: Seq<char>) -> Option<Modality> {
    if contains(l, "remote"@) {
        Some(Modality::Remote)
    } else if contains(l, "hybrid"@) {
        Some(Modality::Hybrid)
    } else if contains(l, "on-site"@) || contains(l, "onsite"@) || contains(l, "in-person"@) {
        Some(Modality::Onsite)
    } else {
        None
    }
}

/// The seniority that a lower-cased text names.
pub open spec fn seniority_named(l: Seq<char>) -> ExperienceLevel {
    if contains(l, "internship"@) {
        ExperienceLevel::Internship
    } else if contains(l, "entry"@) {
        ExperienceLevel::EntryLevel
    } else if contains(l, "associate"@) {
        ExperienceLevel::Associate
    } else if contains(l, "mid"@) {
        ExperienceLevel::MidLevel
    } else if contains(l, "senior"@) {
        ExperienceLevel::SeniorLevel
    } else if contains(l, "director"@) {
        ExperienceLevel::Director
    } else if contains(l, "executive"@) {
        ExperienceLevel::Executive
    } else {
        ExperienceLevel::NotApplicable
    }
}

/// The code of the currency that a salary button's text is quoted in.
pub open spec fn salary_currency_of(t: Seq<char>) -> Option<Seq<char>> {
    if contains(t, "€"@) {
        Some("EUR"@)
    } else if contains(t, "£"@) {
        Some("GBP"@)
    } else if contains(t, "$"@) {
        Some("USD"@)
    } else if contains(t, "MUR"@) {
        Some("MUR"@)
    } else {
        None
    }
}

/// A salary text split at its first " - ": the lower end and, for a range,
/// the upper end.
pub open spec fn salary_range_parts(t: Seq<char>) -> (Seq<char>, Option<Seq<char>>) {
    match find(t, " - "@) {
        Some(i) => (t.take(i), Some(t.skip(i + 3))),
        None => (t, None),
    }
}

/// `c` is kept when the amount of a salary is read: an ASCII digit or '.'.
pub open spec fn is_amount_char(c: char) -> bool {
    ('0' <= c && c <= '9') || c == '.'
}

/// The characters of `s` that belong to an amount, in order.
pub open spec fn amount_chars(s: Seq<char>) -> Seq<char>
    decreases s.len(),
{
    if s.len() == 0 {
        s
    } else if is_amount_char(s.last()) {
        amount_chars(s.drop_last()).push(s.last())
    } else {
        amount_chars(s.drop_last())
    }
}

/// `s` without the leading characters `c`.
pub open spec fn drop_leading(s: Seq<char>, c: char) -> Seq<char>
    decreases s.len(),
{
    if s.len() > 0 && s[0] == c {
        drop_leading(s.drop_first(), c)
    } else {
        s
    }
}

/// The job id in a job card's link "/jobs/view/{id}/?...": the third
/// path segment without its query; empty when there is none.
pub open spec fn job_id_of_href(href: Seq<char>) -> Seq<char> {
    let segments = split_char(drop_leading(href, '/'), '/');
    if segments.len() > 2 {
        split_char(segments[2], '?')[0]
    } else {
        Seq::empty()
    }
}

/// The lower-cased text of a job insight names a seniority.
pub open spec fn is_seniority_insight(l: Seq<char>) -> bool {
    contains(l, "level"@) || contains(l, "senior"@) || contains(l, "intern"@) || contains(
        l,
        "director"@,
    ) || contains(l, "executive"@) || contains(l, "associate"@)
}

/// The seniority and industry read from the texts of a job's insights: the
/// last insight that names a seniority decides it, and the first other
/// non-empty insight is the industry.
pub open spec fn insights_read(texts: Seq<Seq<char>>) -> (ExperienceLevel, Option<Seq<char>>)
    decreases texts.len(),
{
    if texts.len() == 0 {
        (ExperienceLevel::NotApplicable, None)
    } else {
        let (seniority, industry) = insights_read(texts.drop_last());
        let t = trim(texts.last());
        if is_seniority_insight(lowercase(t)) {
            (seniority_named(lowercase(t)), industry)
        } else if industry is None && t.len() > 0 {
            (seniority, Some(t))
        } else {
            (seniority, industry)
        }
    }
}

/// Law: reading one more insight. A text whose trimmed lower case mentions
/// "level", "senior", "intern", "director", "executive" or "associate"
/// decides the seniority by what it names and is never the industry; any
/// other non-empty text becomes the industry when none was found before and
/// leaves the seniority as it was. With no insight the seniority is not
/// applicable and there is no industry.
pub proof fn lemma_insights_step(texts: Seq<Seq<char>>, t: Seq<char>)
    ensures
        insights_read(Seq::empty()) == (ExperienceLevel::NotApplicable, None::<Seq<char>>),
        ({
            let l = lowercase(trim(t));
            contains(l, "level"@) || contains(l, "senior"@) || contains(l, "intern"@)
                || contains(l, "director"@) || contains(l, "executive"@) || contains(
                l,
                "associate"@,
            )
        }) ==> insights_read(texts.push(t)) == (
            seniority_named(lowercase(trim(t))),
            insights_read(texts).1,
        ),
        !({
            let l = lowercase(trim(t));
            contains(l, "level"@) || contains(l, "senior"@) || contains(l, "intern"@)
                || contains(l, "director"@) || contains(l, "executive"@) || contains(
                l,
                "associate"@,
            )
        }) ==> {
            &&& insights_read(texts.push(t)).0 == insights_read(texts).0
            &&& insights_read(texts.push(t)).1 == if insights_read(texts).1 is None && trim(t).len()
                > 0 {
                Some(trim(t))
            } else {
                insights_read(texts).1
            }
        },
{
    assert(texts.push(t).drop_last() =~= texts);
}

/// Law: the seniority a lower-cased text names is given by the first of the
/// keywords "internship", "entry", "associate", "mid", "senior", "director",
/// "executive" that it mentions; a text with none of them names no
/// seniority.
pub proof fn lemma_seniority_keywords(l: Seq<char>)
    ensures
        contains(l, "internship"@) ==> seniority_named(l) == ExperienceLevel::Internship,
        !contains(l, "internship"@) && contains(l, "entry"@) ==> seniority_named(l)
            == ExperienceLevel::EntryLevel,
        !contains(l, "internship"@) && !contains(l, "entry"@) && contains(l, "associate"@)
            ==> seniority_named(l) == ExperienceLevel::Associate,
        !contains(l, "internship"@) && !contains(l, "entry"@) && !contains(l, "associate"@)
            && contains(l, "mid"@) ==> seniority_named(l) == ExperienceLevel::MidLevel,
        !contains(l, "internship"@) && !contains(l, "entry"@) && !contains(l, "associate"@)
            && !contains(l, "mid"@) && contains(l, "senior"@) ==> seniority_named(l)
            == ExperienceLevel::SeniorLevel,
        !contains(l, "internship"@) && !contains(l, "entry"@) && !contains(l, "associate"@)
            && !contains(l, "mid"@) && !contains(l, "senior"@) && contains(l, "director"@)
            ==> seniority_named(l) == ExperienceLevel::Director,
        !contains(l, "internship"@) && !contains(l, "entry"@) && !contains(l, "associate"@)
            && !contains(l, "mid"@) && !contains(l, "senior"@) && !contains(l, "director"@)
            && contains(l, "executive"@) ==> seniority_named(l) == ExperienceLevel::Executive,
        !contains(l, "internship"@) && !contains(l, "entry"@) && !contains(l, "associate"@)
            && !contains(l, "mid"@) && !contains(l, "senior"@) && !contains(l, "director"@)
            && !contains(l, "executive"@) ==> seniority_named(l) == ExperienceLevel::NotApplicable,
{
}

/// Law: the modality a lower-cased text names is given by the first of
/// "remote", "hybrid", then "on-site"/"onsite"/"in-person" that it
/// mentions; a text with none of them names no modality.
pub proof fn lemma_modality_keywords(l: Seq<char>)
    ensures
        contains(l, "remote"@) ==> modality_named(l) == Some(Modality::Remote),
        !contains(l, "remote"@) && contains(l, "hybrid"@) ==> modality_named(l) == Some(
            Modality::Hybrid,
        ),
        !contains(l, "remote"@) && !contains(l, "hybrid"@) && (contains(l, "on-site"@) || contains(
            l,
            "onsite"@,
        ) || contains(l, "in-person"@)) ==> modality_named(l) == Some(Modality::Onsite),
        !contains(l, "remote"@) && !contains(l, "hybrid"@) && !contains(l, "on-site"@)
            && !contains(l, "onsite"@) && !contains(l, "in-person"@) ==> modality_named(l) is None,
{
}

/// The modalities named by the texts of a job's preference buttons, in
/// order; texts that name none are passed over.
pub open spec fn modalities_read(texts: Seq<Seq<char>>) -> Seq<Modality>
    decreases texts.len(),
{
    if texts.len() == 0 {
        Seq::empty()
    } else {
        let before = modalities_read(texts.drop_last());
        match modality_named(lowercase(trim(texts.last()))) {
            Some(m) => before.push(m),
            None => before,
        }
    }
}

/// The URL of a job's page.
pub open spec fn job_url_of(id: Seq<char>) -> Seq<char> {
    "https://www.linkedin.com/jobs/view/"@ + id + "/"@
}

impl LinkedinJobDirectory {
    /// The modality that a text names: "remote", then "hybrid", then
    /// "on-site"/"onsite"/"in-person", compared without case.
    pub fn parse_modality(s: &str) -> (r: Option<Modality>)
        ensures
            r == modality_named(lowercase(s@)),
    {
        let lower = to_lowercase(s);
        Self::parse_modality_lowered(lower.as_str())
    }

    /// The modality that an already lower-cased text names.
    pub fn parse_modality_lowered(lower: &str) -> (r: Option<Modality>)
        ensures
            r == modality_named(lower@),
    {
        if str_contains(lower, "remote") {
            Some(Modality::Remote)
        } else if str_contains(lower, "hybrid") {
            Some(Modality::Hybrid)
        } else if str_contains(lower, "on-site") || str_contains(lower, "onsite") || str_contains(
            lower,
            "in-person",
        ) {
            Some(Modality::Onsite)
        } else {
            None
        }
    }

    /// The seniority that a text names, compared without case.
    pub fn parse_seniority(s: &str) -> (r: ExperienceLevel)
        ensures
            r == seniority_named(lowercase(s@)),
    {
        let lower = to_lowercase(s);
        Self::parse_seniority_lowered(lower.as_str())
    }

    /// The seniority that an already lower-cased text names.
    pub fn parse_seniority_lowered(lower: &str) -> (r: ExperienceLevel)
        ensures
            r == seniority_named(lower@),
    {
        if str_contains(lower, "internship") {
            ExperienceLevel::Internship
        } else if str_contains(lower, "entry") {
            ExperienceLevel::EntryLevel
        } else if str_contains(lower, "associate") {
            ExperienceLevel::Associate
        } else if str_contains(lower, "mid") {
            ExperienceLevel::MidLevel
        } else if str_contains(lower, "senior") {
            ExperienceLevel::SeniorLevel
        } else if str_contains(lower, "director") {
            ExperienceLevel::Director
        } else if str_contains(lower, "executive") {
            ExperienceLevel::Executive
        } else {
            ExperienceLevel::NotApplicable
        }
    }

    /// The currency code of a salary button's text, or `None` when the text
    /// quotes no known currency.
    pub fn salary_currency(text: &str) -> (r: Option<&'static str>)
        ensures
            r matches Some(c) ==> salary_currency_of(text@) == Some(c@),
            r is None ==> salary_currency_of(text@) is None,
    {
        if str_contains(text, "€") {
            Some("EUR")
        } else if str_contains(text, "£") {
            Some("GBP")
        } else if str_contains(text, "$") {
            Some("USD")
        } else if str_contains(text, "MUR") {
            Some("MUR")
        } else {
            None
        }
    }

    /// Splits a salary text at its first " - " into the lower end and, for
    /// a range, the upper end.
    pub fn split_salary_range<'a>(text: &'a str) -> (r: (&'a str, Option<&'a str>))
        ensures
            r.0@ == salary_range_parts(text@).0,
            r.1 matches Some(u) ==> salary_range_parts(text@).1 == Some(u@),
            r.1 is None ==> salary_range_parts(text@).1 is None,
    {
        match str_find(text, " - ") {
            Some(i) => {
                proof {
                    reveal_strlit(" - ");
                }
                let n = text.unicode_len();
                (text.substring_char(0, i), Some(text.substring_char(i + 3, n)))
            },
            None => (text, None),
        }
    }

    /// The characters of a salary text that make up its amount: ASCII
    /// digits and '.'.
    pub fn amount_digits(s: &str) -> (r: String)
        ensures
            r@ == amount_chars(s@),
    {
        let cs = chars_of(s);
        let mut r = String::new();
        let mut i: usize = 0;
        while i < cs.len()
            invariant
                cs@ == s@,
                i <= cs.len(),
                r@ == amount_chars(s@.take(i as int)),
            decreases cs.len() - i,
        {
            let c = cs[i];
            assert(s@.take(i + 1).drop_last() =~= s@.take(i as int));
            if ('0' <= c && c <= '9') || c == '.' {
                push_char(&mut r, c);
            }
            i = i + 1;
        }
        assert(s@.take(cs.len() as int) =~= s@);
        r
    }

    /// The amount of a salary text is given in thousands: its upper-cased
    /// form holds a 'K'.
    pub fn is_in_thousands(s: &str) -> (r: bool)
        ensures
            r == contains(uppercase(s@), "K"@),
    {
        let upper = to_uppercase(s);
        str_contains(upper.as_str(), "K")
    }

    /// The job id in a job card's link.
    pub fn job_id_from_href(href: &str) -> (r: String)
        ensures
            r@ == job_id_of_href(href@),
    {
        let cs = chars_of(href);
        let mut start: usize = 0;
        assert(href@.skip(0) =~= href@);
        while start < cs.len() && cs[start] == '/'
            invariant
                cs@ == href@,
                start <= cs.len(),
                drop_leading(href@, '/') == drop_leading(href@.skip(start as int), '/'),
            decreases cs.len() - start,
        {
            assert(href@.skip(start as int).drop_first() =~= href@.skip(start + 1));
            start = start + 1;
        }
        let rest = href.substring_char(start, cs.len());
        proof {
            let t = href@.skip(start as int);
            assert(rest@ =~= t);
            if t.len() > 0 {
                assert(t[0] == href@[start as int]);
            }
        }
        let segments = split_on_char(rest, '/');
        if segments.len() > 2 {
            let parts = split_on_char(segments[2].as_str(), '?');
            proof {
                crate::text::lemma_split_char_len(segments@[2]@, '?');
            }
            parts[0].clone()
        } else {
            String::new()
        }
    }

    /// The URL of a job's page.
    pub fn job_url(id: &str) -> (r: String)
        ensures
            r@ == job_url_of(id@),
    {
        let mut r = "https://www.linkedin.com/jobs/view/".to_owned();
        r.append(id);
        r.append("/");
        r
    }

    /// The modalities that the texts of a job's preference buttons name,
    /// each text trimmed first.
    pub fn modalities_from_texts(texts: &Vec<String>) -> (r: Vec<Modality>)
        ensures
            r@ == modalities_read(views(texts@)),
    {
        let mut modalities: Vec<Modality> = Vec::new();
        let mut i: usize = 0;
        while i < texts.len()
            invariant
                i <= texts.len(),
                modalities@ == modalities_read(views(texts@).take(i as int)),
            decreases texts.len() - i,
        {
            assert(views(texts@).take(i + 1).drop_last() =~= views(texts@).take(i as int));
            if let Some(m) = Self::parse_modality(trim_str(texts[i].as_str())) {
                modalities.push(m);
            }
            i = i + 1;
        }
        assert(views(texts@).take(i as int) =~= views(texts@));
        modalities
    }

    /// The lower-cased text of a job insight names a seniority.
    fn names_seniority(lower: &str) -> (r: bool)
        ensures
            r == is_seniority_insight(lower@),
    {
        str_contains(lower, "level") || str_contains(lower, "senior") || str_contains(
            lower,
            "intern",
        ) || str_contains(lower, "director") || str_contains(lower, "executive")
            || str_contains(lower, "associate")
    }

    /// Reads the seniority and the industry from the texts of a job's
    /// insights.
    pub fn read_insights(texts: &Vec<String>) -> (r: (ExperienceLevel, Option<String>))
        ensures
            r.0 == insights_read(views(texts@)).0,
            r.1 matches Some(i) ==> insights_read(views(texts@)).1 == Some(i@),
            r.1 is None ==> insights_read(views(texts@)).1 is None,
    {
        let mut seniority = ExperienceLevel::NotApplicable;
        let mut industry: Option<String> = None;
        let mut i: usize = 0;
        while i < texts.len()
            invariant
                i <= texts.len(),
                seniority == insights_read(views(texts@).take(i as int)).0,
                industry matches Some(x) ==> insights_read(views(texts@).take(i as int)).1 == Some(
                    x@,
                ),
                industry is None ==> insights_read(views(texts@).take(i as int)).1 is None,
            decreases texts.len() - i,
        {
            assert(views(texts@).take(i + 1).drop_last() =~= views(texts@).take(i as int));
            let t = trim_str(texts[i].as_str());
            let lower = to_lowercase(t);
            if Self::names_seniority(lower.as_str()) {
                seniority = Self::parse_seniority_lowered(lower.as_str());
            } else if industry.is_none() && !t.is_empty() {
                industry = Some(t.to_owned());
            }
            i = i + 1;
        }
        assert(views(texts@).take(i as int) =~= views(texts@));
        (seniority, industry)
    }
}

/// What is scraped from one job card and its detail pane.
#[derive(Debug, Clone)]
pub struct JobDetails {
    pub id: String,
    pub url: String,
    pub title: String,
    pub description: String,
    pub company: String,
    pub location: String,
    pub posted_at: String,
    pub modalities: Vec<Modality>,
    pub seniority: ExperienceLevel,
    pub industry: Option<String>,
    pub salary: Option<Salary>,
    pub recruiter_name: Option<String>,
}

/// `company` is on the blacklist, if there is one.
pub open spec fn is_blacklisted(blacklist: Option<Vec<String>>, company: Seq<char>) -> bool {
    match blacklist {
        Some(names) => views(names@).contains(company),
        None => false,
    }
}

impl JobEntry {
    /// The listing for scraped job details: the recruiter defaults to the
    /// company, and the source is LinkedIn.
    pub fn from_details(value: JobDetails) -> (r: JobEntry)
        ensures
            r.id == value.id,
            r.title == value.title,
            r.company == value.company,
            r.location == value.location,
            r.url == value.url,
            r.description == value.description,
            r.seniority_level == Some(value.seniority),
            r.industry == value.industry,
            r.posted_at == Some(value.posted_at),
            r.salary == value.salary,
            r.recruiter_name == match value.recruiter_name {
                Some(n) => n,
                None => value.company,
            },
            r.modalities == value.modalities,
            r.source@ == "https://www.linkedin.com"@,
    {
        let company = value.company.clone();
        let recruiter_name = match value.recruiter_name {
            Some(n) => n,
            None => value.company,
        };
        JobEntry {
            id: value.id,
            title: value.title,
            company,
            location: value.location,
            url: value.url,
            description: value.description,
            seniority_level: Some(value.seniority),
            industry: value.industry,
            posted_at: Some(value.posted_at),
            salary: value.salary,
            recruiter_name,
            modalities: value.modalities,
            source: "https://www.linkedin.com".to_owned(),
        }
    }
}

impl LinkedinJobDirectory {
    /// The company is not on the blacklist (there is no blacklist, or the
    /// name is not on it).
    pub fn org_not_blacklisted(blacklist: &Option<Vec<String>>, company: &String) -> (r: bool)
        ensures
            r == !is_blacklisted(*blacklist, company@),
    {
        match blacklist {
            Some(names) => {
                let mut i: usize = 0;
                while i < names.len()
                    invariant
                        *blacklist == Some(*names),
                        i <= names.len(),
                        forall|j: int| 0 <= j < i ==> names@[j]@ != company@,
                    decreases names.len() - i,
                {
                    if names[i] == *company {
                        assert(views(names@).len() == names@.len());
                        assert(views(names@)[i as int] == company@);
                        assert(views(names@).contains(company@));
                        return false;
                    }
                    i = i + 1;
                }
                assert forall|j: int| 0 <= j < views(names@).len() implies views(names@)[j]
                    != company@ by {
                    assert(views(names@)[j] == names@[j]@);
                }
                true
            },
            None => true,
        }
    }
}

/// The listings kept after offering `job`: it is added when its salary is
/// acceptable and its company is not blacklisted.
pub open spec fn kept_after_offer(
    jobs: Seq<JobEntry>,
    job: JobEntry,
    salary_allowed: bool,
    blacklist: Option<Vec<String>>,
) -> Seq<JobEntry> {
    if salary_allowed && !is_blacklisted(blacklist, job.company@) {
        jobs.push(job)
    } else {
        jobs
    }
}

/// Law: an offer made before the limit is reached keeps the listings within
/// the limit, so a fetch that stops once an offer reports the limit returns
/// at most `limit` listings (for a limit of at least one).
pub proof fn lemma_offer_within_limit(
    jobs: Seq<JobEntry>,
    job: JobEntry,
    salary_allowed: bool,
    blacklist: Option<Vec<String>>,
    limit: usize,
)
    requires
        jobs.len() < limit,
    ensures
        kept_after_offer(jobs, job, salary_allowed, blacklist).len() <= limit,
        kept_after_offer(jobs, job, salary_allowed, blacklist).len() <= jobs.len() + 1,
{
}

/// The listings gathered by a job fetch, up to a limit.
pub struct JobCollector {
    pub jobs: Vec<JobEntry>,
    pub limit: usize,
}

impl JobCollector {
    /// An empty collection that stops at `limit` listings.
    pub fn new(limit: usize) -> (r: JobCollector)
        ensures
            r.jobs@.len() == 0,
            r.limit == limit,
    {
        JobCollector { jobs: Vec::new(), limit }
    }

    /// Offers a scraped listing: it is kept when its salary is acceptable
    /// and its company is not blacklisted. Returns whether the limit is
    /// reached, which ends the fetch.
    pub fn offer(
        &mut self,
        job: JobEntry,
        salary_allowed: bool,
        blacklist: &Option<Vec<String>>,
    ) -> (done: bool)
        ensures
            final(self).limit == old(self).limit,
            final(self).jobs@ == kept_after_offer(old(self).jobs@, job, salary_allowed, *blacklist),
            done == (final(self).jobs@.len() >= final(self).limit),
    {
        let allowed = LinkedinJobDirectory::org_not_blacklisted(blacklist, &job.company);
        if salary_allowed && allowed {
            self.jobs.push(job);
        }
        self.jobs.len() >= self.limit
    }
}

/// The page of a job, where its application starts.
pub open spec fn application_page_of(job_id: Seq<char>) -> Seq<char> {
    "https://www.linkedin.com/jobs/view/"@ + job_id
}

/// The script command that opens the application dialogue of a job.
pub open spec fn open_application_command_of(job_id: Seq<char>) -> Seq<char> {
    "window.scrappy.executeCommand('OPEN_APPLICATION_MODAL', { jobId: '"@ + job_id + "' })"@
}

/// The script command that fills in one answer.
pub open spec fn answer_command_of(handle: Seq<char>, answer_json: Seq<char>) -> Seq<char> {
    "window.scrappy.executeCommand('ANSWER_QUESTION', { handle: '"@ + handle + "', answer: "@
        + answer_json + " })"@
}

/// The page of a job, where its application starts.
pub fn application_page(job_id: &str) -> (r: String)
    ensures
        r@ == application_page_of(job_id@),
{
    let mut r = "https://www.linkedin.com/jobs/view/".to_owned();
    r.append(job_id);
    r
}

/// The script command that opens the application dialogue of a job.
pub fn open_application_command(job_id: &str) -> (r: String)
    ensures
        r@ == open_application_command_of(job_id@),
{
    let mut r = "window.scrappy.executeCommand('OPEN_APPLICATION_MODAL', { jobId: '".to_owned();
    r.append(job_id);
    r.append("' })");
    r
}

/// The script command that fills in one answer, given as JSON.
pub fn answer_command(handle: &str, answer_json: &str) -> (r: String)
    ensures
        r@ == answer_command_of(handle@, answer_json@),
{
    let mut r = "window.scrappy.executeCommand('ANSWER_QUESTION', { handle: '".to_owned();
    r.append(handle);
    r.append("', answer: ");
    r.append(answer_json);
    r.append(" })");
    r
}

/// Why an application needs the candidate: the labels of the required
/// questions that could not be answered.
pub open spec fn manual_reason_of(missing: Seq<Question>) -> Seq<char> {
    "Missing required information: "@ + join(missing.map_values(|q: Question| q.label@), ", "@)
}

/// What became of an application, once its dialogue is over.
#[derive(Debug, Clone)]
pub enum ApplyOutcome {
    /// The application was submitted.
    Applied { job_id: String },
    /// A required question could not be answered: the candidate must finish.
    RequiresManualAction { job_id: String, reason: String },
}

/// The state of an application dialogue: the required questions that could
/// not be answered.
pub struct ApplySession {
    pub missing_required_infos: Vec<Question>,
}

impl ApplySession {
    /// A dialogue with no unanswered question yet.
    pub fn new() -> (r: ApplySession)
        ensures
            r.missing_required_infos@.len() == 0,
    {
        ApplySession { missing_required_infos: Vec::new() }
    }

    /// Handles the answer to one question: a missing required answer is
    /// recorded and nothing is filled in; any other answer gives the command
    /// that fills it in.
    pub fn on_answer(&mut self, question: Question, answer: &Answer, answer_json: &str) -> (r:
        Option<String>)
        ensures
            answer is MissingRequiredInfo ==> {
                &&& final(self).missing_required_infos@ == old(
                    self,
                ).missing_required_infos@.push(question)
                &&& r is None
            },
            !(answer is MissingRequiredInfo) ==> {
                &&& final(self).missing_required_infos@ == old(self).missing_required_infos@
                &&& r matches Some(c) && c@ == answer_command_of(question.id@, answer_json@)
            },
    {
        if let Answer::MissingRequiredInfo = answer {
            self.missing_required_infos.push(question);
            None
        } else {
            Some(answer_command(question.id.as_str(), answer_json))
        }
    }

    /// The outcome of the application of job `job_id` once the dialogue is
    /// over: it needs manual action exactly when a required question went
    /// unanswered, and names the job either way.
    pub fn outcome(&self, job_id: &str) -> (r: ApplyOutcome)
        ensures
            r is Applied <==> self.missing_required_infos@.len() == 0,
            r matches ApplyOutcome::Applied { job_id: j } ==> j@ == job_id@,
            r matches ApplyOutcome::RequiresManualAction { job_id: j, reason } ==> {
                &&& j@ == job_id@
                &&& reason@ == manual_reason_of(self.missing_required_infos@)
            },
    {
        if self.missing_required_infos.len() == 0 {
            return ApplyOutcome::Applied { job_id: job_id.to_owned() };
        }
        let mut labels: Vec<String> = Vec::new();
        let mut i: usize = 0;
        while i < self.missing_required_infos.len()
            invariant
                i <= self.missing_required_infos@.len(),
                labels@.len() == i,
                forall|j: int|
                    0 <= j < i ==> (#[trigger] labels@[j])@
                        == self.missing_required_infos@[j].label@,
            decreases self.missing_required_infos@.len() - i,
        {
            labels.push(self.missing_required_infos[i].label.clone());
            i = i + 1;
        }
        assert(views(labels@) =~= self.missing_required_infos@.map_values(
            |q: Question| q.label@,
        ));
        let joined = join_strings(&labels, ", ");
        let mut reason = "Missing required information: ".to_owned();
        reason.append(joined.as_str());
        ApplyOutcome::RequiresManualAction { job_id: job_id.to_owned(), reason }
    }
}

} // verus!

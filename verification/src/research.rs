//! Types and text handling of the company-research pipeline.

use vstd::prelude::*;
use crate::directory::JobEntry;
use vstd::string::StringSliceAdditionalSpecFns;
use vstd::utf8::{decode_utf8, encode_utf8, encode_utf8_decode_utf8, is_char_boundary};
use crate::text::{
    ascii_lowered, is_ascii_text, concat, concat_strs, find, join, join_strings, lowercase, non_empty, occurs_at,
    split_char, split_on_char, str_eq, str_find, str_strip_prefix, str_views, strip_prefix,
    to_lowercase, trim, trim_each, trim_end, trim_start, trim_str, views,
};

verus! {

/// Who is hiring: a person or an organization.
#[derive(Debug, Clone)]
pub enum EntityKind {
    Person { name: String, title: Option<String> },
    Organization { name: String, domain: Option<String> },
}

/// The hiring entity as resolved from a job listing.
#[derive(Debug, Clone)]
pub struct ResolvedIdentity {
    pub kind: EntityKind,
    /// The most canonical unique identifier — a URL, domain, LinkedIn URL, or full name.
    pub signal: String,
    pub display_name: String,
}

/// The identity fields as a model reports them, before they are typed.
#[derive(Debug, Clone)]
pub struct RawIdentity {
    pub kind: String,
    pub name: String,
    pub title: Option<String>,
    pub domain: Option<String>,
    pub signal: String,
    pub display_name: String,
}

/// What a research question focuses on.
#[derive(Debug, Clone)]
pub enum ResearchFocus {
    /// Technical analysis, codebase insights, product features.
    Technical,
    /// Public perception, press coverage, reviews, awards.
    Reputation,
    /// Direction, roadmap, stated priorities, key bets.
    Strategy,
    /// Values, team dynamics, leadership style, ways of working.
    Culture,
    /// News, hires, launches, pivots, or announcements from the past 12 months.
    RecentActivity,
    /// Funding, revenue model, burn rate, or business sustainability.
    Financials,
    /// Anything that doesn't fit the above — stored as a short free-form label.
    Custom(String),
}

/// `f` is the focus named by the lower-cased, trimmed label `t`: one of the
/// known names, or `Custom` holding `t` itself.
pub open spec fn is_focus_named(f: ResearchFocus, t: Seq<char>) -> bool {
    if t == "reputation"@ {
        f == ResearchFocus::Reputation
    } else if t == "strategy"@ {
        f == ResearchFocus::Strategy
    } else if t == "culture"@ {
        f == ResearchFocus::Culture
    } else if t == "recentactivity"@ || t == "recent_activity"@ || t == "recent activity"@ {
        f == ResearchFocus::RecentActivity
    } else if t == "financials"@ || t == "financial"@ {
        f == ResearchFocus::Financials
    } else if t == "tech"@ || t == "technical"@ {
        f == ResearchFocus::Technical
    } else {
        f matches ResearchFocus::Custom(s) && s@ == t
    }
}

/// `t` is one of the names of the known focuses.
pub open spec fn is_known_focus_name(t: Seq<char>) -> bool {
    t == "reputation"@ || t == "strategy"@ || t == "culture"@ || t == "recentactivity"@ || t
        == "recent_activity"@ || t == "recent activity"@ || t == "financials"@ || t
        == "financial"@ || t == "tech"@ || t == "technical"@
}

/// The label of a focus.
pub open spec fn focus_label(f: ResearchFocus) -> Seq<char> {
    match f {
        ResearchFocus::Reputation => "Reputation"@,
        ResearchFocus::Strategy => "Strategy"@,
        ResearchFocus::Culture => "Culture"@,
        ResearchFocus::RecentActivity => "Recent Activity"@,
        ResearchFocus::Financials => "Financials"@,
        ResearchFocus::Technical => "Technical"@,
        ResearchFocus::Custom(s) => s@,
    }
}

/// Law: a focus read back from its label is that focus again. The label of
/// a known focus is ASCII text, and read back through its ASCII lower case;
/// a custom focus comes back when its text is already lower-cased, trimmed
/// and not a known name.
pub proof fn lemma_label_round_trip(f: ResearchFocus)
    ensures
        !(f is Custom) ==> is_ascii_text(focus_label(f)) && is_focus_named(
            f,
            trim(ascii_lowered(focus_label(f))),
        ),
        f matches ResearchFocus::Custom(s) && trim(lowercase(s@)) == s@ && !is_known_focus_name(
            s@,
        ) ==> is_focus_named(f, trim(lowercase(focus_label(f)))),
{
    reveal_strlit("Reputation");
    reveal_strlit("Strategy");
    reveal_strlit("Culture");
    reveal_strlit("Recent Activity");
    reveal_strlit("Financials");
    reveal_strlit("Technical");
    reveal_strlit("reputation");
    reveal_strlit("strategy");
    reveal_strlit("culture");
    reveal_strlit("recentactivity");
    reveal_strlit("recent_activity");
    reveal_strlit("recent activity");
    reveal_strlit("financials");
    reveal_strlit("financial");
    reveal_strlit("tech");
    reveal_strlit("technical");
    if !(f is Custom) {
        let l = focus_label(f);
        let low = ascii_lowered(l);
        let name: Seq<char> = match f {
            ResearchFocus::Reputation => "reputation"@,
            ResearchFocus::Strategy => "strategy"@,
            ResearchFocus::Culture => "culture"@,
            ResearchFocus::RecentActivity => "recent activity"@,
            ResearchFocus::Financials => "financials"@,
            _ => "technical"@,
        };
        assert(low =~= name);
        assert(trim_start(name) == name);
        assert(trim_end(name) == name);
    }
}

impl ResearchFocus {
    /// The focus named by `s` once lower-cased and trimmed; names that are
    /// not known become `Custom` with the normalized text.
    pub fn from_label(s: &str) -> (r: ResearchFocus)
        ensures
            is_focus_named(r, trim(lowercase(s@))),
            is_ascii_text(s@) ==> is_focus_named(r, trim(ascii_lowered(s@))),
    {
        let lower = to_lowercase(s);
        Self::from_lowered_label(lower.as_str())
    }

    /// The focus named by an already lower-cased label, after trimming it.
    pub fn from_lowered_label(lower: &str) -> (r: ResearchFocus)
        ensures
            is_focus_named(r, trim(lower@)),
    {
        let t = trim_str(lower);
        if str_eq(t, "reputation") {
            ResearchFocus::Reputation
        } else if str_eq(t, "strategy") {
            ResearchFocus::Strategy
        } else if str_eq(t, "culture") {
            ResearchFocus::Culture
        } else if str_eq(t, "recentactivity") || str_eq(t, "recent_activity") || str_eq(
            t,
            "recent activity",
        ) {
            ResearchFocus::RecentActivity
        } else if str_eq(t, "financials") || str_eq(t, "financial") {
            ResearchFocus::Financials
        } else if str_eq(t, "tech") || str_eq(t, "technical") {
            ResearchFocus::Technical
        } else {
            ResearchFocus::Custom(t.to_owned())
        }
    }

    /// The human-readable label of the focus.
    pub fn label(&self) -> (r: &str)
        ensures
            r@ == focus_label(*self),
    {
        match self {
            ResearchFocus::Reputation => "Reputation",
            ResearchFocus::Strategy => "Strategy",
            ResearchFocus::Culture => "Culture",
            ResearchFocus::RecentActivity => "Recent Activity",
            ResearchFocus::Financials => "Financials",
            ResearchFocus::Technical => "Technical",
            ResearchFocus::Custom(s) => s.as_str(),
        }
    }
}

/// One line of research to pursue.
#[derive(Debug, Clone)]
pub struct ResearchVector {
    pub id: String,
    /// The search query to execute.
    pub query: String,
    /// Why this gap matters for this specific candidate.
    pub rationale: String,
    pub focus: ResearchFocus,
}

/// What was found for one research vector.
#[derive(Debug, Clone)]
pub struct ResearchFinding {
    pub vector: ResearchVector,
    pub content: String,
    pub sources: Vec<String>,
}

/// Carries out the research of one vector, with whatever service the
/// implementor talks to. Its answer is not checked here: an implementation
/// usually sends `research_prompt` and builds its result with
/// `finding_from_reply`.
pub trait Researcher {
    fn research(&self, vector: &ResearchVector) -> Result<ResearchFinding, String>;
}

/// The final research report.
#[derive(Debug, Clone)]
pub struct Dossier {
    pub title: String,
    pub entity: ResolvedIdentity,
    /// Markdown-formatted research report.
    pub content: String,
    pub generated_at: String,
}

/// The prompt sent to the researcher for one vector.
pub open spec fn research_prompt_text(v: ResearchVector) -> Seq<char> {
    "Focus area: "@ + focus_label(v.focus) + "\n\nResearch query: "@ + v.query@
}

/// Builds the prompt sent to the researcher for one vector.
pub fn research_prompt(vector: &ResearchVector) -> (r: String)
    ensures
        r@ == research_prompt_text(*vector),
{
    let parts = [
        "Focus area: ",
        vector.focus.label(),
        "\n\nResearch query: ",
        vector.query.as_str(),
    ];
    let r = concat_strs(&parts);
    proof {
        let vs = str_views(parts@);
        assert(vs =~= seq![
            "Focus area: "@,
            focus_label(vector.focus),
            "\n\nResearch query: "@,
            vector.query@,
        ]);
        reveal_with_fuel(concat, 5);
        assert(r@ =~= research_prompt_text(*vector));
    }
    r
}

/// The marker of the sources list in a research reply: a line that starts
/// with "Sources:".
pub open spec fn sources_marker() -> Seq<char> {
    "Sources:"@
}

/// The marker of the sources list after the first line.
pub open spec fn sources_line_marker() -> Seq<char> {
    "\nSources:"@
}

/// The sources listed after the marker: one per non-blank line, trimmed.
pub open spec fn source_lines(rest: Seq<char>) -> Seq<Seq<char>> {
    non_empty(trim_each(split_char(rest, '\n')))
}

/// A research reply split into its content and its sources. The first line
/// that starts with "Sources:" is the marker: the content is what comes
/// before it, trimmed, and everything after "Sources:" is one source per
/// non-blank line, trimmed. Without the marker the whole reply, trimmed, is
/// the content and there are no sources.
pub open spec fn split_sources_of(raw: Seq<char>) -> (Seq<char>, Seq<Seq<char>>) {
    match strip_prefix(raw, sources_marker()) {
        Some(rest) => (Seq::empty(), source_lines(rest)),
        None => match find(raw, sources_line_marker()) {
            Some(pos) => (
                trim(raw.take(pos)),
                source_lines(raw.skip(pos + sources_line_marker().len())),
            ),
            None => (trim(raw), Seq::empty()),
        },
    }
}

/// The sources listed after the marker, one per non-blank line, trimmed.
fn read_source_lines(rest: &str) -> (r: Vec<String>)
    ensures
        views(r@) == source_lines(rest@),
{
    let lines = split_on_char(rest, '\n');
    let ghost trimmed = trim_each(views(lines@));
    let mut sources: Vec<String> = Vec::new();
    let mut i: usize = 0;
    while i < lines.len()
        invariant
            i <= lines.len(),
            trimmed == trim_each(views(lines@)),
            views(sources@) == non_empty(trimmed.take(i as int)),
        decreases lines.len() - i,
    {
        let line = trim_str(lines[i].as_str());
        assert(trimmed.take(i + 1).drop_last() =~= trimmed.take(i as int));
        assert(trimmed.take(i + 1).last() == line@);
        if !line.is_empty() {
            let ghost before = views(sources@);
            let owned = line.to_owned();
            sources.push(owned);
            assert(views(sources@) =~= before.push(owned@));
        }
        i = i + 1;
    }
    assert(trimmed.take(i as int) =~= trimmed);
    sources
}

/// Splits a research reply into its content and its list of sources.
pub fn split_sources<'a>(raw: &'a str) -> (r: (&'a str, Vec<String>))
    ensures
        r.0@ == split_sources_of(raw@).0,
        views(r.1@) == split_sources_of(raw@).1,
{
    if let Some(rest) = str_strip_prefix(raw, "Sources:") {
        let content = raw.substring_char(0, 0);
        assert(content@ =~= Seq::<char>::empty());
        return (content, read_source_lines(rest));
    }
    match str_find(raw, "\nSources:") {
        Some(pos) => {
            proof {
                reveal_strlit("\nSources:");
            }
            let n = raw.unicode_len();
            let content = trim_str(raw.substring_char(0, pos));
            let rest = raw.substring_char(pos + 9, n);
            (content, read_source_lines(rest))
        },
        None => (trim_str(raw), Vec::new()),
    }
}

/// A research finding for `vector`, read from the researcher's reply.
pub fn finding_from_reply(vector: ResearchVector, raw: &str) -> (r: ResearchFinding)
    ensures
        r.vector == vector,
        r.content@ == split_sources_of(raw@).0,
        views(r.sources@) == split_sources_of(raw@).1,
{
    let (content, sources) = split_sources(raw);
    ResearchFinding { vector, content: content.to_owned(), sources }
}

/// The identity for the fields a model reported: a person when the kind
/// is exactly "Person", an organization otherwise.
pub open spec fn identity_of(raw: RawIdentity) -> ResolvedIdentity {
    ResolvedIdentity {
        kind: if raw.kind@ == "Person"@ {
            EntityKind::Person { name: raw.name, title: raw.title }
        } else {
            EntityKind::Organization { name: raw.name, domain: raw.domain }
        },
        signal: raw.signal,
        display_name: raw.display_name,
    }
}

impl ResolvedIdentity {
    /// Types the identity fields that a model reported.
    pub fn from_raw(raw: RawIdentity) -> (r: ResolvedIdentity)
        ensures
            r == identity_of(raw),
    {
        let kind = if str_eq(raw.kind.as_str(), "Person") {
            EntityKind::Person { name: raw.name, title: raw.title }
        } else {
            EntityKind::Organization { name: raw.name, domain: raw.domain }
        };
        ResolvedIdentity { kind, signal: raw.signal, display_name: raw.display_name }
    }
}

/// The fields of a research vector as a model reports them.
#[derive(Debug, Clone)]
pub struct RawVector {
    pub id: String,
    pub query: String,
    pub rationale: String,
    pub focus: String,
}

impl ResearchVector {
    /// Types a research vector that a model reported; the focus label is
    /// read with `ResearchFocus::from_label`.
    pub fn from_raw(raw: RawVector) -> (r: ResearchVector)
        ensures
            r.id == raw.id,
            r.query == raw.query,
            r.rationale == raw.rationale,
            is_focus_named(r.focus, trim(lowercase(raw.focus@))),
    {
        let focus = ResearchFocus::from_label(raw.focus.as_str());
        ResearchVector { id: raw.id, query: raw.query, rationale: raw.rationale, focus }
    }
}

/// `v` is the research vector that `raw` reports, as `ResearchVector::from_raw`
/// types it.
pub open spec fn is_vector_of(v: ResearchVector, raw: RawVector) -> bool {
    &&& v.id == raw.id
    &&& v.query == raw.query
    &&& v.rationale == raw.rationale
    &&& is_focus_named(v.focus, trim(lowercase(raw.focus@)))
}

/// Why the vectors of a synthesis were refused.
#[derive(Debug, Clone, PartialEq, Eq, Structural)]
pub enum SynthesisError {
    /// A synthesis gives 3 to 5 research vectors; the reply held this many.
    VectorCount(usize),
}

/// Types the research vectors that a synthesizing model reported, in the
/// reply's order. A synthesis gives 3 to 5 vectors: any other count is
/// refused.
pub fn vectors_from_raw(raw: Vec<RawVector>) -> (r: Result<Vec<ResearchVector>, SynthesisError>)
    ensures
        r is Ok <==> 3 <= raw@.len() <= 5,
        r matches Err(e) ==> e == SynthesisError::VectorCount(raw@.len() as usize),
        r matches Ok(v) ==> v@.len() == raw@.len() && forall|i: int|
            0 <= i < v@.len() ==> is_vector_of(#[trigger] v@[i], raw@[i]),
{
    let n = raw.len();
    if n < 3 || n > 5 {
        return Err(SynthesisError::VectorCount(n));
    }
    let ghost raw0 = raw@;
    let mut rest = raw;
    let mut out: Vec<ResearchVector> = Vec::new();
    while rest.len() > 0
        invariant
            out@.len() + rest@.len() == raw0.len(),
            rest@ == raw0.skip(out@.len() as int),
            forall|i: int| 0 <= i < out@.len() ==> is_vector_of(#[trigger] out@[i], raw0[i]),
        decreases rest@.len(),
    {
        let r = rest.remove(0);
        assert(r == raw0[out@.len() as int]);
        out.push(ResearchVector::from_raw(r));
        assert(rest@ =~= raw0.skip(out@.len() as int));
    }
    Ok(out)
}

/// The block of one finding in the dossier prompt.
pub open spec fn finding_block(f: ResearchFinding) -> Seq<char> {
    "#### "@ + f.vector.query@ + " ("@ + focus_label(f.vector.focus) + ")\n"@ + f.content@
        + "\n"@
}

/// The blocks of the findings, in order.
pub open spec fn finding_blocks(fs: Seq<ResearchFinding>) -> Seq<Seq<char>> {
    fs.map_values(|f: ResearchFinding| finding_block(f))
}

/// The findings as text for the dossier prompt: one block per finding,
/// separated by newlines.
pub fn findings_text(findings: &Vec<ResearchFinding>) -> (r: String)
    ensures
        r@ == join(finding_blocks(findings@), "\n"@),
{
    let ghost want = finding_blocks(findings@);
    let mut blocks: Vec<String> = Vec::new();
    let mut i: usize = 0;
    while i < findings.len()
        invariant
            i <= findings.len(),
            want == finding_blocks(findings@),
            views(blocks@) =~= want.take(i as int),
        decreases findings.len() - i,
    {
        let f = &findings[i];
        let pieces = [
            "#### ",
            f.vector.query.as_str(),
            " (",
            f.vector.focus.label(),
            ")\n",
            f.content.as_str(),
            "\n",
        ];
        let block = concat_strs(&pieces);
        proof {
            assert(str_views(pieces@) =~= seq![
                "#### "@,
                f.vector.query@,
                " ("@,
                focus_label(f.vector.focus),
                ")\n"@,
                f.content@,
                "\n"@,
            ]);
            reveal_with_fuel(concat, 8);
            assert(block@ =~= finding_block(*f));
        }
        let ghost before = views(blocks@);
        blocks.push(block);
        assert(views(blocks@) =~= before.push(block@));
        assert(want.take(i + 1) =~= want.take(i as int).push(want[i as int]));
        i = i + 1;
    }
    assert(want.take(i as int) =~= want);
    join_strings(&blocks, "\n")
}

/// The title of the dossier for a target and a job title.
pub open spec fn dossier_title_of(display_name: Seq<char>, job_title: Seq<char>) -> Seq<char> {
    "Research Dossier: "@ + display_name + " — "@ + job_title
}

/// The prompt that asks for the dossier.
pub open spec fn dossier_prompt_of(
    display_name: Seq<char>,
    job: JobEntry,
    knowledge_base: Seq<char>,
    findings: Seq<char>,
) -> Seq<char> {
    "TARGET: "@ + display_name + "\nROLE: "@ + job.title@ + " at "@ + job.company@
        + "\n\nCANDIDATE BACKGROUND:\n"@ + knowledge_base + "\n\nRESEARCH FINDINGS:\n"@ + findings
        + "\n\nGenerate the dossier."@
}

/// Builds the prompt that asks for the dossier.
pub fn dossier_prompt(
    identity: &ResolvedIdentity,
    findings: &Vec<ResearchFinding>,
    knowledge_base: &str,
    job: &JobEntry,
) -> (r: String)
    ensures
        r@ == dossier_prompt_of(
            identity.display_name@,
            *job,
            knowledge_base@,
            join(finding_blocks(findings@), "\n"@),
        ),
{
    let text = findings_text(findings);
    let pieces = [
        "TARGET: ",
        identity.display_name.as_str(),
        "\nROLE: ",
        job.title.as_str(),
        " at ",
        job.company.as_str(),
        "\n\nCANDIDATE BACKGROUND:\n",
        knowledge_base,
        "\n\nRESEARCH FINDINGS:\n",
        text.as_str(),
        "\n\nGenerate the dossier.",
    ];
    let r = concat_strs(&pieces);
    proof {
        assert(str_views(pieces@) =~= seq![
            "TARGET: "@,
            identity.display_name@,
            "\nROLE: "@,
            job.title@,
            " at "@,
            job.company@,
            "\n\nCANDIDATE BACKGROUND:\n"@,
            knowledge_base@,
            "\n\nRESEARCH FINDINGS:\n"@,
            text@,
            "\n\nGenerate the dossier."@,
        ]);
        reveal_with_fuel(concat, 12);
    }
    r
}

impl Dossier {
    /// The dossier for a target: titled after the target and the job, with
    /// the generated report and the time it was generated.
    pub fn new(identity: ResolvedIdentity, job: &JobEntry, content: String, generated_at: String) -> (r:
        Dossier)
        ensures
            r.title@ == dossier_title_of(identity.display_name@, job.title@),
            r.entity == identity,
            r.content == content,
            r.generated_at == generated_at,
    {
        let mut title = "Research Dossier: ".to_owned();
        title.append(identity.display_name.as_str());
        title.append(" — ");
        title.append(job.title.as_str());
        Dossier { title, entity: identity, content, generated_at }
    }
}

/// The prompt that asks for research vectors.
pub open spec fn synthesis_prompt_of(display_name: Seq<char>, knowledge_base: Seq<char>, posting: Seq<
    char,
>) -> Seq<char> {
    "TARGET ENTITY: "@ + display_name + "\n\nCANDIDATE KNOWLEDGE BASE:\n"@ + knowledge_base
        + "\n\nJOB POSTING:\n"@ + posting
}

/// Builds the prompt that asks for research vectors: the target, the
/// candidate's knowledge base and the readable job posting.
pub fn synthesis_prompt(identity: &ResolvedIdentity, knowledge_base: &str, job: &JobEntry) -> (r:
    String)
    ensures
        r@ == synthesis_prompt_of(
            identity.display_name@,
            knowledge_base@,
            crate::text::join(crate::directory::readable_lines(*job), "\n"@),
        ),
{
    let posting = job.to_ai_readable_string();
    let mut r = "TARGET ENTITY: ".to_owned();
    r.append(identity.display_name.as_str());
    r.append("\n\nCANDIDATE KNOWLEDGE BASE:\n");
    r.append(knowledge_base);
    r.append("\n\nJOB POSTING:\n");
    r.append(posting.as_str());
    r
}

/// The byte length of the excerpt of a description: at most 600 bytes.
pub open spec fn excerpt_len(d: Seq<char>) -> int {
    if encode_utf8(d).len() < 600 {
        encode_utf8(d).len() as int
    } else {
        600
    }
}

/// The excerpt of a description that the identity prompt shows: its first
/// 600 bytes, or all of it when shorter.
pub open spec fn excerpt_of(d: Seq<char>) -> Seq<char> {
    decode_utf8(encode_utf8(d).take(excerpt_len(d)))
}

/// The first 600 bytes of a description, or all of it when shorter. The
/// cut must fall between two characters.
pub fn description_excerpt(d: &str) -> (r: &str)
    requires
        is_char_boundary(encode_utf8(d@), excerpt_len(d@)),
    ensures
        r@ == excerpt_of(d@),
{
    let len = d.as_bytes().len();
    assert(len == encode_utf8(d@).len());
    let cut = if len < 600 {
        len
    } else {
        600
    };
    let (head, _) = d.split_at(cut);
    proof {
        encode_utf8_decode_utf8(head@);
        assert(head.spec_bytes() =~= encode_utf8(d@).take(excerpt_len(d@)));
    }
    head
}

/// The prompt that asks a model who is hiring for a job.
pub open spec fn identity_prompt_of(job: JobEntry) -> Seq<char> {
    "Company/Entity: "@ + job.company@ + "\nJob URL: "@ + job.url@ + "\nJob Title: "@ + job.title@
        + "\nDescription (first 600 chars): "@ + excerpt_of(job.description@)
}

/// Builds the prompt that asks a model who is hiring for a job: company,
/// URL, title and the description's first 600 bytes.
pub fn identity_prompt(job: &JobEntry) -> (r: String)
    requires
        is_char_boundary(encode_utf8(job.description@), excerpt_len(job.description@)),
    ensures
        r@ == identity_prompt_of(*job),
{
    let excerpt = description_excerpt(job.description.as_str());
    let pieces = [
        "Company/Entity: ",
        job.company.as_str(),
        "\nJob URL: ",
        job.url.as_str(),
        "\nJob Title: ",
        job.title.as_str(),
        "\nDescription (first 600 chars): ",
        excerpt,
    ];
    let r = concat_strs(&pieces);
    proof {
        assert(str_views(pieces@) =~= seq![
            "Company/Entity: "@,
            job.company@,
            "\nJob URL: "@,
            job.url@,
            "\nJob Title: "@,
            job.title@,
            "\nDescription (first 600 chars): "@,
            excerpt@,
        ]);
        reveal_with_fuel(concat, 9);
    }
    r
}

} // verus!

//! Job listings as the job directories report them.

use vstd::prelude::*;
use crate::text::{concat, concat_strs, join, join_strings, str_views, views};

verus! {

/// An amount of money with its currency code.
///
/// `value` holds the amount as its decimal text (the text the amount is
/// displayed with); numeric comparison of amounts happens outside this crate.
#[derive(Debug, Clone)]
pub struct Money {
    pub value: String,
    pub currency: String,
}

impl Money {
    /// An amount with its currency code.
    pub fn new(value: String, currency: String) -> (r: Money)
        ensures
            r.value == value,
            r.currency == currency,
    {
        Money { value, currency }
    }
}

/// A salary, as a single amount or a range.
#[derive(Debug, Clone)]
pub struct Salary {
    pub minimum: Money,
    pub maximum: Option<Money>,
}

impl Salary {
    /// A salary from its lower and, for a range, upper amount.
    pub fn new(minimum: Money, maximum: Option<Money>) -> (r: Salary)
        ensures
            r.minimum == minimum,
            r.maximum == maximum,
    {
        Salary { minimum, maximum }
    }
}

/// Where the work happens.
#[derive(Debug, Clone, Copy, PartialEq, Eq, Structural)]
pub enum Modality {
    Remote,
    Onsite,
    Hybrid,
}

/// Seniority of a position.
#[derive(Debug, Clone, Copy, PartialEq, Eq, Structural)]
pub enum ExperienceLevel {
    Internship,
    EntryLevel,
    Associate,
    MidLevel,
    SeniorLevel,
    Director,
    Executive,
    NotApplicable,
}

/// The debug name of a modality.
pub open spec fn modality_name(m: Modality) -> Seq<char> {
    match m {
        Modality::Remote => "Remote"@,
        Modality::Onsite => "Onsite"@,
        Modality::Hybrid => "Hybrid"@,
    }
}

/// The debug name of an experience level.
pub open spec fn experience_name(e: ExperienceLevel) -> Seq<char> {
    match e {
        ExperienceLevel::Internship => "Internship"@,
        ExperienceLevel::EntryLevel => "EntryLevel"@,
        ExperienceLevel::Associate => "Associate"@,
        ExperienceLevel::MidLevel => "MidLevel"@,
        ExperienceLevel::SeniorLevel => "SeniorLevel"@,
        ExperienceLevel::Director => "Director"@,
        ExperienceLevel::Executive => "Executive"@,
        ExperienceLevel::NotApplicable => "NotApplicable"@,
    }
}

/// Law: the name of each level and modality is the variant's own name, as
/// `{:?}` prints it; so no two levels, and no two modalities, share a name.
pub proof fn lemma_debug_names()
    ensures
        experience_name(ExperienceLevel::Internship) == "Internship"@,
        experience_name(ExperienceLevel::EntryLevel) == "EntryLevel"@,
        experience_name(ExperienceLevel::Associate) == "Associate"@,
        experience_name(ExperienceLevel::MidLevel) == "MidLevel"@,
        experience_name(ExperienceLevel::SeniorLevel) == "SeniorLevel"@,
        experience_name(ExperienceLevel::Director) == "Director"@,
        experience_name(ExperienceLevel::Executive) == "Executive"@,
        experience_name(ExperienceLevel::NotApplicable) == "NotApplicable"@,
        modality_name(Modality::Remote) == "Remote"@,
        modality_name(Modality::Onsite) == "Onsite"@,
        modality_name(Modality::Hybrid) == "Hybrid"@,
        forall|a: ExperienceLevel, b: ExperienceLevel|
            experience_name(a) == experience_name(b) ==> a == b,
        forall|a: Modality, b: Modality| modality_name(a) == modality_name(b) ==> a == b,
{
    reveal_strlit("Internship");
    reveal_strlit("EntryLevel");
    reveal_strlit("Associate");
    reveal_strlit("MidLevel");
    reveal_strlit("SeniorLevel");
    reveal_strlit("Director");
    reveal_strlit("Executive");
    reveal_strlit("NotApplicable");
    reveal_strlit("Remote");
    reveal_strlit("Onsite");
    reveal_strlit("Hybrid");
    assert forall|a: ExperienceLevel, b: ExperienceLevel|
        experience_name(a) == experience_name(b) implies a == b by {
        if a != b {
            let (x, y) = (experience_name(a), experience_name(b));
            assert(x.len() != y.len() || x[0] != y[0] || x[1] != y[1] || x[2] != y[2]);
        }
    }
    assert forall|a: Modality, b: Modality| modality_name(a) == modality_name(b) implies a == b by {
        if a != b {
            assert(modality_name(a)[0] != modality_name(b)[0]);
        }
    }
}

impl Modality {
    /// The name of the variant, as `{:?}` prints it.
    pub fn debug_name(&self) -> (r: &'static str)
        ensures
            r@ == modality_name(*self),
    {
        match self {
            Modality::Remote => "Remote",
            Modality::Onsite => "Onsite",
            Modality::Hybrid => "Hybrid",
        }
    }
}

impl ExperienceLevel {
    /// The name of the variant, as `{:?}` prints it.
    pub fn debug_name(&self) -> (r: &'static str)
        ensures
            r@ == experience_name(*self),
    {
        match self {
            ExperienceLevel::Internship => "Internship",
            ExperienceLevel::EntryLevel => "EntryLevel",
            ExperienceLevel::Associate => "Associate",
            ExperienceLevel::MidLevel => "MidLevel",
            ExperienceLevel::SeniorLevel => "SeniorLevel",
            ExperienceLevel::Director => "Director",
            ExperienceLevel::Executive => "Executive",
            ExperienceLevel::NotApplicable => "NotApplicable",
        }
    }
}

/// A job listing.
#[derive(Debug, Clone)]
pub struct JobEntry {
    pub id: String,
    pub title: String,
    pub company: String,
    pub location: String,
    pub url: String,
    pub description: String,
    pub seniority_level: Option<ExperienceLevel>,
    pub industry: Option<String>,
    pub posted_at: Option<String>,
    pub salary: Option<Salary>,
    pub recruiter_name: String,
    pub modalities: Vec<Modality>,
    pub source: String,
}

/// The debug names of a list of modalities.
pub open spec fn modality_names(ms: Seq<Modality>) -> Seq<Seq<char>> {
    ms.map_values(|m: Modality| modality_name(m))
}

/// The salary line of a listing.
pub open spec fn salary_line(s: Salary) -> Seq<char> {
    match s.maximum {
        Some(max) => "Salary: "@ + s.minimum.currency@ + s.minimum.value@ + " - "@
            + max.currency@ + max.value@,
        None => "Salary: "@ + s.minimum.currency@ + s.minimum.value@,
    }
}

/// The lines of the readable form of a listing, before they are joined.
pub open spec fn readable_lines(j: JobEntry) -> Seq<Seq<char>> {
    let head = seq![
        "Job Title: "@ + j.title@,
        "Company: "@ + j.company@,
        "Location: "@ + j.location@,
        "URL: "@ + j.url@,
    ];
    let seniority = match j.seniority_level {
        Some(s) => seq!["Seniority Level: "@ + experience_name(s)],
        None => Seq::empty(),
    };
    let industry = match j.industry {
        Some(i) => seq!["Industry: "@ + i@],
        None => Seq::empty(),
    };
    let posted = match j.posted_at {
        Some(p) => seq!["Posted At: "@ + p@],
        None => Seq::empty(),
    };
    let salary = match j.salary {
        Some(s) => seq![salary_line(s)],
        None => Seq::empty(),
    };
    let modalities = if j.modalities@.len() > 0 {
        seq!["Work Modality: "@ + join(modality_names(j.modalities@), ", "@)]
    } else {
        Seq::empty()
    };
    let recruiter = if j.recruiter_name@.len() > 0 {
        seq!["Recruiter: "@ + j.recruiter_name@]
    } else {
        Seq::empty()
    };
    let tail = seq!["Source: "@ + j.source@, Seq::empty(), "Job Description:\n"@ + j.description@];
    head + seniority + industry + posted + salary + modalities + recruiter + tail
}

/// Law: the readable form of a listing starts with its title, company,
/// location and URL lines; a listing with a seniority level gives it on the
/// next line, by the level's name.
pub proof fn lemma_readable_seniority(j: JobEntry)
    ensures
        readable_lines(j)[0] == "Job Title: "@ + j.title@,
        readable_lines(j)[1] == "Company: "@ + j.company@,
        readable_lines(j)[2] == "Location: "@ + j.location@,
        readable_lines(j)[3] == "URL: "@ + j.url@,
        j.seniority_level matches Some(e) ==> readable_lines(j)[4] == "Seniority Level: "@
            + experience_name(e),
{
}

/// Builds `prefix` followed by `value`.
fn labelled(prefix: &str, value: &str) -> (r: String)
    ensures
        r@ == prefix@ + value@,
{
    let mut r = prefix.to_owned();
    r.append(value);
    r
}

/// The debug names of `ms` joined with ", ".
fn modality_list(ms: &Vec<Modality>) -> (r: String)
    ensures
        r@ == join(modality_names(ms@), ", "@),
{
    let mut names: Vec<String> = Vec::new();
    let mut i: usize = 0;
    while i < ms.len()
        invariant
            i <= ms.len(),
            views(names@) =~= modality_names(ms@.take(i as int)),
        decreases ms.len() - i,
    {
        let name = ms[i].debug_name().to_owned();
        assert(ms@.take(i + 1) =~= ms@.take(i as int).push(ms@[i as int]));
        let ghost before = views(names@);
        names.push(name);
        assert(views(names@) =~= before.push(name@));
        i = i + 1;
    }
    assert(ms@.take(i as int) =~= ms@);
    join_strings(&names, ", ")
}

/// The salary line of a listing.
fn salary_text(salary: &Salary) -> (r: String)
    ensures
        r@ == salary_line(*salary),
{
    let min = &salary.minimum;
    match &salary.maximum {
        Some(max) => {
            let pieces = [
                "Salary: ",
                min.currency.as_str(),
                min.value.as_str(),
                " - ",
                max.currency.as_str(),
                max.value.as_str(),
            ];
            let line = concat_strs(&pieces);
            proof {
                assert(str_views(pieces@) =~= seq![
                    "Salary: "@,
                    min.currency@,
                    min.value@,
                    " - "@,
                    max.currency@,
                    max.value@,
                ]);
                reveal_with_fuel(concat, 7);
            }
            line
        },
        None => {
            let pieces = ["Salary: ", min.currency.as_str(), min.value.as_str()];
            let line = concat_strs(&pieces);
            proof {
                assert(str_views(pieces@) =~= seq!["Salary: "@, min.currency@, min.value@]);
                reveal_with_fuel(concat, 4);
            }
            line
        },
    }
}

impl JobEntry {
    /// The listing as plain text for a language model: one labelled line per
    /// known field, then a blank line and the description.
    #[verifier::rlimit(60)]
    pub fn to_ai_readable_string(&self) -> (r: String)
        ensures
            r@ == join(readable_lines(*self), "\n"@),
    {
        let ghost j = *self;
        let mut parts: Vec<String> = Vec::new();
        parts.push(labelled("Job Title: ", self.title.as_str()));
        parts.push(labelled("Company: ", self.company.as_str()));
        parts.push(labelled("Location: ", self.location.as_str()));
        parts.push(labelled("URL: ", self.url.as_str()));
        let ghost v0 = views(parts@);
        assert(v0 =~= seq![
            "Job Title: "@ + j.title@,
            "Company: "@ + j.company@,
            "Location: "@ + j.location@,
            "URL: "@ + j.url@,
        ]);
        if let Some(seniority) = &self.seniority_level {
            parts.push(labelled("Seniority Level: ", seniority.debug_name()));
        }
        let ghost v1 = views(parts@);
        assert(v1 =~= v0 + match j.seniority_level {
            Some(s) => seq!["Seniority Level: "@ + experience_name(s)],
            None => Seq::empty(),
        });
        if let Some(industry) = &self.industry {
            parts.push(labelled("Industry: ", industry.as_str()));
        }
        let ghost v2 = views(parts@);
        assert(v2 =~= v1 + match j.industry {
            Some(i) => seq!["Industry: "@ + i@],
            None => Seq::empty(),
        });
        if let Some(posted_at) = &self.posted_at {
            parts.push(labelled("Posted At: ", posted_at.as_str()));
        }
        let ghost v3 = views(parts@);
        assert(v3 =~= v2 + match j.posted_at {
            Some(p) => seq!["Posted At: "@ + p@],
            None => Seq::empty(),
        });
        if let Some(salary) = &self.salary {
            parts.push(salary_text(salary));
        }
        let ghost v4 = views(parts@);
        assert(v4 =~= v3 + match j.salary {
            Some(s) => seq![salary_line(s)],
            None => Seq::empty(),
        });
        if self.modalities.len() > 0 {
            let list = modality_list(&self.modalities);
            parts.push(labelled("Work Modality: ", list.as_str()));
        }
        let ghost v5 = views(parts@);
        assert(v5 =~= v4 + if j.modalities@.len() > 0 {
            seq!["Work Modality: "@ + join(modality_names(j.modalities@), ", "@)]
        } else {
            Seq::empty()
        });
        if !self.recruiter_name.as_str().is_empty() {
            parts.push(labelled("Recruiter: ", self.recruiter_name.as_str()));
        }
        let ghost v6 = views(parts@);
        assert(v6 =~= v5 + if j.recruiter_name@.len() > 0 {
            seq!["Recruiter: "@ + j.recruiter_name@]
        } else {
            Seq::empty()
        });
        parts.push(labelled("Source: ", self.source.as_str()));
        parts.push(String::new());
        parts.push(labelled("Job Description:\n", self.description.as_str()));
        assert(views(parts@) =~= v6 + seq![
            "Source: "@ + j.source@,
            Seq::empty(),
            "Job Description:\n"@ + j.description@,
        ]);
        assert(views(parts@) =~= readable_lines(*self));
        join_strings(&parts, "\n")
    }
}

/// The kind of input an application question expects.
#[derive(Debug, Clone, Copy, PartialEq, Eq, Structural)]
pub enum QuestionKind {
    /// Free-form text input
    Text,
    /// Numeric input (years of experience, salary, etc.)
    Number,
    /// Single yes/no toggle or two-option radio
    YesNo,
    /// Radio buttons — pick exactly one from `options`
    SingleChoice,
    /// Checkboxes — pick one or more from `options`
    MultiChoice,
    /// <select> dropdown — pick exactly one from `options`
    Dropdown,
    /// File upload (resume, cover letter, portfolio)
    FileUpload,
}

/// One option of a choice question.
#[derive(Debug, Clone)]
pub struct QuestionOption {
    pub text: String,
    pub value: String,
}

/// A question of an application form.
#[derive(Debug, Clone)]
pub struct Question {
    pub id: String,
    /// Raw label text as scraped from the page
    pub label: String,
    /// The kind of input this question expects
    pub kind: QuestionKind,
    /// Whether the field must be filled before advancing
    pub required: bool,
    /// For choice-based questions, the available options
    pub options: Vec<QuestionOption>,
    /// Any placeholder / hint text on the input
    pub hint: Option<String>,
    /// The field's current pre-filled value, if any
    pub current_value: Option<String>,
}

/// An answer to an application question.
#[derive(Debug, Clone)]
pub enum Answer {
    /// For Text, Number questions
    Text(String),
    Dropdown(String),
    /// For Number questions
    Number(usize),
    /// For YesNo questions
    YesNo(bool),
    /// For SingleChoice, Dropdown — the chosen option verbatim
    SingleChoice(String),
    /// For MultiChoice — one or more chosen options
    MultiChoice(Vec<String>),
    /// For FileUpload — file name and base64 encoded content
    FileUpload { filename: String, base64: String },
    Resume,
    /// The handler intentionally has no answer; the field is left as is
    Skip,
    /// The handler has no answer but the field is required
    MissingRequiredInfo,
}

/// The name and identifier of a job directory.
#[derive(Debug, Clone)]
pub struct JobDirectoryMetadata {
    pub id: String,
    pub name: String,
}

/// The instructions for answering application questions, up to the
/// candidate's knowledge base.
pub open spec fn system_prompt_head() -> Seq<char> {
    "\n            You are a job application assistant. Your task is to answer job application questions on behalf of a candidate.\n\n            You will be given:\n            1. A JSON object representing a question from a job application form\n            2. A knowledge base containing information about the candidate\n\n            Your response must be a single valid JSON object. Nothing else. No markdown. No backticks. No code blocks. No explanation. No whitespace before or after the JSON object.\n\n            The JSON must conform to this structure:\n            - For text: {\"kind\":\"text\",\"value\":\"...\"}\n            - For number: {\"kind\":\"number\",\"value\":5}\n            - For yes/no: {\"kind\":\"yes_no\",\"value\":true}\n            - For single choice: {\"kind\":\"single_choice\",\"value\":\"...\"}\n            - For dropdown: {\"kind\":\"dropdown\",\"value\":\"...\"}\n            - For multi choice: {\"kind\":\"multi_choice\",\"value\":[\"...\",\"...\"]}\n            - For file upload: {\"kind\":\"resume\"}\n            - For skip: {\"kind\":\"skip\"}\n            - For missing info: {\"kind\": \"missing_required_info\"}\n\n            CRITICAL RULES — violating any of these is a failure:\n\n            1. OUTPUT FORMAT\n               - Output ONLY the raw JSON object\n               - Do NOT wrap in markdown code blocks\n               - Do NOT use backticks\n               - Do NOT add any text before or after the JSON\n               - The first character of your response must be {\n               - The last character of your response must be }\n\n            2. OPTIONS VALIDATION\n               - Each option in the question has a \"text\" and a \"value\" field\n               - For dropdown and single_choice, your answer value MUST be copied EXACTLY from the \"value\" field of one of the provided options\n               - NEVER invent a value that is not in the options list\n               - NEVER use the \"text\" field as your answer, always use the \"value\" field\n               - If you cannot find a matching option, use {\"kind\":\"skip\"} if field is not required and use {\"kind\": \"missing_required_info\"} if field is required\n\n            3. CURRENT VALUE\n                - If the question has a current_value that is already one of the valid options, prefer returning that value\n                - Only override the current_value if you have a strong reason from the knowledge base\n\n            4. FIELD RULES\n                - \"text\" → answer with a string from the knowledge base\n                - \"number\" → answer with an integer, never a string\n                - \"yes_no\" → answer with true or false, never a string\n                - \"single_choice\" → value must be from the options \"value\" field verbatim\n                - \"dropdown\" → value must be from the options \"value\" field verbatim\n                - \"multi_choice\" → values must all be from the options \"value\" field verbatim\n                - \"file_upload\" → always return {\"kind\":\"resume\"}\n                - If required is false and you are unsure, return {\"kind\":\"skip\"}\n                - If required is true and you cannot answer confidently, make your best effort from the knowledge base\n\n            5. NEVER fabricate information not present in the knowledge base\n            6. NEVER return a dropdown or single_choice value that is not in the provided options list\n\n            Knowledge base:\n            "@
}

/// The end of the instructions, after the knowledge base.
pub open spec fn system_prompt_tail() -> Seq<char> {
    "\n        "@
}

/// The instructions that a question handler gives the model: how to answer
/// application questions as JSON, with the candidate's knowledge base.
pub fn build_system_prompt(knowledge_bases: &str) -> (r: String)
    ensures
        r@ == system_prompt_head() + knowledge_bases@ + system_prompt_tail(),
{
    let mut r = "\n            You are a job application assistant. Your task is to answer job application questions on behalf of a candidate.\n\n            You will be given:\n            1. A JSON object representing a question from a job application form\n            2. A knowledge base containing information about the candidate\n\n            Your response must be a single valid JSON object. Nothing else. No markdown. No backticks. No code blocks. No explanation. No whitespace before or after the JSON object.\n\n            The JSON must conform to this structure:\n            - For text: {\"kind\":\"text\",\"value\":\"...\"}\n            - For number: {\"kind\":\"number\",\"value\":5}\n            - For yes/no: {\"kind\":\"yes_no\",\"value\":true}\n            - For single choice: {\"kind\":\"single_choice\",\"value\":\"...\"}\n            - For dropdown: {\"kind\":\"dropdown\",\"value\":\"...\"}\n            - For multi choice: {\"kind\":\"multi_choice\",\"value\":[\"...\",\"...\"]}\n            - For file upload: {\"kind\":\"resume\"}\n            - For skip: {\"kind\":\"skip\"}\n            - For missing info: {\"kind\": \"missing_required_info\"}\n\n            CRITICAL RULES — violating any of these is a failure:\n\n            1. OUTPUT FORMAT\n               - Output ONLY the raw JSON object\n               - Do NOT wrap in markdown code blocks\n               - Do NOT use backticks\n               - Do NOT add any text before or after the JSON\n               - The first character of your response must be {\n               - The last character of your response must be }\n\n            2. OPTIONS VALIDATION\n               - Each option in the question has a \"text\" and a \"value\" field\n               - For dropdown and single_choice, your answer value MUST be copied EXACTLY from the \"value\" field of one of the provided options\n               - NEVER invent a value that is not in the options list\n               - NEVER use the \"text\" field as your answer, always use the \"value\" field\n               - If you cannot find a matching option, use {\"kind\":\"skip\"} if field is not required and use {\"kind\": \"missing_required_info\"} if field is required\n\n            3. CURRENT VALUE\n                - If the question has a current_value that is already one of the valid options, prefer returning that value\n                - Only override the current_value if you have a strong reason from the knowledge base\n\n            4. FIELD RULES\n                - \"text\" → answer with a string from the knowledge base\n                - \"number\" → answer with an integer, never a string\n                - \"yes_no\" → answer with true or false, never a string\n                - \"single_choice\" → value must be from the options \"value\" field verbatim\n                - \"dropdown\" → value must be from the options \"value\" field verbatim\n                - \"multi_choice\" → values must all be from the options \"value\" field verbatim\n                - \"file_upload\" → always return {\"kind\":\"resume\"}\n                - If required is false and you are unsure, return {\"kind\":\"skip\"}\n                - If required is true and you cannot answer confidently, make your best effort from the knowledge base\n\n            5. NEVER fabricate information not present in the knowledge base\n            6. NEVER return a dropdown or single_choice value that is not in the provided options list\n\n            Knowledge base:\n            ".to_owned();
    r.append(knowledge_bases);
    r.append("\n        ");
    r
}

/// The list of directories as the API reports it.
#[derive(Debug, Clone)]
pub struct JobDirectoryListResponse {
    pub items: Vec<JobDirectoryMetadata>,
}

impl JobDirectoryListResponse {
    /// The response listing `items`.
    pub fn new(items: Vec<JobDirectoryMetadata>) -> (r: JobDirectoryListResponse)
        ensures
            r.items == items,
    {
        JobDirectoryListResponse { items }
    }
}

/// Why a directory request failed.
#[derive(Debug, Clone, Copy, PartialEq, Eq, Structural)]
pub enum DirectoryError {
    /// No directory has the requested identifier.
    NotFound,
}

/// The job directories that the application can search, each by its
/// identifier and name.
pub struct JobDirectoryService {
    pub directories: Vec<JobDirectoryMetadata>,
}

impl JobDirectoryService {
    /// The service over `directories`.
    pub fn new(directories: Vec<JobDirectoryMetadata>) -> (r: JobDirectoryService)
        ensures
            r.directories == directories,
    {
        JobDirectoryService { directories }
    }

    /// The identifier and name of every directory, in order.
    pub fn get_directories(&self) -> (r: Vec<JobDirectoryMetadata>)
        ensures
            r@.len() == self.directories@.len(),
            forall|i: int|
                0 <= i < r@.len() ==> #[trigger] r@[i].id@ == self.directories@[i].id@
                    && r@[i].name@ == self.directories@[i].name@,
    {
        let mut r: Vec<JobDirectoryMetadata> = Vec::new();
        let mut i: usize = 0;
        while i < self.directories.len()
            invariant
                i <= self.directories@.len(),
                r@.len() == i,
                forall|k: int|
                    0 <= k < i ==> #[trigger] r@[k].id@ == self.directories@[k].id@
                        && r@[k].name@ == self.directories@[k].name@,
            decreases self.directories.len() - i,
        {
            let d = &self.directories[i];
            r.push(JobDirectoryMetadata { id: d.id.clone(), name: d.name.clone() });
            i = i + 1;
        }
        r
    }

    /// The position of the first directory whose identifier is `id`, or
    /// `NotFound` when there is none.
    pub fn directory_index(&self, id: &str) -> (r: Result<usize, DirectoryError>)
        ensures
            r matches Ok(i) ==> i < self.directories@.len() && self.directories@[i as int].id@
                == id@ && forall|j: int| 0 <= j < i ==> self.directories@[j].id@ != id@,
            r is Err ==> r == Err::<usize, DirectoryError>(DirectoryError::NotFound) && forall|j: int|
                0 <= j < self.directories@.len() ==> self.directories@[j].id@ != id@,
    {
        let mut i: usize = 0;
        while i < self.directories.len()
            invariant
                i <= self.directories@.len(),
                forall|j: int| 0 <= j < i ==> self.directories@[j].id@ != id@,
            decreases self.directories.len() - i,
        {
            if crate::text::str_eq(self.directories[i].id.as_str(), id) {
                return Ok(i);
            }
            i = i + 1;
        }
        Err(DirectoryError::NotFound)
    }
}

} // verus!

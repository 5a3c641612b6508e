//! Resume content: the candidate's profile, the tailored content, and the
//! format-agnostic resume built from them.

use vstd::prelude::*;
use crate::text::{concat, concat_strs, join, join_strings, str_views, views};

verus! {

/// The view of an optional string.
pub open spec fn opt_view(o: Option<String>) -> Option<Seq<char>> {
    match o {
        Some(s) => Some(s@),
        None => None,
    }
}

/// A copy of an optional string.
pub fn copy_opt(o: &Option<String>) -> (r: Option<String>)
    ensures
        opt_view(r) == opt_view(*o),
{
    match o {
        Some(s) => Some(s.clone()),
        None => None,
    }
}

/// A copy of a list of strings.
pub fn copy_strings(v: &Vec<String>) -> (r: Vec<String>)
    ensures
        views(r@) == views(v@),
{
    let mut r: Vec<String> = Vec::new();
    let mut i: usize = 0;
    while i < v.len()
        invariant
            i <= v.len(),
            views(r@) =~= views(v@).take(i as int),
        decreases v.len() - i,
    {
        let s = v[i].clone();
        let ghost before = views(r@);
        r.push(s);
        assert(views(r@) =~= before.push(s@));
        i = i + 1;
    }
    r
}

/// One position in the candidate's work history.
#[derive(Debug, Clone)]
pub struct WorkExperience {
    pub title: String,
    pub company: String,
    pub dates: Option<String>,
    pub highlights: Vec<String>,
}

/// The content of a work experience.
pub struct ExperienceModel {
    pub title: Seq<char>,
    pub company: Seq<char>,
    pub dates: Option<Seq<char>>,
    pub highlights: Seq<Seq<char>>,
}

impl View for WorkExperience {
    type V = ExperienceModel;

    open spec fn view(&self) -> ExperienceModel {
        ExperienceModel {
            title: self.title@,
            company: self.company@,
            dates: opt_view(self.dates),
            highlights: views(self.highlights@),
        }
    }
}

/// One entry of the candidate's education.
#[derive(Debug, Clone)]
pub struct Education {
    pub institution: String,
    pub degree: Option<String>,
    pub dates: Option<String>,
}

/// The content of an education entry.
pub struct EducationModel {
    pub institution: Seq<char>,
    pub degree: Option<Seq<char>>,
    pub dates: Option<Seq<char>>,
}

impl View for Education {
    type V = EducationModel;

    open spec fn view(&self) -> EducationModel {
        EducationModel {
            institution: self.institution@,
            degree: opt_view(self.degree),
            dates: opt_view(self.dates),
        }
    }
}

/// A project of the candidate.
#[derive(Debug, Clone)]
pub struct Project {
    pub name: String,
    pub description: String,
    pub highlights: Vec<String>,
}

/// The content of a project.
pub struct ProjectModel {
    pub name: Seq<char>,
    pub description: Seq<char>,
    pub highlights: Seq<Seq<char>>,
}

impl View for Project {
    type V = ProjectModel;

    open spec fn view(&self) -> ProjectModel {
        ProjectModel {
            name: self.name@,
            description: self.description@,
            highlights: views(self.highlights@),
        }
    }
}

/// How to reach the candidate.
#[derive(Debug, Clone)]
pub struct ContactInfo {
    pub email: Option<String>,
    pub phone: Option<String>,
    pub linkedin_url: Option<String>,
    pub github_url: Option<String>,
    pub website_url: Option<String>,
    /// Anything not captured by the fields above — free-form.
    pub other: Option<String>,
}

/// The content of contact information.
pub struct ContactModel {
    pub email: Option<Seq<char>>,
    pub phone: Option<Seq<char>>,
    pub linkedin_url: Option<Seq<char>>,
    pub github_url: Option<Seq<char>>,
    pub website_url: Option<Seq<char>>,
    pub other: Option<Seq<char>>,
}

impl View for ContactInfo {
    type V = ContactModel;

    open spec fn view(&self) -> ContactModel {
        ContactModel {
            email: opt_view(self.email),
            phone: opt_view(self.phone),
            linkedin_url: opt_view(self.linkedin_url),
            github_url: opt_view(self.github_url),
            website_url: opt_view(self.website_url),
            other: opt_view(self.other),
        }
    }
}

/// `[x]` when `o` holds `x`, else nothing.
pub open spec fn present(o: Option<Seq<char>>) -> Seq<Seq<char>> {
    match o {
        Some(x) => seq![x],
        None => Seq::empty(),
    }
}

/// The contact fields that are present, in order.
pub open spec fn contact_fields(c: ContactModel) -> Seq<Seq<char>> {
    present(c.email) + present(c.phone) + present(c.linkedin_url) + present(c.github_url)
        + present(c.website_url) + present(c.other)
}

/// 1 when `o` holds a value, else 0.
pub open spec fn count_present(o: Option<Seq<char>>) -> int {
    if o is Some { 1 } else { 0 }
}

/// Law: the contact line lists every present field, and only those, in the
/// order e-mail, phone, LinkedIn, GitHub, website, other: each present field
/// stands after the present fields before it.
pub proof fn lemma_contact_fields(c: ContactModel)
    ensures
        contact_fields(c).len() == count_present(c.email) + count_present(c.phone)
            + count_present(c.linkedin_url) + count_present(c.github_url) + count_present(
            c.website_url,
        ) + count_present(c.other),
        c.email matches Some(x) ==> contact_fields(c)[0] == x,
        c.phone matches Some(x) ==> contact_fields(c)[count_present(c.email)] == x,
        c.linkedin_url matches Some(x) ==> contact_fields(c)[count_present(c.email)
            + count_present(c.phone)] == x,
        c.github_url matches Some(x) ==> contact_fields(c)[count_present(c.email)
            + count_present(c.phone) + count_present(c.linkedin_url)] == x,
        c.website_url matches Some(x) ==> contact_fields(c)[count_present(c.email)
            + count_present(c.phone) + count_present(c.linkedin_url) + count_present(
            c.github_url,
        )] == x,
        c.other matches Some(x) ==> contact_fields(c)[count_present(c.email) + count_present(
            c.phone,
        ) + count_present(c.linkedin_url) + count_present(c.github_url) + count_present(
            c.website_url,
        )] == x,
{
}

/// Law: the contact line of a single present field is that field, and the
/// fields of a longer line are parted by a middle dot with two spaces on
/// each side.
pub proof fn lemma_contact_line(c: ContactModel)
    ensures
        contact_fields(c).len() == 1 ==> join(contact_fields(c), contact_sep())
            == contact_fields(c)[0],
        contact_sep() == "  ·  "@,
{
}

/// No contact field is present.
pub open spec fn contact_is_empty(c: ContactModel) -> bool {
    c.email is None && c.phone is None && c.linkedin_url is None && c.github_url is None
        && c.website_url is None && c.other is None
}

/// `[f(x)]` when `o` holds `x`, else nothing.
pub open spec fn present_as(o: Option<Seq<char>>, before: Seq<char>, after: Seq<char>) -> Seq<
    Seq<char>,
> {
    match o {
        Some(x) => seq![before + x + after],
        None => Seq::empty(),
    }
}

/// The Markdown pieces of contact information: the e-mail as a mail link,
/// the phone as is, the profile URLs as labelled links, the rest as is.
pub open spec fn contact_md_fields(c: ContactModel) -> Seq<Seq<char>> {
    let email = match c.email {
        Some(v) => seq!["["@ + v + "](mailto:"@ + v + ")"@],
        None => Seq::empty(),
    };
    email + present(c.phone) + present_as(c.linkedin_url, "[LinkedIn]("@, ")"@) + present_as(
        c.github_url,
        "[GitHub]("@,
        ")"@,
    ) + present_as(c.website_url, "[Website]("@, ")"@) + present(c.other)
}

/// Law: the Markdown contact line has one piece per present field, in the
/// order e-mail, phone, LinkedIn, GitHub, website, other: the e-mail as a
/// mail link to itself, the phone and the other text as they are, and each
/// profile URL as a link labelled with its site.
pub proof fn lemma_contact_md_fields(c: ContactModel)
    ensures
        contact_md_fields(c).len() == count_present(c.email) + count_present(c.phone)
            + count_present(c.linkedin_url) + count_present(c.github_url) + count_present(
            c.website_url,
        ) + count_present(c.other),
        c.email matches Some(x) ==> contact_md_fields(c)[0] == "["@ + x + "](mailto:"@ + x
            + ")"@,
        c.phone matches Some(x) ==> contact_md_fields(c)[count_present(c.email)] == x,
        c.linkedin_url matches Some(x) ==> contact_md_fields(c)[count_present(c.email)
            + count_present(c.phone)] == "[LinkedIn]("@ + x + ")"@,
        c.github_url matches Some(x) ==> contact_md_fields(c)[count_present(c.email)
            + count_present(c.phone) + count_present(c.linkedin_url)] == "[GitHub]("@ + x
            + ")"@,
        c.website_url matches Some(x) ==> contact_md_fields(c)[count_present(c.email)
            + count_present(c.phone) + count_present(c.linkedin_url) + count_present(
            c.github_url,
        )] == "[Website]("@ + x + ")"@,
        c.other matches Some(x) ==> contact_md_fields(c)[count_present(c.email) + count_present(
            c.phone,
        ) + count_present(c.linkedin_url) + count_present(c.github_url) + count_present(
            c.website_url,
        )] == x,
{
}

/// The separator between contact fields.
pub open spec fn contact_sep() -> Seq<char> {
    "  ·  "@
}

impl ContactInfo {
    /// Returns true if every field is None.
    pub fn is_empty(&self) -> (r: bool)
        ensures
            r == contact_is_empty(self@),
    {
        self.email.is_none() && self.phone.is_none() && self.linkedin_url.is_none()
            && self.github_url.is_none() && self.website_url.is_none() && self.other.is_none()
    }

    /// Formats all present fields as a single "  ·  "-separated display string.
    pub fn display(&self) -> (r: String)
        ensures
            r@ == join(contact_fields(self@), contact_sep()),
    {
        let mut parts: Vec<String> = Vec::new();
        push_present(&mut parts, &self.email);
        push_present(&mut parts, &self.phone);
        push_present(&mut parts, &self.linkedin_url);
        push_present(&mut parts, &self.github_url);
        push_present(&mut parts, &self.website_url);
        push_present(&mut parts, &self.other);
        assert(views(parts@) =~= contact_fields(self@));
        join_strings(&parts, "  ·  ")
    }
}

/// Appends a copy of the string that `o` holds, if any.
fn push_present(parts: &mut Vec<String>, o: &Option<String>)
    ensures
        views(final(parts)@) == views(old(parts)@) + present(opt_view(*o)),
{
    let ghost before = views(parts@);
    if let Some(v) = o {
        parts.push(v.clone());
        assert(views(parts@) =~= before + present(opt_view(*o)));
    } else {
        assert(views(parts@) =~= before + present(opt_view(*o)));
    }
}

/// Appends `before` + the string that `o` holds + `after`, if any.
fn push_present_as(parts: &mut Vec<String>, o: &Option<String>, before: &str, after: &str)
    ensures
        views(final(parts)@) == views(old(parts)@) + present_as(opt_view(*o), before@, after@),
{
    let ghost old_views = views(parts@);
    if let Some(v) = o {
        let mut s = before.to_owned();
        s.append(v.as_str());
        s.append(after);
        parts.push(s);
        assert(views(parts@) =~= old_views + present_as(opt_view(*o), before@, after@));
    } else {
        assert(views(parts@) =~= old_views + present_as(opt_view(*o), before@, after@));
    }
}

/// Renders contact info as a Markdown line with labelled links where applicable.
pub fn fmt_contact_md(c: &ContactInfo) -> (r: String)
    ensures
        r@ == join(contact_md_fields(c@), contact_sep()),
{
    let mut parts: Vec<String> = Vec::new();
    if let Some(v) = &c.email {
        let pieces = ["[", v.as_str(), "](mailto:", v.as_str(), ")"];
        let s = concat_strs(&pieces);
        proof {
            assert(str_views(pieces@) =~= seq!["["@, v@, "](mailto:"@, v@, ")"@]);
            reveal_with_fuel(concat, 6);
        }
        parts.push(s);
    }
    assert(views(parts@) =~= match c@.email {
        Some(v) => seq!["["@ + v + "](mailto:"@ + v + ")"@],
        None => Seq::<Seq<char>>::empty(),
    });
    push_present(&mut parts, &c.phone);
    push_present_as(&mut parts, &c.linkedin_url, "[LinkedIn](", ")");
    push_present_as(&mut parts, &c.github_url, "[GitHub](", ")");
    push_present_as(&mut parts, &c.website_url, "[Website](", ")");
    push_present(&mut parts, &c.other);
    assert(views(parts@) =~= contact_md_fields(c@));
    join_strings(&parts, "  ·  ")
}

/// The heading line of a work experience.
pub open spec fn experience_heading(e: ExperienceModel) -> Seq<char> {
    match e.dates {
        Some(d) => e.title + " — "@ + e.company + " | "@ + d,
        None => e.title + " — "@ + e.company,
    }
}

/// The line of an education entry.
pub open spec fn education_line(e: EducationModel) -> Seq<char> {
    match (e.degree, e.dates) {
        (Some(d), Some(dt)) => e.institution + " — "@ + d + " | "@ + dt,
        (Some(d), None) => e.institution + " — "@ + d,
        (None, Some(dt)) => e.institution + " | "@ + dt,
        (None, None) => e.institution,
    }
}

/// The heading line of a work experience: title — company, then the dates.
pub fn fmt_experience_heading(exp: &WorkExperience) -> (r: String)
    ensures
        r@ == experience_heading(exp@),
{
    let mut r = exp.title.clone();
    r.append(" — ");
    r.append(exp.company.as_str());
    if let Some(d) = &exp.dates {
        r.append(" | ");
        r.append(d.as_str());
    }
    r
}

/// The line of an education entry: institution — degree | dates, with
/// the parts that are known.
pub fn fmt_education_line(edu: &Education) -> (r: String)
    ensures
        r@ == education_line(edu@),
{
    let mut r = edu.institution.clone();
    if let Some(d) = &edu.degree {
        r.append(" — ");
        r.append(d.as_str());
    }
    if let Some(dt) = &edu.dates {
        r.append(" | ");
        r.append(dt.as_str());
    }
    r
}

/// The contents of a list of work experiences.
pub open spec fn experience_models(v: Seq<WorkExperience>) -> Seq<ExperienceModel> {
    v.map_values(|e: WorkExperience| e@)
}

/// The contents of a list of education entries.
pub open spec fn education_models(v: Seq<Education>) -> Seq<EducationModel> {
    v.map_values(|e: Education| e@)
}

/// The contents of a list of projects.
pub open spec fn project_models(v: Seq<Project>) -> Seq<ProjectModel> {
    v.map_values(|p: Project| p@)
}

/// The content of optional contact information.
pub open spec fn contact_model(c: Option<ContactInfo>) -> Option<ContactModel> {
    match c {
        Some(c) => Some(c@),
        None => None,
    }
}

/// A copy of a work experience.
pub fn copy_experience(e: &WorkExperience) -> (r: WorkExperience)
    ensures
        r@ == e@,
{
    WorkExperience {
        title: e.title.clone(),
        company: e.company.clone(),
        dates: copy_opt(&e.dates),
        highlights: copy_strings(&e.highlights),
    }
}

/// A copy of an education entry.
pub fn copy_education(e: &Education) -> (r: Education)
    ensures
        r@ == e@,
{
    Education {
        institution: e.institution.clone(),
        degree: copy_opt(&e.degree),
        dates: copy_opt(&e.dates),
    }
}

/// A copy of a project.
pub fn copy_project(p: &Project) -> (r: Project)
    ensures
        r@ == p@,
{
    Project {
        name: p.name.clone(),
        description: p.description.clone(),
        highlights: copy_strings(&p.highlights),
    }
}

/// A copy of contact information.
pub fn copy_contact(c: &ContactInfo) -> (r: ContactInfo)
    ensures
        r@ == c@,
{
    ContactInfo {
        email: copy_opt(&c.email),
        phone: copy_opt(&c.phone),
        linkedin_url: copy_opt(&c.linkedin_url),
        github_url: copy_opt(&c.github_url),
        website_url: copy_opt(&c.website_url),
        other: copy_opt(&c.other),
    }
}

/// A copy of optional contact information.
pub fn copy_contact_opt(c: &Option<ContactInfo>) -> (r: Option<ContactInfo>)
    ensures
        contact_model(r) == contact_model(*c),
{
    match c {
        Some(c) => Some(copy_contact(c)),
        None => None,
    }
}

/// A copy of a list of work experiences.
pub fn copy_experiences(v: &Vec<WorkExperience>) -> (r: Vec<WorkExperience>)
    ensures
        experience_models(r@) == experience_models(v@),
{
    let mut r: Vec<WorkExperience> = Vec::new();
    let mut i: usize = 0;
    while i < v.len()
        invariant
            i <= v.len(),
            experience_models(r@) =~= experience_models(v@).take(i as int),
        decreases v.len() - i,
    {
        let e = copy_experience(&v[i]);
        let ghost before = experience_models(r@);
        r.push(e);
        assert(experience_models(r@) =~= before.push(e@));
        i = i + 1;
    }
    r
}

/// A copy of a list of education entries.
pub fn copy_educations(v: &Vec<Education>) -> (r: Vec<Education>)
    ensures
        education_models(r@) == education_models(v@),
{
    let mut r: Vec<Education> = Vec::new();
    let mut i: usize = 0;
    while i < v.len()
        invariant
            i <= v.len(),
            education_models(r@) =~= education_models(v@).take(i as int),
        decreases v.len() - i,
    {
        let e = copy_education(&v[i]);
        let ghost before = education_models(r@);
        r.push(e);
        assert(education_models(r@) =~= before.push(e@));
        i = i + 1;
    }
    r
}

/// A copy of a list of projects.
pub fn copy_projects(v: &Vec<Project>) -> (r: Vec<Project>)
    ensures
        project_models(r@) == project_models(v@),
{
    let mut r: Vec<Project> = Vec::new();
    let mut i: usize = 0;
    while i < v.len()
        invariant
            i <= v.len(),
            project_models(r@) =~= project_models(v@).take(i as int),
        decreases v.len() - i,
    {
        let p = copy_project(&v[i]);
        let ghost before = project_models(r@);
        r.push(p);
        assert(project_models(r@) =~= before.push(p@));
        i = i + 1;
    }
    r
}

/// The candidate's career data as extracted from their knowledge base.
#[derive(Debug, Clone)]
pub struct CandidateProfile {
    pub name: Option<String>,
    pub contact: Option<ContactInfo>,
    pub summary: Option<String>,
    pub experiences: Vec<WorkExperience>,
    pub education: Vec<Education>,
    pub skills: Vec<String>,
    pub projects: Vec<Project>,
    pub certifications: Vec<String>,
}

/// Extracts the candidate's profile from their knowledge base, with whatever
/// service the implementor talks to. Its answer is not checked here.
pub trait ProfileExtractor {
    fn extract(&self, knowledge_base: &str) -> Result<CandidateProfile, String>;
}

/// The hiring requirements extracted from a job posting.
#[derive(Debug, Clone)]
pub struct JobRequirements {
    pub must_have: Vec<String>,
    pub nice_to_have: Vec<String>,
    pub responsibilities: Vec<String>,
    /// Keywords to surface for ATS matching.
    pub ats_keywords: Vec<String>,
}

/// The candidate's profile rewritten for one job.
#[derive(Debug, Clone)]
pub struct TailoredContent {
    /// Rewritten summary aligned to the job's language and priorities.
    pub profile_summary: String,
    /// Experiences reordered by relevance; bullet points rewritten.
    pub experiences: Vec<WorkExperience>,
    /// Skills ranked by relevance to the role.
    pub skills: Vec<String>,
    pub education: Vec<Education>,
    pub projects: Vec<Project>,
    pub certifications: Vec<String>,
    /// Job requirements with no matching evidence in the candidate's profile.
    pub coverage_gaps: Vec<String>,
}

/// The candidate's name and contact details.
#[derive(Debug, Clone)]
pub struct HeaderSection {
    pub name: String,
    pub contact: Option<ContactInfo>,
}

/// The profile summary.
#[derive(Debug, Clone)]
pub struct SummarySection {
    pub content: String,
}

/// The work history.
#[derive(Debug, Clone)]
pub struct ExperienceSection {
    pub entries: Vec<WorkExperience>,
}

/// The education history.
#[derive(Debug, Clone)]
pub struct EducationSection {
    pub entries: Vec<Education>,
}

/// The skills, most relevant first.
#[derive(Debug, Clone)]
pub struct SkillsSection {
    pub skills: Vec<String>,
}

/// The projects.
#[derive(Debug, Clone)]
pub struct ProjectsSection {
    pub entries: Vec<Project>,
}

/// The certifications.
#[derive(Debug, Clone)]
pub struct CertificationsSection {
    pub items: Vec<String>,
}

/// One section of a resume.
#[derive(Debug, Clone)]
pub enum Section {
    Header(HeaderSection),
    Summary(SummarySection),
    Experience(ExperienceSection),
    Education(EducationSection),
    Skills(SkillsSection),
    Projects(ProjectsSection),
    Certifications(CertificationsSection),
}

/// The content of a resume section.
pub enum SectionModel {
    Header { name: Seq<char>, contact: Option<ContactModel> },
    Summary(Seq<char>),
    Experience(Seq<ExperienceModel>),
    Education(Seq<EducationModel>),
    Skills(Seq<Seq<char>>),
    Projects(Seq<ProjectModel>),
    Certifications(Seq<Seq<char>>),
}

impl View for Section {
    type V = SectionModel;

    open spec fn view(&self) -> SectionModel {
        match self {
            Section::Header(h) => SectionModel::Header {
                name: h.name@,
                contact: contact_model(h.contact),
            },
            Section::Summary(s) => SectionModel::Summary(s.content@),
            Section::Experience(e) => SectionModel::Experience(experience_models(e.entries@)),
            Section::Education(e) => SectionModel::Education(education_models(e.entries@)),
            Section::Skills(s) => SectionModel::Skills(views(s.skills@)),
            Section::Projects(p) => SectionModel::Projects(project_models(p.entries@)),
            Section::Certifications(c) => SectionModel::Certifications(views(c.items@)),
        }
    }
}

/// The contents of a list of sections.
pub open spec fn section_models(v: Seq<Section>) -> Seq<SectionModel> {
    v.map_values(|s: Section| s@)
}

/// Format-agnostic resume — render it with any `ResumeTemplate`.
#[derive(Debug, Clone)]
pub struct Resume {
    pub candidate_name: String,
    pub sections: Vec<Section>,
    pub generated_at: String,
}

} // verus!

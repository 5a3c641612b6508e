//! Assembly of a resume from a profile and its tailored content.

use vstd::prelude::*;
use crate::resume::{
    contact_model, copy_contact_opt, copy_educations, copy_experiences, copy_projects,
    copy_strings, education_models, experience_models, project_models, section_models,
    CandidateProfile, CertificationsSection, EducationSection, ExperienceSection,
    HeaderSection, ProjectsSection, Resume, Section, SectionModel, SkillsSection,
    SummarySection, TailoredContent,
};
use crate::text::views;

verus! {

/// Builds a resume out of a candidate's profile and the content tailored
/// for one job.
pub trait ResumeComposer {
    fn compose(&self, profile: &CandidateProfile, tailored: &TailoredContent) -> Resume;
}

/// Calls `chrono::Utc::now()` and formats it with `to_rfc3339`: the current
/// time as RFC 3339 text. The time comes from the system clock, so nothing is
/// stated of the text.
#[verifier::external_body]
fn now_rfc3339() -> String {
    chrono::Utc::now().to_rfc3339()
}

/// The composer that lays the sections out in a fixed order.
pub struct DefaultResumeComposer;

/// The header section, when the candidate has a name.
pub open spec fn header_part(p: CandidateProfile) -> Seq<SectionModel> {
    match p.name {
        Some(n) => seq![SectionModel::Header { name: n@, contact: contact_model(p.contact) }],
        None => Seq::empty(),
    }
}

/// The summary section, when the summary is not empty.
pub open spec fn summary_part(t: TailoredContent) -> Seq<SectionModel> {
    if t.profile_summary@.len() > 0 {
        seq![SectionModel::Summary(t.profile_summary@)]
    } else {
        Seq::empty()
    }
}

/// The experience section, when there are experiences.
pub open spec fn experience_part(t: TailoredContent) -> Seq<SectionModel> {
    if t.experiences@.len() > 0 {
        seq![SectionModel::Experience(experience_models(t.experiences@))]
    } else {
        Seq::empty()
    }
}

/// The education section, when there are education entries.
pub open spec fn education_part(t: TailoredContent) -> Seq<SectionModel> {
    if t.education@.len() > 0 {
        seq![SectionModel::Education(education_models(t.education@))]
    } else {
        Seq::empty()
    }
}

/// The skills section, when there are skills.
pub open spec fn skills_part(t: TailoredContent) -> Seq<SectionModel> {
    if t.skills@.len() > 0 {
        seq![SectionModel::Skills(views(t.skills@))]
    } else {
        Seq::empty()
    }
}

/// The projects section, when there are projects.
pub open spec fn projects_part(t: TailoredContent) -> Seq<SectionModel> {
    if t.projects@.len() > 0 {
        seq![SectionModel::Projects(project_models(t.projects@))]
    } else {
        Seq::empty()
    }
}

/// The certifications section, when there are certifications.
pub open spec fn certifications_part(t: TailoredContent) -> Seq<SectionModel> {
    if t.certifications@.len() > 0 {
        seq![SectionModel::Certifications(views(t.certifications@))]
    } else {
        Seq::empty()
    }
}

/// The sections that `DefaultResumeComposer` builds: a header when the
/// candidate has a name, then summary, experience, education, skills,
/// projects and certifications, each only when it has content.
pub open spec fn composed_sections(p: CandidateProfile, t: TailoredContent) -> Seq<SectionModel> {
    header_part(p) + summary_part(t) + experience_part(t) + education_part(t) + skills_part(t)
        + projects_part(t) + certifications_part(t)
}

/// The name that heads a resume: the candidate's name, or empty.
pub open spec fn candidate_name_of(p: CandidateProfile) -> Seq<char> {
    match p.name {
        Some(n) => n@,
        None => Seq::empty(),
    }
}

impl DefaultResumeComposer {
    /// The resume for a profile and its tailored content, stamped with
    /// `generated_at`: a header when the candidate has a name, then the
    /// summary, experience, education, skills, projects and certifications
    /// that are not empty, in that order.
    #[verifier::rlimit(60)]
    pub fn compose_at(
        &self,
        profile: &CandidateProfile,
        tailored: &TailoredContent,
        generated_at: String,
    ) -> (r: Resume)
        ensures
            section_models(r.sections@) == composed_sections(*profile, *tailored),
            r.candidate_name@ == candidate_name_of(*profile),
            r.generated_at == generated_at,
    {
        let mut sections: Vec<Section> = Vec::new();
        if let Some(name) = &profile.name {
            sections.push(
                Section::Header(
                    HeaderSection { name: name.clone(), contact: copy_contact_opt(&profile.contact) },
                ),
            );
        }
        let ghost s0 = section_models(sections@);
        assert(s0 =~= header_part(*profile));
        if !tailored.profile_summary.as_str().is_empty() {
            sections.push(
                Section::Summary(SummarySection { content: tailored.profile_summary.clone() }),
            );
        }
        let ghost s1 = section_models(sections@);
        assert(s1 =~= s0 + summary_part(*tailored));
        if tailored.experiences.len() > 0 {
            sections.push(
                Section::Experience(
                    ExperienceSection { entries: copy_experiences(&tailored.experiences) },
                ),
            );
        }
        let ghost s2 = section_models(sections@);
        assert(s2 =~= s1 + experience_part(*tailored));
        if tailored.education.len() > 0 {
            sections.push(
                Section::Education(EducationSection { entries: copy_educations(&tailored.education) }),
            );
        }
        let ghost s3 = section_models(sections@);
        assert(s3 =~= s2 + education_part(*tailored));
        if tailored.skills.len() > 0 {
            sections.push(Section::Skills(SkillsSection { skills: copy_strings(&tailored.skills) }));
        }
        let ghost s4 = section_models(sections@);
        assert(s4 =~= s3 + skills_part(*tailored));
        if tailored.projects.len() > 0 {
            sections.push(
                Section::Projects(ProjectsSection { entries: copy_projects(&tailored.projects) }),
            );
        }
        let ghost s5 = section_models(sections@);
        assert(s5 =~= s4 + projects_part(*tailored));
        if tailored.certifications.len() > 0 {
            sections.push(
                Section::Certifications(
                    CertificationsSection { items: copy_strings(&tailored.certifications) },
                ),
            );
        }
        assert(section_models(sections@) =~= s5 + certifications_part(*tailored));
        let candidate_name = match &profile.name {
            Some(n) => n.clone(),
            None => String::new(),
        };
        Resume { candidate_name, sections, generated_at }
    }
}

impl ResumeComposer for DefaultResumeComposer {
    /// The resume for a profile and its tailored content, stamped with the
    /// current time.
    fn compose(&self, profile: &CandidateProfile, tailored: &TailoredContent) -> (r: Resume)
        ensures
            section_models(r.sections@) == composed_sections(*profile, *tailored),
            r.candidate_name@ == candidate_name_of(*profile),
    {
        self.compose_at(profile, tailored, now_rfc3339())
    }
}

/// Law: composing never produces an empty section — every section other
/// than the header holds at least one entry (or a non-empty summary).
pub proof fn lemma_composed_sections_non_empty(p: CandidateProfile, t: TailoredContent)
    ensures
        forall|i: int|
            0 <= i < composed_sections(p, t).len() ==> match #[trigger] composed_sections(p, t)[i] {
                SectionModel::Header { .. } => true,
                SectionModel::Summary(s) => s.len() > 0,
                SectionModel::Experience(es) => es.len() > 0,
                SectionModel::Education(es) => es.len() > 0,
                SectionModel::Skills(ss) => ss.len() > 0,
                SectionModel::Projects(ps) => ps.len() > 0,
                SectionModel::Certifications(cs) => cs.len() > 0,
            },
{
}

/// Law: a resume starts with a header exactly when the candidate has a name.
pub proof fn lemma_composed_header(p: CandidateProfile, t: TailoredContent)
    ensures
        (composed_sections(p, t).len() > 0 && composed_sections(p, t)[0] is Header) <==> p.name
            is Some,
{
}

} // verus!

use the_handler::composer::DefaultResumeComposer;
use the_handler::directory::{JobEntry, Modality};
use the_handler::flows::CvFlow;
use the_handler::resume::{CandidateProfile, JobRequirements, Section, TailoredContent};
use the_handler::template::{MarkdownTemplate, ResumeTemplate};

fn job() -> JobEntry {
    JobEntry {
        id: "9".to_string(),
        title: "Backend Engineer".to_string(),
        company: "Globex".to_string(),
        location: "Remote".to_string(),
        url: "https://example.com/9".to_string(),
        description: "APIs.".to_string(),
        seniority_level: None,
        industry: None,
        posted_at: None,
        salary: None,
        recruiter_name: String::new(),
        modalities: vec![Modality::Remote],
        source: "linkedin".to_string(),
    }
}

#[test]
fn cv_flow_runs_every_stage() {
    let profile = CandidateProfile {
        name: Some("Ada".to_string()),
        contact: None,
        summary: None,
        experiences: vec![],
        education: vec![],
        skills: vec![],
        projects: vec![],
        certifications: vec![],
    };
    let requirements = JobRequirements {
        must_have: vec!["Rust".to_string()],
        nice_to_have: vec![],
        responsibilities: vec!["Build APIs".to_string()],
        ats_keywords: vec!["rust".to_string()],
    };
    let tailored = TailoredContent {
        profile_summary: "Builds APIs in Rust.".to_string(),
        experiences: vec![],
        skills: vec!["Rust".to_string()],
        education: vec![],
        projects: vec![],
        certifications: vec![],
        coverage_gaps: vec![],
    };
    let flow = CvFlow::new(job(), "KB").prepare(profile, requirements);
    assert_eq!(flow.profile().name.as_deref(), Some("Ada"));
    assert_eq!(flow.requirements().must_have, vec!["Rust"]);
    let flow = flow.tailor(tailored);
    assert_eq!(flow.tailored().skills, vec!["Rust"]);
    let resume = flow.compose(&DefaultResumeComposer).into_resume();
    assert_eq!(resume.candidate_name, "Ada");
    assert_eq!(resume.sections.len(), 3);
    assert!(matches!(resume.sections[0], Section::Header(_)));
    assert_eq!(
        MarkdownTemplate.render(&resume),
        "# Ada\n\n## Summary\n\nBuilds APIs in Rust.\n\n## Skills\n\nRust"
    );
}

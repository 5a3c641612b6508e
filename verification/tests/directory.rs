use the_handler::directory::{
    build_system_prompt, DirectoryError, ExperienceLevel, JobDirectoryMetadata, JobDirectoryService, JobEntry, Modality, Money, Salary,
};

fn test_job() -> JobEntry {
    JobEntry {
        id: "4389085055".to_string(),
        title: "Enterprise Architect - Agentic AI".to_string(),
        company: "Methodius IT Recruitment".to_string(),
        location: "Dublin, County Dublin, Ireland".to_string(),
        url: "https://www.linkedin.com/jobs/view/4389085055/".to_string(),
        description: "Define the architecture.".to_string(),
        seniority_level: Some(ExperienceLevel::SeniorLevel),
        industry: Some("Staffing and Recruiting".to_string()),
        posted_at: Some("2 weeks ago".to_string()),
        salary: Some(Salary::new(
            Money::new("500".to_string(), "EUR".to_string()),
            Some(Money::new("700".to_string(), "EUR".to_string())),
        )),
        recruiter_name: "Cian Crosse".to_string(),
        modalities: vec![Modality::Remote],
        source: "linkedin".to_string(),
    }
}

#[test]
fn readable_string_of_full_listing() {
    let expected = "Job Title: Enterprise Architect - Agentic AI\n\
Company: Methodius IT Recruitment\n\
Location: Dublin, County Dublin, Ireland\n\
URL: https://www.linkedin.com/jobs/view/4389085055/\n\
Seniority Level: SeniorLevel\n\
Industry: Staffing and Recruiting\n\
Posted At: 2 weeks ago\n\
Salary: EUR500 - EUR700\n\
Work Modality: Remote\n\
Recruiter: Cian Crosse\n\
Source: linkedin\n\
\n\
Job Description:\n\
Define the architecture.";
    assert_eq!(test_job().to_ai_readable_string(), expected);
}

#[test]
fn readable_string_leaves_out_unknown_fields() {
    let mut job = test_job();
    job.seniority_level = None;
    job.industry = None;
    job.posted_at = None;
    job.salary = Some(Salary::new(Money::new("90000".to_string(), "USD".to_string()), None));
    job.modalities = vec![Modality::Hybrid, Modality::Onsite];
    job.recruiter_name = String::new();
    let expected = "Job Title: Enterprise Architect - Agentic AI\n\
Company: Methodius IT Recruitment\n\
Location: Dublin, County Dublin, Ireland\n\
URL: https://www.linkedin.com/jobs/view/4389085055/\n\
Salary: USD90000\n\
Work Modality: Hybrid, Onsite\n\
Source: linkedin\n\
\n\
Job Description:\n\
Define the architecture.";
    assert_eq!(job.to_ai_readable_string(), expected);
}

#[test]
fn readable_string_without_salary_or_modalities() {
    let mut job = test_job();
    job.salary = None;
    job.modalities = vec![];
    let s = job.to_ai_readable_string();
    assert!(!s.contains("Salary:"));
    assert!(!s.contains("Work Modality:"));
    assert!(s.contains("Recruiter: Cian Crosse\nSource: linkedin\n\nJob Description:\n"));
}

#[test]
fn debug_names_match_variant_names() {
    assert_eq!(Modality::Remote.debug_name(), format!("{:?}", Modality::Remote));
    assert_eq!(Modality::Onsite.debug_name(), "Onsite");
    assert_eq!(ExperienceLevel::NotApplicable.debug_name(), "NotApplicable");
    assert_eq!(ExperienceLevel::EntryLevel.debug_name(), format!("{:?}", ExperienceLevel::EntryLevel));
}

#[test]
fn system_prompt_embeds_the_knowledge_base() {
    let p = build_system_prompt("I know Rust.");
    assert!(p.starts_with("\n            You are a job application assistant."));
    assert!(p.ends_with("Knowledge base:\n            I know Rust.\n        "));
}

fn meta(id: &str, name: &str) -> JobDirectoryMetadata {
    JobDirectoryMetadata { id: id.to_string(), name: name.to_string() }
}

#[test]
fn test_get_directories() {
    let service = JobDirectoryService::new(vec![meta("linkedin", "LinkedIn")]);
    let directories = service.get_directories();
    assert_eq!(directories.len(), 1);
    assert_eq!(directories[0].id, "linkedin");
    assert_eq!(directories[0].name, "LinkedIn");
}

#[test]
fn directories_are_found_by_id() {
    let service = JobDirectoryService::new(vec![
        meta("indeed", "Indeed"),
        meta("linkedin", "LinkedIn"),
        meta("linkedin", "LinkedIn again"),
    ]);
    assert_eq!(service.directory_index("linkedin"), Ok(1));
    assert_eq!(service.directory_index("glassdoor"), Err(DirectoryError::NotFound));
    assert_eq!(JobDirectoryService::new(vec![]).directory_index("linkedin"), Err(DirectoryError::NotFound));
}

#[test]
fn directory_list_response() {
    let r = the_handler::directory::JobDirectoryListResponse::new(vec![meta("linkedin", "LinkedIn")]);
    assert_eq!(r.items.len(), 1);
    assert_eq!(r.items[0].name, "LinkedIn");
}

use the_handler::directory::{Answer, ExperienceLevel, JobEntry, Modality, Money, Question, QuestionKind, Salary};
use the_handler::linkedin::{
    answer_command, application_page, open_application_command, ApplyOutcome, ApplySession, FetchJobFilters,
    JobCollector, JobDetails, LinkedinJobDirectory,
};

fn filters() -> FetchJobFilters {
    FetchJobFilters {
        role: "Software Engineer".to_string(),
        location: None,
        modalities: None,
        org_blacklist: None,
        minimum_salary: None,
        experience_level: None,
    }
}

fn details() -> JobDetails {
    JobDetails {
        id: "42".to_string(),
        url: "https://www.linkedin.com/jobs/view/42/".to_string(),
        title: "Rust Developer".to_string(),
        description: "Write Rust.".to_string(),
        company: "Acme".to_string(),
        location: "Cork".to_string(),
        posted_at: "1 day ago".to_string(),
        modalities: vec![Modality::Remote],
        seniority: ExperienceLevel::MidLevel,
        industry: Some("Software".to_string()),
        salary: None,
        recruiter_name: None,
    }
}

fn job(company: &str) -> JobEntry {
    let mut d = details();
    d.company = company.to_string();
    JobEntry::from_details(d)
}

#[test]
fn directory_identity() {
    let d = LinkedinJobDirectory {};
    assert_eq!(d.id(), "linkedin");
    assert_eq!(LinkedinJobDirectory::ID, "linkedin");
    assert_eq!(d.name(), "LinkedIn");
    let m = d.metadata();
    assert_eq!(m.id, "linkedin");
    assert_eq!(m.name, "LinkedIn");
}

#[test]
fn modality_and_experience_codes() {
    assert_eq!(LinkedinJobDirectory::resolve_modality(&Modality::Onsite), 1);
    assert_eq!(LinkedinJobDirectory::resolve_modality(&Modality::Remote), 2);
    assert_eq!(LinkedinJobDirectory::resolve_modality(&Modality::Hybrid), 3);
    assert_eq!(LinkedinJobDirectory::resolve_experience(&ExperienceLevel::Internship), 1);
    assert_eq!(LinkedinJobDirectory::resolve_experience(&ExperienceLevel::MidLevel), 4);
    assert_eq!(LinkedinJobDirectory::resolve_experience(&ExperienceLevel::SeniorLevel), 4);
    assert_eq!(LinkedinJobDirectory::resolve_experience(&ExperienceLevel::Executive), 6);
    assert_eq!(LinkedinJobDirectory::resolve_experience(&ExperienceLevel::NotApplicable), 0);
}

#[test]
fn start_url_with_only_a_role() {
    let d = LinkedinJobDirectory {};
    assert_eq!(
        d.build_start_url(&filters()),
        "https://www.linkedin.com/jobs/search?keywords=Software Engineer&origin=JOB_SEARCH_PAGE_JOB_FILTER&refresh=true&spellCorrectionEnabled=true&f_AL=true"
    );
}

#[test]
fn start_url_with_every_filter() {
    let d = LinkedinJobDirectory {};
    let mut f = filters();
    f.location = Some("Ireland".to_string());
    f.modalities = Some(vec![Modality::Remote, Modality::Hybrid]);
    f.experience_level = Some(vec![ExperienceLevel::EntryLevel, ExperienceLevel::Director]);
    assert_eq!(
        d.build_start_url(&f),
        "https://www.linkedin.com/jobs/search?keywords=Software Engineer&origin=JOB_SEARCH_PAGE_JOB_FILTER&refresh=true&spellCorrectionEnabled=true&f_AL=true&f_WT=2,3&location=Ireland&f_E=2,5"
    );
}

#[test]
fn parse_modality_texts() {
    assert_eq!(LinkedinJobDirectory::parse_modality("Remote"), Some(Modality::Remote));
    assert_eq!(LinkedinJobDirectory::parse_modality("HYBRID"), Some(Modality::Hybrid));
    assert_eq!(LinkedinJobDirectory::parse_modality("On-site"), Some(Modality::Onsite));
    assert_eq!(LinkedinJobDirectory::parse_modality("In-person"), Some(Modality::Onsite));
    assert_eq!(LinkedinJobDirectory::parse_modality("Full-time"), None);
    assert_eq!(LinkedinJobDirectory::parse_modality_lowered("remote or hybrid"), Some(Modality::Remote));
}

#[test]
fn parse_seniority_texts() {
    assert_eq!(LinkedinJobDirectory::parse_seniority("Internship"), ExperienceLevel::Internship);
    assert_eq!(LinkedinJobDirectory::parse_seniority("Entry level"), ExperienceLevel::EntryLevel);
    assert_eq!(LinkedinJobDirectory::parse_seniority("Associate"), ExperienceLevel::Associate);
    assert_eq!(LinkedinJobDirectory::parse_seniority("Mid-Senior level"), ExperienceLevel::MidLevel);
    assert_eq!(LinkedinJobDirectory::parse_seniority("Senior"), ExperienceLevel::SeniorLevel);
    assert_eq!(LinkedinJobDirectory::parse_seniority("Director"), ExperienceLevel::Director);
    assert_eq!(LinkedinJobDirectory::parse_seniority("Executive"), ExperienceLevel::Executive);
    assert_eq!(LinkedinJobDirectory::parse_seniority("Not Applicable"), ExperienceLevel::NotApplicable);
}

#[test]
fn salary_texts() {
    assert_eq!(LinkedinJobDirectory::salary_currency("€50K/yr - €60K/yr"), Some("EUR"));
    assert_eq!(LinkedinJobDirectory::salary_currency("£40K"), Some("GBP"));
    assert_eq!(LinkedinJobDirectory::salary_currency("$100K"), Some("USD"));
    assert_eq!(LinkedinJobDirectory::salary_currency("MUR 90,000"), Some("MUR"));
    assert_eq!(LinkedinJobDirectory::salary_currency("Full-time"), None);
    assert_eq!(
        LinkedinJobDirectory::split_salary_range("€50K/yr - €60K/yr"),
        ("€50K/yr", Some("€60K/yr"))
    );
    assert_eq!(LinkedinJobDirectory::split_salary_range("€50K/yr"), ("€50K/yr", None));
    assert_eq!(LinkedinJobDirectory::amount_digits("€50.5K/yr"), "50.5");
    assert_eq!(LinkedinJobDirectory::amount_digits("$120,000"), "120000");
    assert!(LinkedinJobDirectory::is_in_thousands("€50k/yr"));
    assert!(!LinkedinJobDirectory::is_in_thousands("€50,000/yr"));
}

#[test]
fn job_ids_and_urls() {
    assert_eq!(
        LinkedinJobDirectory::job_id_from_href("/jobs/view/4389085055/?eBP=abc&trk=flagship"),
        "4389085055"
    );
    assert_eq!(LinkedinJobDirectory::job_id_from_href("/jobs/view/123"), "123");
    assert_eq!(LinkedinJobDirectory::job_id_from_href("/jobs/"), "");
    assert_eq!(LinkedinJobDirectory::job_url("123"), "https://www.linkedin.com/jobs/view/123/");
}

#[test]
fn insights_give_seniority_and_industry() {
    let texts = vec![
        "  Remote  ".to_string(),
        "Mid-Senior level".to_string(),
        "".to_string(),
        "IT Services".to_string(),
    ];
    let (seniority, industry) = LinkedinJobDirectory::read_insights(&texts);
    assert_eq!(seniority, ExperienceLevel::MidLevel);
    assert_eq!(industry, Some("Remote".to_string()));
    let (seniority, industry) = LinkedinJobDirectory::read_insights(&Vec::new());
    assert_eq!(seniority, ExperienceLevel::NotApplicable);
    assert_eq!(industry, None);
}

#[test]
fn entry_from_details() {
    let e = JobEntry::from_details(details());
    assert_eq!(e.id, "42");
    assert_eq!(e.recruiter_name, "Acme");
    assert_eq!(e.source, "https://www.linkedin.com");
    assert_eq!(e.seniority_level, Some(ExperienceLevel::MidLevel));
    assert_eq!(e.posted_at, Some("1 day ago".to_string()));
    let mut d = details();
    d.recruiter_name = Some("Jane".to_string());
    d.salary = Some(Salary::new(Money::new("50".to_string(), "EUR".to_string()), None));
    let e = JobEntry::from_details(d);
    assert_eq!(e.recruiter_name, "Jane");
    assert_eq!(e.salary.unwrap().minimum.value, "50");
}

#[test]
fn blacklist_filtering() {
    let bl = Some(vec!["Acme".to_string(), "Initech".to_string()]);
    assert!(!LinkedinJobDirectory::org_not_blacklisted(&bl, &"Acme".to_string()));
    assert!(LinkedinJobDirectory::org_not_blacklisted(&bl, &"Globex".to_string()));
    assert!(LinkedinJobDirectory::org_not_blacklisted(&None, &"Acme".to_string()));
}

#[test]
fn collector_keeps_allowed_jobs_up_to_the_limit() {
    let bl = Some(vec!["Acme".to_string()]);
    let mut c = JobCollector::new(2);
    assert!(!c.offer(job("Acme"), true, &bl));
    assert_eq!(c.jobs.len(), 0);
    assert!(!c.offer(job("Globex"), false, &bl));
    assert_eq!(c.jobs.len(), 0);
    assert!(!c.offer(job("Globex"), true, &bl));
    assert!(c.offer(job("Initech"), true, &bl));
    assert_eq!(c.jobs.len(), 2);
    assert_eq!(c.jobs[1].company, "Initech");
}

#[test]
fn application_commands() {
    assert_eq!(application_page("42"), "https://www.linkedin.com/jobs/view/42");
    assert_eq!(
        open_application_command("42"),
        "window.scrappy.executeCommand('OPEN_APPLICATION_MODAL', { jobId: '42' })"
    );
    assert_eq!(
        answer_command("q1", "{\"kind\":\"skip\"}"),
        "window.scrappy.executeCommand('ANSWER_QUESTION', { handle: 'q1', answer: {\"kind\":\"skip\"} })"
    );
}

fn question(id: &str) -> Question {
    Question {
        id: id.to_string(),
        label: "Years of Rust?".to_string(),
        kind: QuestionKind::Number,
        required: true,
        options: vec![],
        hint: None,
        current_value: None,
    }
}

#[test]
fn apply_session_records_missing_answers() {
    let mut s = ApplySession::new();
    let cmd = s.on_answer(question("q1"), &Answer::Number(3), "{\"kind\":\"number\",\"value\":3}");
    assert_eq!(
        cmd,
        Some("window.scrappy.executeCommand('ANSWER_QUESTION', { handle: 'q1', answer: {\"kind\":\"number\",\"value\":3} })".to_string())
    );
    assert!(s.missing_required_infos.is_empty());
    let cmd = s.on_answer(question("q2"), &Answer::MissingRequiredInfo, "{}");
    assert_eq!(cmd, None);
    assert_eq!(s.missing_required_infos.len(), 1);
    assert_eq!(s.missing_required_infos[0].id, "q2");
}

#[test]
fn collector_never_passes_a_limit_of_one() {
    let mut c = JobCollector::new(1);
    let mut offers = 0;
    for company in ["Acme", "Globex", "Initech"] {
        offers += 1;
        if c.offer(job(company), true, &None) {
            break;
        }
    }
    assert_eq!(offers, 1);
    assert_eq!(c.jobs.len(), 1);
}

#[test]
fn modalities_from_button_texts() {
    let texts = vec![" Remote ".to_string(), "Full-time".to_string(), "Hybrid".to_string(), "$100K/yr".to_string()];
    assert_eq!(LinkedinJobDirectory::modalities_from_texts(&texts), vec![Modality::Remote, Modality::Hybrid]);
    assert!(LinkedinJobDirectory::modalities_from_texts(&Vec::new()).is_empty());
}

#[test]
fn case_is_ignored_through_unicode_lowercasing() {
    assert_eq!(LinkedinJobDirectory::parse_modality("ÉQUIPE REMOTE"), Some(Modality::Remote));
    assert_eq!(LinkedinJobDirectory::parse_seniority("DIRECTOR"), ExperienceLevel::Director);
    assert!(LinkedinJobDirectory::is_in_thousands("€50k"));
}

#[test]
fn apply_outcome_is_applied_when_every_question_was_answered() {
    let mut s = ApplySession::new();
    s.on_answer(question("q1"), &Answer::Number(3), "3");
    match s.outcome("4242") {
        ApplyOutcome::Applied { job_id } => assert_eq!(job_id, "4242"),
        other => panic!("unexpected outcome {other:?}"),
    }
}

#[test]
fn apply_outcome_needs_manual_action_when_a_required_question_went_unanswered() {
    let mut s = ApplySession::new();
    s.on_answer(question("q1"), &Answer::MissingRequiredInfo, "{}");
    s.on_answer(question("q2"), &Answer::Number(3), "3");
    s.on_answer(question("q3"), &Answer::MissingRequiredInfo, "{}");
    match s.outcome("4242") {
        ApplyOutcome::RequiresManualAction { job_id, reason } => {
            assert_eq!(job_id, "4242");
            assert_eq!(reason, "Missing required information: Years of Rust?, Years of Rust?");
        }
        other => panic!("unexpected outcome {other:?}"),
    }
}

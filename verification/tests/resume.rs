use the_handler::composer::{DefaultResumeComposer, ResumeComposer};
use the_handler::resume::{
    fmt_contact_md, fmt_education_line, fmt_experience_heading, CandidateProfile, ContactInfo,
    Education, Project, Resume, Section, TailoredContent, WorkExperience,
};
use the_handler::template::{wrap_words, MarkdownTemplate, PdfBlock, PdfTemplate, ResumeTemplate, TextSize};

fn contact() -> ContactInfo {
    ContactInfo {
        email: Some("jo@example.com".to_string()),
        phone: Some("+353 1 234".to_string()),
        linkedin_url: Some("https://linkedin.com/in/jo".to_string()),
        github_url: None,
        website_url: Some("https://jo.dev".to_string()),
        other: None,
    }
}

fn empty_contact() -> ContactInfo {
    ContactInfo {
        email: None,
        phone: None,
        linkedin_url: None,
        github_url: None,
        website_url: None,
        other: None,
    }
}

fn experience() -> WorkExperience {
    WorkExperience {
        title: "Engineer".to_string(),
        company: "Acme".to_string(),
        dates: Some("2020 - 2024".to_string()),
        highlights: vec!["Built things".to_string(), "Shipped them".to_string()],
    }
}

fn profile() -> CandidateProfile {
    CandidateProfile {
        name: Some("Jo Bloggs".to_string()),
        contact: Some(contact()),
        summary: Some("Original summary".to_string()),
        experiences: vec![experience()],
        education: vec![],
        skills: vec!["Rust".to_string()],
        projects: vec![],
        certifications: vec![],
    }
}

fn tailored() -> TailoredContent {
    TailoredContent {
        profile_summary: "Rust engineer.".to_string(),
        experiences: vec![experience()],
        skills: vec!["Rust".to_string(), "Verus".to_string()],
        education: vec![Education {
            institution: "TCD".to_string(),
            degree: Some("BSc".to_string()),
            dates: None,
        }],
        projects: vec![Project {
            name: "the_handler".to_string(),
            description: "Job hunting assistant".to_string(),
            highlights: vec!["Verified".to_string()],
        }],
        certifications: vec!["AWS".to_string()],
        coverage_gaps: vec!["Kubernetes".to_string()],
    }
}

#[test]
fn contact_display_and_emptiness() {
    assert!(!contact().is_empty());
    assert!(empty_contact().is_empty());
    assert_eq!(
        contact().display(),
        "jo@example.com  ·  +353 1 234  ·  https://linkedin.com/in/jo  ·  https://jo.dev"
    );
    assert_eq!(empty_contact().display(), "");
}

#[test]
fn contact_as_markdown() {
    assert_eq!(
        fmt_contact_md(&contact()),
        "[jo@example.com](mailto:jo@example.com)  ·  +353 1 234  ·  [LinkedIn](https://linkedin.com/in/jo)  ·  [Website](https://jo.dev)"
    );
    let mut c = empty_contact();
    c.github_url = Some("https://github.com/jo".to_string());
    c.other = Some("Dublin".to_string());
    assert_eq!(fmt_contact_md(&c), "[GitHub](https://github.com/jo)  ·  Dublin");
}

#[test]
fn headings_and_education_lines() {
    assert_eq!(fmt_experience_heading(&experience()), "Engineer — Acme | 2020 - 2024");
    let mut e = experience();
    e.dates = None;
    assert_eq!(fmt_experience_heading(&e), "Engineer — Acme");
    let mut edu = Education { institution: "TCD".to_string(), degree: Some("BSc".to_string()), dates: Some("2016".to_string()) };
    assert_eq!(fmt_education_line(&edu), "TCD — BSc | 2016");
    edu.degree = None;
    assert_eq!(fmt_education_line(&edu), "TCD | 2016");
    edu.dates = None;
    assert_eq!(fmt_education_line(&edu), "TCD");
    edu.degree = Some("BSc".to_string());
    assert_eq!(fmt_education_line(&edu), "TCD — BSc");
}

#[test]
fn compose_orders_the_sections() {
    let r = DefaultResumeComposer.compose_at(&profile(), &tailored(), "2024-01-01T00:00:00+00:00".to_string());
    assert_eq!(r.candidate_name, "Jo Bloggs");
    assert_eq!(r.generated_at, "2024-01-01T00:00:00+00:00");
    assert_eq!(r.sections.len(), 7);
    assert!(matches!(r.sections[0], Section::Header(ref h) if h.name == "Jo Bloggs" && h.contact.is_some()));
    assert!(matches!(r.sections[1], Section::Summary(ref s) if s.content == "Rust engineer."));
    assert!(matches!(r.sections[2], Section::Experience(ref e) if e.entries.len() == 1));
    assert!(matches!(r.sections[3], Section::Education(_)));
    assert!(matches!(r.sections[4], Section::Skills(ref s) if s.skills == vec!["Rust", "Verus"]));
    assert!(matches!(r.sections[5], Section::Projects(_)));
    assert!(matches!(r.sections[6], Section::Certifications(ref c) if c.items == vec!["AWS"]));
}

#[test]
fn compose_leaves_out_empty_sections() {
    let mut p = profile();
    p.name = None;
    let t = TailoredContent {
        profile_summary: String::new(),
        experiences: vec![],
        skills: vec!["Rust".to_string()],
        education: vec![],
        projects: vec![],
        certifications: vec![],
        coverage_gaps: vec![],
    };
    let r = DefaultResumeComposer.compose(&p, &t);
    assert_eq!(r.candidate_name, "");
    assert_eq!(r.sections.len(), 1);
    assert!(matches!(r.sections[0], Section::Skills(_)));
    assert!(!r.generated_at.is_empty());
}

fn resume() -> Resume {
    DefaultResumeComposer.compose_at(&profile(), &tailored(), "now".to_string())
}

#[test]
fn markdown_rendering() {
    let md = MarkdownTemplate.render(&resume());
    let expected = "# Jo Bloggs\n\n\
[jo@example.com](mailto:jo@example.com)  ·  +353 1 234  ·  [LinkedIn](https://linkedin.com/in/jo)  ·  [Website](https://jo.dev)\n\n\
## Summary\n\n\
Rust engineer.\n\n\
## Experience\n\n\
Engineer — Acme | 2020 - 2024\n\n\
- Built things\n\n\
- Shipped them\n\n\
## Education\n\n\
TCD — BSc\n\n\
## Skills\n\n\
Rust · Verus\n\n\
## Projects\n\n\
### the_handler\n\n\
Job hunting assistant\n\n\
- Verified\n\n\
## Certifications\n\n\
- AWS";
    assert_eq!(md, expected);
}

#[test]
fn markdown_header_without_contact() {
    let r = Resume {
        candidate_name: "Jo".to_string(),
        sections: vec![Section::Header(the_handler::resume::HeaderSection { name: "Jo".to_string(), contact: Some(empty_contact()) })],
        generated_at: String::new(),
    };
    assert_eq!(MarkdownTemplate.render(&r), "# Jo");
}

fn line(text: &str, bold: bool, size: TextSize, after: u32) -> (String, bool, TextSize, u32) {
    (text.to_string(), bold, size, after)
}

#[test]
fn pdf_layout_of_a_resume() {
    let blocks = PdfTemplate.layout(&resume());
    let mut lines = Vec::new();
    let mut wrapped = Vec::new();
    let mut gaps = 0;
    let mut rules = 0;
    for b in &blocks {
        match b {
            PdfBlock::Line { text, bold, size, after } => lines.push((text.clone(), *bold, *size, *after)),
            PdfBlock::Wrapped { text, size } => wrapped.push((text.clone(), *size)),
            PdfBlock::Gap(_) => gaps += 1,
            PdfBlock::Rule => rules += 1,
        }
    }
    assert_eq!(
        lines,
        vec![
            line("Jo Bloggs", true, TextSize::Name, 25),
            line("jo@example.com  ·  +353 1 234  ·  https://linkedin.com/in/jo  ·  https://jo.dev", false, TextSize::Contact, 10),
            line("SUMMARY", true, TextSize::SectionTitle, 5),
            line("EXPERIENCE", true, TextSize::SectionTitle, 5),
            line("Engineer — Acme | 2020 - 2024", true, TextSize::Body, 10),
            line("EDUCATION", true, TextSize::SectionTitle, 5),
            line("TCD — BSc", true, TextSize::Body, 20),
            line("SKILLS", true, TextSize::SectionTitle, 5),
            line("PROJECTS", true, TextSize::SectionTitle, 5),
            line("the_handler", true, TextSize::Body, 10),
            line("CERTIFICATIONS", true, TextSize::SectionTitle, 5),
            line("\u{2022}  AWS", false, TextSize::Body, 15),
        ]
    );
    assert_eq!(
        wrapped,
        vec![
            ("Rust engineer.".to_string(), TextSize::Body),
            ("\u{2022}  Built things".to_string(), TextSize::Small),
            ("\u{2022}  Shipped them".to_string(), TextSize::Small),
            ("Rust  ·  Verus".to_string(), TextSize::Body),
            ("Job hunting assistant".to_string(), TextSize::Small),
            ("\u{2022}  Verified".to_string(), TextSize::Small),
        ]
    );
    assert_eq!(rules, 6);
    assert_eq!(gaps, 6 * 2 + 2);
    assert!(matches!(blocks[2], PdfBlock::Gap(50)));
    assert!(matches!(blocks[4], PdfBlock::Rule));
    assert!(matches!(blocks[5], PdfBlock::Gap(25)));
}

#[test]
fn wrapping_breaks_at_the_width() {
    assert_eq!(wrap_words("the quick brown fox", 9), vec!["the quick", "brown fox"]);
    assert_eq!(wrap_words("a b c", 100), vec!["a b c"]);
    assert_eq!(wrap_words("  spaced   out  ", 100), vec!["spaced out"]);
    assert_eq!(wrap_words("", 10), Vec::<String>::new());
}

#[test]
fn wrapping_keeps_long_words_whole() {
    assert_eq!(wrap_words("tiny enormousword x", 5), vec!["tiny", "enormousword", "x"]);
}

#[test]
fn wrapping_keeps_the_words_in_order() {
    let text = "Define the end-to-end architecture for the organisation's agentic platform: infrastructure, patterns, and contracts.";
    let lines = wrap_words(text, 20);
    for l in &lines {
        assert!(l.len() <= 20 || !l.contains(' '));
    }
    assert_eq!(lines.join(" "), text.split_whitespace().collect::<Vec<_>>().join(" "));
}

#[test]
fn wrapping_counts_bytes() {
    assert_eq!(wrap_words("€€ €€", 5), vec!["€€", "€€"]);
    assert_eq!(wrap_words("ab cd", 5), vec!["ab cd"]);
}

#[test]
fn rendering_two_resumes_joins_them_with_a_blank_line() {
    let a = resume();
    let mut b = resume();
    b.sections.truncate(2);
    let mut both = a.clone();
    both.sections.extend(b.sections.clone());
    assert_eq!(
        MarkdownTemplate.render(&both),
        format!("{}\n\n{}", MarkdownTemplate.render(&a), MarkdownTemplate.render(&b))
    );
    let empty = Resume { candidate_name: String::new(), sections: vec![], generated_at: String::new() };
    assert_eq!(MarkdownTemplate.render(&empty), "");
}

use the_handler::directory::{JobEntry, Modality};
use the_handler::flows::ResearchFlow;
use the_handler::research::{
    description_excerpt, dossier_prompt, finding_from_reply, findings_text, identity_prompt,
    research_prompt, split_sources, synthesis_prompt, Dossier, EntityKind, RawIdentity, RawVector,
    ResearchFinding, ResearchFocus, ResearchVector, Researcher, ResolvedIdentity, SynthesisError,
    vectors_from_raw,
};

fn job() -> JobEntry {
    JobEntry {
        id: "1".to_string(),
        title: "Rust Developer".to_string(),
        company: "Acme".to_string(),
        location: "Cork".to_string(),
        url: "https://example.com/jobs/1".to_string(),
        description: "Write Rust.".to_string(),
        seniority_level: None,
        industry: None,
        posted_at: None,
        salary: None,
        recruiter_name: String::new(),
        modalities: vec![Modality::Remote],
        source: "linkedin".to_string(),
    }
}

fn vector(focus: ResearchFocus) -> ResearchVector {
    ResearchVector {
        id: "v1".to_string(),
        query: "Acme engineering culture".to_string(),
        rationale: "Candidate values mentoring".to_string(),
        focus,
    }
}

fn identity() -> ResolvedIdentity {
    ResolvedIdentity {
        kind: EntityKind::Organization { name: "Acme".to_string(), domain: Some("acme.com".to_string()) },
        signal: "acme.com".to_string(),
        display_name: "Acme Inc".to_string(),
    }
}

fn is(focus: &ResearchFocus, label: &str) -> bool {
    focus.label() == label
}

#[test]
fn focus_from_known_labels() {
    assert!(matches!(ResearchFocus::from_label("Reputation"), ResearchFocus::Reputation));
    assert!(matches!(ResearchFocus::from_label(" STRATEGY "), ResearchFocus::Strategy));
    assert!(matches!(ResearchFocus::from_label("culture"), ResearchFocus::Culture));
    assert!(matches!(ResearchFocus::from_label("Recent Activity"), ResearchFocus::RecentActivity));
    assert!(matches!(ResearchFocus::from_label("recent_activity"), ResearchFocus::RecentActivity));
    assert!(matches!(ResearchFocus::from_label("RecentActivity"), ResearchFocus::RecentActivity));
    assert!(matches!(ResearchFocus::from_label("Financial"), ResearchFocus::Financials));
    assert!(matches!(ResearchFocus::from_label("tech"), ResearchFocus::Technical));
    assert!(matches!(ResearchFocus::from_label("Technical"), ResearchFocus::Technical));
}

#[test]
fn focus_from_unknown_label_is_custom() {
    match ResearchFocus::from_label("  Hiring Process ") {
        ResearchFocus::Custom(s) => assert_eq!(s, "hiring process"),
        other => panic!("unexpected {:?}", other),
    }
}

#[test]
fn focus_labels() {
    assert!(is(&ResearchFocus::RecentActivity, "Recent Activity"));
    assert!(is(&ResearchFocus::Financials, "Financials"));
    assert!(is(&ResearchFocus::Custom("Legal".to_string()), "Legal"));
}

#[test]
fn prompt_for_a_vector() {
    assert_eq!(
        research_prompt(&vector(ResearchFocus::Culture)),
        "Focus area: Culture\n\nResearch query: Acme engineering culture"
    );
}

#[test]
fn split_sources_with_marker() {
    let raw = "  Summary of findings.\n- point\nSources:\n  https://a.example \n\nAcme blog\n";
    let (content, sources) = split_sources(raw);
    assert_eq!(content, "Summary of findings.\n- point");
    assert_eq!(sources, vec!["https://a.example", "Acme blog"]);
}

#[test]
fn split_sources_without_marker() {
    let (content, sources) = split_sources("  Just content.  ");
    assert_eq!(content, "Just content.");
    assert!(sources.is_empty());
    let (content, sources) = split_sources("See Sources: inside a line is not a marker");
    assert_eq!(content, "See Sources: inside a line is not a marker");
    assert!(sources.is_empty());
}

#[test]
fn split_sources_with_marker_on_the_first_line() {
    let (content, sources) = split_sources("Sources:\nhttps://a.com");
    assert_eq!(content, "");
    assert_eq!(sources, vec!["https://a.com".to_string()]);
    let (content, sources) = split_sources("Sources: Acme blog\n\n  https://b.org ");
    assert_eq!(content, "");
    assert_eq!(sources, vec!["Acme blog", "https://b.org"]);
}

#[test]
fn finding_from_a_reply() {
    let f = finding_from_reply(vector(ResearchFocus::Technical), "Uses Rust.\nSources:\nhttps://acme.com");
    assert_eq!(f.vector.id, "v1");
    assert_eq!(f.content, "Uses Rust.");
    assert_eq!(f.sources, vec!["https://acme.com"]);
}

#[test]
fn identity_from_raw_fields() {
    let raw = RawIdentity {
        kind: "Person".to_string(),
        name: "Jane Doe".to_string(),
        title: Some("CTO".to_string()),
        domain: None,
        signal: "linkedin.com/in/jane".to_string(),
        display_name: "Jane Doe".to_string(),
    };
    let id = ResolvedIdentity::from_raw(raw.clone());
    assert!(matches!(id.kind, EntityKind::Person { ref name, ref title } if name == "Jane Doe" && title.as_deref() == Some("CTO")));
    let mut org = raw;
    org.kind = "Organization".to_string();
    org.domain = Some("acme.com".to_string());
    let id = ResolvedIdentity::from_raw(org);
    assert!(matches!(id.kind, EntityKind::Organization { ref domain, .. } if domain.as_deref() == Some("acme.com")));
    assert_eq!(id.signal, "linkedin.com/in/jane");
}

#[test]
fn vector_from_raw_fields() {
    let v = ResearchVector::from_raw(RawVector {
        id: "x".to_string(),
        query: "q".to_string(),
        rationale: "r".to_string(),
        focus: "Reputation".to_string(),
    });
    assert_eq!(v.id, "x");
    assert!(matches!(v.focus, ResearchFocus::Reputation));
}

fn finding(content: &str) -> ResearchFinding {
    ResearchFinding { vector: vector(ResearchFocus::Culture), content: content.to_string(), sources: vec![] }
}

#[test]
fn findings_as_text() {
    let fs = vec![finding("Friendly."), finding("Remote first.")];
    assert_eq!(
        findings_text(&fs),
        "#### Acme engineering culture (Culture)\nFriendly.\n\n#### Acme engineering culture (Culture)\nRemote first.\n"
    );
    assert_eq!(findings_text(&Vec::new()), "");
}

#[test]
fn dossier_prompt_text() {
    let p = dossier_prompt(&identity(), &vec![finding("Friendly.")], "KB", &job());
    assert_eq!(
        p,
        "TARGET: Acme Inc\nROLE: Rust Developer at Acme\n\nCANDIDATE BACKGROUND:\nKB\n\nRESEARCH FINDINGS:\n#### Acme engineering culture (Culture)\nFriendly.\n\n\nGenerate the dossier."
    );
}

#[test]
fn dossier_title() {
    let d = Dossier::new(identity(), &job(), "# Report".to_string(), "t0".to_string());
    assert_eq!(d.title, "Research Dossier: Acme Inc — Rust Developer");
    assert_eq!(d.content, "# Report");
    assert_eq!(d.generated_at, "t0");
}

#[test]
fn synthesis_prompt_text() {
    let p = synthesis_prompt(&identity(), "KB", &job());
    assert_eq!(
        p,
        format!("TARGET ENTITY: Acme Inc\n\nCANDIDATE KNOWLEDGE BASE:\nKB\n\nJOB POSTING:\n{}", job().to_ai_readable_string())
    );
}

#[test]
fn excerpt_is_at_most_600_bytes() {
    assert_eq!(description_excerpt("short"), "short");
    let long = "a".repeat(700);
    assert_eq!(description_excerpt(&long).len(), 600);
}

#[test]
fn identity_prompt_text() {
    assert_eq!(
        identity_prompt(&job()),
        "Company/Entity: Acme\nJob URL: https://example.com/jobs/1\nJob Title: Rust Developer\nDescription (first 600 chars): Write Rust."
    );
}

#[test]
fn research_flow_keeps_every_stage() {
    let flow = ResearchFlow::new(job(), "KB")
        .resolve(identity());
    assert_eq!(flow.identity().display_name, "Acme Inc");
    let flow = flow.synthesize(vec![vector(ResearchFocus::Culture)]);
    assert_eq!(flow.vectors().len(), 1);
    let flow = flow.with_findings(vec![finding("Friendly.")]);
    assert_eq!(flow.findings()[0].content, "Friendly.");
    let d = Dossier::new(identity(), &job(), "report".to_string(), "t".to_string());
    let dossier = flow.generate(d).into_dossier();
    assert_eq!(dossier.content, "report");
    assert_eq!(dossier.title, "Research Dossier: Acme Inc — Rust Developer");
}

struct EchoResearcher {
    fail_on: Option<String>,
}

impl Researcher for EchoResearcher {
    fn research(&self, vector: &ResearchVector) -> Result<ResearchFinding, String> {
        if self.fail_on.as_deref() == Some(vector.id.as_str()) {
            return Err(format!("no answer for {}", vector.id));
        }
        Ok(finding_from_reply(vector.clone(), &format!("About {}.\nSources:\nsrc-{}", vector.query, vector.id)))
    }
}

fn vectors() -> Vec<ResearchVector> {
    let mut a = vector(ResearchFocus::Culture);
    a.id = "v1".to_string();
    let mut b = vector(ResearchFocus::Financials);
    b.id = "v2".to_string();
    b.query = "Acme funding".to_string();
    vec![a, b]
}

#[test]
fn conduct_researches_each_vector_in_order() {
    let flow = ResearchFlow::new(job(), "KB").resolve(identity()).synthesize(vectors());
    let flow = flow.conduct(&EchoResearcher { fail_on: None }).unwrap();
    let fs = flow.findings();
    assert_eq!(fs.len(), 2);
    assert_eq!(fs[0].content, "About Acme engineering culture.");
    assert_eq!(fs[1].sources, vec!["src-v2"]);
}

#[test]
fn conduct_stops_at_the_first_failure() {
    let flow = ResearchFlow::new(job(), "KB").resolve(identity()).synthesize(vectors());
    match flow.conduct(&EchoResearcher { fail_on: Some("v2".to_string()) }) {
        Err(e) => assert_eq!(e, "no answer for v2"),
        Ok(_) => panic!("expected a failure"),
    }
}

#[test]
fn conduct_with_no_vectors_succeeds_without_asking() {
    let flow = ResearchFlow::new(job(), "KB").resolve(identity()).synthesize(vec![]);
    let flow = flow.conduct(&EchoResearcher { fail_on: Some("v1".to_string()) }).unwrap();
    assert!(flow.findings().is_empty());
}

#[test]
fn lowered_labels_read_back_as_their_focus() {
    assert!(matches!(ResearchFocus::from_lowered_label("recent activity"), ResearchFocus::RecentActivity));
    assert!(matches!(ResearchFocus::from_lowered_label("financials"), ResearchFocus::Financials));
    assert!(matches!(ResearchFocus::from_lowered_label("technical"), ResearchFocus::Technical));
    for f in [ResearchFocus::Reputation, ResearchFocus::Strategy, ResearchFocus::Culture, ResearchFocus::RecentActivity] {
        assert_eq!(ResearchFocus::from_label(f.label()).label(), f.label());
    }
    match ResearchFocus::from_label(ResearchFocus::Custom("hiring process".to_string()).label()) {
        ResearchFocus::Custom(s) => assert_eq!(s, "hiring process"),
        other => panic!("unexpected {:?}", other),
    }
}

fn raw_vector(i: usize) -> RawVector {
    RawVector {
        id: format!("v{i}"),
        query: format!("query {i}"),
        rationale: format!("why {i}"),
        focus: "Culture".to_string(),
    }
}

#[test]
fn three_to_five_vectors_are_typed_in_order() {
    for n in 3..=5usize {
        let v = vectors_from_raw((1..=n).map(raw_vector).collect()).unwrap();
        assert_eq!(v.len(), n);
        for (i, x) in v.iter().enumerate() {
            assert_eq!(x.id, format!("v{}", i + 1));
            assert_eq!(x.query, format!("query {}", i + 1));
            assert_eq!(x.rationale, format!("why {}", i + 1));
            assert!(matches!(x.focus, ResearchFocus::Culture));
        }
    }
}

#[test]
fn vector_counts_outside_three_to_five_are_refused() {
    assert_eq!(vectors_from_raw(Vec::new()).err(), Some(SynthesisError::VectorCount(0)));
    assert_eq!(
        vectors_from_raw((1..=2).map(raw_vector).collect()).err(),
        Some(SynthesisError::VectorCount(2))
    );
    assert_eq!(
        vectors_from_raw((1..=6).map(raw_vector).collect()).err(),
        Some(SynthesisError::VectorCount(6))
    );
}

#[test]
fn labels_read_back_as_their_focus() {
    let all = vec![
        ResearchFocus::Reputation,
        ResearchFocus::Strategy,
        ResearchFocus::Culture,
        ResearchFocus::RecentActivity,
        ResearchFocus::Financials,
        ResearchFocus::Technical,
    ];
    for f in all {
        let back = ResearchFocus::from_label(f.label());
        assert_eq!(format!("{back:?}"), format!("{f:?}"));
    }
    match ResearchFocus::from_label(ResearchFocus::Custom("hiring plans".to_string()).label()) {
        ResearchFocus::Custom(s) => assert_eq!(s, "hiring plans"),
        other => panic!("unexpected focus {other:?}"),
    }
}

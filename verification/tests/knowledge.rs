use the_handler::knowledge::{
    aggregate_knowledge_bases, merge_content, normalize_source, pages_to_markdown, plan_add, AddKnowledgeBase,
    KnowledgeBase, KnowledgeBaseResponse, KnowledgeBaseSource, KnowledgeBaseWrite,
};

fn kb(label: &str, content: &str) -> KnowledgeBase {
    KnowledgeBase {
        pid: "7f1c".to_string(),
        owner_id: 1,
        label: label.to_string(),
        content: content.to_string(),
        source: "upload".to_string(),
        updated_at: "2024-05-01 10:00:00".to_string(),
    }
}

#[test]
fn merging_contents() {
    assert_eq!(merge_content("", "new"), "new");
    assert_eq!(merge_content("same", "same"), "same");
    assert_eq!(merge_content("old", "new"), "old\n\nnew");
}

#[test]
fn merging_twice_is_merging_once() {
    let once = merge_content("cv", "cv");
    assert_eq!(merge_content(&once, &once), once);
}

#[test]
fn source_names() {
    assert_eq!(normalize_source(&KnowledgeBaseSource::Upload), "upload");
    assert_eq!(
        normalize_source(&KnowledgeBaseSource::Web("https://github.com/jo/repo?tab=1".to_string())),
        "https://github.com"
    );
    assert_eq!(
        normalize_source(&KnowledgeBaseSource::Web("http://example.com/".to_string())),
        "http://example.com"
    );
    assert_eq!(
        normalize_source(&KnowledgeBaseSource::Web("https://a.b.c:8080/x/y".to_string())),
        "https://a.b.c:8080"
    );
}

#[test]
fn aggregate_of_knowledge_bases() {
    let kbs = vec![kb("CV", "Rust dev"), kb("Blog", "Posts")];
    assert_eq!(
        aggregate_knowledge_bases(&kbs),
        "Label:\nCV\n\nContent:\nRust dev\n\nLabel:\nBlog\n\nContent:\nPosts"
    );
    assert_eq!(aggregate_knowledge_bases(&Vec::new()), "");
}

fn payload(source: KnowledgeBaseSource) -> AddKnowledgeBase {
    AddKnowledgeBase { owner_id: 3, label: "Site".to_string(), content: "fresh".to_string(), source }
}

#[test]
fn adding_to_an_existing_source_merges() {
    let existing = kb("Site", "stale");
    match plan_add(payload(KnowledgeBaseSource::Upload), Some(&existing)) {
        KnowledgeBaseWrite::UpdateContent(c) => assert_eq!(c, "stale\n\nfresh"),
        other => panic!("unexpected {:?}", other),
    }
}

#[test]
fn adding_a_new_source_creates() {
    let p = payload(KnowledgeBaseSource::Web("https://jo.dev/about".to_string()));
    match plan_add(p, None) {
        KnowledgeBaseWrite::Create(c) => {
            assert_eq!(c.owner_id, 3);
            assert_eq!(c.label, "Site");
            assert_eq!(c.content, "fresh");
            assert_eq!(c.source, "https://jo.dev");
        }
        other => panic!("unexpected {:?}", other),
    }
}

#[test]
fn response_of_a_knowledge_base() {
    let r = KnowledgeBaseResponse::new(&kb("CV", "Rust dev"));
    assert_eq!(r.id, "7f1c");
    assert_eq!(r.label, "CV");
    assert_eq!(r.content, "Rust dev");
    assert_eq!(r.source, "upload");
    assert_eq!(r.last_updated, "2024-05-01 10:00:00");
}

#[test]
fn pages_become_one_text() {
    let pages = vec!["Page one".to_string(), "Page two".to_string()];
    assert_eq!(pages_to_markdown(&pages), "Page one\n\nPage two\n\n");
    assert_eq!(pages_to_markdown(&Vec::new()), "");
}

#[test]
fn source_name_is_the_start_of_the_url() {
    let url = "https://news.example.org/2024/05/post?ref=feed";
    let name = normalize_source(&KnowledgeBaseSource::Web(url.to_string()));
    assert_eq!(name, "https://news.example.org");
    assert!(url.starts_with(&name));
}

#[test]
fn source_names_agree_with_the_url_base_pattern() {
    let re = regex::Regex::new("^(https?://[^/]+)/.*").unwrap();
    let urls = [
        "https://github.com/jo/repo",
        "http://example.com/",
        "https://a.b.c:8080/x/y?z=1",
        "https://user:pw@host.io/path",
        "http://xn--bcher-kva.de/index.html",
        "https://h/",
        "https://with space.com/a",
        "https://tab\there.com/a\nb",
        "https://multi//slash",
        "https://ünïcödé.example/ä/ö",
    ];
    for url in urls {
        let expected = re.captures(url).map(|c| c[1].to_string());
        let expected = expected.expect("every sample matches the pattern");
        assert_eq!(normalize_source(&KnowledgeBaseSource::Web(url.to_string())), expected, "{url}");
    }
    for url in ["ftp://example.com/", "https://", "https:///x", "https://host", "example.com/a"] {
        assert!(re.captures(url).is_none(), "{url}");
    }
}

//! Knowledge bases: what a candidate has told the assistant about themself.

use vstd::prelude::*;
use crate::validation::{
    failed, has_min_chars, outcome, push_failed, to_result, FieldError, FieldErrorModel,
};
use crate::text::{
    chars_of, concat, concat_strs, find_from, join, join_strings, lemma_find_from_first, occurs_at,
    str_eq, str_views, views,
};

verus! {

/// Where a knowledge base comes from.
#[derive(Debug, Clone)]
pub enum KnowledgeBaseSource {
    Upload,
    Web(String),
}

/// A request to add a knowledge base.
#[derive(Debug, Clone)]
pub struct AddKnowledgeBase {
    pub owner_id: i32,
    pub label: String,
    pub content: String,
    pub source: KnowledgeBaseSource,
}

/// A stored knowledge base; `pid` and `updated_at` hold the display text of
/// the stored identifier and time.
#[derive(Debug, Clone)]
pub struct KnowledgeBase {
    pub pid: String,
    pub owner_id: i32,
    pub label: String,
    pub content: String,
    pub source: String,
    pub updated_at: String,
}

/// A knowledge base to create.
#[derive(Debug, Clone)]
pub struct CreateKnowledgeBase {
    pub owner_id: i32,
    pub label: String,
    pub content: String,
    pub source: String,
}

/// What adding a knowledge base does to storage.
#[derive(Debug, Clone)]
pub enum KnowledgeBaseWrite {
    /// Replace the content of the existing knowledge base of that source.
    UpdateContent(String),
    /// Create a new knowledge base.
    Create(CreateKnowledgeBase),
}

/// The content after adding `new` to `old`: `new` alone when `old` is empty
/// or the same, else both separated by a blank line.
pub open spec fn merged_content(old: Seq<char>, new: Seq<char>) -> Seq<char> {
    if old.len() == 0 || old == new {
        new
    } else {
        old + "\n\n"@ + new
    }
}

/// Merges two knowledge base contents together.
pub fn merge_content(old_content: &str, new_content: &str) -> (r: String)
    ensures
        r@ == merged_content(old_content@, new_content@),
{
    if old_content.is_empty() || str_eq(old_content, new_content) {
        return new_content.to_owned();
    }
    let mut r = old_content.to_owned();
    r.append("\n\n");
    r.append(new_content);
    r
}

/// Law: merging keeps both contents: the result always ends with the new
/// content, and, unless the old content is empty or the same, starts with
/// the old content and a blank line.
pub proof fn lemma_merge_keeps_both(old: Seq<char>, new: Seq<char>)
    ensures
        merged_content(old, new).len() >= new.len(),
        merged_content(old, new).skip(merged_content(old, new).len() - new.len()) == new,
        old.len() > 0 && old != new ==> merged_content(old, new).take(old.len() + 2int) == old
            + "\n\n"@,
        old.len() > 0 && old != new ==> merged_content(old, new).len() == old.len() + 2
            + new.len(),
{
    reveal_strlit("\n\n");
    let m = merged_content(old, new);
    if old.len() > 0 && old != new {
        assert(m.skip(m.len() - new.len()) =~= new);
        assert(m.take(old.len() + 2int) =~= old + "\n\n"@);
    } else {
        assert(m.skip(m.len() - new.len()) =~= new);
    }
}

/// Law: adding the same content twice leaves it as it was, and adding to
/// nothing gives the added content.
pub proof fn lemma_merge_idempotent(content: Seq<char>, other: Seq<char>)
    ensures
        merged_content(content, content) == content,
        merged_content(Seq::empty(), other) == other,
{
}

/// The length of the scheme that a web URL starts with: 8 for "https://",
/// 7 for "http://", -1 for neither.
pub open spec fn scheme_len(url: Seq<char>) -> int {
    if occurs_at(url, "https://"@, 0) {
        8
    } else if occurs_at(url, "http://"@, 0) {
        7
    } else {
        -1
    }
}

/// The base of a web URL, as `^(https?://[^/]+)/.*` captures it: the scheme
/// and the non-empty host, up to the first '/' after "://". `None` when the
/// URL does not have that shape.
pub open spec fn url_base(url: Seq<char>) -> Option<Seq<char>> {
    let s = scheme_len(url);
    if s < 0 {
        None
    } else {
        match find_from(url, seq!['/'], s) {
            Some(k) => if k > s {
                Some(url.take(k))
            } else {
                None
            },
            None => None,
        }
    }
}

/// The name under which a source is stored: "upload", or the base of the
/// web URL.
pub open spec fn source_name(source: KnowledgeBaseSource) -> Option<Seq<char>> {
    match source {
        KnowledgeBaseSource::Upload => Some("upload"@),
        KnowledgeBaseSource::Web(url) => url_base(url@),
    }
}

/// Law: the name under which a web source is stored is the start of its
/// URL, and longer than the scheme alone.
pub proof fn lemma_source_name_is_prefix(url: Seq<char>)
    ensures
        url_base(url) matches Some(b) ==> b == url.take(b.len() as int) && b.len() > scheme_len(url)
            > 0,
{
    if scheme_len(url) >= 0 {
        crate::text::lemma_find_from_found(url, seq!['/'], scheme_len(url));
    }
}

/// The name under which a source is stored.
pub fn normalize_source(source: &KnowledgeBaseSource) -> (r: String)
    requires
        source_name(*source) is Some,
    ensures
        source_name(*source) == Some(r@),
{
    match source {
        KnowledgeBaseSource::Upload => "upload".to_owned(),
        KnowledgeBaseSource::Web(url) => {
            let cs = chars_of(url.as_str());
            proof {
                reveal_strlit("https://");
                reveal_strlit("http://");
            }
            let https = cs.len() >= 8 && cs[0] == 'h' && cs[1] == 't' && cs[2] == 't' && cs[3]
                == 'p' && cs[4] == 's' && cs[5] == ':' && cs[6] == '/' && cs[7] == '/';
            assert(https == occurs_at(url@, "https://"@, 0)) by {
                if occurs_at(url@, "https://"@, 0) {
                    assert(url@.subrange(0, 8)[0] == url@[0]);
                    assert(url@.subrange(0, 8)[1] == url@[1]);
                    assert(url@.subrange(0, 8)[2] == url@[2]);
                    assert(url@.subrange(0, 8)[3] == url@[3]);
                    assert(url@.subrange(0, 8)[4] == url@[4]);
                    assert(url@.subrange(0, 8)[5] == url@[5]);
                    assert(url@.subrange(0, 8)[6] == url@[6]);
                    assert(url@.subrange(0, 8)[7] == url@[7]);
                }
                if https {
                    assert(url@.subrange(0, 8) =~= "https://"@);
                }
            }
            let http = cs.len() >= 7 && cs[0] == 'h' && cs[1] == 't' && cs[2] == 't' && cs[3]
                == 'p' && cs[4] == ':' && cs[5] == '/' && cs[6] == '/';
            assert(http == occurs_at(url@, "http://"@, 0)) by {
                if occurs_at(url@, "http://"@, 0) {
                    assert(url@.subrange(0, 7)[0] == url@[0]);
                    assert(url@.subrange(0, 7)[1] == url@[1]);
                    assert(url@.subrange(0, 7)[2] == url@[2]);
                    assert(url@.subrange(0, 7)[3] == url@[3]);
                    assert(url@.subrange(0, 7)[4] == url@[4]);
                    assert(url@.subrange(0, 7)[5] == url@[5]);
                    assert(url@.subrange(0, 7)[6] == url@[6]);
                }
                if http {
                    assert(url@.subrange(0, 7) =~= "http://"@);
                }
            }
            let start: usize = if https {
                8
            } else {
                7
            };
            let mut k = start;
            while k < cs.len() && cs[k] != '/'
                invariant
                    cs@ == url@,
                    start <= k <= cs.len(),
                    forall|j: int| start <= j < k ==> cs@[j] != '/',
                decreases cs.len() - k,
            {
                k = k + 1;
            }
            proof {
                assert forall|j: int| start <= j < k implies !occurs_at(url@, seq!['/'], j) by {
                    if occurs_at(url@, seq!['/'], j) {
                        assert(url@.subrange(j, j + 1)[0] == url@[j]);
                    }
                }
                if k < cs.len() {
                    assert(url@.subrange(k as int, k + 1) =~= seq!['/']);
                    lemma_find_from_first(url@, seq!['/'], start as int, k as int);
                } else {
                    crate::text::lemma_find_from_none_after(url@, seq!['/'], start as int);
                }
            }
            url.as_str().substring_char(0, k).to_owned()
        },
    }
}

/// The text of an uploaded document read page by page: each page's text
/// followed by a blank line.
pub open spec fn pages_text(pages: Seq<Seq<char>>) -> Seq<char>
    decreases pages.len(),
{
    if pages.len() == 0 {
        Seq::empty()
    } else {
        pages_text(pages.drop_last()) + pages.last() + "\n\n"@
    }
}

/// Joins the texts of a document's pages into the content of a knowledge
/// base.
pub fn pages_to_markdown(pages: &Vec<String>) -> (r: String)
    ensures
        r@ == pages_text(views(pages@)),
{
    let mut markdown = String::new();
    let mut i: usize = 0;
    while i < pages.len()
        invariant
            i <= pages.len(),
            markdown@ == pages_text(views(pages@).take(i as int)),
        decreases pages.len() - i,
    {
        assert(views(pages@).take(i + 1).drop_last() =~= views(pages@).take(i as int));
        markdown.append(pages[i].as_str());
        markdown.append("\n\n");
        i = i + 1;
    }
    assert(views(pages@).take(i as int) =~= views(pages@));
    markdown
}

/// The block of one knowledge base in the aggregate.
pub open spec fn knowledge_block(kb: KnowledgeBase) -> Seq<char> {
    "Label:\n"@ + kb.label@ + "\n\nContent:\n"@ + kb.content@
}

/// All of an owner's knowledge bases as one text: one labelled block each,
/// separated by blank lines.
pub open spec fn aggregated_of(kbs: Seq<KnowledgeBase>) -> Seq<char> {
    join(kbs.map_values(|kb: KnowledgeBase| knowledge_block(kb)), "\n\n"@)
}

/// Aggregates an owner's knowledge bases into one text.
pub fn aggregate_knowledge_bases(kbs: &Vec<KnowledgeBase>) -> (r: String)
    ensures
        r@ == aggregated_of(kbs@),
{
    let ghost want = kbs@.map_values(|kb: KnowledgeBase| knowledge_block(kb));
    let mut blocks: Vec<String> = Vec::new();
    let mut i: usize = 0;
    while i < kbs.len()
        invariant
            i <= kbs.len(),
            want == kbs@.map_values(|kb: KnowledgeBase| knowledge_block(kb)),
            views(blocks@) =~= want.take(i as int),
        decreases kbs.len() - i,
    {
        let kb = &kbs[i];
        let pieces = ["Label:\n", kb.label.as_str(), "\n\nContent:\n", kb.content.as_str()];
        let block = concat_strs(&pieces);
        proof {
            assert(str_views(pieces@) =~= seq!["Label:\n"@, kb.label@, "\n\nContent:\n"@, kb.content@]);
            reveal_with_fuel(concat, 5);
            assert(block@ =~= knowledge_block(*kb));
        }
        let ghost before = views(blocks@);
        blocks.push(block);
        assert(views(blocks@) =~= before.push(block@));
        assert(want.take(i + 1) =~= want.take(i as int).push(want[i as int]));
        i = i + 1;
    }
    assert(want.take(i as int) =~= want);
    join_strings(&blocks, "\n\n")
}

/// What adding a knowledge base writes: with a stored knowledge base of the
/// same owner and source, its content merged with the new content; else a
/// new knowledge base under the normalized source name.
pub fn plan_add(payload: AddKnowledgeBase, existing: Option<&KnowledgeBase>) -> (r: KnowledgeBaseWrite)
    requires
        source_name(payload.source) is Some,
    ensures
        existing matches Some(kb) ==> (r matches KnowledgeBaseWrite::UpdateContent(c) && c@
            == merged_content(kb.content@, payload.content@)),
        existing is None ==> (r matches KnowledgeBaseWrite::Create(ck) && ck.owner_id
            == payload.owner_id && ck.label == payload.label && ck.content == payload.content
            && source_name(payload.source) == Some(ck.source@)),
{
    match existing {
        Some(kb) => KnowledgeBaseWrite::UpdateContent(
            merge_content(kb.content.as_str(), payload.content.as_str()),
        ),
        None => {
            let source = normalize_source(&payload.source);
            KnowledgeBaseWrite::Create(
                CreateKnowledgeBase {
                    owner_id: payload.owner_id,
                    label: payload.label,
                    content: payload.content,
                    source,
                },
            )
        },
    }
}

/// A knowledge base as the API reports it.
#[derive(Debug, Clone)]
pub struct KnowledgeBaseResponse {
    pub id: String,
    pub label: String,
    pub content: String,
    pub source: String,
    pub last_updated: String,
}

impl KnowledgeBaseResponse {
    /// The response for a stored knowledge base.
    pub fn new(knowledge_base: &KnowledgeBase) -> (r: KnowledgeBaseResponse)
        ensures
            r.id == knowledge_base.pid,
            r.label == knowledge_base.label,
            r.content == knowledge_base.content,
            r.source == knowledge_base.source,
            r.last_updated == knowledge_base.updated_at,
    {
        KnowledgeBaseResponse {
            id: knowledge_base.pid.clone(),
            label: knowledge_base.label.clone(),
            content: knowledge_base.content.clone(),
            source: knowledge_base.source.clone(),
            last_updated: knowledge_base.updated_at.clone(),
        }
    }
}

/// A request to upload a document as a knowledge base.
#[derive(Debug, Clone)]
pub struct UploadKnowledgeBaseRequest {
    pub label: String,
}

/// A request to add a knowledge base written out in full.
#[derive(Debug, Clone)]
pub struct AddKnowledgeBaseRequest {
    pub label: String,
    pub content: String,
}

/// The error of a label shorter than two characters.
pub open spec fn label_errors(label: Seq<char>) -> Seq<FieldErrorModel> {
    failed(label.len() >= 2, "label"@, "length"@, None)
}

/// The errors of an added knowledge base: a label of at least two
/// characters and a content of at least ten.
pub open spec fn add_errors(label: Seq<char>, content: Seq<char>) -> Seq<FieldErrorModel> {
    label_errors(label) + failed(content.len() >= 10, "content"@, "length"@, None)
}

impl UploadKnowledgeBaseRequest {
    /// Checks the request: a label of at least two characters.
    pub fn validate(&self) -> (r: Result<(), Vec<FieldError>>)
        ensures
            outcome(r, label_errors(self.label@)),
    {
        let mut errors: Vec<FieldError> = Vec::new();
        push_failed(&mut errors, has_min_chars(self.label.as_str(), 2), "label", "length", None);
        to_result(errors)
    }
}

impl AddKnowledgeBaseRequest {
    /// Checks the request: a label of at least two characters and a content
    /// of at least ten.
    pub fn validate(&self) -> (r: Result<(), Vec<FieldError>>)
        ensures
            outcome(r, add_errors(self.label@, self.content@)),
    {
        let mut errors: Vec<FieldError> = Vec::new();
        push_failed(&mut errors, has_min_chars(self.label.as_str(), 2), "label", "length", None);
        push_failed(&mut errors, has_min_chars(self.content.as_str(), 10), "content", "length", None);
        to_result(errors)
    }
}

} // verus!

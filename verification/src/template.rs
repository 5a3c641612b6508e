//! Rendering of a resume: Markdown, the layout of a PDF page, and the line
//! breaking of running text for fixed-width layouts.

use vstd::prelude::*;
use crate::resume::{
    contact_fields, contact_is_empty, contact_md_fields, contact_sep, education_line, education_models,
    experience_heading, experience_models, fmt_contact_md, fmt_education_line,
    fmt_experience_heading, project_models, section_models, ContactModel, Education,
    EducationModel, ExperienceModel, Project, ProjectModel, Resume, Section, SectionModel,
    WorkExperience,
};
use crate::text::{
    join, join_strings, lemma_words_are_words, push_char, split_whitespace, views, words,
};
use vstd::utf8::{encode_scalar, encode_utf8, has_width_1_encoding};

verus! {

/// Renders a resume into some output format.
pub trait ResumeTemplate {
    type Output;

    fn render(&self, resume: &Resume) -> Self::Output;
}

/// The Markdown renderer.
pub struct MarkdownTemplate;

/// "- " before each item.
pub open spec fn bullets(items: Seq<Seq<char>>) -> Seq<Seq<char>> {
    items.map_values(|b: Seq<char>| "- "@ + b)
}

/// The Markdown blocks of the entries of an experience section.
pub open spec fn experience_blocks(es: Seq<ExperienceModel>) -> Seq<Seq<char>>
    decreases es.len(),
{
    if es.len() == 0 {
        Seq::empty()
    } else {
        experience_blocks(es.drop_last()) + seq![experience_heading(es.last())] + bullets(
            es.last().highlights,
        )
    }
}

/// The Markdown blocks of the entries of a projects section.
pub open spec fn project_blocks(ps: Seq<ProjectModel>) -> Seq<Seq<char>>
    decreases ps.len(),
{
    if ps.len() == 0 {
        Seq::empty()
    } else {
        project_blocks(ps.drop_last()) + seq!["### "@ + ps.last().name, ps.last().description]
            + bullets(ps.last().highlights)
    }
}

/// The Markdown contact line of a header, when there is a non-empty contact.
pub open spec fn contact_block(c: Option<ContactModel>) -> Seq<Seq<char>> {
    match c {
        Some(c) => if !contact_is_empty(c) {
            seq![join(contact_md_fields(c), contact_sep())]
        } else {
            Seq::empty()
        },
        None => Seq::empty(),
    }
}

/// The Markdown blocks of one section.
pub open spec fn section_blocks(s: SectionModel) -> Seq<Seq<char>> {
    match s {
        SectionModel::Header { name, contact } => seq!["# "@ + name] + contact_block(contact),
        SectionModel::Summary(content) => seq!["## Summary"@, content],
        SectionModel::Experience(es) => seq!["## Experience"@] + experience_blocks(es),
        SectionModel::Education(es) => seq!["## Education"@] + es.map_values(
            |e: EducationModel| education_line(e),
        ),
        SectionModel::Skills(skills) => seq!["## Skills"@, join(skills, " · "@)],
        SectionModel::Projects(ps) => seq!["## Projects"@] + project_blocks(ps),
        SectionModel::Certifications(items) => seq!["## Certifications"@] + bullets(items),
    }
}

/// The Markdown blocks of a list of sections, in order.
pub open spec fn sections_blocks(ss: Seq<SectionModel>) -> Seq<Seq<char>>
    decreases ss.len(),
{
    if ss.len() == 0 {
        Seq::empty()
    } else {
        sections_blocks(ss.drop_last()) + section_blocks(ss.last())
    }
}

/// The Markdown text of a resume: its blocks separated by blank lines.
pub open spec fn markdown_of(sections: Seq<SectionModel>) -> Seq<char> {
    join(sections_blocks(sections), "\n\n"@)
}

/// Appends `prefix` + the item, for each item.
fn push_prefixed(parts: &mut Vec<String>, items: &Vec<String>, prefix: &str)
    ensures
        views(final(parts)@) == views(old(parts)@) + views(items@).map_values(
            |b: Seq<char>| prefix@ + b,
        ),
{
    let ghost start = views(parts@);
    let ghost want = views(items@).map_values(|b: Seq<char>| prefix@ + b);
    let mut i: usize = 0;
    while i < items.len()
        invariant
            i <= items.len(),
            start == views(old(parts)@),
            want == views(items@).map_values(|b: Seq<char>| prefix@ + b),
            views(parts@) =~= start + want.take(i as int),
        decreases items.len() - i,
    {
        let mut line = prefix.to_owned();
        line.append(items[i].as_str());
        let ghost before = views(parts@);
        parts.push(line);
        assert(views(parts@) =~= before.push(line@));
        assert(want.take(i + 1) =~= want.take(i as int).push(want[i as int]));
        i = i + 1;
    }
    assert(want.take(i as int) =~= want);
}

/// Appends the blocks of the entries of an experience section.
fn push_experience_blocks(parts: &mut Vec<String>, entries: &Vec<WorkExperience>)
    ensures
        views(final(parts)@) == views(old(parts)@) + experience_blocks(
            experience_models(entries@),
        ),
{
    let ghost start = views(parts@);
    let ghost es = experience_models(entries@);
    let mut i: usize = 0;
    while i < entries.len()
        invariant
            i <= entries.len(),
            start == views(old(parts)@),
            es == experience_models(entries@),
            views(parts@) =~= start + experience_blocks(es.take(i as int)),
        decreases entries.len() - i,
    {
        assert(es.take(i + 1).drop_last() =~= es.take(i as int));
        assert(es.take(i + 1).last() == es[i as int]);
        let ghost before = views(parts@);
        let heading = fmt_experience_heading(&entries[i]);
        parts.push(heading);
        let ghost mid = views(parts@);
        assert(mid =~= before + seq![heading@]);
        push_prefixed(parts, &entries[i].highlights, "- ");
        assert(views(entries[i as int].highlights@).map_values(|b: Seq<char>| "- "@ + b)
            =~= bullets(es[i as int].highlights));
        assert(views(parts@) =~= before + seq![experience_heading(es[i as int])] + bullets(
            es[i as int].highlights,
        ));
        i = i + 1;
    }
    assert(es.take(i as int) =~= es);
}

/// Appends the blocks of the entries of a projects section.
fn push_project_blocks(parts: &mut Vec<String>, entries: &Vec<Project>)
    ensures
        views(final(parts)@) == views(old(parts)@) + project_blocks(project_models(entries@)),
{
    let ghost start = views(parts@);
    let ghost ps = project_models(entries@);
    let mut i: usize = 0;
    while i < entries.len()
        invariant
            i <= entries.len(),
            start == views(old(parts)@),
            ps == project_models(entries@),
            views(parts@) =~= start + project_blocks(ps.take(i as int)),
        decreases entries.len() - i,
    {
        assert(ps.take(i + 1).drop_last() =~= ps.take(i as int));
        assert(ps.take(i + 1).last() == ps[i as int]);
        let ghost before = views(parts@);
        let mut heading = "### ".to_owned();
        heading.append(entries[i].name.as_str());
        parts.push(heading);
        let description = entries[i].description.clone();
        parts.push(description);
        let ghost mid = views(parts@);
        assert(mid =~= before + seq![heading@, description@]);
        push_prefixed(parts, &entries[i].highlights, "- ");
        assert(views(entries[i as int].highlights@).map_values(|b: Seq<char>| "- "@ + b)
            =~= bullets(ps[i as int].highlights));
        assert(views(parts@) =~= before + seq!["### "@ + ps[i as int].name, ps[i as int].description]
            + bullets(ps[i as int].highlights));
        i = i + 1;
    }
    assert(ps.take(i as int) =~= ps);
}

/// Appends the lines of the entries of an education section.
fn push_education_lines(parts: &mut Vec<String>, entries: &Vec<Education>)
    ensures
        views(final(parts)@) == views(old(parts)@) + education_models(entries@).map_values(
            |e: EducationModel| education_line(e),
        ),
{
    let ghost start = views(parts@);
    let ghost want = education_models(entries@).map_values(|e: EducationModel| education_line(e));
    let mut i: usize = 0;
    while i < entries.len()
        invariant
            i <= entries.len(),
            start == views(old(parts)@),
            want == education_models(entries@).map_values(
                |e: EducationModel| education_line(e),
            ),
            views(parts@) =~= start + want.take(i as int),
        decreases entries.len() - i,
    {
        let line = fmt_education_line(&entries[i]);
        let ghost before = views(parts@);
        parts.push(line);
        assert(views(parts@) =~= before.push(line@));
        assert(want.take(i + 1) =~= want.take(i as int).push(want[i as int]));
        i = i + 1;
    }
    assert(want.take(i as int) =~= want);
}

/// Appends the Markdown blocks of one section.
fn push_section_blocks(parts: &mut Vec<String>, section: &Section)
    ensures
        views(final(parts)@) == views(old(parts)@) + section_blocks(section@),
{
    let ghost start = views(parts@);
    match section {
        Section::Header(h) => {
            let mut title = "# ".to_owned();
            title.append(h.name.as_str());
            parts.push(title);
            if let Some(c) = &h.contact {
                if !c.is_empty() {
                    parts.push(fmt_contact_md(c));
                }
            }
        },
        Section::Summary(s) => {
            parts.push("## Summary".to_owned());
            parts.push(s.content.clone());
        },
        Section::Experience(e) => {
            parts.push("## Experience".to_owned());
            push_experience_blocks(parts, &e.entries);
        },
        Section::Education(e) => {
            parts.push("## Education".to_owned());
            push_education_lines(parts, &e.entries);
        },
        Section::Skills(s) => {
            parts.push("## Skills".to_owned());
            parts.push(join_strings(&s.skills, " · "));
        },
        Section::Projects(p) => {
            parts.push("## Projects".to_owned());
            push_project_blocks(parts, &p.entries);
        },
        Section::Certifications(c) => {
            parts.push("## Certifications".to_owned());
            push_prefixed(parts, &c.items, "- ");
        },
    }
    assert(views(parts@) =~= start + section_blocks(section@));
}

impl ResumeTemplate for MarkdownTemplate {
    type Output = String;

    fn render(&self, resume: &Resume) -> (r: String)
        ensures
            r@ == markdown_of(section_models(resume.sections@)),
    {
        let mut parts: Vec<String> = Vec::new();
        let ghost ss = section_models(resume.sections@);
        let mut i: usize = 0;
        while i < resume.sections.len()
            invariant
                i <= resume.sections.len(),
                ss == section_models(resume.sections@),
                views(parts@) =~= sections_blocks(ss.take(i as int)),
            decreases resume.sections.len() - i,
        {
            assert(ss.take(i + 1).drop_last() =~= ss.take(i as int));
            push_section_blocks(&mut parts, &resume.sections[i]);
            i = i + 1;
        }
        assert(ss.take(i as int) =~= ss);
        join_strings(&parts, "\n\n")
    }
}

/// Joining two non-empty lists is joining each and putting the separator
/// between the two.
proof fn lemma_join_concat(x: Seq<Seq<char>>, y: Seq<Seq<char>>, sep: Seq<char>)
    requires
        x.len() > 0,
        y.len() > 0,
    ensures
        join(x + y, sep) == join(x, sep) + sep + join(y, sep),
    decreases y.len(),
{
    assert((x + y).drop_last() =~= x + y.drop_last());
    assert((x + y).last() == y.last());
    if y.len() == 1 {
        assert(y.drop_last() =~= Seq::<Seq<char>>::empty());
        assert(x + y.drop_last() =~= x);
    } else {
        lemma_join_concat(x, y.drop_last(), sep);
        assert(join(x + y, sep) =~= join(x, sep) + sep + join(y.drop_last(), sep) + sep + y.last());
    }
}

/// The blocks of two lists of sections are the blocks of each, in order.
proof fn lemma_sections_blocks_concat(a: Seq<SectionModel>, b: Seq<SectionModel>)
    ensures
        sections_blocks(a + b) == sections_blocks(a) + sections_blocks(b),
    decreases b.len(),
{
    if b.len() == 0 {
        assert(a + b =~= a);
        assert(sections_blocks(a) + sections_blocks(b) =~= sections_blocks(a));
    } else {
        lemma_sections_blocks_concat(a, b.drop_last());
        assert((a + b).drop_last() =~= a + b.drop_last());
        assert((a + b).last() == b.last());
        assert(sections_blocks(a + b) =~= sections_blocks(a) + sections_blocks(b));
    }
}

/// Every section gives at least one block, so a non-empty list of sections
/// gives blocks.
proof fn lemma_sections_blocks_non_empty(a: Seq<SectionModel>)
    requires
        a.len() > 0,
    ensures
        sections_blocks(a).len() > 0,
{
    assert(section_blocks(a.last()).len() > 0);
}

/// Law: a resume without sections renders to nothing, and rendering the
/// sections of two resumes one after the other gives the two renderings
/// separated by a blank line.
pub proof fn lemma_markdown_concat(a: Seq<SectionModel>, b: Seq<SectionModel>)
    ensures
        markdown_of(Seq::empty()) == Seq::<char>::empty(),
        a.len() > 0 && b.len() > 0 ==> markdown_of(a + b) == markdown_of(a) + "\n\n"@
            + markdown_of(b),
{
    if a.len() > 0 && b.len() > 0 {
        lemma_sections_blocks_concat(a, b);
        lemma_sections_blocks_non_empty(a);
        lemma_sections_blocks_non_empty(b);
        lemma_join_concat(sections_blocks(a), sections_blocks(b), "\n\n"@);
    }
}

/// The length of `s` in bytes, as UTF-8.
pub open spec fn byte_len(s: Seq<char>) -> int {
    encode_utf8(s).len() as int
}

/// The lines already broken off, and the line being filled, after greedily
/// placing the words `ws` on lines of at most `cap` bytes.
pub open spec fn wrap_state(ws: Seq<Seq<char>>, cap: int) -> (Seq<Seq<char>>, Seq<char>)
    decreases ws.len(),
{
    if ws.len() == 0 {
        (Seq::empty(), Seq::empty())
    } else {
        let (done, cur) = wrap_state(ws.drop_last(), cap);
        let w = ws.last();
        if cur.len() > 0 && byte_len(cur) + 1 + byte_len(w) > cap {
            (done.push(cur), w)
        } else if cur.len() > 0 {
            (done, cur + seq![' '] + w)
        } else {
            (done, w)
        }
    }
}

/// The lines of `text` broken greedily at white space so that a line holds
/// at most `cap` bytes, unless it is a single longer word.
pub open spec fn wrapped_lines(text: Seq<char>, cap: int) -> Seq<Seq<char>> {
    let (done, cur) = wrap_state(words(text), cap);
    if cur.len() > 0 {
        done.push(cur)
    } else {
        done
    }
}

/// Breaks `text` into lines of at most `cap` bytes at white space, one
/// space between the words of a line; a word longer than `cap` stands on a
/// line of its own.
pub fn wrap_words(text: &str, cap: usize) -> (r: Vec<String>)
    ensures
        views(r@) == wrapped_lines(text@, cap as int),
{
    let ws = split_whitespace(text);
    let ghost wv = views(ws@);
    let mut lines: Vec<String> = Vec::new();
    let mut cur = String::new();
    let mut i: usize = 0;
    while i < ws.len()
        invariant
            i <= ws.len(),
            wv == views(ws@),
            views(lines@) == wrap_state(wv.take(i as int), cap as int).0,
            cur@ == wrap_state(wv.take(i as int), cap as int).1,
        decreases ws.len() - i,
    {
        assert(wv.take(i + 1).drop_last() =~= wv.take(i as int));
        assert(wv.take(i + 1).last() == ws@[i as int]@);
        let word = ws[i].as_str();
        let cur_len = cur.as_str().as_bytes().len();
        let word_len = word.as_bytes().len();
        assert(cur_len == byte_len(cur@));
        assert(word_len == byte_len(word@));
        let ghost st = wrap_state(wv.take(i as int), cap as int);
        if !cur.as_str().is_empty() && (cur_len >= cap || word_len > cap - cur_len - 1) {
            let done = cur;
            let ghost before = views(lines@);
            lines.push(done);
            assert(views(lines@) =~= before.push(done@));
            cur = word.to_owned();
        } else {
            let ghost old_cur = cur@;
            if !cur.as_str().is_empty() {
                push_char(&mut cur, ' ');
            }
            cur.append(word);
            assert(old_cur.len() > 0 ==> cur@ =~= old_cur + seq![' '] + word@);
            assert(old_cur.len() == 0 ==> cur@ =~= word@);
        }
        i = i + 1;
    }
    assert(wv.take(i as int) =~= wv);
    if !cur.as_str().is_empty() {
        let ghost before = views(lines@);
        lines.push(cur);
        assert(views(lines@) =~= before.push(cur@));
    }
    lines
}

proof fn lemma_encode_utf8_concat(a: Seq<char>, b: Seq<char>)
    ensures
        encode_utf8(a + b) == encode_utf8(a) + encode_utf8(b),
    decreases a.len(),
{
    if a.len() == 0 {
        assert(a + b =~= b);
    } else {
        assert((a + b).drop_first() =~= a.drop_first() + b);
        lemma_encode_utf8_concat(a.drop_first(), b);
        assert(encode_utf8(a + b) =~= encode_utf8(a) + encode_utf8(b));
    }
}

proof fn lemma_join_push(parts: Seq<Seq<char>>, x: Seq<char>, sep: Seq<char>)
    requires
        parts.len() > 0,
    ensures
        join(parts.push(x), sep) == join(parts, sep) + sep + x,
{
    assert(parts.push(x).drop_last() =~= parts);
}

proof fn lemma_wrap_state(ws: Seq<Seq<char>>, cap: int)
    requires
        forall|k: int| 0 <= k < ws.len() ==> (#[trigger] ws[k]).len() > 0,
    ensures
        ({
            let (done, cur) = wrap_state(ws, cap);
            &&& ws.len() == 0 ==> done.len() == 0 && cur.len() == 0
            &&& ws.len() > 0 ==> cur.len() > 0 && join(done.push(cur), seq![' ']) == join(
                ws,
                seq![' '],
            )
            &&& forall|k: int|
                0 <= k < done.push(cur).len() && (k < done.len() || cur.len() > 0) ==> (
                byte_len(#[trigger] done.push(cur)[k]) <= cap || ws.contains(done.push(cur)[k]))
        }),
    decreases ws.len(),
{
    if ws.len() > 0 {
        let prev = ws.drop_last();
        assert forall|k: int| 0 <= k < prev.len() implies (#[trigger] prev[k]).len() > 0 by {
            assert(prev[k] == ws[k]);
        }
        lemma_wrap_state(prev, cap);
        let (done, cur) = wrap_state(prev, cap);
        let w = ws.last();
        assert(w.len() > 0);
        assert(ws =~= prev.push(w));
        assert forall|l: Seq<char>| prev.contains(l) implies ws.contains(l) by {
            let k = choose|k: int| 0 <= k < prev.len() && prev[k] == l;
            assert(ws[k] == l);
        }
        assert(ws.contains(w)) by {
            assert(ws[ws.len() - 1] == w);
        }
        if cur.len() > 0 && byte_len(cur) + 1 + byte_len(w) > cap {
            let nd = done.push(cur);
            lemma_join_push(nd, w, seq![' ']);
            lemma_join_push(prev, w, seq![' ']);
            assert forall|k: int|
                0 <= k < nd.push(w).len() implies (byte_len(#[trigger] nd.push(w)[k]) <= cap
                || ws.contains(nd.push(w)[k])) by {
                if k < nd.len() {
                    assert(nd.push(w)[k] == done.push(cur)[k]);
                }
            }
        } else if cur.len() > 0 {
            let nc = cur + seq![' '] + w;
            lemma_encode_utf8_concat(cur + seq![' '], w);
            lemma_encode_utf8_concat(cur, seq![' ']);
            assert(encode_utf8(seq![' ']).len() == 1) by {
                let sp = seq![' '];
                assert(sp.drop_first() =~= Seq::<char>::empty());
                assert(sp[0] as u32 == 32);
                assert(has_width_1_encoding(32));
                assert(encode_scalar(sp[0] as u32).len() == 1);
                assert(encode_utf8(sp.drop_first()) =~= Seq::<u8>::empty());
                assert(encode_utf8(sp) == encode_scalar(sp[0] as u32) + encode_utf8(
                    sp.drop_first(),
                ));
            }
            lemma_join_push(prev, w, seq![' ']);
            if done.len() > 0 {
                lemma_join_push(done, cur, seq![' ']);
                lemma_join_push(done, nc, seq![' ']);
            } else {
                assert(done.push(cur) =~= seq![cur]);
                assert(done.push(nc) =~= seq![nc]);
            }
            assert forall|k: int|
                0 <= k < done.push(nc).len() implies (byte_len(#[trigger] done.push(nc)[k]) <= cap
                || ws.contains(done.push(nc)[k])) by {
                if k < done.len() {
                    assert(done.push(nc)[k] == done.push(cur)[k]);
                }
            }
        } else {
            assert(prev.len() == 0);
            assert(ws =~= seq![w]);
            assert(done.push(w) =~= seq![w]);
        }
    }
}

/// Law: wrapping loses, adds and reorders no word — the lines joined with
/// single spaces give the words of the text joined with single spaces.
pub proof fn lemma_wrap_keeps_words(text: Seq<char>, cap: int)
    ensures
        join(wrapped_lines(text, cap), seq![' ']) == join(words(text), seq![' ']),
{
    lemma_words_are_words(text);
    lemma_wrap_state(words(text), cap);
    let (done, cur) = wrap_state(words(text), cap);
    if words(text).len() == 0 {
        assert(wrapped_lines(text, cap) =~= Seq::<Seq<char>>::empty());
    }
}

/// Law: every wrapped line fits in `cap` bytes, unless it is a single word
/// of the text that is longer than that.
pub proof fn lemma_wrap_fits(text: Seq<char>, cap: int)
    ensures
        forall|k: int|
            0 <= k < wrapped_lines(text, cap).len() ==> byte_len(
                #[trigger] wrapped_lines(text, cap)[k],
            ) <= cap || words(text).contains(wrapped_lines(text, cap)[k]),
{
    lemma_words_are_words(text);
    lemma_wrap_state(words(text), cap);
}

/// The type sizes of the PDF layout.
#[derive(Debug, Clone, Copy, PartialEq, Eq, Structural)]
pub enum TextSize {
    /// The candidate's name (22 pt).
    Name,
    /// The contact line (9.5 pt).
    Contact,
    /// Section titles (11 pt).
    SectionTitle,
    /// Body text (10 pt).
    Body,
    /// Bullets and descriptions (9 pt).
    Small,
}

/// One step of the PDF layout of a resume, top to bottom. Vertical space is
/// counted in tenths of a millimetre.
#[derive(Debug, Clone)]
pub enum PdfBlock {
    /// A single line of text, then `after` of space.
    Line { text: String, bold: bool, size: TextSize, after: u32 },
    /// Running text in the regular face, broken into lines that fit the
    /// content width.
    Wrapped { text: String, size: TextSize },
    /// Vertical space.
    Gap(u32),
    /// A thin horizontal rule across the content width.
    Rule,
}

/// The content of a layout step.
pub enum BlockModel {
    Line { text: Seq<char>, bold: bool, size: TextSize, after: u32 },
    Wrapped { text: Seq<char>, size: TextSize },
    Gap(u32),
    Rule,
}

impl View for PdfBlock {
    type V = BlockModel;

    open spec fn view(&self) -> BlockModel {
        match self {
            PdfBlock::Line { text, bold, size, after } => BlockModel::Line {
                text: text@,
                bold: *bold,
                size: *size,
                after: *after,
            },
            PdfBlock::Wrapped { text, size } => BlockModel::Wrapped { text: text@, size: *size },
            PdfBlock::Gap(g) => BlockModel::Gap(*g),
            PdfBlock::Rule => BlockModel::Rule,
        }
    }
}

/// The contents of a list of layout steps.
pub open spec fn block_views(v: Seq<PdfBlock>) -> Seq<BlockModel> {
    v.map_values(|b: PdfBlock| b@)
}

/// The steps that open a section: space, the title in bold capitals, a rule,
/// and a little more space.
pub open spec fn title_blocks(title: Seq<char>) -> Seq<BlockModel> {
    seq![
        BlockModel::Gap(50),
        BlockModel::Line { text: title, bold: true, size: TextSize::SectionTitle, after: 5 },
        BlockModel::Rule,
        BlockModel::Gap(25),
    ]
}

/// A bullet point before a text.
pub open spec fn bulleted(b: Seq<char>) -> Seq<char> {
    "\u{2022}  "@ + b
}

/// Each item as a bulleted paragraph of small text.
pub open spec fn wrapped_bullets(items: Seq<Seq<char>>) -> Seq<BlockModel> {
    items.map_values(|b: Seq<char>| BlockModel::Wrapped { text: bulleted(b), size: TextSize::Small })
}

/// The steps of the entries of an experience section.
pub open spec fn pdf_experience_blocks(es: Seq<ExperienceModel>) -> Seq<BlockModel>
    decreases es.len(),
{
    if es.len() == 0 {
        Seq::empty()
    } else {
        pdf_experience_blocks(es.drop_last()) + seq![
            BlockModel::Line {
                text: experience_heading(es.last()),
                bold: true,
                size: TextSize::Body,
                after: 10,
            },
        ] + wrapped_bullets(es.last().highlights) + seq![BlockModel::Gap(30)]
    }
}

/// The steps of the entries of a projects section.
pub open spec fn pdf_project_blocks(ps: Seq<ProjectModel>) -> Seq<BlockModel>
    decreases ps.len(),
{
    if ps.len() == 0 {
        Seq::empty()
    } else {
        pdf_project_blocks(ps.drop_last()) + seq![
            BlockModel::Line { text: ps.last().name, bold: true, size: TextSize::Body, after: 10 },
            BlockModel::Wrapped { text: ps.last().description, size: TextSize::Small },
        ] + wrapped_bullets(ps.last().highlights) + seq![BlockModel::Gap(30)]
    }
}

/// The contact line of a header, when there is a non-empty contact.
pub open spec fn pdf_contact_blocks(c: Option<ContactModel>) -> Seq<BlockModel> {
    match c {
        Some(c) => if !contact_is_empty(c) {
            seq![
                BlockModel::Line {
                    text: join(contact_fields(c), contact_sep()),
                    bold: false,
                    size: TextSize::Contact,
                    after: 10,
                },
            ]
        } else {
            Seq::empty()
        },
        None => Seq::empty(),
    }
}

/// The PDF layout steps of one section.
pub open spec fn pdf_section_blocks(s: SectionModel) -> Seq<BlockModel> {
    match s {
        SectionModel::Header { name, contact } => seq![
            BlockModel::Line { text: name, bold: true, size: TextSize::Name, after: 25 },
        ] + pdf_contact_blocks(contact),
        SectionModel::Summary(content) => title_blocks("SUMMARY"@) + seq![
            BlockModel::Wrapped { text: content, size: TextSize::Body },
        ],
        SectionModel::Experience(es) => title_blocks("EXPERIENCE"@) + pdf_experience_blocks(es),
        SectionModel::Education(es) => title_blocks("EDUCATION"@) + es.map_values(
            |e: EducationModel|
                BlockModel::Line { text: education_line(e), bold: true, size: TextSize::Body, after: 20 },
        ),
        SectionModel::Skills(skills) => title_blocks("SKILLS"@) + seq![
            BlockModel::Wrapped { text: join(skills, contact_sep()), size: TextSize::Body },
        ],
        SectionModel::Projects(ps) => title_blocks("PROJECTS"@) + pdf_project_blocks(ps),
        SectionModel::Certifications(items) => title_blocks("CERTIFICATIONS"@) + items.map_values(
            |i: Seq<char>|
                BlockModel::Line { text: bulleted(i), bold: false, size: TextSize::Body, after: 15 },
        ),
    }
}

/// The PDF layout steps of a list of sections, in order.
pub open spec fn pdf_layout_of(ss: Seq<SectionModel>) -> Seq<BlockModel>
    decreases ss.len(),
{
    if ss.len() == 0 {
        Seq::empty()
    } else {
        pdf_layout_of(ss.drop_last()) + pdf_section_blocks(ss.last())
    }
}

/// The PDF renderer: it lays a resume out as steps, which a PDF writer
/// then draws on A4 pages.
pub struct PdfTemplate;

/// Appends the opening steps of a section.
fn push_title(blocks: &mut Vec<PdfBlock>, title: &str)
    ensures
        block_views(final(blocks)@) == block_views(old(blocks)@) + title_blocks(title@),
{
    let ghost start = block_views(blocks@);
    blocks.push(PdfBlock::Gap(50));
    blocks.push(PdfBlock::Line { text: title.to_owned(), bold: true, size: TextSize::SectionTitle, after: 5 });
    blocks.push(PdfBlock::Rule);
    blocks.push(PdfBlock::Gap(25));
    assert(block_views(blocks@) =~= start + title_blocks(title@));
}

/// A bullet point before a text.
fn bullet_text(b: &str) -> (r: String)
    ensures
        r@ == bulleted(b@),
{
    let mut t = "\u{2022}  ".to_owned();
    t.append(b);
    t
}

/// Appends each item as a bulleted paragraph of small text.
fn push_wrapped_bullets(blocks: &mut Vec<PdfBlock>, items: &Vec<String>)
    ensures
        block_views(final(blocks)@) == block_views(old(blocks)@) + wrapped_bullets(views(items@)),
{
    let ghost start = block_views(blocks@);
    let ghost want = wrapped_bullets(views(items@));
    let mut i: usize = 0;
    while i < items.len()
        invariant
            i <= items.len(),
            start == block_views(old(blocks)@),
            want == wrapped_bullets(views(items@)),
            block_views(blocks@) =~= start + want.take(i as int),
        decreases items.len() - i,
    {
        let text = bullet_text(items[i].as_str());
        let ghost before = block_views(blocks@);
        blocks.push(PdfBlock::Wrapped { text, size: TextSize::Small });
        assert(block_views(blocks@) =~= before.push(want[i as int]));
        assert(want.take(i + 1) =~= want.take(i as int).push(want[i as int]));
        i = i + 1;
    }
    assert(want.take(i as int) =~= want);
}

/// Appends the steps of the entries of an experience section.
fn push_pdf_experience(blocks: &mut Vec<PdfBlock>, entries: &Vec<WorkExperience>)
    ensures
        block_views(final(blocks)@) == block_views(old(blocks)@) + pdf_experience_blocks(
            experience_models(entries@),
        ),
{
    let ghost start = block_views(blocks@);
    let ghost es = experience_models(entries@);
    let mut i: usize = 0;
    while i < entries.len()
        invariant
            i <= entries.len(),
            start == block_views(old(blocks)@),
            es == experience_models(entries@),
            block_views(blocks@) =~= start + pdf_experience_blocks(es.take(i as int)),
        decreases entries.len() - i,
    {
        assert(es.take(i + 1).drop_last() =~= es.take(i as int));
        assert(es.take(i + 1).last() == es[i as int]);
        let ghost before = block_views(blocks@);
        let heading = fmt_experience_heading(&entries[i]);
        assert(es[i as int] == entries@[i as int]@);
        blocks.push(PdfBlock::Line { text: heading, bold: true, size: TextSize::Body, after: 10 });
        let ghost mid = block_views(blocks@);
        assert(mid =~= before + seq![
            BlockModel::Line {
                text: experience_heading(es[i as int]),
                bold: true,
                size: TextSize::Body,
                after: 10,
            },
        ]);
        push_wrapped_bullets(blocks, &entries[i].highlights);
        let ghost mid2 = block_views(blocks@);
        assert(mid2 =~= mid + wrapped_bullets(es[i as int].highlights));
        blocks.push(PdfBlock::Gap(30));
        assert(block_views(blocks@) =~= mid2.push(BlockModel::Gap(30)));
        assert(block_views(blocks@) =~= before + seq![
            BlockModel::Line {
                text: experience_heading(es[i as int]),
                bold: true,
                size: TextSize::Body,
                after: 10,
            },
        ] + wrapped_bullets(es[i as int].highlights) + seq![BlockModel::Gap(30)]);
        i = i + 1;
    }
    assert(es.take(i as int) =~= es);
}

/// Appends the steps of the entries of a projects section.
fn push_pdf_projects(blocks: &mut Vec<PdfBlock>, entries: &Vec<Project>)
    ensures
        block_views(final(blocks)@) == block_views(old(blocks)@) + pdf_project_blocks(
            project_models(entries@),
        ),
{
    let ghost start = block_views(blocks@);
    let ghost ps = project_models(entries@);
    let mut i: usize = 0;
    while i < entries.len()
        invariant
            i <= entries.len(),
            start == block_views(old(blocks)@),
            ps == project_models(entries@),
            block_views(blocks@) =~= start + pdf_project_blocks(ps.take(i as int)),
        decreases entries.len() - i,
    {
        assert(ps.take(i + 1).drop_last() =~= ps.take(i as int));
        assert(ps.take(i + 1).last() == ps[i as int]);
        let ghost before = block_views(blocks@);
        assert(ps[i as int] == entries@[i as int]@);
        let name = entries[i].name.clone();
        blocks.push(PdfBlock::Line { text: name, bold: true, size: TextSize::Body, after: 10 });
        let description = entries[i].description.clone();
        blocks.push(PdfBlock::Wrapped { text: description, size: TextSize::Small });
        let ghost mid = block_views(blocks@);
        assert(mid =~= before + seq![
            BlockModel::Line { text: ps[i as int].name, bold: true, size: TextSize::Body, after: 10 },
            BlockModel::Wrapped { text: ps[i as int].description, size: TextSize::Small },
        ]);
        push_wrapped_bullets(blocks, &entries[i].highlights);
        let ghost mid2 = block_views(blocks@);
        assert(mid2 =~= mid + wrapped_bullets(ps[i as int].highlights));
        blocks.push(PdfBlock::Gap(30));
        assert(block_views(blocks@) =~= mid2.push(BlockModel::Gap(30)));
        assert(block_views(blocks@) =~= before + seq![
            BlockModel::Line { text: ps[i as int].name, bold: true, size: TextSize::Body, after: 10 },
            BlockModel::Wrapped { text: ps[i as int].description, size: TextSize::Small },
        ] + wrapped_bullets(ps[i as int].highlights) + seq![BlockModel::Gap(30)]);
        i = i + 1;
    }
    assert(ps.take(i as int) =~= ps);
}

/// Appends one line per education entry.
fn push_pdf_education(blocks: &mut Vec<PdfBlock>, entries: &Vec<Education>)
    ensures
        block_views(final(blocks)@) == block_views(old(blocks)@) + education_models(entries@).map_values(
            |e: EducationModel|
                BlockModel::Line { text: education_line(e), bold: true, size: TextSize::Body, after: 20 },
        ),
{
    let ghost start = block_views(blocks@);
    let ghost want = education_models(entries@).map_values(
        |e: EducationModel|
            BlockModel::Line { text: education_line(e), bold: true, size: TextSize::Body, after: 20 },
    );
    let mut i: usize = 0;
    while i < entries.len()
        invariant
            i <= entries.len(),
            start == block_views(old(blocks)@),
            want == education_models(entries@).map_values(
                |e: EducationModel|
                    BlockModel::Line {
                        text: education_line(e),
                        bold: true,
                        size: TextSize::Body,
                        after: 20,
                    },
            ),
            block_views(blocks@) =~= start + want.take(i as int),
        decreases entries.len() - i,
    {
        let line = fmt_education_line(&entries[i]);
        let ghost before = block_views(blocks@);
        blocks.push(PdfBlock::Line { text: line, bold: true, size: TextSize::Body, after: 20 });
        assert(block_views(blocks@) =~= before.push(want[i as int]));
        assert(want.take(i + 1) =~= want.take(i as int).push(want[i as int]));
        i = i + 1;
    }
    assert(want.take(i as int) =~= want);
}

/// Appends one bulleted line per certification.
fn push_pdf_certifications(blocks: &mut Vec<PdfBlock>, items: &Vec<String>)
    ensures
        block_views(final(blocks)@) == block_views(old(blocks)@) + views(items@).map_values(
            |i: Seq<char>|
                BlockModel::Line { text: bulleted(i), bold: false, size: TextSize::Body, after: 15 },
        ),
{
    let ghost start = block_views(blocks@);
    let ghost want = views(items@).map_values(
        |i: Seq<char>|
            BlockModel::Line { text: bulleted(i), bold: false, size: TextSize::Body, after: 15 },
    );
    let mut i: usize = 0;
    while i < items.len()
        invariant
            i <= items.len(),
            start == block_views(old(blocks)@),
            want == views(items@).map_values(
                |i: Seq<char>|
                    BlockModel::Line { text: bulleted(i), bold: false, size: TextSize::Body, after: 15 },
            ),
            block_views(blocks@) =~= start + want.take(i as int),
        decreases items.len() - i,
    {
        let text = bullet_text(items[i].as_str());
        let ghost before = block_views(blocks@);
        blocks.push(PdfBlock::Line { text, bold: false, size: TextSize::Body, after: 15 });
        assert(block_views(blocks@) =~= before.push(want[i as int]));
        assert(want.take(i + 1) =~= want.take(i as int).push(want[i as int]));
        i = i + 1;
    }
    assert(want.take(i as int) =~= want);
}

/// Appends the layout steps of one section.
fn push_pdf_section(blocks: &mut Vec<PdfBlock>, section: &Section)
    ensures
        block_views(final(blocks)@) == block_views(old(blocks)@) + pdf_section_blocks(section@),
{
    let ghost start = block_views(blocks@);
    match section {
        Section::Header(h) => {
            let name = h.name.clone();
            blocks.push(PdfBlock::Line { text: name, bold: true, size: TextSize::Name, after: 25 });
            if let Some(c) = &h.contact {
                if !c.is_empty() {
                    let text = c.display();
                    blocks.push(PdfBlock::Line { text, bold: false, size: TextSize::Contact, after: 10 });
                }
            }
            assert(block_views(blocks@) =~= start + pdf_section_blocks(section@));
        },
        Section::Summary(s) => {
            push_title(blocks, "SUMMARY");
            let ghost mid = block_views(blocks@);
            let text = s.content.clone();
            blocks.push(PdfBlock::Wrapped { text, size: TextSize::Body });
            assert(block_views(blocks@) =~= mid.push(BlockModel::Wrapped { text: text@, size: TextSize::Body }));
        },
        Section::Experience(e) => {
            push_title(blocks, "EXPERIENCE");
            push_pdf_experience(blocks, &e.entries);
        },
        Section::Education(e) => {
            push_title(blocks, "EDUCATION");
            push_pdf_education(blocks, &e.entries);
        },
        Section::Skills(s) => {
            push_title(blocks, "SKILLS");
            let ghost mid = block_views(blocks@);
            let text = join_strings(&s.skills, "  ·  ");
            blocks.push(PdfBlock::Wrapped { text, size: TextSize::Body });
            assert(block_views(blocks@) =~= mid.push(BlockModel::Wrapped { text: text@, size: TextSize::Body }));
        },
        Section::Projects(p) => {
            push_title(blocks, "PROJECTS");
            push_pdf_projects(blocks, &p.entries);
        },
        Section::Certifications(c) => {
            push_title(blocks, "CERTIFICATIONS");
            push_pdf_certifications(blocks, &c.items);
        },
    }
    assert(block_views(blocks@) =~= start + pdf_section_blocks(section@));
}

impl PdfTemplate {
    /// The layout of a resume: for each section in order, its title and its
    /// lines and paragraphs, with the face, size and spacing of each.
    pub fn layout(&self, resume: &Resume) -> (r: Vec<PdfBlock>)
        ensures
            block_views(r@) == pdf_layout_of(section_models(resume.sections@)),
    {
        let mut blocks: Vec<PdfBlock> = Vec::new();
        let ghost ss = section_models(resume.sections@);
        let mut i: usize = 0;
        while i < resume.sections.len()
            invariant
                i <= resume.sections.len(),
                ss == section_models(resume.sections@),
                block_views(blocks@) =~= pdf_layout_of(ss.take(i as int)),
            decreases resume.sections.len() - i,
        {
            assert(ss.take(i + 1).drop_last() =~= ss.take(i as int));
            push_pdf_section(&mut blocks, &resume.sections[i]);
            i = i + 1;
        }
        assert(ss.take(i as int) =~= ss);
        blocks
    }
}

} // verus!

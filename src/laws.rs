//! Properties of the pipeline as a whole, stated over the spec functions
//! that the functions' own contracts use.
use vstd::prelude::*;
use crate::front_matter::{delim_at, delim_from, front_matter_segments};
use crate::markdown::{commonmark_html, document_of, source_document, MarkdownFileView};
use crate::metadata::{list_field, lookup, metadata_of, yaml_mapping, Entries, MetaValueView};
use crate::output::{is_written, output_path, planned_writes};
use crate::templating::RenderedFile;

verus! {

proof fn lemma_delim_from_first(s: Seq<char>, from: int, q: int)
    requires
        0 <= from <= q,
        delim_at(s, q),
        forall|j: int| from <= j < q ==> !delim_at(s, j),
    ensures
        delim_from(s, from) == Some(q),
    decreases q - from,
{
    if from < q {
        lemma_delim_from_first(s, from + 1, q);
    }
}

proof fn lemma_delim_from_absent(s: Seq<char>, from: int)
    requires
        0 <= from,
        forall|j: int| from <= j ==> !delim_at(s, j),
    ensures
        delim_from(s, from) is None,
    decreases s.len() - from,
{
    if from + 3 <= s.len() {
        lemma_delim_from_absent(s, from + 1);
    }
}

/// A text without the delimiter `---` has an empty metadata block, which is
/// the empty mapping, and an empty body: its document has no front-matter
/// fields and the HTML of the empty body.
pub proof fn lemma_no_delimiter(s: Seq<char>)
    requires
        forall|i: int| !delim_at(s, i),
    ensures
        front_matter_segments(s) == (Seq::<char>::empty(), Seq::<char>::empty()),
        metadata_of(front_matter_segments(s).0) == Some(Seq::<(Seq<char>, MetaValueView)>::empty()),
        source_document(s) == Some(document_of(Seq::empty(), commonmark_html(Seq::empty()))),
{
    lemma_delim_from_absent(s, 0);
}

/// The text `---\n<yaml>\n---\n<body>`, where `<yaml>` holds no `---`,
/// has the metadata block `\n<yaml>\n` and the body `\n<body>`; its
/// metadata is what YAML parsing makes of that block.
pub proof fn lemma_delimited_front_matter(yaml: Seq<char>, body: Seq<char>)
    requires
        forall|i: int| !delim_at(yaml, i),
    ensures
        ({
            let s = "---\n"@ + yaml + "\n---\n"@ + body;
            let block = "\n"@ + yaml + "\n"@;
            &&& front_matter_segments(s) == (block, "\n"@ + body)
            &&& metadata_of(block) == yaml_mapping(block)
            &&& source_document(s) == match yaml_mapping(block) {
                Some(meta) => Some(document_of(meta, commonmark_html("\n"@ + body))),
                None => None::<MarkdownFileView>,
            }
        }),
{
    reveal_strlit("---\n");
    reveal_strlit("\n---\n");
    reveal_strlit("\n");
    let s = "---\n"@ + yaml + "\n---\n"@ + body;
    let block = "\n"@ + yaml + "\n"@;
    let n = yaml.len() as int;
    let q = n + 5;
    assert(s.len() == n + body.len() + 9);
    assert forall|j: int| 0 <= j < 4 + n implies s[j] == #[trigger] ("---\n"@ + yaml)[j] by {}
    assert forall|j: int| 4 <= j < 4 + n implies s[j] == #[trigger] yaml[j - 4] by {}
    assert(s[3] == '\n');
    assert(s[4 + n] == '\n');
    assert(s[q] == '-' && s[q + 1] == '-' && s[q + 2] == '-' && s[q + 3] == '\n');
    assert(delim_at(s, 0));
    lemma_delim_from_first(s, 0, 0);
    assert forall|j: int| 3 <= j < q implies !delim_at(s, j) by {
        if 4 <= j && j + 3 <= 4 + n {
            assert(!delim_at(yaml, j - 4));
            assert(s[j] == yaml[j - 4]);
            assert(s[j + 1] == yaml[j - 3]);
            assert(s[j + 2] == yaml[j - 2]);
        }
    }
    assert(delim_at(s, q));
    lemma_delim_from_first(s, 3, q);
    assert(s.subrange(3, q) =~= block);
    assert(s.subrange(q + 3, s.len() as int) =~= "\n"@ + body);
}

/// A document whose metadata gives a title, author, datetime, tags and
/// categories carries exactly those values, with the body's HTML as its
/// content.
pub proof fn lemma_document_fields(
    meta: Entries,
    body: Seq<char>,
    title: Seq<char>,
    author: Seq<char>,
    datetime: Seq<char>,
    tags: Seq<Seq<char>>,
    categories: Seq<Seq<char>>,
)
    requires
        lookup(meta, "title"@) == Some(MetaValueView::Text(title)),
        lookup(meta, "author"@) == Some(MetaValueView::Text(author)),
        lookup(meta, "datetime"@) == Some(MetaValueView::Text(datetime)),
        lookup(meta, "tags"@) == Some(MetaValueView::List(tags.map_values(|t: Seq<char>| Some(t)))),
        lookup(meta, "categories"@) == Some(
            MetaValueView::List(categories.map_values(|t: Seq<char>| Some(t))),
        ),
    ensures
        document_of(meta, commonmark_html(body)) == (MarkdownFileView {
            title,
            author,
            datetime,
            tags,
            categories,
            content: commonmark_html(body),
        }),
{
    assert(list_field(meta, "tags"@) =~= tags);
    assert(list_field(meta, "categories"@) =~= categories);
}

/// The file `w` is the page of some rendered document of `rs` with a title,
/// at the path `<dir>/<title>.html`.
pub open spec fn page_of_titled(rs: Seq<RenderedFile>, dir: Seq<char>, w: (Seq<char>, Seq<char>)) -> bool {
    exists|i: int|
        0 <= i < rs.len() && is_written(#[trigger] rs[i]) && w == (
        output_path(dir, rs[i].file.title@),
        rs[i].page->Ok_0@,
    )
}

/// Every file that is written comes from a rendered document with a title:
/// its path is `<dir>/<title>.html` and it holds that document's page. An
/// untitled document, or one whose rendering failed, produces no file.
pub proof fn lemma_writes_come_from_titled_pages(rs: Seq<RenderedFile>, dir: Seq<char>)
    ensures
        forall|k: int|
            0 <= k < planned_writes(rs, dir).len() ==> page_of_titled(rs, dir, #[trigger] planned_writes(rs, dir)[k]),
    decreases rs.len(),
{
    if rs.len() > 0 {
        let init = rs.drop_last();
        lemma_writes_come_from_titled_pages(init, dir);
        let w = planned_writes(rs, dir);
        assert forall|k: int| 0 <= k < w.len() implies page_of_titled(rs, dir, #[trigger] w[k]) by {
            if k < planned_writes(init, dir).len() {
                assert(page_of_titled(init, dir, planned_writes(init, dir)[k]));
                let i = choose|i: int|
                    0 <= i < init.len() && is_written(#[trigger] init[i]) && planned_writes(init, dir)[k] == (
                    output_path(dir, init[i].file.title@),
                    init[i].page->Ok_0@,
                );
                assert(rs[i] == init[i]);
            } else {
                assert(rs[rs.len() - 1] == rs.last());
            }
        }
    }
}

/// A rendered document with a title is written: its page goes to
/// `<dir>/<title>.html`, the title taken verbatim.
pub proof fn lemma_titled_page_is_written(rs: Seq<RenderedFile>, dir: Seq<char>, i: int)
    requires
        0 <= i < rs.len(),
        is_written(rs[i]),
    ensures
        exists|k: int|
            0 <= k < planned_writes(rs, dir).len() && #[trigger] planned_writes(rs, dir)[k] == (
            output_path(dir, rs[i].file.title@),
            rs[i].page->Ok_0@,
        ),
    decreases rs.len(),
{
    let init = rs.drop_last();
    let w = planned_writes(rs, dir);
    if i == rs.len() - 1 {
        assert(w[w.len() - 1] == (output_path(dir, rs[i].file.title@), rs[i].page->Ok_0@));
    } else {
        assert(init[i] == rs[i]);
        lemma_titled_page_is_written(init, dir, i);
        let k = choose|k: int|
            0 <= k < planned_writes(init, dir).len() && #[trigger] planned_writes(init, dir)[k] == (
            output_path(dir, init[i].file.title@),
            init[i].page->Ok_0@,
        );
        assert(w[k] == planned_writes(init, dir)[k]);
    }
}

/// How many of the outcomes `rs` are written: rendered, with a title.
pub open spec fn written_count(rs: Seq<RenderedFile>) -> nat
    decreases rs.len(),
{
    if rs.len() == 0 {
        0
    } else {
        written_count(rs.drop_last()) + if is_written(rs.last()) { 1nat } else { 0nat }
    }
}

/// As many files are written as there are rendered documents with a title.
pub proof fn lemma_write_count(rs: Seq<RenderedFile>, dir: Seq<char>)
    ensures
        planned_writes(rs, dir).len() == written_count(rs),
    decreases rs.len(),
{
    if rs.len() > 0 {
        lemma_write_count(rs.drop_last(), dir);
    }
}

} // verus!

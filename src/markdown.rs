//! Markdown documents: a source text becomes a [`MarkdownFile`] whose fields
//! come from the front-matter and whose content is the body as HTML.
use vstd::prelude::*;
use crate::front_matter::{front_matter_segments, split_front_matter};
use crate::metadata::{
    list_field, list_value, metadata_of, parse_metadata, text_field, text_value, Entries,
    FrontMatterError,
};

verus! {

/// What Markdown-to-HTML conversion (with strikethrough enabled) makes of
/// `markdown`.
pub uninterp spec fn commonmark_html(markdown: Seq<char>) -> Seq<char>;

/// Converts Markdown to an HTML fragment.
/// Relies on `pulldown_cmark::Parser::new_ext` with `ENABLE_STRIKETHROUGH` and
/// `pulldown_cmark::html::push_html`: the result depends on the text alone,
/// and an empty text has no events and writes nothing.
#[verifier::external_body]
pub fn markdown_to_html(markdown_input: &str) -> (r: String)
    ensures
        r@ == commonmark_html(markdown_input@),
        markdown_input@.len() == 0 ==> r@.len() == 0,
{
    let mut options = pulldown_cmark::Options::empty();
    options.insert(pulldown_cmark::Options::ENABLE_STRIKETHROUGH);
    let parser = pulldown_cmark::Parser::new_ext(markdown_input, options);
    let mut html_output = String::new();
    pulldown_cmark::html::push_html(&mut html_output, parser);
    html_output
}

/// One source document: its front-matter fields and its body as HTML.
#[derive(Debug, Clone)]
pub struct MarkdownFile {
    pub title: String,
    pub author: String,
    pub datetime: String,
    pub tags: Vec<String>,
    pub categories: Vec<String>,
    pub content: String,
}

/// The mathematical form of a [`MarkdownFile`].
pub struct MarkdownFileView {
    pub title: Seq<char>,
    pub author: Seq<char>,
    pub datetime: Seq<char>,
    pub tags: Seq<Seq<char>>,
    pub categories: Seq<Seq<char>>,
    pub content: Seq<char>,
}

pub open spec fn strings_view(v: Seq<String>) -> Seq<Seq<char>> {
    v.map_values(|s: String| s@)
}

impl View for MarkdownFile {
    type V = MarkdownFileView;

    open spec fn view(&self) -> MarkdownFileView {
        MarkdownFileView {
            title: self.title@,
            author: self.author@,
            datetime: self.datetime@,
            tags: strings_view(self.tags@),
            categories: strings_view(self.categories@),
            content: self.content@,
        }
    }
}

/// The document that metadata `meta` and HTML content `html` make.
pub open spec fn document_of(meta: Entries, html: Seq<char>) -> MarkdownFileView {
    MarkdownFileView {
        title: text_field(meta, "title"@),
        author: text_field(meta, "author"@),
        datetime: text_field(meta, "datetime"@),
        tags: list_field(meta, "tags"@),
        categories: list_field(meta, "categories"@),
        content: html,
    }
}

/// The document that a source text stands for, or `None` where its metadata
/// block is present but no YAML mapping.
pub open spec fn source_document(content: Seq<char>) -> Option<MarkdownFileView> {
    let (block, body) = front_matter_segments(content);
    match metadata_of(block) {
        Some(meta) => Some(document_of(meta, commonmark_html(body))),
        None => None,
    }
}

/// Builds the document of a source text: the metadata block gives the
/// fields, the body converted to HTML gives the content.
pub fn parse_markdown_file(content: &str) -> (r: Result<MarkdownFile, FrontMatterError>)
    ensures
        match r {
            Ok(f) => source_document(content@) == Some(f@),
            Err(_) => source_document(content@) is None,
        },
{
    let split = split_front_matter(content);
    let meta = match parse_metadata(split.metadata.as_str()) {
        Ok(m) => m,
        Err(e) => return Err(e),
    };
    let html = markdown_to_html(split.body.as_str());
    let file = MarkdownFile {
        title: text_value(&meta, "title"),
        author: text_value(&meta, "author"),
        datetime: text_value(&meta, "datetime"),
        tags: list_value(&meta, "tags"),
        categories: list_value(&meta, "categories"),
        content: html,
    };
    assert(file@ == document_of(meta@, commonmark_html(split.body@)));
    Ok(file)
}

/// Builds the document of each source text, in order; fails with the first
/// error, so that no document comes out of a set with a bad metadata block.
pub fn parse_markdown_files(texts: &Vec<String>) -> (r: Result<Vec<MarkdownFile>, FrontMatterError>)
    ensures
        match r {
            Ok(files) => files.len() == texts.len() && forall|i: int|
                0 <= i < texts.len() ==> source_document(#[trigger] texts[i]@) == Some(files[i]@),
            Err(_) => exists|i: int| 0 <= i < texts.len() && source_document(#[trigger] texts[i]@) is None,
        },
{
    let mut files: Vec<MarkdownFile> = Vec::new();
    for i in 0..texts.len()
        invariant
            files.len() == i,
            forall|j: int| 0 <= j < i ==> source_document(#[trigger] texts[j]@) == Some(files[j]@),
    {
        match parse_markdown_file(texts[i].as_str()) {
            Ok(f) => files.push(f),
            Err(e) => return Err(e),
        }
    }
    Ok(files)
}

} // verus!

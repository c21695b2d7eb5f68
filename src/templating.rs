//! The page template's side of a document: its rendering context, the
//! directory the templates come from, and the pairing of each document with
//! the outcome of rendering it.
use vstd::prelude::*;
use crate::markdown::{strings_view, MarkdownFile, MarkdownFileView};

verus! {

#[verifier::external_type_specification]
#[verifier::external_body]
pub struct ExContext(tera::Context);

#[verifier::external_type_specification]
#[verifier::external_body]
pub struct ExTeraError(tera::Error);

/// The string values that a rendering context holds, by key.
pub uninterp spec fn context_texts(c: tera::Context) -> Map<Seq<char>, Seq<char>>;

/// The list-of-strings values that a rendering context holds, by key.
pub uninterp spec fn context_lists(c: tera::Context) -> Map<Seq<char>, Seq<Seq<char>>>;

pub open spec fn no_texts() -> Map<Seq<char>, Seq<char>> {
    Map::empty()
}

pub open spec fn no_lists() -> Map<Seq<char>, Seq<Seq<char>>> {
    Map::empty()
}

/// Relies on `tera::Context::new`: a context with no entries.
pub assume_specification[ tera::Context::new ]() -> (r: tera::Context)
    ensures
        context_texts(r) == no_texts(),
        context_lists(r) == no_lists(),
;

/// Relies on `tera::Context::insert` at a string: the key now holds that
/// string, replacing whatever it held.
#[verifier::external_body]
fn insert_text(c: &mut tera::Context, key: &str, value: &String)
    ensures
        context_texts(*final(c)) == context_texts(*old(c)).insert(key@, value@),
        context_lists(*final(c)) == context_lists(*old(c)).remove(key@),
{
    c.insert(key, value);
}

/// Relies on `tera::Context::insert` at a list of strings: the key now holds
/// that list, replacing whatever it held.
#[verifier::external_body]
fn insert_list(c: &mut tera::Context, key: &str, value: &Vec<String>)
    ensures
        context_texts(*final(c)) == context_texts(*old(c)).remove(key@),
        context_lists(*final(c)) == context_lists(*old(c)).insert(key@, strings_view(value@)),
{
    c.insert(key, value);
}

/// The string entries of the context of a document.
pub open spec fn page_texts(f: MarkdownFileView) -> Map<Seq<char>, Seq<char>> {
    map![
        "title"@ => f.title,
        "author"@ => f.author,
        "datetime"@ => f.datetime,
        "content"@ => f.content,
    ]
}

/// The list entries of the context of a document.
pub open spec fn page_lists(f: MarkdownFileView) -> Map<Seq<char>, Seq<Seq<char>>> {
    map!["tags"@ => f.tags, "categories"@ => f.categories]
}

/// The rendering context of a document: exactly its title, author,
/// datetime, tags, categories and content, under those names.
pub fn page_context(file: &MarkdownFile) -> (c: tera::Context)
    ensures
        context_texts(c) == page_texts(file@),
        context_lists(c) == page_lists(file@),
{
    let mut c = tera::Context::new();
    insert_list(&mut c, "tags", &file.tags);
    insert_list(&mut c, "categories", &file.categories);
    insert_text(&mut c, "title", &file.title);
    insert_text(&mut c, "author", &file.author);
    insert_text(&mut c, "datetime", &file.datetime);
    insert_text(&mut c, "content", &file.content);
    proof {
        reveal_strlit("tags");
        reveal_strlit("categories");
        reveal_strlit("title");
        reveal_strlit("author");
        reveal_strlit("datetime");
        reveal_strlit("content");
        assert(context_texts(c) =~= page_texts(file@));
        assert("title"@.len() == 5 && "tags"@.len() == 4 && "categories"@.len() == 10);
        assert("title"@ != "tags"@ && "title"@ != "categories"@);
        assert(context_lists(c) =~= page_lists(file@));
    }
    c
}

/// The glob that locates the templates: `<custom>/**/*` when a custom
/// template directory is given and exists, else `templates/**/*`.
pub fn template_pattern(custom: Option<&str>, custom_exists: bool) -> (r: String)
    ensures
        r@ == match custom {
            Some(dir) => if custom_exists {
                dir@ + "/**/*"@
            } else {
                "templates/**/*"@
            },
            None => "templates/**/*"@,
        },
{
    match custom {
        Some(dir) => {
            if custom_exists {
                let mut p = dir.to_string();
                p.append("/**/*");
                p
            } else {
                "templates/**/*".to_string()
            }
        },
        None => "templates/**/*".to_string(),
    }
}

/// A document together with the outcome of rendering it: the page, or the
/// error that kept it from being rendered.
#[derive(Debug)]
pub struct RenderedFile {
    pub file: MarkdownFile,
    pub page: Result<String, tera::Error>,
}

/// Pairs each document with the outcome of rendering it, in order: the
/// page or the error at the same index. A document whose rendering failed
/// keeps its place, with the error as its outcome.
pub fn render_files(files: Vec<MarkdownFile>, pages: Vec<Result<String, tera::Error>>) -> (r: Vec<RenderedFile>)
    requires
        files.len() == pages.len(),
    ensures
        r.len() == files.len(),
        forall|i: int| 0 <= i < files.len() ==> (#[trigger] r[i]).file == files[i] && r[i].page == pages[i],
{
    let ghost all_files = files@;
    let ghost all_pages = pages@;
    let ghost n = files.len() as int;
    let mut files = files;
    let mut pages = pages;
    let mut reversed: Vec<(MarkdownFile, Result<String, tera::Error>)> = Vec::new();
    while files.len() > 0
        invariant
            files.len() == pages.len(),
            reversed.len() + files.len() == n,
            files@ == all_files.take(files.len() as int),
            pages@ == all_pages.take(pages.len() as int),
            all_files.len() == n,
            all_pages.len() == n,
            forall|j: int|
                0 <= j < reversed.len() ==> (#[trigger] reversed[j]).0 == all_files[n - 1 - j] && reversed[j].1
                    == all_pages[n - 1 - j],
        decreases files.len(),
    {
        let file = files.pop().unwrap();
        let page = pages.pop().unwrap();
        reversed.push((file, page));
    }
    let mut out: Vec<RenderedFile> = Vec::new();
    while reversed.len() > 0
        invariant
            out.len() + reversed.len() == n,
            all_files.len() == n,
            all_pages.len() == n,
            forall|j: int|
                0 <= j < reversed.len() ==> (#[trigger] reversed[j]).0 == all_files[n - 1 - j] && reversed[j].1
                    == all_pages[n - 1 - j],
            forall|i: int|
                0 <= i < out.len() ==> (#[trigger] out[i]).file == all_files[i] && out[i].page == all_pages[i],
        decreases reversed.len(),
    {
        let (file, page) = reversed.pop().unwrap();
        out.push(RenderedFile { file, page });
    }
    out
}

} // verus!

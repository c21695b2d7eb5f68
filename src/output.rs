//! Planning the output files: each rendered page of a titled document goes
//! to `<dir>/<title>.html`.
use vstd::prelude::*;
use crate::templating::RenderedFile;

verus! {

/// A file to write: where, and what.
#[derive(Debug, Clone)]
pub struct OutputFile {
    pub path: String,
    pub contents: String,
}

/// The path of the page of a document titled `title` in directory `dir`.
pub open spec fn output_path(dir: Seq<char>, title: Seq<char>) -> Seq<char> {
    dir + "/"@ + title + ".html"@
}

/// True when the outcome is written: the page was rendered and the
/// document has a title.
pub open spec fn is_written(r: RenderedFile) -> bool {
    r.page is Ok && r.file.title@.len() > 0
}

/// The files that the outcomes `rs` make in `dir`, as (path, contents), in
/// the order of the outcomes.
pub open spec fn planned_writes(rs: Seq<RenderedFile>, dir: Seq<char>) -> Seq<(Seq<char>, Seq<char>)>
    decreases rs.len(),
{
    if rs.len() == 0 {
        Seq::empty()
    } else {
        let rest = planned_writes(rs.drop_last(), dir);
        let last = rs.last();
        if is_written(last) {
            rest.push((output_path(dir, last.file.title@), last.page->Ok_0@))
        } else {
            rest
        }
    }
}

pub open spec fn files_view(v: Seq<OutputFile>) -> Seq<(Seq<char>, Seq<char>)> {
    v.map_values(|f: OutputFile| (f.path@, f.contents@))
}

/// The files to write for the rendered documents `rendered` in directory
/// `out_dir`: one for each document that has a title and a page, at
/// `<out_dir>/<title>.html`, holding the page. A document without a title,
/// or whose rendering failed, gets none.
pub fn output_files(rendered: &Vec<RenderedFile>, out_dir: &str) -> (r: Vec<OutputFile>)
    ensures
        files_view(r@) == planned_writes(rendered@, out_dir@),
{
    let mut out: Vec<OutputFile> = Vec::new();
    for i in 0..rendered.len()
        invariant
            files_view(out@) == planned_writes(rendered@.take(i as int), out_dir@),
    {
        assert(rendered@.take(i + 1).drop_last() =~= rendered@.take(i as int));
        let item = &rendered[i];
        match &item.page {
            Ok(page) => {
                if !item.file.title.as_str().is_empty() {
                    let mut path = out_dir.to_string();
                    path.append("/");
                    path.append(item.file.title.as_str());
                    path.append(".html");
                    out.push(OutputFile { path, contents: page.clone() });
                    assert(files_view(out@) =~= planned_writes(rendered@.take(i + 1), out_dir@));
                }
            },
            Err(_) => {},
        }
    }
    assert(rendered@.take(rendered.len() as int) =~= rendered@);
    out
}

} // verus!

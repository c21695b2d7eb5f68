use sitegen::{
    output_files, page_context, parse_markdown_file, parse_markdown_files, render_files, split_front_matter, FrontMatterError, MarkdownFile, RenderedFile,
};

fn page_template(source: &str) -> tera::Tera {
    let mut t = tera::Tera::default();
    // The expected pages hold the content's HTML as it is.
    t.autoescape_on(vec![]);
    t.add_raw_template("post.html", source).unwrap();
    t
}

fn render_all(t: &tera::Tera, files: Vec<MarkdownFile>) -> Vec<RenderedFile> {
    let pages = files
        .iter()
        .map(|f| t.render("post.html", &page_context(f)))
        .collect();
    render_files(files, pages)
}

fn document(title: &str, content: &str) -> MarkdownFile {
    MarkdownFile {
        title: title.to_string(),
        author: String::new(),
        datetime: String::new(),
        tags: Vec::new(),
        categories: Vec::new(),
        content: content.to_string(),
    }
}

#[test]
fn text_without_delimiter_has_empty_metadata_and_body() {
    let s = split_front_matter("just some text");
    assert_eq!(s.metadata, "");
    assert_eq!(s.body, "");
    let f = parse_markdown_file("just some text").unwrap();
    assert_eq!(f.title, "");
    assert!(f.tags.is_empty());
    assert_eq!(f.content, "");
}

#[test]
fn delimited_text_splits_into_block_and_body() {
    let s = split_front_matter("---\ntitle: x\n---\nbody text");
    assert_eq!(s.metadata, "\ntitle: x\n");
    assert_eq!(s.body, "\nbody text");
}

#[test]
fn split_keeps_later_delimiters_in_body() {
    let s = split_front_matter("intro---meta---body---more");
    assert_eq!(s.metadata, "meta");
    assert_eq!(s.body, "body---more");
}

#[test]
fn split_with_one_delimiter_has_no_body() {
    let s = split_front_matter("a----b");
    assert_eq!(s.metadata, "-b");
    assert_eq!(s.body, "");
}

#[test]
fn split_handles_multibyte_characters() {
    let s = split_front_matter("é---ü: ö---ß");
    assert_eq!(s.metadata, "ü: ö");
    assert_eq!(s.body, "ß");
}

#[test]
fn document_carries_front_matter_fields() {
    let text = "---\ntitle: \"T\"\nauthor: \"A\"\ndatetime: \"D\"\ntags: [x, y]\ncategories: [c1]\nextra: 1\n---\nB";
    let f = parse_markdown_file(text).unwrap();
    assert_eq!(f.title, "T");
    assert_eq!(f.author, "A");
    assert_eq!(f.datetime, "D");
    assert_eq!(f.tags, vec!["x".to_string(), "y".to_string()]);
    assert_eq!(f.categories, vec!["c1".to_string()]);
    assert_eq!(f.content, sitegen::markdown_to_html("\nB"));
    assert_eq!(f.content, "<p>B</p>\n");
}

#[test]
fn non_string_fields_degrade_to_defaults() {
    let f = parse_markdown_file("---\ntitle: [a]\nauthor: 5\ntags: plain\ncategories:\n- 1\n- c\n---\n").unwrap();
    assert_eq!(f.title, "");
    assert_eq!(f.author, "");
    assert!(f.tags.is_empty());
    assert_eq!(f.categories, vec![String::new(), "c".to_string()]);
}

#[test]
fn end_to_end_hello() {
    let text = "---\ntitle: \"Hello\"\ntags:\n- intro\n---\n# Hi\nSome *text*.\n";
    let files = parse_markdown_files(&vec![text.to_string()]).unwrap();
    assert_eq!(files.len(), 1);
    let f = &files[0];
    assert_eq!(f.title, "Hello");
    assert_eq!(f.tags, vec!["intro".to_string()]);
    assert_eq!(f.author, "");
    assert_eq!(f.datetime, "");
    assert!(f.categories.is_empty());
    assert_eq!(f.content, "<h1>Hi</h1>\n<p>Some <em>text</em>.</p>\n");

    let t = page_template("{{title}}:{{content}}");
    let rendered = render_all(&t, files);
    assert_eq!(rendered.len(), 1);
    assert_eq!(
        rendered[0].page.as_ref().unwrap(),
        "Hello:<h1>Hi</h1>\n<p>Some <em>text</em>.</p>\n"
    );
    let out = output_files(&rendered, "output");
    assert_eq!(out.len(), 1);
    assert_eq!(out[0].path, "output/Hello.html");
    assert_eq!(out[0].contents, "Hello:<h1>Hi</h1>\n<p>Some <em>text</em>.</p>\n");
}

#[test]
fn unterminated_metadata_is_fatal() {
    let good = "---\ntitle: ok\n---\nfine".to_string();
    let bad = "---\ntitle: [unterminated\n---\nbody".to_string();
    let r = parse_markdown_files(&vec![good, bad]);
    assert!(matches!(r, Err(FrontMatterError::InvalidYaml(_))));
    assert!(matches!(
        parse_markdown_file("---\ntitle: [unterminated\n---\n"),
        Err(FrontMatterError::InvalidYaml(_))
    ));
}

#[test]
fn rendering_twice_gives_same_page() {
    let t = page_template("{{title}} by {{author}} on {{datetime}}: {{content}}");
    let f = document("Same", "<p>x</p>\n");
    let rendered = render_all(&t, vec![f.clone(), f]);
    let a = rendered[0].page.as_ref().unwrap();
    let b = rendered[1].page.as_ref().unwrap();
    assert_eq!(a, b);
    assert_eq!(a, "Same by  on : <p>x</p>\n");
}

#[test]
fn context_exposes_document_fields() {
    let mut f = document("T", "C");
    f.author = "A".to_string();
    f.datetime = "D".to_string();
    f.tags = vec!["x".to_string(), "y".to_string()];
    f.categories = vec!["c".to_string()];
    let c = page_context(&f);
    let t = page_template(
        "{{title}}|{{author}}|{{datetime}}|{{tags | join(sep=\",\")}}|{{categories | join(sep=\",\")}}|{{content}}",
    );
    assert_eq!(t.render("post.html", &c).unwrap(), "T|A|D|x,y|c|C");
}

#[test]
fn failed_render_keeps_pairing_and_writes_nothing() {
    let t = page_template("{{ missing_variable }}");
    let rendered = render_all(&t, vec![document("One", "1"), document("Two", "2")]);
    assert_eq!(rendered.len(), 2);
    assert_eq!(rendered[0].file.title, "One");
    assert_eq!(rendered[1].file.title, "Two");
    assert!(rendered[0].page.is_err());
    assert!(output_files(&rendered, "out").is_empty());
}

#[test]
fn missing_template_is_a_render_error() {
    let t = tera::Tera::default();
    let r = render_all(&t, vec![document("X", "")]);
    assert!(r[0].page.is_err());
    assert_eq!(r[0].file.title, "X");
}

#[test]
fn untitled_document_produces_no_file() {
    let rendered = vec![
        RenderedFile { file: document("", "a"), page: Ok("page a".to_string()) },
        RenderedFile { file: document("B", "b"), page: Ok("page b".to_string()) },
    ];
    let out = output_files(&rendered, "site");
    assert_eq!(out.len(), 1);
    assert_eq!(out[0].path, "site/B.html");
    assert_eq!(out[0].contents, "page b");
}

#[test]
fn template_pattern_prefers_existing_custom_directory() {
    assert_eq!(sitegen::template_pattern(Some("theme"), true), "theme/**/*");
    assert_eq!(sitegen::template_pattern(Some("theme"), false), "templates/**/*");
    assert_eq!(sitegen::template_pattern(None, true), "templates/**/*");
}

#[test]
fn outcomes_stay_with_their_documents() {
    let files = vec![document("A", ""), document("B", ""), document("C", "")];
    let t = page_template("{{title}}");
    let mut pages: Vec<Result<String, tera::Error>> =
        files.iter().map(|f| t.render("post.html", &page_context(f))).collect();
    pages[1] = t.render("missing.html", &page_context(&files[1]));
    let rendered = render_files(files, pages);
    assert_eq!(rendered.len(), 3);
    assert_eq!(rendered[0].page.as_ref().unwrap(), "A");
    assert!(rendered[1].page.is_err());
    assert_eq!(rendered[1].file.title, "B");
    assert_eq!(rendered[2].page.as_ref().unwrap(), "C");
    let out = output_files(&rendered, "o");
    assert_eq!(out.len(), 2);
    assert_eq!(out[0].path, "o/A.html");
    assert_eq!(out[1].path, "o/C.html");
    assert_eq!(out[1].contents, "C");
}

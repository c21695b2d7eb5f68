//! A small static-site generator: Markdown sources with YAML front-matter are
//! turned into documents, rendered through a page template, and planned as
//! output files.

pub mod front_matter;
pub mod metadata;
pub mod markdown;
pub mod templating;
pub mod output;
pub mod laws;

pub use front_matter::{split_front_matter, FrontMatterSplit};
pub use markdown::{markdown_to_html, parse_markdown_file, parse_markdown_files, MarkdownFile};
pub use metadata::{parse_metadata, FrontMatterError, MetaValue, Metadata};
pub use output::{output_files, OutputFile};
pub use templating::{page_context, template_pattern, render_files, RenderedFile};

//! The records that the page templates show, built from an index entry and
//! the body of its file.
use vstd::prelude::*;
use crate::content::{PostEntry, ProjectEntry};
use crate::markup::{allows_raw_html, markdown_html, render_markdown, TrustLevel};

verus! {

/// The two kinds of indexed content, each under a directory of its own.
#[derive(Debug, Clone, Copy, PartialEq, Eq, Structural)]
pub enum Category {
    Posts,
    Projects,
}

pub open spec fn dir_of(category: Category) -> Seq<char> {
    match category {
        Category::Posts => "posts/"@,
        Category::Projects => "projects/"@,
    }
}

impl Category {
    /// The directory that holds the category's index and files.
    pub fn dir(&self) -> (p: String)
        ensures
            p@ == dir_of(*self),
    {
        match self {
            Category::Posts => String::from_str("posts/"),
            Category::Projects => String::from_str("projects/"),
        }
    }

    /// The path of the category's index document.
    pub fn index_path(&self) -> (p: String)
        ensures
            p@ == dir_of(*self) + "index.json"@,
    {
        self.dir().concat("index.json")
    }

    /// The path of a content file that the category's index names.
    pub fn content_path(&self, file: &String) -> (p: String)
        ensures
            p@ == dir_of(*self) + file@,
    {
        self.dir().concat(file.as_str())
    }
}

/// The trust level at which post bodies are rendered: they are written
/// locally, so raw HTML passes.
pub open spec fn post_trust() -> TrustLevel {
    TrustLevel::Trusted
}

/// The trust level at which project bodies are rendered.
pub open spec fn project_trust() -> TrustLevel {
    TrustLevel::Hardened
}

/// A post as a page shows it.
#[derive(Debug)]
pub struct Post {
    pub id: String,
    pub title: String,
    /// The rendered HTML on a post's own page; the Markdown as written in a
    /// listing.
    pub content: String,
    pub tags: Vec<String>,
    pub publish_date: String,
    pub thumbnail: Option<String>,
}

/// A project as a page shows it.
#[derive(Debug)]
pub struct Project {
    pub id: String,
    pub github_link: String,
    pub title: String,
    /// The rendered HTML on a project's own page; the Markdown as written in
    /// a listing.
    pub content: String,
    pub thumbnail: Option<String>,
}

/// The post holds the entry's fields and `content`.
pub open spec fn post_of(entry: PostEntry, content: Seq<char>, p: Post) -> bool {
    &&& p.id == entry.id
    &&& p.title == entry.title
    &&& p.publish_date == entry.publish_date
    &&& p.thumbnail == entry.thumbnail
    &&& p.tags == entry.tags
    &&& p.content@ == content
}

/// The project holds the entry's fields and `content`.
pub open spec fn project_of(entry: ProjectEntry, content: Seq<char>, p: Project) -> bool {
    &&& p.id == entry.id
    &&& p.title == entry.title
    &&& p.github_link == entry.github_link
    &&& p.thumbnail == entry.thumbnail
    &&& p.content@ == content
}

/// A post's own page: its body rendered with raw HTML allowed.
pub fn post_page(entry: PostEntry, body: &str) -> (p: Post)
    ensures
        post_of(entry, markdown_html(body@, allows_raw_html(post_trust())), p),
{
    let content = render_markdown(body, TrustLevel::Trusted);
    Post {
        id: entry.id,
        title: entry.title,
        content,
        tags: entry.tags,
        publish_date: entry.publish_date,
        thumbnail: entry.thumbnail,
    }
}

/// A post as a listing shows it: the body as written.
pub fn listed_post(entry: PostEntry, body: String) -> (p: Post)
    ensures
        post_of(entry, body@, p),
{
    Post {
        id: entry.id,
        title: entry.title,
        content: body,
        tags: entry.tags,
        publish_date: entry.publish_date,
        thumbnail: entry.thumbnail,
    }
}

/// A project's own page: its body rendered with raw HTML escaped.
pub fn project_page(entry: ProjectEntry, body: &str) -> (p: Project)
    ensures
        project_of(entry, markdown_html(body@, allows_raw_html(project_trust())), p),
{
    let content = render_markdown(body, TrustLevel::Hardened);
    Project {
        id: entry.id,
        github_link: entry.github_link,
        title: entry.title,
        content,
        thumbnail: entry.thumbnail,
    }
}

/// A project as a listing shows it: the body as written.
pub fn listed_project(entry: ProjectEntry, body: String) -> (p: Project)
    ensures
        project_of(entry, body@, p),
{
    Project {
        id: entry.id,
        github_link: entry.github_link,
        title: entry.title,
        content: body,
        thumbnail: entry.thumbnail,
    }
}

} // verus!

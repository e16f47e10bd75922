use personal_site::content::{
    find_post, tagged_posts, take_post, take_project, ContentError, PostEntry,
};
use personal_site::index::{check_digit_runs, load_post_index, load_project_index, MAX_DIGIT_RUN};
use personal_site::markup::{render_markdown, TrustLevel};
use personal_site::pages::{listed_post, listed_project, post_page, project_page, Category};
use personal_site::routing::{respond, Reply, Route};

fn entry(id: &str, tags: &[&str]) -> PostEntry {
    PostEntry {
        id: id.to_string(),
        file: format!("{}.md", id),
        title: id.to_uppercase(),
        publish_date: "2024-01-01".to_string(),
        thumbnail: None,
        tags: tags.iter().map(|t| t.to_string()).collect(),
    }
}

fn shell_link(reply: Reply) -> String {
    match reply {
        Reply::Shell(link) => link,
        Reply::Fragment(_) => panic!("expected the shell page"),
    }
}

const HELLO_INDEX: &str = r#"{"posts":[{"id":"hello","file":"hello.md","title":"Hello","tags":[{"name":"intro"}],"publish_date":"2024-01-01"}]}"#;

#[test]
fn full_navigation_links_to_own_path() {
    assert_eq!(shell_link(respond(Route::Posts, false)), "/posts");
    assert_eq!(shell_link(respond(Route::Post("abc".to_string()), false)), "/post/abc");
    assert_eq!(shell_link(respond(Route::About, false)), "/about");
    assert_eq!(shell_link(respond(Route::Projects, false)), "/projects");
    assert_eq!(shell_link(respond(Route::Project("p1".to_string()), false)), "/project/p1");
    assert_eq!(shell_link(respond(Route::Tag("go".to_string()), false)), "/tag/go");
}

#[test]
fn home_always_opens_on_posts() {
    assert_eq!(shell_link(respond(Route::Home, false)), "/posts");
    assert_eq!(shell_link(respond(Route::Home, true)), "/posts");
    assert_eq!(Route::Home.path(), "/");
}

#[test]
fn fragment_marker_gives_fragment() {
    match respond(Route::Post("abc".to_string()), true) {
        Reply::Fragment(Route::Post(id)) => assert_eq!(id, "abc"),
        _ => panic!("expected the post fragment"),
    }
    assert!(matches!(respond(Route::About, true), Reply::Fragment(Route::About)));
}

#[test]
fn error_statuses() {
    assert_eq!(ContentError::NotFound.status(), 404);
    assert_eq!(ContentError::MalformedIndex.status(), 500);
    assert_eq!(ContentError::IoFailure.status(), 500);
    assert_eq!(ContentError::RenderFailure.status(), 500);
}

#[test]
fn hello_post_fragment() {
    let entries = load_post_index(HELLO_INDEX).unwrap();
    assert_eq!(entries.len(), 1);
    assert_eq!(entries[0].file, "hello.md");
    assert_eq!(entries[0].tags, vec!["intro".to_string()]);
    assert_eq!(entries[0].thumbnail, None);
    let e = take_post(entries, "hello").unwrap();
    assert_eq!(Category::Posts.content_path(&e.file), "posts/hello.md");
    let post = post_page(e, "# Hi");
    assert!(post.content.contains("<h1>Hi</h1>"));
    assert_eq!(post.title, "Hello");
    assert_eq!(post.publish_date, "2024-01-01");
}

#[test]
fn every_listed_id_is_found_with_its_title() {
    let text = r#"{"posts":[
        {"id":"a","file":"a.md","title":"First","publish_date":"d1"},
        {"id":"b","file":"b.md","title":"Second","publish_date":"d2","thumbnail":"b.png"}]}"#;
    for (id, title) in [("a", "First"), ("b", "Second")] {
        let entries = load_post_index(text).unwrap();
        let post = post_page(take_post(entries, id).unwrap(), "body");
        assert_eq!(post.id, id);
        assert_eq!(post.title, title);
    }
    let entries = load_post_index(text).unwrap();
    assert_eq!(entries[1].thumbnail, Some("b.png".to_string()));
    assert_eq!(find_post(&entries, "b"), Ok(1));
}

#[test]
fn absent_id_is_not_found() {
    let entries = load_post_index(HELLO_INDEX).unwrap();
    assert_eq!(find_post(&entries, "nope").unwrap_err(), ContentError::NotFound);
    assert_eq!(take_post(entries, "Hello").unwrap_err(), ContentError::NotFound);
    let projects = load_project_index(r#"{"projects":[]}"#).unwrap();
    assert_eq!(take_project(projects, "x").unwrap_err(), ContentError::NotFound);
}

#[test]
fn tag_filter_is_exact_and_case_sensitive() {
    let index = vec![entry("one", &["go", "web"]), entry("two", &["rust"])];
    let go = tagged_posts(index, "go");
    assert_eq!(go.len(), 1);
    assert_eq!(go[0].id, "one");
    let index = vec![entry("one", &["go", "web"]), entry("two", &["rust"])];
    assert!(tagged_posts(index, "Go").is_empty());
    let index = vec![entry("one", &["go", "web"]), entry("two", &["rust"])];
    assert!(tagged_posts(index, "g").is_empty());
}

#[test]
fn tag_listing_keeps_index_order() {
    let index = vec![
        entry("c", &["x"]),
        entry("a", &["y"]),
        entry("b", &["x", "y"]),
        entry("d", &["x"]),
    ];
    let ids: Vec<String> = tagged_posts(index, "x").into_iter().map(|e| e.id).collect();
    assert_eq!(ids, vec!["c", "b", "d"]);
}

#[test]
fn index_keeps_document_order() {
    let text = r#"{"posts":[
        {"id":"z","file":"z.md","title":"Z","publish_date":"d"},
        {"id":"a","file":"a.md","title":"A","publish_date":"d"},
        {"id":"m","file":"m.md","title":"M","publish_date":"d"}]}"#;
    let ids: Vec<String> = load_post_index(text).unwrap().into_iter().map(|e| e.id).collect();
    assert_eq!(ids, vec!["z", "a", "m"]);
}

#[test]
fn malformed_indexes() {
    assert_eq!(load_post_index("{not json").unwrap_err(), ContentError::MalformedIndex);
    let no_title = r#"{"posts":[{"id":"a","file":"a.md","publish_date":"d"}]}"#;
    assert_eq!(load_post_index(no_title).unwrap_err(), ContentError::MalformedIndex);
    let twice = r#"{"posts":[
        {"id":"a","file":"a.md","title":"A","publish_date":"d"},
        {"id":"a","file":"b.md","title":"B","publish_date":"d"}]}"#;
    assert_eq!(load_post_index(twice).unwrap_err(), ContentError::MalformedIndex);
    let nameless_tag = r#"{"posts":[{"id":"a","file":"a.md","title":"A","publish_date":"d","tags":[{}]}]}"#;
    assert_eq!(load_post_index(nameless_tag).unwrap_err(), ContentError::MalformedIndex);
    let no_link = r#"{"projects":[{"id":"p","file":"p.md","title":"P"}]}"#;
    assert_eq!(load_project_index(no_link).unwrap_err(), ContentError::MalformedIndex);
}

#[test]
fn script_passes_only_when_trusted() {
    let body = "Before\n\n<script>alert(1)</script>\n";
    let trusted = render_markdown(body, TrustLevel::Trusted);
    assert!(trusted.contains("<script>alert(1)</script>"));
    let hardened = render_markdown(body, TrustLevel::Hardened);
    assert!(!hardened.contains("<script>"));
    assert!(hardened.contains("&lt;script&gt;"));
}

#[test]
fn dangerous_protocol_only_when_trusted() {
    let body = "[x](javascript:alert(1))";
    let trusted = render_markdown(body, TrustLevel::Trusted);
    assert!(trusted.contains("href=\"javascript:alert(1)\""));
    let hardened = render_markdown(body, TrustLevel::Hardened);
    assert!(!hardened.contains("javascript:"));
}

#[test]
fn markdown_is_rendered_not_copied() {
    let html = render_markdown("*hi*", TrustLevel::Hardened);
    assert_eq!(html, "<p><em>hi</em></p>");
    assert_eq!(render_markdown("", TrustLevel::Trusted), "");
}

#[test]
fn project_page_and_listing() {
    let text = r#"{"projects":[{"id":"p","file":"p.md","title":"Proj","github_link":"https://example.org/p"}]}"#;
    let projects = load_project_index(text).unwrap();
    assert_eq!(Category::Projects.content_path(&projects[0].file), "projects/p.md");
    let e = take_project(projects, "p").unwrap();
    let page = project_page(e, "# T\n\n<b>x</b>");
    assert!(page.content.contains("<h1>T</h1>"));
    assert!(page.content.contains("&lt;b&gt;"));
    assert_eq!(page.github_link, "https://example.org/p");
    let projects = load_project_index(text).unwrap();
    let listed = listed_project(take_project(projects, "p").unwrap(), "# raw".to_string());
    assert_eq!(listed.content, "# raw");
    assert_eq!(listed.title, "Proj");
}

#[test]
fn listing_keeps_body_as_written() {
    let p = listed_post(entry("x", &["t"]), "# Raw *text*".to_string());
    assert_eq!(p.content, "# Raw *text*");
    assert_eq!(p.id, "x");
    assert_eq!(p.tags, vec!["t".to_string()]);
}

#[test]
fn index_paths() {
    assert_eq!(Category::Posts.index_path(), "posts/index.json");
    assert_eq!(Category::Projects.index_path(), "projects/index.json");
    assert_eq!(Category::Posts.dir(), "posts/");
}

#[test]
fn empty_index_gives_empty_listing() {
    assert!(load_post_index(r#"{"posts":[]}"#).unwrap().is_empty());
    assert!(load_post_index(r#"{}"#).unwrap().is_empty());
    assert!(load_project_index(r#"{"projects":[]}"#).unwrap().is_empty());
}

#[test]
fn tags_are_read_in_order() {
    let text = r#"{"posts":[{"id":"a","file":"a.md","title":"A","publish_date":"d",
        "tags":[{"name":"web"},{"name":"go"},{"name":"Web"}]}]}"#;
    let entries = load_post_index(text).unwrap();
    assert_eq!(entries[0].tags, vec!["web".to_string(), "go".to_string(), "Web".to_string()]);
    let go = tagged_posts(entries, "go");
    assert_eq!(go.len(), 1);
}

#[test]
fn listed_project_id_is_found_with_its_title() {
    let text = r#"{"projects":[
        {"id":"p","file":"p.md","title":"Proj P","github_link":"l1"},
        {"id":"q","file":"q.md","title":"Proj Q","github_link":"l2","thumbnail":"q.png"}]}"#;
    let projects = load_project_index(text).unwrap();
    assert_eq!(projects[1].thumbnail, Some("q.png".to_string()));
    let page = project_page(take_project(projects, "q").unwrap(), "<script>x</script>");
    assert_eq!(page.title, "Proj Q");
    assert!(!page.content.contains("<script>"));
}

#[test]
fn digit_runs_up_to_the_limit_parse() {
    let text = format!(r#"{{"posts":[],"n":0.{}}}"#, "0".repeat(MAX_DIGIT_RUN));
    assert!(check_digit_runs(&text));
    assert!(load_post_index(&text).unwrap().is_empty());
}

#[test]
fn overlong_digit_run_is_malformed() {
    let text = format!(r#"{{"posts":[],"n":0.{}}}"#, "0".repeat(MAX_DIGIT_RUN + 1));
    assert!(!check_digit_runs(&text));
    assert_eq!(load_post_index(&text).unwrap_err(), ContentError::MalformedIndex);
    let text = format!(r#"{{"projects":[],"n":0.{}}}"#, "0".repeat(MAX_DIGIT_RUN + 1));
    assert_eq!(load_project_index(&text).unwrap_err(), ContentError::MalformedIndex);
    assert!(check_digit_runs("é12345é"));
}

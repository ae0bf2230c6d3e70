use blog_content::collection::{newest_first, select_directories, EntryKind, ListedEntry};
use blog_content::error::PostError;
use blog_content::front_matter::{front_matter_block, FrontMatter, Timestamp};
use blog_content::post::{get_post_for_path, render_body, resolve_image, Post};

fn entry(name: &str, kind: EntryKind) -> ListedEntry {
    ListedEntry { name: name.to_string(), kind }
}

fn post_at(path: &str, seconds: i64) -> Post {
    Post {
        title: path.to_string(),
        date: Timestamp { seconds, nanos: 0, offset_seconds: 0 },
        description: None,
        html: String::new(),
        path: path.to_string(),
        image: None,
    }
}

fn paths(posts: &[Post]) -> Vec<String> {
    posts.iter().map(|p| p.path.clone()).collect()
}

fn build(path: &str, contents: &str, title: &str, date: &str) -> Post {
    let block = front_matter_block(contents).unwrap();
    assert!(block.contains(title));
    let fm = FrontMatter::from_fields(title.to_string(), date, None, None).unwrap();
    get_post_for_path(&path.to_string(), contents, fm)
}

#[test]
fn listing_keeps_only_directories_in_order() {
    let entries = vec![
        entry("b", EntryKind::Directory),
        entry("notes.txt", EntryKind::NotDirectory),
        entry("a", EntryKind::Directory),
    ];
    assert_eq!(select_directories(&entries).unwrap(), vec!["b".to_string(), "a".to_string()]);
}

#[test]
fn listing_of_empty_root_is_empty() {
    assert_eq!(select_directories(&Vec::new()).unwrap(), Vec::<String>::new());
}

#[test]
fn listing_fails_on_unknown_entry_type() {
    let entries = vec![entry("a", EntryKind::Directory), entry("x", EntryKind::Unknown)];
    assert_eq!(select_directories(&entries), Err(PostError::EntryMetadataUnavailable));
}

#[test]
fn post_path_is_the_identifier() {
    let post = build("my-post", "---\ntitle: T\n---\nbody\n", "T", "2023-01-01T00:00:00+00:00");
    assert_eq!(post.path, "my-post");
}

#[test]
fn front_matter_block_is_text_between_markers() {
    assert_eq!(
        front_matter_block("---\ntitle: Hello\n---\n# Hi\n").unwrap(),
        "title: Hello\n".to_string()
    );
}

#[test]
fn missing_front_matter_without_leading_marker() {
    assert_eq!(front_matter_block("# Hi\n---\nx\n---\n"), Err(PostError::FrontMatterMissing));
    assert_eq!(front_matter_block(""), Err(PostError::FrontMatterMissing));
}

#[test]
fn missing_front_matter_without_closing_marker() {
    assert_eq!(front_matter_block("---\ntitle: Hello\n"), Err(PostError::FrontMatterMissing));
}

#[test]
fn malformed_date_is_rejected() {
    let r = FrontMatter::from_fields("Hello".to_string(), "yesterday", None, None);
    assert_eq!(r.unwrap_err(), PostError::FrontMatterMalformed);
}

#[test]
fn empty_title_is_rejected() {
    let r = FrontMatter::from_fields(String::new(), "2023-01-01T00:00:00+00:00", None, None);
    assert_eq!(r.unwrap_err(), PostError::FrontMatterMalformed);
}

#[test]
fn date_is_read_with_its_offset() {
    let fm = FrontMatter::from_fields(
        "Hello".to_string(),
        "2023-01-01T02:00:00+02:00",
        Some("d".to_string()),
        Some("i.png".to_string()),
    )
    .unwrap();
    assert_eq!(fm.date, Timestamp { seconds: 1672531200, nanos: 0, offset_seconds: 7200 });
    assert_eq!(fm.description, Some("d".to_string()));
    assert_eq!(fm.image, Some("i.png".to_string()));
}

#[test]
fn plain_text_renders_to_a_paragraph() {
    assert_eq!(render_body("hello world"), "<p>hello world</p>");
}

#[test]
fn rendering_is_repeatable() {
    let doc = "---\ntitle: x\n---\n# A *b*\n";
    assert_eq!(render_body(doc), render_body(doc));
}

#[test]
fn front_matter_is_not_rendered() {
    let html = render_body("---\ntitle: Secret\n---\nvisible\n");
    assert!(!html.contains("Secret"));
    assert!(html.contains("visible"));
}

#[test]
fn raw_html_passes_through() {
    let html = render_body("<div class=\"x\">raw</div>\n");
    assert!(html.contains("<div class=\"x\">raw</div>"));
}

#[test]
fn explicit_image_wins() {
    let r = resolve_image(Some("cover.jpg".to_string()), "<img src=\"x.png\">");
    assert_eq!(r, Some("cover.jpg".to_string()));
}

#[test]
fn image_taken_from_first_src() {
    assert_eq!(
        resolve_image(None, "<p><img src=\"x.png\"> <img src=\"y.png\"></p>"),
        Some("x.png".to_string())
    );
}

#[test]
fn empty_src_is_skipped() {
    assert_eq!(resolve_image(None, "src=\"\" then src=\"y.png\""), Some("y.png".to_string()));
}

#[test]
fn no_image_anywhere() {
    assert_eq!(resolve_image(None, "<p>no pictures</p>"), None);
}

#[test]
fn post_image_falls_back_to_rendered_html() {
    let contents = "---\ntitle: P\n---\n![alt](pic.png)\n";
    let post = build("p", contents, "P", "2023-01-01T00:00:00Z");
    assert_eq!(post.image, Some("pic.png".to_string()));
}

#[test]
fn newest_first_orders_by_date_descending() {
    let posts = vec![post_at("old", 10), post_at("new", 30), post_at("mid", 20)];
    assert_eq!(paths(&newest_first(posts)), vec!["new", "mid", "old"]);
}

#[test]
fn newest_first_keeps_ties_in_discovery_order() {
    let posts = vec![post_at("x", 10), post_at("y", 20), post_at("z", 10), post_at("w", 20)];
    assert_eq!(paths(&newest_first(posts)), vec!["y", "w", "x", "z"]);
}

#[test]
fn newest_first_compares_instants_not_offsets() {
    let mut early = post_at("early", 100);
    early.date.offset_seconds = 3600;
    let mut late = post_at("late", 100);
    late.date.nanos = 5;
    assert_eq!(paths(&newest_first(vec![early, late])), vec!["late", "early"]);
}

#[test]
fn end_to_end_two_posts() {
    let a = build(
        "a",
        "---\ntitle: Hello\ndate: 2023-01-01T00:00:00+00:00\n---\n# Hi\n",
        "Hello",
        "2023-01-01T00:00:00+00:00",
    );
    let b = build(
        "b",
        "---\ntitle: World\ndate: 2023-02-01T00:00:00+00:00\n---\n## Bye\n",
        "World",
        "2023-02-01T00:00:00+00:00",
    );
    assert_eq!(a.date.seconds, 1672531200);
    assert_eq!(b.date.seconds, 1675209600);
    assert!(a.html.contains("<h1>Hi</h1>"));
    assert!(b.html.contains("<h2>Bye</h2>"));
    let listed = newest_first(vec![a, b]);
    assert_eq!(paths(&listed), vec!["b", "a"]);
}

#[test]
fn errors_have_messages() {
    assert_eq!(PostError::FrontMatterMalformed.message(), "cannot parse front matter");
    assert_eq!(PostError::FrontMatterMissing.message(), "front matter missing");
}

#[test]
fn hyphens_inside_a_line_do_not_close_the_block() {
    let contents = "---\ntitle: a---b\ndate: 2023-01-01T00:00:00+00:00\n---\nx";
    assert_eq!(
        front_matter_block(contents).unwrap(),
        "title: a---b\ndate: 2023-01-01T00:00:00+00:00\n".to_string()
    );
}

#[test]
fn longer_rule_is_no_opening_marker() {
    assert_eq!(front_matter_block("----\ntitle: x\n---\n"), Err(PostError::FrontMatterMissing));
    assert_eq!(front_matter_block("---title: x---"), Err(PostError::FrontMatterMissing));
}

#[test]
fn closing_marker_must_be_a_whole_line() {
    assert_eq!(front_matter_block("---\ntitle: x\n--- \nbody\n"), Err(PostError::FrontMatterMissing));
    assert_eq!(front_matter_block("---\ntitle: x\n----\nbody\n"), Err(PostError::FrontMatterMissing));
}

#[test]
fn closing_marker_may_end_the_file() {
    assert_eq!(front_matter_block("---\ntitle: x\n---").unwrap(), "title: x\n".to_string());
}

#[test]
fn empty_block_is_found() {
    assert_eq!(front_matter_block("---\n---\nbody").unwrap(), String::new());
}

use redirect::response::build_redirect;
use redirect::response::handle_path;
use redirect::slug::slugify;

#[test]
fn empty_input_stays_empty() {
    assert_eq!(slugify(""), "");
}

#[test]
fn plain_name_loses_last_five() {
    // "blog-post-name" has no `/`; truncation drops "-name".
    assert_eq!(slugify("blog-post-name"), "blog-post");
}

#[test]
fn slashes_become_dashes_before_truncation() {
    // "hello/world" -> "hello-world" -> drop the last five -> "hello-"
    assert_eq!(slugify("hello/world"), "hello-");
    // The kept part still shows the substitution.
    assert_eq!(slugify("a/b/c/d/e"), "a-b-");
}

#[test]
fn five_characters_truncate_to_empty() {
    assert_eq!(slugify("a/b/c"), "");
}

#[test]
fn short_input_clamps_to_empty() {
    assert_eq!(slugify("ab"), "");
    assert_eq!(slugify("abcd"), "");
}

#[test]
fn redirect_is_permanent_and_points_at_blog() {
    let r = build_redirect("blog-post");
    assert_eq!(r.status, 301);
    assert_eq!(r.location, "https://mechanicalrock.io/blog/blog-post");
    assert_eq!(r.body, "Redirected to blog-post");
}

#[test]
fn redirect_location_ends_with_slug_verbatim() {
    let r = build_redirect("a-b_c~d");
    assert_eq!(r.status, 301);
    assert!(r.location.ends_with("a-b_c~d"));
    assert_eq!(r.location, "https://mechanicalrock.io/blog/a-b_c~d");
}

#[test]
fn empty_slug_redirects_to_blog_root() {
    let r = build_redirect("");
    assert_eq!(r.status, 301);
    assert_eq!(r.location, "https://mechanicalrock.io/blog/");
    assert_eq!(r.body, "Redirected to ");
}

#[test]
fn path_blog_post_name() {
    let r = handle_path("/blog-post-name");
    assert_eq!(r.status, 301);
    assert_eq!(r.location, "https://mechanicalrock.io/blog/blog-post");
    assert_eq!(r.body, "Redirected to blog-post");
}

#[test]
fn path_a_b_c() {
    // Stripping the leading character leaves "a/b/c"; the dashed form
    // "a-b-c" has exactly five characters, so the slug is empty.
    let r = handle_path("/a/b/c");
    assert_eq!(r.status, 301);
    assert_eq!(r.location, "https://mechanicalrock.io/blog/");
    assert_eq!(r.body, "Redirected to ");
}

#[test]
fn path_root_only() {
    let r = handle_path("/");
    assert_eq!(r.status, 301);
    assert_eq!(r.location, "https://mechanicalrock.io/blog/");
    assert_eq!(r.body, "Redirected to ");
}

#[test]
fn path_longer_post() {
    let r = handle_path("/posts/2024/hello-world");
    // Stripped: "posts/2024/hello-world" -> dashed "posts-2024-hello-world"
    // (22 characters) -> keep the first 17.
    assert_eq!(slugify("posts/2024/hello-world"), "posts-2024-hello-");
    assert_eq!(r.location, "https://mechanicalrock.io/blog/posts-2024-hello-");
}

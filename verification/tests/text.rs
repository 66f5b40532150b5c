use articles::markdown::edit_md_relative_urls;
use articles::pagination::page_bounds;
use articles::settings::{web_url, Settings};
use articles::text::{concat2, concat3, replace, slugify};

#[test]
fn slug_replaces_every_space() {
    assert_eq!(slugify("My first  article "), "My_first__article_");
    assert_eq!(slugify("no-spaces"), "no-spaces");
    assert_eq!(slugify(""), "");
}

#[test]
fn slug_is_idempotent() {
    let once = slugify("a b c");
    assert_eq!(slugify(&once), once);
}

#[test]
fn replace_matches_std() {
    let cases = [
        ("aaaa", "aa", "b"),
        ("abcabc", "bc", "XYZ"),
        ("hello", "z", "q"),
        ("", "a", "b"),
        ("abc", "", "-"),
        ("", "", "-"),
        ("ab", "abc", "x"),
        ("ééé", "é", "e"),
    ];
    for (s, p, r) in cases {
        assert_eq!(replace(s, p, r), s.replace(p, r));
    }
}

#[test]
fn replace_by_itself_changes_nothing() {
    assert_eq!(replace("a](./imgs/b](./imgs/", "](./imgs/", "](./imgs/"), "a](./imgs/b](./imgs/");
}

#[test]
fn concatenation() {
    assert_eq!(concat2("ab", "cd"), "abcd");
    assert_eq!(concat3("a", "/", "b"), "a/b");
}

#[test]
fn markdown_links_point_at_published_address() {
    let md = "# Title\n![cat](./imgs/cat.png) and ![dog](imgs/dog.png)\n[other](./other.md) [a](./b)";
    let out = edit_md_relative_urls(md, "http://site/articles/post/");
    assert_eq!(
        out,
        "# Title\n![cat](http://site/articles/post/imgs/cat.png) and ![dog](http://site/articles/post/imgs/dog.png)\n[other](http://site/articles/post/other.md) [a](http://site/articles/post/b)"
    );
}

#[test]
fn markdown_keeps_non_relative_links() {
    let md = "[w](https://x.org/a) [m](mailto:a@b.c) [abs](/root) [frag](#top) [br](<http://x.org/y z>) [empty]() ![x](http://elsewhere/x.png) plain ] ( text";
    assert_eq!(edit_md_relative_urls(md, "http://site/"), md);
}

#[test]
fn markdown_text_outside_links_is_kept() {
    assert_eq!(edit_md_relative_urls("a](b", "http://h/p/"), "a](b");
    assert_eq!(edit_md_relative_urls("see ](./imgs/a.png) here", "http://h/p/"), "see ](./imgs/a.png) here");
    assert_eq!(edit_md_relative_urls("x]: ./y", "http://h/p/"), "x]: ./y");
    assert_eq!(edit_md_relative_urls("see [r]: ./a", "http://h/p/"), "see [r]: ./a");
}

#[test]
fn markdown_code_is_kept() {
    assert_eq!(
        edit_md_relative_urls("`[a](./b)` and [c](./d)", "http://s/"),
        "`[a](./b)` and [c](http://s/d)"
    );
    assert_eq!(
        edit_md_relative_urls("```\n[a](./b)\n```\n[c](./d)", "http://s/"),
        "```\n[a](./b)\n```\n[c](http://s/d)"
    );
}

#[test]
fn markdown_code_spans_close_on_a_run_as_long() {
    assert_eq!(edit_md_relative_urls("``[a](./b)``", "http://s/"), "``[a](./b)``");
    assert_eq!(edit_md_relative_urls("``a ` [b](./c)``", "http://s/"), "``a ` [b](./c)``");
    assert_eq!(
        edit_md_relative_urls("``a`` [b](./c) `d` [e](./f)", "http://s/"),
        "``a`` [b](http://s/c) `d` [e](http://s/f)"
    );
    assert_eq!(
        edit_md_relative_urls("a stray ` here\n\n![i](./imgs/i.png)", "http://s/"),
        "a stray ` here\n\n![i](http://s/imgs/i.png)"
    );
}

#[test]
fn markdown_indented_code_is_kept() {
    assert_eq!(edit_md_relative_urls("    [a](./b)", "http://s/"), "    [a](./b)");
    assert_eq!(edit_md_relative_urls("\t[a](./b)\n", "http://s/"), "\t[a](./b)\n");
    assert_eq!(
        edit_md_relative_urls("text\n\n    [a](./b)\n\n[c](./d)", "http://s/"),
        "text\n\n    [a](./b)\n\n[c](http://s/d)"
    );
    assert_eq!(
        edit_md_relative_urls("    ```\n[a](./b)", "http://s/"),
        "    ```\n[a](http://s/b)"
    );
}

#[test]
fn markdown_indented_paragraph_line_is_text() {
    assert_eq!(
        edit_md_relative_urls("text\n    [a](./b)", "http://s/"),
        "text\n    [a](http://s/b)"
    );
    assert_eq!(edit_md_relative_urls("[a\n   \nb](./c)", "http://s/"), "[a\n   \nb](./c)");
}

#[test]
fn markdown_fences_and_definitions_may_be_indented() {
    assert_eq!(edit_md_relative_urls("   [r]: ./a", "http://s/"), "   [r]: http://s/a");
    assert_eq!(
        edit_md_relative_urls("  ```\n[a](./b)\n  ```\n[c](./d)", "http://s/"),
        "  ```\n[a](./b)\n  ```\n[c](http://s/d)"
    );
}

#[test]
fn markdown_reference_definitions_are_rewritten() {
    assert_eq!(
        edit_md_relative_urls("[r]: ./imgs/a.png\n![x][r]", "http://s/"),
        "[r]: http://s/imgs/a.png\n![x][r]"
    );
}

#[test]
fn markdown_definition_cannot_interrupt_a_paragraph() {
    assert_eq!(edit_md_relative_urls("Some text\n[r]: ./a", "http://s/"), "Some text\n[r]: ./a");
    assert_eq!(
        edit_md_relative_urls("Some text\n\n[r]: ./a\n[q]: ./b", "http://s/"),
        "Some text\n\n[r]: http://s/a\n[q]: http://s/b"
    );
}

#[test]
fn markdown_bracketed_targets_are_rewritten() {
    assert_eq!(edit_md_relative_urls("[br](<x y.png>)", "http://s/"), "[br](<http://s/x y.png>)");
    assert_eq!(edit_md_relative_urls("[a](<./imgs/b.png>)", "http://s/"), "[a](<http://s/imgs/b.png>)");
    assert_eq!(edit_md_relative_urls("[a]( ./b)", "http://s/"), "[a]( http://s/b)");
}

#[test]
fn markdown_escaped_bracket_opens_no_link() {
    assert_eq!(edit_md_relative_urls("\\[a](./b)", "http://s/"), "\\[a](./b)");
}

#[test]
fn markdown_blank_line_ends_link_text() {
    assert_eq!(edit_md_relative_urls("[a\n\nb](./c)", "http://s/"), "[a\n\nb](./c)");
    assert_eq!(edit_md_relative_urls("[a\nb](./c)", "http://s/"), "[a\nb](http://s/c)");
}

#[test]
fn markdown_image_inside_link() {
    assert_eq!(
        edit_md_relative_urls("[![i](./imgs/i.png)](./page)", "http://s/"),
        "[![i](http://s/imgs/i.png)](http://s/page)"
    );
}

#[test]
fn markdown_relative_link_with_colon_later() {
    assert_eq!(edit_md_relative_urls("[a](docs/a:b)", "http://s/"), "[a](http://s/docs/a:b)");
    assert_eq!(edit_md_relative_urls("[a](1ab:c)", "http://s/"), "[a](http://s/1ab:c)");
}

#[test]
fn settings_build_paths_and_links() {
    assert_eq!(web_url("https", "example.org"), "https://example.org");
    let s = Settings::new("/srv/articles".to_string(), "https", "example.org");
    assert_eq!(s.web_articles_url, "https://example.org/articles");
    assert_eq!(s.article_dir("my_post"), "/srv/articles/my_post");
    assert_eq!(s.archive_dir("my_post"), "/srv/articles/my_post/");
    assert_eq!(s.markdown_path("my_post"), "/srv/articles/my_post/main.md");
    assert_eq!(s.article_url("my_post"), "https://example.org/articles/my_post");
    assert_eq!(s.markdown_url("my_post"), "https://example.org/articles/my_post/main.md");
}

#[test]
fn pages_hold_ten_articles() {
    assert_eq!(page_bounds(1), (1, 10));
    assert_eq!(page_bounds(2), (11, 20));
    assert_eq!(page_bounds(429496729), (4294967281, 4294967290));
}

use articles::handler::create::{create_article, CreateFlow};
use articles::handler::delete::{delete_article, DeleteFlow};
use articles::handler::read::{read_article, ReadFlow};
use articles::handler::update::{update_article, UpdateFlow};
use articles::handler::{Action, Event};
use articles::markdown::edit_md_relative_urls;
use articles::model::{CreateArticleRequest, UpdateArticleRequest};
use articles::pagination::page_bounds;
use articles::settings::Settings;
use articles::text::replace;

fn settings() -> Settings {
    Settings::new("/a".to_string(), "http", "h")
}

#[test]
fn replacement_changes_length_by_each_match() {
    let s = "x](./imgs/y](./imgs/z";
    let out = replace(s, "](./imgs/", "](http://h/imgs/");
    let matches = 2;
    let growth = "](http://h/imgs/".chars().count() as i64 - "](./imgs/".chars().count() as i64;
    assert_eq!(out.chars().count() as i64, s.chars().count() as i64 + matches * growth);
}

#[test]
fn no_relative_link_survives_rewriting() {
    let md = "[a](./imgs/x.png) ![b](./imgs/y.png) [[c](./imgs/z)](./d)";
    let out = edit_md_relative_urls(md, "https://h/articles/p/");
    assert!(!out.contains("](./"));
    assert!(!out.contains("](imgs"));
    assert_eq!(edit_md_relative_urls(&out, "https://h/articles/p/"), out);
}

#[test]
fn text_without_links_is_unchanged() {
    for md in ["a](b", "](./imgs/x.png)", "plain ]: ./y\n`code`"] {
        assert_eq!(edit_md_relative_urls(md, "http://h/p/"), md);
    }
}

#[test]
fn rewriting_twice_is_rewriting_once() {
    let url = "https://h/articles/p/";
    for md in [
        "![i](./imgs/i.png)",
        "[r]: ./imgs/a.png\n[a](<b c.png>) `[x](./y)` [[n](./m)](o)",
        "```\n[a](./b)\n```\n[c](d) \\[e](f) [g](h:i)",
    ] {
        let once = edit_md_relative_urls(md, url);
        assert_ne!(once, md);
        assert_eq!(edit_md_relative_urls(&once, url), once);
    }
}

#[test]
fn fenced_block_is_unchanged() {
    let md = "```\n[a](./imgs/a.png)\n[r]: ./b\n";
    assert_eq!(edit_md_relative_urls(md, "http://h/p/"), md);
}

#[test]
fn every_number_lies_on_one_page() {
    for id in 1u32..=95 {
        let p = (id + 9) / 10;
        let (first, last) = page_bounds(p);
        assert!(first <= id && id <= last);
        if p > 1 {
            let (f, l) = page_bounds(p - 1);
            assert!(!(f <= id && id <= l));
        }
    }
}

#[test]
fn consecutive_pages_are_adjacent() {
    for p in [1u32, 2, 57, 1000] {
        let (first, last) = page_bounds(p);
        assert_eq!(last - first + 1, 10);
        assert_eq!(page_bounds(p + 1).0, last + 1);
    }
}

#[test]
fn handlers_use_the_same_slug() {
    let title = "A  Tale of Two";
    let mut create = CreateFlow::new(settings(), CreateArticleRequest { title: title.to_string(), archive: vec![] });
    let mut read = ReadFlow::new(title.to_string());
    let mut delete = DeleteFlow::new(settings(), title.to_string());
    let created = match create_article(&mut create, Event::Begin) {
        Action::FindArticle { slug } => slug,
        _ => panic!(),
    };
    let looked_up = match read_article(&mut read, Event::Begin) {
        Action::FindArticle { slug } => slug,
        _ => panic!(),
    };
    delete_article(&mut delete, Event::Begin);
    let deleted = match delete_article(&mut delete, Event::Succeeded) {
        Action::DeleteArticle { slug } => slug,
        _ => panic!(),
    };
    assert_eq!(created, "A__Tale_of_Two");
    assert_eq!(looked_up, created);
    assert_eq!(deleted, created);
}

#[test]
fn update_records_what_creation_records() {
    let mut create = CreateFlow::new(settings(), CreateArticleRequest { title: "new one".to_string(), archive: vec![] });
    for e in [Event::Begin, Event::Failed, Event::Succeeded, Event::Succeeded] {
        create_article(&mut create, e);
    }
    let (created_slug, created_content) = match create_article(&mut create, Event::Succeeded) {
        Action::InsertArticle { slug, content, .. } => (slug, content),
        _ => panic!(),
    };
    let mut update = UpdateFlow::new(
        settings(),
        UpdateArticleRequest { title: "old".to_string(), new_title: Some("new one".to_string()), archive: None },
    );
    update_article(&mut update, Event::Begin);
    match update_article(&mut update, Event::Succeeded) {
        Action::UpdateArticle { slug, content, .. } => {
            assert_eq!(slug, created_slug);
            assert_eq!(content, created_content);
        }
        _ => panic!(),
    }
}

#[test]
fn markdown_lies_in_unpacked_archive() {
    let s = settings();
    assert_eq!(s.markdown_path("p"), format!("{}main.md", s.archive_dir("p")));
}

#[test]
fn image_links_point_into_article() {
    let s = settings();
    let out = edit_md_relative_urls("![i](./imgs/i.png)", &s.article_folder_url("p"));
    assert_eq!(out, format!("![i]({}/imgs/i.png)", s.article_url("p")));
}

#[test]
fn titles_with_the_same_slug_name_the_same_article() {
    let mut create = CreateFlow::new(settings(), CreateArticleRequest { title: "My Post".to_string(), archive: vec![] });
    let mut read = ReadFlow::new("My_Post".to_string());
    let a = match create_article(&mut create, Event::Begin) {
        Action::FindArticle { slug } => slug,
        _ => panic!(),
    };
    let b = match read_article(&mut read, Event::Begin) {
        Action::FindArticle { slug } => slug,
        _ => panic!(),
    };
    assert_eq!(a, b);
}

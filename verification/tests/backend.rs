use articles::backend::create::{create_article, CreateFlow};
use articles::backend::delete::{delete_article, delete_deprecated_files, DeleteFlow};
use articles::backend::model::{Article, CreateArticle, UpdateArticle};
use articles::backend::read::{read_article_exact, read_article_list, ListFlow, ReadFlow};
use articles::backend::update::{update_article, UpdateFlow};
use articles::backend::{Action, Event, Reply};
use articles::error::ArticleFsError;
use articles::model::ArticleListPagination;
use articles::settings::Settings;

fn settings() -> Settings {
    Settings::new("/data".to_string(), "https", "site.org")
}

fn status(reply: &Reply) -> (bool, String) {
    match reply {
        Reply::Status { success, data } => (*success, data.clone()),
        _ => panic!("expected a status reply"),
    }
}

fn article(id: i64) -> Article {
    Article {
        id,
        title: "t".to_string(),
        content: "c".to_string(),
        created_at: chrono::NaiveDate::from_ymd_opt(2023, 1, 2).unwrap().and_hms_opt(3, 4, 5).unwrap(),
    }
}

#[test]
fn backend_create_runs_every_step() {
    let mut flow = CreateFlow::new(settings(), CreateArticle { title: "Hello World".to_string(), archive: b"Bw==".to_vec() });
    match create_article(&mut flow, Event::Begin) {
        Action::StoreArchive { dir, file_name, data } => {
            assert_eq!(dir, "/data/Hello_World/");
            assert_eq!(file_name, "Hello_World");
            assert_eq!(data, vec![7]);
        }
        _ => panic!("expected the archive to be stored"),
    }
    match create_article(&mut flow, Event::Succeeded) {
        Action::ExtractArchive { dir, file_name } => {
            assert_eq!(dir, "/data/Hello_World/");
            assert_eq!(file_name, "Hello_World");
        }
        _ => panic!("expected the archive to be unpacked"),
    }
    match create_article(&mut flow, Event::Succeeded) {
        Action::RewriteMarkdown { path, url } => {
            assert_eq!(path, "/data/Hello_World/main.md");
            assert_eq!(url, "https://site.org/articles/Hello_World/");
        }
        _ => panic!("expected the markdown to be rewritten"),
    }
    match create_article(&mut flow, Event::Succeeded) {
        Action::InsertArticle { title, content } => {
            assert_eq!(title, "Hello_World");
            assert_eq!(content, "https://site.org/articles/Hello_World//main.md");
        }
        _ => panic!("expected the article to be recorded"),
    }
    match create_article(&mut flow, Event::Succeeded) {
        Action::Respond(Ok(r)) => assert_eq!(status(&r), (true, "Created!".to_string())),
        _ => panic!("expected success"),
    }
}

#[test]
fn backend_create_refuses_bad_base64() {
    let mut flow = CreateFlow::new(settings(), CreateArticle { title: "x".to_string(), archive: b"not base64!".to_vec() });
    match create_article(&mut flow, Event::Begin) {
        Action::Respond(Err(r)) => assert_eq!(status(&r), (false, "Unable to upload non-gzip file!".to_string())),
        _ => panic!("expected a refusal"),
    }
}

#[test]
fn backend_create_decodes_base64() {
    let mut flow = CreateFlow::new(settings(), CreateArticle { title: "x".to_string(), archive: b"AQID".to_vec() });
    match create_article(&mut flow, Event::Begin) {
        Action::StoreArchive { data, .. } => assert_eq!(data, vec![1, 2, 3]),
        _ => panic!("expected the decoded archive to be stored"),
    }
}

#[test]
fn backend_create_failures() {
    let mut flow = CreateFlow::new(settings(), CreateArticle { title: "x".to_string(), archive: vec![] });
    create_article(&mut flow, Event::Begin);
    create_article(&mut flow, Event::Succeeded);
    match create_article(&mut flow, Event::Failed) {
        Action::Respond(Err(r)) => assert_eq!(status(&r), (false, "Unable to upload non-gzip file!".to_string())),
        _ => panic!("expected a refusal"),
    }
    let mut flow = CreateFlow::new(settings(), CreateArticle { title: "x".to_string(), archive: vec![] });
    for e in [Event::Begin, Event::Succeeded, Event::Succeeded, Event::Succeeded] {
        create_article(&mut flow, e);
    }
    match create_article(&mut flow, Event::Failed) {
        Action::Respond(Err(r)) => assert_eq!(status(&r), (false, "Database issue!".to_string())),
        _ => panic!("expected a database issue"),
    }
}

#[test]
fn backend_listing() {
    let mut flow = ListFlow::new(ArticleListPagination { page: Some(1) });
    match read_article_list(&mut flow, Event::Begin) {
        Action::ListArticles { ids } => assert_eq!(ids, Some((1, 10))),
        _ => panic!("expected a listing"),
    }
    match read_article_list(&mut flow, Event::Articles(vec![article(1)])) {
        Action::Respond(Ok(Reply::Articles(v))) => assert_eq!(v[0].id, 1),
        _ => panic!("expected the articles"),
    }
    let mut zero = ListFlow::new(ArticleListPagination { page: Some(0) });
    match read_article_list(&mut zero, Event::Begin) {
        Action::Respond(Err(Reply::Refusal { error })) => assert_eq!(error, "page should be >= 1"),
        _ => panic!("expected a refusal"),
    }
    let mut failing = ListFlow::new(ArticleListPagination { page: None });
    read_article_list(&mut failing, Event::Begin);
    match read_article_list(&mut failing, Event::FailedWith("no such table: articles".to_string())) {
        Action::Respond(Err(Reply::DatabaseFailure { error })) => assert_eq!(error, "no such table: articles"),
        _ => panic!("expected the database error"),
    }
}

#[test]
fn backend_read_exact() {
    let mut flow = ReadFlow::new("a b".to_string());
    match read_article_exact(&mut flow, Event::Begin) {
        Action::FindArticle { title } => assert_eq!(title, "a_b"),
        _ => panic!("expected a lookup"),
    }
    match read_article_exact(&mut flow, Event::Found(article(4))) {
        Action::Respond(Ok(Reply::Article(a))) => assert_eq!(a.id, 4),
        _ => panic!("expected the article"),
    }
    let mut missing = ReadFlow::new("z".to_string());
    read_article_exact(&mut missing, Event::Begin);
    match read_article_exact(&mut missing, Event::Failed) {
        Action::Respond(Err(r)) => assert_eq!(status(&r), (false, "failed to get article!".to_string())),
        _ => panic!("expected an error"),
    }
}

#[test]
fn backend_update_with_archive() {
    let mut flow = UpdateFlow::new(
        settings(),
        UpdateArticle { title: "old t".to_string(), new_title: Some("new t".to_string()), archive: Some(b"AQ==".to_vec()) },
    );
    match update_article(&mut flow, Event::Begin) {
        Action::RemoveDir { path } => assert_eq!(path, "/data/old_t"),
        _ => panic!("expected the old files to go"),
    }
    match update_article(&mut flow, Event::Succeeded) {
        Action::StoreArchive { dir, file_name, data } => {
            assert_eq!(data, vec![1]);
            assert_eq!(dir, "/data/new_t/");
            assert_eq!(file_name, "new_t");
        }
        _ => panic!("expected the archive to be stored"),
    }
    update_article(&mut flow, Event::Succeeded);
    match update_article(&mut flow, Event::Succeeded) {
        Action::UpdateArticle { title, content, old_title } => {
            assert_eq!(title, "new_t");
            assert_eq!(content, "https://site.org/articles/new_t/main.md");
            assert_eq!(old_title, "old_t");
        }
        _ => panic!("expected the record to change"),
    }
    match update_article(&mut flow, Event::Succeeded) {
        Action::Respond(Ok(r)) => assert_eq!(status(&r), (true, "Updated!".to_string())),
        _ => panic!("expected success"),
    }
}

#[test]
fn backend_update_refusals() {
    let mut none = UpdateFlow::new(settings(), UpdateArticle { title: "t".to_string(), new_title: None, archive: None });
    match update_article(&mut none, Event::Begin) {
        Action::Respond(Err(r)) => assert_eq!(status(&r), (false, "No parameters!".to_string())),
        _ => panic!("expected a refusal"),
    }
    let mut gone = UpdateFlow::new(settings(), UpdateArticle { title: "t".to_string(), new_title: None, archive: Some(vec![]) });
    update_article(&mut gone, Event::Begin);
    match update_article(&mut gone, Event::Failed) {
        Action::Respond(Err(r)) => assert_eq!(
            status(&r),
            (false, "Unable to delete old files. Probably because there is no such article?".to_string())
        ),
        _ => panic!("expected a refusal"),
    }
    let mut bad = UpdateFlow::new(settings(), UpdateArticle { title: "t".to_string(), new_title: None, archive: Some(b"%%".to_vec()) });
    match update_article(&mut bad, Event::Begin) {
        Action::Respond(Err(r)) => assert_eq!(status(&r), (false, "Unable to upload non-gzip file!".to_string())),
        _ => panic!("expected a refusal"),
    }
    let mut rename = UpdateFlow::new(settings(), UpdateArticle { title: "t".to_string(), new_title: Some("u".to_string()), archive: None });
    match update_article(&mut rename, Event::Begin) {
        Action::RenameDir { from, to } => {
            assert_eq!(from, "/data/t");
            assert_eq!(to, "/data/u");
        }
        _ => panic!("expected a rename"),
    }
    update_article(&mut rename, Event::Succeeded);
    match update_article(&mut rename, Event::Failed) {
        Action::Respond(Err(r)) => assert_eq!(status(&r), (false, "Failed to update article!".to_string())),
        _ => panic!("expected an error"),
    }
}

#[test]
fn backend_delete() {
    let mut flow = DeleteFlow::new(settings(), "my post".to_string());
    match delete_article(&mut flow, Event::Begin) {
        Action::RemoveDir { path } => assert_eq!(path, "/data/my_post"),
        _ => panic!("expected the files to go"),
    }
    match delete_article(&mut flow, Event::Succeeded) {
        Action::DeleteArticle { title } => assert_eq!(title, "my_post"),
        _ => panic!("expected the record to go"),
    }
    match delete_article(&mut flow, Event::Succeeded) {
        Action::Respond(Ok(r)) => assert_eq!(status(&r), (true, "deleted article :my_post".to_string())),
        _ => panic!("expected success"),
    }
    let mut missing = DeleteFlow::new(settings(), "x".to_string());
    delete_article(&mut missing, Event::Begin);
    match delete_article(&mut missing, Event::Failed) {
        Action::Respond(Err(r)) => assert_eq!(status(&r), (false, "Failed to delete article!".to_string())),
        _ => panic!("expected an error"),
    }
    assert!(delete_deprecated_files(true).is_ok());
    assert!(matches!(delete_deprecated_files(false), Err(ArticleFsError::FailedToDelete)));
}

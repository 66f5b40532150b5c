use articles::error::ArticleError;
use articles::handler::create::{create_article, CreateFlow};
use articles::handler::delete::{delete_article, DeleteFlow};
use articles::handler::read::{read_article, read_articles, ListFlow, ReadFlow};
use articles::handler::update::{update_article, UpdateFlow};
use articles::handler::{Action, Event};
use articles::model::{Article, ArticleListPagination, CreateArticleRequest, UpdateArticleRequest};
use articles::settings::Settings;

fn settings() -> Settings {
    Settings::new("/srv/articles".to_string(), "http", "blog.test")
}

fn article(id: i64, title: &str) -> Article {
    Article {
        id,
        title: title.to_string(),
        slug: title.replace(' ', "_"),
        content: format!("http://blog.test/articles/{}/main.md", title.replace(' ', "_")),
        created_at: chrono::NaiveDate::from_ymd_opt(2024, 5, 1).unwrap().and_hms_opt(12, 0, 0).unwrap(),
    }
}

fn reason(e: &ArticleError) -> (&'static str, String) {
    match e {
        ArticleError::Create(r) => ("create", r.clone()),
        ArticleError::Read(r) => ("read", r.clone()),
        ArticleError::Update(r) => ("update", r.clone()),
        ArticleError::Delete(r) => ("delete", r.clone()),
    }
}

#[test]
fn create_runs_every_step() {
    let mut flow = CreateFlow::new(
        settings(),
        CreateArticleRequest { title: "My Post".to_string(), archive: vec![1, 2, 3] },
    );
    match create_article(&mut flow, Event::Begin) {
        Action::FindArticle { slug } => assert_eq!(slug, "My_Post"),
        _ => panic!("expected a lookup"),
    }
    match create_article(&mut flow, Event::Failed) {
        Action::StoreArchive { dir, file_name, data } => {
            assert_eq!(dir, "/srv/articles/My_Post/");
            assert_eq!(file_name, "My_Post");
            assert_eq!(data, vec![1, 2, 3]);
        }
        _ => panic!("expected the archive to be stored"),
    }
    match create_article(&mut flow, Event::Succeeded) {
        Action::ExtractArchive { archive, dir } => {
            assert_eq!(archive, "/srv/articles/My_Post//My_Post");
            assert_eq!(dir, "/srv/articles/My_Post/");
        }
        _ => panic!("expected the archive to be unpacked"),
    }
    match create_article(&mut flow, Event::Succeeded) {
        Action::RewriteMarkdown { path, url } => {
            assert_eq!(path, "/srv/articles/My_Post/main.md");
            assert_eq!(url, "http://blog.test/articles/My_Post/");
        }
        _ => panic!("expected the markdown to be rewritten"),
    }
    match create_article(&mut flow, Event::Succeeded) {
        Action::InsertArticle { title, slug, content } => {
            assert_eq!(title, "My Post");
            assert_eq!(slug, "My_Post");
            assert_eq!(content, "http://blog.test/articles/My_Post/main.md");
        }
        _ => panic!("expected the article to be recorded"),
    }
    match create_article(&mut flow, Event::Succeeded) {
        Action::Respond(Ok(r)) => {
            assert_eq!(r.status, "success");
            assert_eq!(r.message.as_deref(), Some("created"));
            assert!(r.data.is_none());
        }
        _ => panic!("expected success"),
    }
}

#[test]
fn create_refuses_taken_slug() {
    let mut flow = CreateFlow::new(
        settings(),
        CreateArticleRequest { title: "Taken".to_string(), archive: vec![] },
    );
    create_article(&mut flow, Event::Begin);
    match create_article(&mut flow, Event::Succeeded) {
        Action::Respond(Err(e)) => {
            assert_eq!(reason(&e), ("create", "Article already exist!".to_string()));
            assert_eq!(e.to_string(), "Creation error: failed to create. Article already exist!");
        }
        _ => panic!("expected a refusal"),
    }
}

#[test]
fn create_reports_storage_and_database_failures() {
    let mut flow = CreateFlow::new(settings(), CreateArticleRequest { title: "A".to_string(), archive: vec![] });
    create_article(&mut flow, Event::Begin);
    create_article(&mut flow, Event::Failed);
    match create_article(&mut flow, Event::Failed) {
        Action::Respond(Err(e)) => assert_eq!(reason(&e), ("create", "Server issue".to_string())),
        _ => panic!("expected a server issue"),
    }
    let mut flow = CreateFlow::new(settings(), CreateArticleRequest { title: "A".to_string(), archive: vec![] });
    for event in [Event::Begin, Event::Failed, Event::Succeeded, Event::Succeeded, Event::Succeeded] {
        create_article(&mut flow, event);
    }
    match create_article(&mut flow, Event::Failed) {
        Action::Respond(Err(e)) => assert_eq!(reason(&e), ("create", "Database error".to_string())),
        _ => panic!("expected a database error"),
    }
}

#[test]
fn list_pages() {
    let mut flow = ListFlow::new(ArticleListPagination { page: Some(3) });
    match read_articles(&mut flow, Event::Begin) {
        Action::ListArticles { ids } => assert_eq!(ids, Some((21, 30))),
        _ => panic!("expected a listing"),
    }
    match read_articles(&mut flow, Event::Articles(vec![article(21, "x"), article(22, "y")])) {
        Action::Respond(Ok(r)) => {
            assert_eq!(r.status, "success");
            assert_eq!(r.message.as_deref(), Some("Read articles!"));
            let data = r.data.unwrap();
            assert_eq!(data.len(), 2);
            assert_eq!(data[1].id, 22);
        }
        _ => panic!("expected the articles"),
    }
    let mut all = ListFlow::new(ArticleListPagination { page: None });
    match read_articles(&mut all, Event::Begin) {
        Action::ListArticles { ids } => assert_eq!(ids, None),
        _ => panic!("expected a listing of everything"),
    }
    match read_articles(&mut all, Event::Failed) {
        Action::Respond(Err(e)) => assert_eq!(reason(&e), ("read", "No such objects.".to_string())),
        _ => panic!("expected an error"),
    }
}

#[test]
fn list_refuses_page_zero() {
    let mut flow = ListFlow::new(ArticleListPagination { page: Some(0) });
    match read_articles(&mut flow, Event::Begin) {
        Action::Respond(Err(e)) => {
            assert_eq!(reason(&e), ("read", "Page should be >= 1".to_string()));
            assert_eq!(e.to_string(), "Reading error: failed to read. Page should be >= 1");
        }
        _ => panic!("expected a refusal"),
    }
}

#[test]
fn read_one_article() {
    let mut flow = ReadFlow::new("My Post".to_string());
    match read_article(&mut flow, Event::Begin) {
        Action::FindArticle { slug } => assert_eq!(slug, "My_Post"),
        _ => panic!("expected a lookup"),
    }
    match read_article(&mut flow, Event::Found(article(7, "My Post"))) {
        Action::Respond(Ok(r)) => {
            assert_eq!(r.message.as_deref(), Some("Read article!"));
            assert_eq!(r.data.unwrap().id, 7);
        }
        _ => panic!("expected the article"),
    }
    let mut missing = ReadFlow::new("nothing".to_string());
    read_article(&mut missing, Event::Begin);
    match read_article(&mut missing, Event::Failed) {
        Action::Respond(Err(e)) => assert_eq!(reason(&e), ("read", "Failed to read this article".to_string())),
        _ => panic!("expected an error"),
    }
}

#[test]
fn update_with_archive_and_title() {
    let mut flow = UpdateFlow::new(
        settings(),
        UpdateArticleRequest {
            title: "Old Name".to_string(),
            new_title: Some("New Name".to_string()),
            archive: Some(vec![9]),
        },
    );
    match update_article(&mut flow, Event::Begin) {
        Action::RemoveDir { path } => assert_eq!(path, "/srv/articles/Old_Name"),
        _ => panic!("expected the old files to go"),
    }
    match update_article(&mut flow, Event::Succeeded) {
        Action::StoreArchive { dir, file_name, data } => {
            assert_eq!(dir, "/srv/articles/Old_Name/");
            assert_eq!(file_name, "Old_Name");
            assert_eq!(data, vec![9]);
        }
        _ => panic!("expected the archive to be stored"),
    }
    match update_article(&mut flow, Event::Succeeded) {
        Action::ExtractArchive { archive, dir } => {
            assert_eq!(archive, "/srv/articles/Old_Name//Old_Name");
            assert_eq!(dir, "/srv/articles/Old_Name/");
        }
        _ => panic!("expected the archive to be unpacked"),
    }
    match update_article(&mut flow, Event::Succeeded) {
        Action::RenameDir { from, to } => {
            assert_eq!(from, "/srv/articles/Old_Name");
            assert_eq!(to, "/srv/articles/New_Name");
        }
        _ => panic!("expected a rename"),
    }
    match update_article(&mut flow, Event::Succeeded) {
        Action::UpdateArticle { title, content, slug, old_slug } => {
            assert_eq!(title, "New Name");
            assert_eq!(content, "http://blog.test/articles/New_Name/main.md");
            assert_eq!(slug, "New_Name");
            assert_eq!(old_slug, "Old_Name");
        }
        _ => panic!("expected the record to change"),
    }
    match update_article(&mut flow, Event::Succeeded) {
        Action::Respond(Ok(r)) => assert_eq!(r.message.as_deref(), Some("Updated!")),
        _ => panic!("expected success"),
    }
}

#[test]
fn update_title_only_renames() {
    let mut flow = UpdateFlow::new(
        settings(),
        UpdateArticleRequest { title: "a b".to_string(), new_title: Some("c".to_string()), archive: None },
    );
    match update_article(&mut flow, Event::Begin) {
        Action::RenameDir { from, to } => {
            assert_eq!(from, "/srv/articles/a_b");
            assert_eq!(to, "/srv/articles/c");
        }
        _ => panic!("expected a rename"),
    }
    update_article(&mut flow, Event::Succeeded);
    match update_article(&mut flow, Event::Failed) {
        Action::Respond(Err(e)) => assert_eq!(reason(&e), ("update", "Failed to update article".to_string())),
        _ => panic!("expected an error"),
    }
}

#[test]
fn update_archive_only_keeps_title() {
    let mut flow = UpdateFlow::new(
        settings(),
        UpdateArticleRequest { title: "same".to_string(), new_title: None, archive: Some(vec![]) },
    );
    for event in [Event::Begin, Event::Succeeded, Event::Succeeded] {
        update_article(&mut flow, event);
    }
    match update_article(&mut flow, Event::Succeeded) {
        Action::UpdateArticle { title, slug, old_slug, .. } => {
            assert_eq!(title, "same");
            assert_eq!(slug, "same");
            assert_eq!(old_slug, "same");
        }
        _ => panic!("expected the record to change"),
    }
}

#[test]
fn update_refusals() {
    let mut nothing = UpdateFlow::new(
        settings(),
        UpdateArticleRequest { title: "t".to_string(), new_title: None, archive: None },
    );
    match update_article(&mut nothing, Event::Begin) {
        Action::Respond(Err(e)) => {
            assert_eq!(reason(&e), ("update", "No parameters given.".to_string()));
            assert_eq!(e.to_string(), "Updating error: failed to update. No parameters given.");
        }
        _ => panic!("expected a refusal"),
    }
    let mut missing = UpdateFlow::new(
        settings(),
        UpdateArticleRequest { title: "t".to_string(), new_title: None, archive: Some(vec![]) },
    );
    update_article(&mut missing, Event::Begin);
    match update_article(&mut missing, Event::Failed) {
        Action::Respond(Err(e)) => {
            assert_eq!(reason(&e), ("delete", "Failed to delete deprecated files!".to_string()));
            assert_eq!(e.to_string(), "Deleting error: failed to delete. Failed to delete deprecated files!");
        }
        _ => panic!("expected a refusal"),
    }
}

#[test]
fn delete_removes_files_then_record() {
    let mut flow = DeleteFlow::new(settings(), "Bye Now".to_string());
    match delete_article(&mut flow, Event::Begin) {
        Action::RemoveDir { path } => assert_eq!(path, "/srv/articles/Bye_Now"),
        _ => panic!("expected the files to go"),
    }
    match delete_article(&mut flow, Event::Failed) {
        Action::DeleteArticle { slug } => assert_eq!(slug, "Bye_Now"),
        _ => panic!("expected the record to go"),
    }
    match delete_article(&mut flow, Event::Succeeded) {
        Action::Respond(Ok(r)) => {
            assert_eq!(r.status, "success");
            assert_eq!(r.message.as_deref(), Some("Deleted article"));
        }
        _ => panic!("expected success"),
    }
    let mut failing = DeleteFlow::new(settings(), "x".to_string());
    delete_article(&mut failing, Event::Begin);
    delete_article(&mut failing, Event::Succeeded);
    match delete_article(&mut failing, Event::Failed) {
        Action::Respond(Err(e)) => assert_eq!(reason(&e), ("delete", "Failed to delete article".to_string())),
        _ => panic!("expected an error"),
    }
}

use article_service::handlers::add_article;
use article_service::handlers::db_error_response;
use article_service::handlers::delete_article;
use article_service::handlers::get_all_article;
use article_service::handlers::get_article_by_id;
use article_service::handlers::update_article;
use article_service::handlers::Body;
use article_service::handlers::Operation;
use article_service::models::NewArticle;
use article_service::models::UpdateArticle;
use article_service::store::ArticleTable;

fn new_article(title: &str, content: &str) -> NewArticle {
    NewArticle { title: title.to_string(), content: content.to_string() }
}

fn empty_update() -> UpdateArticle {
    UpdateArticle { title: None, content: None, view_num: None, updated_at: None, deleted_at: None }
}

#[test]
fn create_then_list_shows_matching_row() {
    let mut table = ArticleTable::new();
    let r = add_article(&mut table, Some(new_article("hello", "world")));
    assert_eq!(r.status, 201);
    assert_eq!(r.body, Body::Empty);
    let listing = get_all_article(&table);
    assert_eq!(listing.status, 200);
    match listing.body {
        Body::List(rows) => {
            assert!(rows.iter().any(|a| {
                a.title == Some("hello".to_string()) && a.content == Some("world".to_string())
            }));
        },
        other => panic!("expected a list body, got {:?}", other),
    }
}

#[test]
fn get_missing_id_on_empty_table_is_404() {
    let table = ArticleTable::new();
    let r = get_article_by_id(&table, 999999);
    assert_eq!(r.status, 404);
    assert_eq!(r.body, Body::Empty);
}

#[test]
fn get_existing_id_returns_the_row() {
    let mut table = ArticleTable::new();
    add_article(&mut table, Some(new_article("first", "one")));
    add_article(&mut table, Some(new_article("second", "two")));
    let r = get_article_by_id(&table, 2);
    assert_eq!(r.status, 200);
    match r.body {
        Body::Item(a) => {
            assert_eq!(a.id, 2);
            assert_eq!(a.title, Some("second".to_string()));
            assert_eq!(a.content, Some("two".to_string()));
            assert_eq!(a.view_num, None);
            assert_eq!(a.created_at, None);
        },
        other => panic!("expected an item body, got {:?}", other),
    }
}

#[test]
fn delete_missing_id_still_answers_201() {
    let mut table = ArticleTable::new();
    add_article(&mut table, Some(new_article("keep", "me")));
    let r = delete_article(&mut table, 999999);
    assert_eq!(r.status, 201);
    assert_eq!(r.body, Body::Empty);
    assert_eq!(table.rows.len(), 1);
    assert_eq!(table.rows[0].title, Some("keep".to_string()));
}

#[test]
fn delete_is_idempotent() {
    let mut table = ArticleTable::new();
    add_article(&mut table, Some(new_article("gone", "soon")));
    let first = delete_article(&mut table, 1);
    assert_eq!(first.status, 201);
    assert_eq!(table.rows.len(), 0);
    let second = delete_article(&mut table, 1);
    assert_eq!(second.status, 201);
    assert_eq!(table.rows.len(), 0);
}

#[test]
fn update_with_omitted_content_overwrites_it_to_null() {
    let mut table = ArticleTable::new();
    add_article(&mut table, Some(new_article("old title", "old content")));
    let up = UpdateArticle { title: Some("new".to_string()), ..empty_update() };
    let r = update_article(&mut table, 1, Some(up));
    assert_eq!(r.status, 201);
    assert_eq!(table.rows[0].title, Some("new".to_string()));
    assert_eq!(table.rows[0].content, None);
    assert_eq!(table.rows[0].id, 1);
}

#[test]
fn update_ignores_the_never_bound_fields() {
    let mut table = ArticleTable::new();
    add_article(&mut table, Some(new_article("t", "c")));
    let up = UpdateArticle {
        title: Some("t2".to_string()),
        content: Some("c2".to_string()),
        view_num: Some(77),
        updated_at: Some(1700000000),
        deleted_at: Some(1700000001),
    };
    let r = update_article(&mut table, 1, Some(up));
    assert_eq!(r.status, 201);
    assert_eq!(table.rows[0].title, Some("t2".to_string()));
    assert_eq!(table.rows[0].content, Some("c2".to_string()));
    assert_eq!(table.rows[0].view_num, None);
    assert_eq!(table.rows[0].updated_at, None);
    assert_eq!(table.rows[0].deleted_at, None);
}

#[test]
fn update_of_missing_id_changes_no_row() {
    let mut table = ArticleTable::new();
    add_article(&mut table, Some(new_article("t", "c")));
    let up = UpdateArticle { title: Some("x".to_string()), ..empty_update() };
    let r = update_article(&mut table, 42, Some(up));
    assert_eq!(r.status, 201);
    assert_eq!(table.rows[0].title, Some("t".to_string()));
    assert_eq!(table.rows[0].content, Some("c".to_string()));
}

#[test]
fn creations_get_distinct_fresh_ids() {
    let mut table = ArticleTable::new();
    add_article(&mut table, Some(new_article("a", "1")));
    add_article(&mut table, Some(new_article("b", "2")));
    add_article(&mut table, Some(new_article("c", "3")));
    let ids: Vec<u32> = table.rows.iter().map(|a| a.id).collect();
    assert_eq!(ids, vec![1, 2, 3]);
    assert_eq!(table.rows[0].title, Some("a".to_string()));
    assert_eq!(table.rows[1].title, Some("b".to_string()));
    assert_eq!(table.rows[2].title, Some("c".to_string()));
    assert_eq!(table.rows[0].content, Some("1".to_string()));
    assert_eq!(table.rows[1].content, Some("2".to_string()));
    assert_eq!(table.rows[2].content, Some("3".to_string()));
}

#[test]
fn deleting_one_id_keeps_every_other_row() {
    let mut table = ArticleTable::new();
    add_article(&mut table, Some(new_article("a", "1")));
    add_article(&mut table, Some(new_article("b", "2")));
    add_article(&mut table, Some(new_article("c", "3")));
    delete_article(&mut table, 2);
    let ids: Vec<u32> = table.rows.iter().map(|a| a.id).collect();
    assert_eq!(ids, vec![1, 3]);
}

#[test]
fn malformed_create_body_is_rejected_before_any_statement() {
    let mut table = ArticleTable::new();
    let r = add_article(&mut table, None);
    assert_eq!(r.status, 400);
    assert_eq!(r.body, Body::Empty);
    assert_eq!(table.rows.len(), 0);
    assert_eq!(table.next_id, 1);
}

#[test]
fn malformed_update_body_is_rejected_before_any_statement() {
    let mut table = ArticleTable::new();
    add_article(&mut table, Some(new_article("t", "c")));
    let r = update_article(&mut table, 1, None);
    assert_eq!(r.status, 400);
    assert_eq!(table.rows[0].title, Some("t".to_string()));
    assert_eq!(table.rows[0].content, Some("c".to_string()));
}

#[test]
fn database_failures_map_to_the_documented_status_codes() {
    assert_eq!(db_error_response(Operation::ListAll).status, 500);
    assert_eq!(db_error_response(Operation::GetById).status, 404);
    assert_eq!(db_error_response(Operation::Insert).status, 500);
    assert_eq!(db_error_response(Operation::Update).status, 500);
    assert_eq!(db_error_response(Operation::Delete).status, 500);
    assert_eq!(db_error_response(Operation::Insert).body, Body::Empty);
}

#[test]
fn listing_an_empty_table_is_200_with_no_rows() {
    let table = ArticleTable::new();
    let r = get_all_article(&table);
    assert_eq!(r.status, 200);
    assert_eq!(r.body, Body::List(Vec::new()));
}

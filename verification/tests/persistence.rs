use post_service::db::{
    create_post, create_post_as, delete_post, get_all_posts, get_post_by_id, init_db, update_post,
    update_post_at,
};
use post_service::models::{CreatePostRequest, Post, UpdatePostRequest};
use post_service::store::StoreError;
use post_service::table::PostTable;

fn request(title: &str, published: Option<bool>) -> CreatePostRequest {
    CreatePostRequest {
        title: String::from(title),
        content: String::from("B"),
        author: String::from("C"),
        published,
    }
}

fn title_only(title: &str) -> UpdatePostRequest {
    UpdatePostRequest { title: Some(String::from(title)), content: None, published: None }
}

fn ready() -> PostTable {
    let mut table = PostTable::new();
    assert_eq!(init_db(&mut table), Ok(()));
    table
}

#[test]
fn init_db_creates_an_empty_table() {
    let mut table = PostTable::new();
    assert_eq!(get_all_posts(&table), Err(StoreError::MissingTable));
    assert_eq!(init_db(&mut table), Ok(()));
    assert_eq!(get_all_posts(&table), Ok(Vec::new()));
}

#[test]
fn init_db_twice_keeps_what_is_stored() {
    let mut table = ready();
    let post = create_post_as(&mut table, 1, 10, request("A", None)).unwrap();
    assert_eq!(init_db(&mut table), Ok(()));
    assert_eq!(init_db(&mut table), Ok(()));
    assert_eq!(get_all_posts(&table), Ok(vec![post]));
}

#[test]
fn every_operation_fails_before_init_db() {
    let mut table = PostTable::new();
    assert_eq!(get_post_by_id(&table, 1), Err(StoreError::MissingTable));
    assert_eq!(create_post(&mut table, request("A", None)), Err(StoreError::MissingTable));
    assert_eq!(create_post_as(&mut table, 1, 1, request("A", None)), Err(StoreError::MissingTable));
    assert_eq!(update_post(&mut table, 1, title_only("x")), Err(StoreError::MissingTable));
    assert_eq!(update_post_at(&mut table, 1, title_only("x"), 5), Err(StoreError::MissingTable));
    assert_eq!(delete_post(&mut table, 1), Err(StoreError::MissingTable));
}

#[test]
fn create_with_required_fields_only_is_unpublished_and_never_updated() {
    let mut table = ready();
    let post = create_post(&mut table, request("A", None)).unwrap();
    assert!(!post.published);
    assert_eq!(post.updated_at, None);
    assert_eq!(post.title, "A");
    assert_eq!(post.content, "B");
    assert_eq!(post.author, "C");
}

#[test]
fn create_with_published_true_stores_true() {
    let mut table = ready();
    let post = create_post(&mut table, request("A", Some(true))).unwrap();
    assert!(post.published);
    let found = get_post_by_id(&table, post.id).unwrap().unwrap();
    assert!(found.published);
}

#[test]
fn get_after_create_gives_the_created_row() {
    let mut table = ready();
    let first = create_post(&mut table, request("first", None)).unwrap();
    let second = create_post(&mut table, request("second", Some(true))).unwrap();
    assert_eq!(get_post_by_id(&table, first.id), Ok(Some(first)));
    assert_eq!(get_post_by_id(&table, second.id), Ok(Some(second)));
}

#[test]
fn create_post_as_stores_exactly_the_drafted_row() {
    let mut table = ready();
    let created = create_post_as(&mut table, 0xabc, 77, request("A", None));
    let expected = Post {
        id: 0xabc,
        title: String::from("A"),
        content: String::from("B"),
        author: String::from("C"),
        published: false,
        created_at: 77,
        updated_at: None,
    };
    assert_eq!(created, Ok(expected.clone()));
    assert_eq!(get_post_by_id(&table, 0xabc), Ok(Some(expected)));
}

#[test]
fn create_post_as_refuses_a_taken_id_and_changes_nothing() {
    let mut table = ready();
    let first = create_post_as(&mut table, 5, 10, request("first", None)).unwrap();
    assert_eq!(
        create_post_as(&mut table, 5, 20, request("second", None)),
        Err(StoreError::DuplicateId)
    );
    assert_eq!(get_all_posts(&table), Ok(vec![first]));
}

#[test]
fn listing_after_n_creates_has_n_posts_newest_first() {
    let mut table = ready();
    let times: [i64; 6] = [40, 10, 60, 30, 50, 20];
    let mut id: u128 = 1;
    for at in times {
        assert!(create_post_as(&mut table, id, at, request("t", None)).is_ok());
        id += 1;
    }
    let listed = get_all_posts(&table).unwrap();
    assert_eq!(listed.len(), 6);
    let mut seen = Vec::new();
    for post in &listed {
        seen.push(post.created_at);
    }
    assert_eq!(seen, vec![60, 50, 40, 30, 20, 10]);
}

#[test]
fn listing_after_creates_at_the_time_of_day_is_newest_first() {
    let mut table = ready();
    let mut created = Vec::new();
    for _ in 0..5 {
        created.push(create_post(&mut table, request("t", None)).unwrap());
    }
    let listed = get_all_posts(&table).unwrap();
    assert_eq!(listed.len(), 5);
    for pair in listed.windows(2) {
        assert!(pair[0].created_at >= pair[1].created_at);
    }
    for post in &created {
        assert!(listed.contains(post));
    }
}

#[test]
fn update_of_an_absent_id_is_not_found_and_changes_nothing() {
    let mut table = ready();
    let post = create_post_as(&mut table, 1, 10, request("A", None)).unwrap();
    assert_eq!(update_post_at(&mut table, 2, title_only("X"), 20), Ok(None));
    assert_eq!(update_post(&mut table, 2, title_only("X")), Ok(None));
    assert_eq!(get_all_posts(&table), Ok(vec![post]));
}

#[test]
fn update_with_title_only_changes_title_and_update_time() {
    let mut table = ready();
    let post = create_post_as(&mut table, 1, 10, request("A", Some(true))).unwrap();
    let updated = update_post_at(&mut table, 1, title_only("A2"), 20);
    let expected = Post { title: String::from("A2"), updated_at: Some(20), ..post };
    assert_eq!(updated, Ok(Some(expected.clone())));
    assert_eq!(get_post_by_id(&table, 1), Ok(Some(expected)));
}

#[test]
fn update_without_fields_sets_the_update_time_all_the_same() {
    let mut table = ready();
    let post = create_post_as(&mut table, 1, 10, request("A", None)).unwrap();
    let nothing = UpdatePostRequest { title: None, content: None, published: None };
    let updated = update_post_at(&mut table, 1, nothing, 30);
    assert_eq!(updated, Ok(Some(Post { updated_at: Some(30), ..post })));
}

#[test]
fn update_leaves_the_other_posts_and_the_order_alone() {
    let mut table = ready();
    let old = create_post_as(&mut table, 1, 10, request("old", None)).unwrap();
    let new = create_post_as(&mut table, 2, 20, request("new", None)).unwrap();
    let updated = update_post_at(&mut table, 1, title_only("older"), 99).unwrap().unwrap();
    assert_eq!(get_all_posts(&table), Ok(vec![new, updated.clone()]));
    assert_eq!(updated.created_at, old.created_at);
}

#[test]
fn update_at_the_time_of_day_stamps_the_row() {
    let mut table = ready();
    let post = create_post(&mut table, request("A", None)).unwrap();
    let before = chrono::Utc::now().timestamp_micros();
    let updated = update_post(&mut table, post.id, title_only("A2")).unwrap().unwrap();
    let after = chrono::Utc::now().timestamp_micros();
    let at = updated.updated_at.unwrap();
    assert!(before <= at && at <= after);
    assert!(at >= updated.created_at);
    assert_eq!(updated, Post { title: String::from("A2"), updated_at: Some(at), ..post });
}

#[test]
fn delete_of_a_stored_id_removes_it() {
    let mut table = ready();
    let post = create_post(&mut table, request("A", None)).unwrap();
    assert_eq!(delete_post(&mut table, post.id), Ok(true));
    assert_eq!(get_post_by_id(&table, post.id), Ok(None));
    assert_eq!(get_all_posts(&table), Ok(Vec::new()));
}

#[test]
fn delete_of_an_absent_id_is_false_and_no_error() {
    let mut table = ready();
    let post = create_post_as(&mut table, 1, 10, request("A", None)).unwrap();
    assert_eq!(delete_post(&mut table, 2), Ok(false));
    assert_eq!(get_all_posts(&table), Ok(vec![post]));
}

#[test]
fn round_trip_create_get_update_get_delete_get() {
    let mut table = ready();
    let other = create_post_as(&mut table, 9, 5, request("other", None)).unwrap();
    let created = create_post_as(&mut table, 1, 10, request("A", None)).unwrap();
    assert_eq!(get_post_by_id(&table, 1), Ok(Some(created.clone())));
    let change = UpdatePostRequest {
        title: None,
        content: Some(String::from("B2")),
        published: Some(true),
    };
    let updated = update_post_at(&mut table, 1, change, 11).unwrap().unwrap();
    assert_eq!(
        updated,
        Post { content: String::from("B2"), published: true, updated_at: Some(11), ..created }
    );
    assert_eq!(get_post_by_id(&table, 1), Ok(Some(updated)));
    assert_eq!(delete_post(&mut table, 1), Ok(true));
    assert_eq!(get_post_by_id(&table, 1), Ok(None));
    assert_eq!(get_all_posts(&table), Ok(vec![other]));
}

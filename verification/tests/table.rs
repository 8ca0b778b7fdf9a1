use post_service::models::Post;
use post_service::store::StoreError;
use post_service::table::PostTable;

fn row(id: u128, title: &str, created_at: i64) -> Post {
    Post {
        id,
        title: String::from(title),
        content: String::from("text"),
        author: String::from("someone"),
        published: false,
        created_at,
        updated_at: None,
    }
}

fn created() -> PostTable {
    let mut table = PostTable::new();
    assert_eq!(table.create_table(), Ok(()));
    table
}

fn ids(posts: &[Post]) -> Vec<u128> {
    let mut out = Vec::new();
    for post in posts {
        out.push(post.id);
    }
    out
}

#[test]
fn a_new_table_is_missing() {
    let mut table = PostTable::new();
    assert_eq!(table.select_all(), Err(StoreError::MissingTable));
    assert_eq!(table.select_by_id(1), Err(StoreError::MissingTable));
    assert_eq!(table.insert(row(1, "a", 1)), Err(StoreError::MissingTable));
    assert_eq!(
        table.update(1, String::from("t"), String::from("c"), true, Some(3)),
        Err(StoreError::MissingTable)
    );
    assert_eq!(table.delete(1), Err(StoreError::MissingTable));
}

#[test]
fn a_created_table_is_empty() {
    let table = created();
    assert_eq!(table.select_all(), Ok(Vec::new()));
    assert_eq!(table.select_by_id(1), Ok(None));
}

#[test]
fn create_table_keeps_the_rows_of_a_table_that_exists() {
    let mut table = created();
    assert_eq!(table.insert(row(1, "a", 10)), Ok(row(1, "a", 10)));
    assert_eq!(table.create_table(), Ok(()));
    assert_eq!(table.select_all(), Ok(vec![row(1, "a", 10)]));
}

#[test]
fn insert_gives_back_the_row_and_stores_it() {
    let mut table = created();
    assert_eq!(table.insert(row(9, "nine", 90)), Ok(row(9, "nine", 90)));
    assert_eq!(table.select_by_id(9), Ok(Some(row(9, "nine", 90))));
    assert_eq!(table.select_by_id(8), Ok(None));
}

#[test]
fn insert_refuses_an_id_that_is_stored() {
    let mut table = created();
    assert_eq!(table.insert(row(1, "first", 10)), Ok(row(1, "first", 10)));
    assert_eq!(table.insert(row(1, "second", 20)), Err(StoreError::DuplicateId));
    assert_eq!(table.select_all(), Ok(vec![row(1, "first", 10)]));
}

#[test]
fn select_all_lists_newest_first() {
    let mut table = created();
    for (id, at) in [(1u128, 30i64), (2, 10), (3, 50), (4, 20), (5, 40)] {
        assert!(table.insert(row(id, "t", at)).is_ok());
    }
    let listed = table.select_all().unwrap();
    assert_eq!(ids(&listed), vec![3, 5, 1, 4, 2]);
}

#[test]
fn select_all_puts_the_later_insert_first_among_equal_times() {
    let mut table = created();
    assert!(table.insert(row(1, "t", 10)).is_ok());
    assert!(table.insert(row(2, "t", 10)).is_ok());
    assert!(table.insert(row(3, "t", 20)).is_ok());
    assert!(table.insert(row(4, "t", 10)).is_ok());
    assert!(table.insert(row(5, "t", 5)).is_ok());
    let listed = table.select_all().unwrap();
    assert_eq!(ids(&listed), vec![3, 4, 2, 1, 5]);
}

#[test]
fn select_all_orders_negative_and_extreme_times() {
    let mut table = created();
    assert!(table.insert(row(1, "t", i64::MIN)).is_ok());
    assert!(table.insert(row(2, "t", i64::MAX)).is_ok());
    assert!(table.insert(row(3, "t", -1)).is_ok());
    assert!(table.insert(row(4, "t", 0)).is_ok());
    let listed = table.select_all().unwrap();
    assert_eq!(ids(&listed), vec![2, 4, 3, 1]);
}

#[test]
fn update_writes_four_columns_and_keeps_the_rest() {
    let mut table = created();
    assert!(table.insert(row(1, "a", 10)).is_ok());
    assert!(table.insert(row(2, "b", 20)).is_ok());
    let written = table.update(1, String::from("A"), String::from("body"), true, Some(99));
    let expected = Post {
        id: 1,
        title: String::from("A"),
        content: String::from("body"),
        author: String::from("someone"),
        published: true,
        created_at: 10,
        updated_at: Some(99),
    };
    assert_eq!(written, Ok(expected.clone()));
    assert_eq!(table.select_by_id(1), Ok(Some(expected.clone())));
    assert_eq!(table.select_all(), Ok(vec![row(2, "b", 20), expected]));
}

#[test]
fn update_of_an_id_that_is_not_stored_gives_row_not_found() {
    let mut table = created();
    assert!(table.insert(row(1, "a", 10)).is_ok());
    assert_eq!(
        table.update(2, String::from("A"), String::from("body"), true, Some(99)),
        Err(StoreError::RowNotFound)
    );
    assert_eq!(table.select_all(), Ok(vec![row(1, "a", 10)]));
}

#[test]
fn delete_counts_the_rows_it_removed() {
    let mut table = created();
    assert!(table.insert(row(1, "a", 10)).is_ok());
    assert!(table.insert(row(2, "b", 20)).is_ok());
    assert!(table.insert(row(3, "c", 30)).is_ok());
    assert_eq!(table.delete(2), Ok(1));
    assert_eq!(table.delete(2), Ok(0));
    assert_eq!(table.delete(7), Ok(0));
    assert_eq!(table.select_all(), Ok(vec![row(3, "c", 30), row(1, "a", 10)]));
}

#[test]
fn an_id_can_be_stored_again_after_its_delete() {
    let mut table = created();
    assert!(table.insert(row(1, "a", 10)).is_ok());
    assert_eq!(table.delete(1), Ok(1));
    assert_eq!(table.insert(row(1, "again", 5)), Ok(row(1, "again", 5)));
    assert_eq!(table.select_by_id(1), Ok(Some(row(1, "again", 5))));
}

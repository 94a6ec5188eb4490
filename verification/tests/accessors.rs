use faithcast_db::ConnectionManager;
use faithcast_db::DbError;
use faithcast_db::HymnRecord;
use faithcast_db::ScriptureRecord;
use faithcast_db::get_all_hymns;
use faithcast_db::get_all_scriptures;
use faithcast_db::list_hymns;
use faithcast_db::list_scriptures;
use faithcast_db::sort_hymns;
use faithcast_db::sort_scriptures;

fn fresh_db(path: &str, batch: &str) {
    let conn = rusqlite::Connection::open(path).unwrap();
    conn.execute_batch("DROP TABLE IF EXISTS hymns; DROP TABLE IF EXISTS scriptures;")
        .unwrap();
    conn.execute_batch(batch).unwrap();
}

#[test]
fn empty_hymns_table_returns_empty() {
    let path = "/tmp/faithcast_db_test_empty.sqlite";
    fresh_db(path, "CREATE TABLE hymns(number INTEGER, title TEXT);");
    let mut mgr = ConnectionManager::new(String::from(path));
    let rows = get_all_hymns(&mut mgr).unwrap();
    assert_eq!(rows.len(), 0);
}

#[test]
fn empty_scriptures_table_returns_empty() {
    let path = "/tmp/faithcast_db_test_empty_scriptures.sqlite";
    fresh_db(
        path,
        "CREATE TABLE scriptures(book INTEGER, chapter INTEGER, verse_start INTEGER, text TEXT);",
    );
    let mut mgr = ConnectionManager::new(String::from(path));
    let rows = get_all_scriptures(&mut mgr).unwrap();
    assert_eq!(rows.len(), 0);
}

#[test]
fn hymns_sorted_regardless_of_insertion_order() {
    let path = "/tmp/faithcast_db_test_hymn_order.sqlite";
    fresh_db(
        path,
        "CREATE TABLE hymns(number INTEGER, title TEXT); \
         INSERT INTO hymns VALUES (10, 'Ten'); \
         INSERT INTO hymns VALUES (2, 'Two'); \
         INSERT INTO hymns VALUES (7, 'Seven'); \
         INSERT INTO hymns VALUES (1, 'One');",
    );
    let mut mgr = ConnectionManager::new(String::from(path));
    let rows = get_all_hymns(&mut mgr).unwrap();
    let numbers: Vec<i64> = rows.iter().map(|h| h.number).collect();
    assert_eq!(numbers, vec![1, 2, 7, 10]);
    let titles: Vec<&str> = rows.iter().map(|h| h.title.as_str()).collect();
    assert_eq!(titles, vec!["One", "Two", "Seven", "Ten"]);
}

#[test]
fn hymns_example_number_order() {
    let path = "/tmp/faithcast_db_test_hymn_example.sqlite";
    fresh_db(
        path,
        "CREATE TABLE hymns(number INTEGER, title TEXT); \
         INSERT INTO hymns VALUES (10, 'A'); \
         INSERT INTO hymns VALUES (2, 'B');",
    );
    let mut mgr = ConnectionManager::new(String::from(path));
    let rows = get_all_hymns(&mut mgr).unwrap();
    assert_eq!(rows.len(), 2);
    assert_eq!(rows[0].number, 2);
    assert_eq!(rows[0].title, "B");
    assert_eq!(rows[1].number, 10);
    assert_eq!(rows[1].title, "A");
}

#[test]
fn scriptures_sorted_by_book_chapter_verse() {
    let path = "/tmp/faithcast_db_test_scripture_order.sqlite";
    fresh_db(
        path,
        "CREATE TABLE scriptures(book INTEGER, chapter INTEGER, verse_start INTEGER, text TEXT); \
         INSERT INTO scriptures VALUES (2, 1, 1, 'd'); \
         INSERT INTO scriptures VALUES (1, 9, 9, 'c'); \
         INSERT INTO scriptures VALUES (1, 9, 2, 'b'); \
         INSERT INTO scriptures VALUES (1, 1, 5, 'a');",
    );
    let mut mgr = ConnectionManager::new(String::from(path));
    let rows = get_all_scriptures(&mut mgr).unwrap();
    let keys: Vec<(i64, i64, i64)> = rows.iter().map(|s| (s.book, s.chapter, s.verse_start)).collect();
    assert_eq!(keys, vec![(1, 1, 5), (1, 9, 2), (1, 9, 9), (2, 1, 1)]);
    let texts: Vec<&str> = rows.iter().map(|s| s.text.as_str()).collect();
    assert_eq!(texts, vec!["a", "b", "c", "d"]);
}

#[test]
fn repeated_access_reuses_connection() {
    let path = "/tmp/faithcast_db_test_reuse.sqlite";
    fresh_db(
        path,
        "CREATE TABLE hymns(number INTEGER, title TEXT); \
         CREATE TABLE scriptures(book INTEGER, chapter INTEGER, verse_start INTEGER, text TEXT); \
         INSERT INTO hymns VALUES (3, 'Three');",
    );
    let mut mgr = ConnectionManager::new(String::from(path));
    let first = get_all_hymns(&mut mgr).unwrap();
    let second = get_all_hymns(&mut mgr).unwrap();
    assert_eq!(first, second);
    let scriptures = get_all_scriptures(&mut mgr).unwrap();
    assert_eq!(scriptures.len(), 0);
}

#[test]
fn unreadable_path_reports_error() {
    let path = "/nonexistent_dir_faithcast/db.sqlite";
    let mut mgr = ConnectionManager::new(String::from(path));
    let hymns = get_all_hymns(&mut mgr);
    assert!(hymns.is_err());
    assert!(!hymns.unwrap_err().is_empty());
    let scriptures = get_all_scriptures(&mut mgr);
    assert!(scriptures.is_err());
    assert!(!scriptures.unwrap_err().is_empty());
}

#[test]
fn unreadable_path_is_storage_unavailable() {
    let path = "/nonexistent_dir_faithcast/db.sqlite";
    let mut mgr = ConnectionManager::new(String::from(path));
    let hymns = list_hymns(&mut mgr);
    assert!(matches!(hymns, Err(DbError::StorageUnavailable(_))));
    let scriptures = list_scriptures(&mut mgr);
    assert!(matches!(scriptures, Err(DbError::StorageUnavailable(_))));
}

#[test]
fn missing_table_is_query_failed() {
    let path = "/tmp/faithcast_db_test_missing_table.sqlite";
    fresh_db(path, "CREATE TABLE hymns(number INTEGER, title TEXT);");
    let mut mgr = ConnectionManager::new(String::from(path));
    let scriptures = list_scriptures(&mut mgr);
    assert!(matches!(scriptures, Err(DbError::QueryFailed(_))));
}

#[test]
fn wrong_column_type_is_decode_failed() {
    let path = "/tmp/faithcast_db_test_bad_type.sqlite";
    fresh_db(
        path,
        "CREATE TABLE hymns(number TEXT, title TEXT); \
         INSERT INTO hymns VALUES ('not a number', 'Bad');",
    );
    let mut mgr = ConnectionManager::new(String::from(path));
    let hymns = list_hymns(&mut mgr);
    assert!(matches!(hymns, Err(DbError::DecodeFailed(_))));
}

#[test]
fn error_message_carries_text() {
    let e = DbError::QueryFailed(String::from("no such table"));
    assert_eq!(e.into_message(), "no such table");
    let e = DbError::StorageUnavailable(String::from("cannot open"));
    assert_eq!(e.into_message(), "cannot open");
    let e = DbError::DecodeFailed(String::from("bad column"));
    assert_eq!(e.into_message(), "bad column");
}

#[test]
fn sort_hymns_orders_and_keeps_rows() {
    let rows = vec![
        HymnRecord { number: 5, title: String::from("e") },
        HymnRecord { number: 1, title: String::from("a") },
        HymnRecord { number: 5, title: String::from("e2") },
        HymnRecord { number: 3, title: String::from("c") },
    ];
    let sorted = sort_hymns(rows);
    let numbers: Vec<i64> = sorted.iter().map(|h| h.number).collect();
    assert_eq!(numbers, vec![1, 3, 5, 5]);
    let mut fives: Vec<&str> = sorted
        .iter()
        .filter(|h| h.number == 5)
        .map(|h| h.title.as_str())
        .collect();
    fives.sort();
    assert_eq!(fives, vec!["e", "e2"]);
}

#[test]
fn sort_scriptures_orders_lexicographically() {
    let rows = vec![
        ScriptureRecord { book: 2, chapter: 1, verse_start: 1, text: String::from("d") },
        ScriptureRecord { book: 1, chapter: 9, verse_start: 9, text: String::from("c") },
        ScriptureRecord { book: 1, chapter: 9, verse_start: 2, text: String::from("b") },
        ScriptureRecord { book: 1, chapter: 1, verse_start: 5, text: String::from("a") },
    ];
    let sorted = sort_scriptures(rows);
    let keys: Vec<(i64, i64, i64)> = sorted.iter().map(|s| (s.book, s.chapter, s.verse_start)).collect();
    assert_eq!(keys, vec![(1, 1, 5), (1, 9, 2), (1, 9, 9), (2, 1, 1)]);
}

#[test]
fn sort_hymns_empty_is_empty() {
    let sorted = sort_hymns(Vec::new());
    assert_eq!(sorted.len(), 0);
}

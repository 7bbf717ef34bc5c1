use kiln::database::lexical::{bytes_in_order, sort_texts, texts_in_order};
use kiln::database::KilnDatabase;

fn texts(items: &[&str]) -> Vec<String> {
    items.iter().map(|item| item.to_string()).collect()
}

#[test]
fn texts_are_ordered_byte_by_byte() {
    assert!(texts_in_order("a", "b"));
    assert!(!texts_in_order("b", "a"));
    assert!(texts_in_order("a", "a"));
    assert!(texts_in_order("FirstKiln", "SecondKiln"));
    assert!(!texts_in_order("SecondKiln", "FirstKiln"));
    assert!(texts_in_order("abc", "abd"));
    assert!(!texts_in_order("abd", "abc"));
    assert!(texts_in_order("B", "a"));
    assert!(!texts_in_order("a", "B"));
    assert!(texts_in_order("z", "\u{e9}"));
    assert!(!texts_in_order("\u{e9}", "z"));
}

#[test]
fn a_prefix_comes_first() {
    assert!(texts_in_order("", ""));
    assert!(texts_in_order("", "a"));
    assert!(!texts_in_order("a", ""));
    assert!(texts_in_order("ab", "abc"));
    assert!(!texts_in_order("abc", "ab"));
}

#[test]
fn bytes_are_ordered_like_slices() {
    let samples: Vec<Vec<u8>> = vec![
        vec![],
        vec![0],
        vec![0, 0],
        vec![0, 255],
        vec![1],
        vec![1, 0],
        vec![255],
        vec![255, 255],
    ];
    for a in samples.iter() {
        for b in samples.iter() {
            assert_eq!(bytes_in_order(a, b), a <= b);
        }
    }
}

#[test]
fn sorting_puts_texts_in_ascending_order() {
    assert_eq!(sort_texts(texts(&[])), texts(&[]));
    assert_eq!(sort_texts(texts(&["a"])), texts(&["a"]));
    assert_eq!(
        sort_texts(texts(&["SecondKiln", "FirstKiln"])),
        texts(&["FirstKiln", "SecondKiln"])
    );
    assert_eq!(
        sort_texts(texts(&["d", "b", "", "c", "a", "ab", "B"])),
        texts(&["", "B", "a", "ab", "b", "c", "d"])
    );
}

#[test]
fn sorting_keeps_every_text_as_often_as_it_was() {
    assert_eq!(sort_texts(texts(&["b", "a", "b", "a", "b"])), texts(&["a", "a", "b", "b", "b"]));
    let mut expected = texts(&["q", "w", "e", "r", "t", "y", "q", "w", "e", "", "zz", "z"]);
    let sorted = sort_texts(texts(&["q", "w", "e", "r", "t", "y", "q", "w", "e", "", "zz", "z"]));
    expected.sort();
    assert_eq!(sorted, expected);
}

#[test]
fn sorting_leaves_ordered_texts_alone() {
    let ordered = texts(&["a", "b", "b", "c"]);
    assert_eq!(sort_texts(ordered.clone()), ordered);
}

#[test]
fn listings_are_in_byte_order_whatever_order_the_store_yields() {
    let database = KilnDatabase::new(":memory:").unwrap();
    database.connection().execute("DROP TABLE Kilns", []).unwrap();
    database
        .connection()
        .execute(
            "CREATE TABLE Kilns (
                id INTEGER PRIMARY KEY AUTOINCREMENT,
                name TEXT COLLATE NOCASE,
                description TEXT
            )",
            [],
        )
        .unwrap();
    database
        .connection()
        .execute("INSERT INTO Kilns (name) VALUES ('b'), ('C'), ('a')", [])
        .unwrap();
    let stored: Vec<String> = {
        let db = database.connection();
        let mut stmt = db.prepare("SELECT name FROM Kilns ORDER BY name ASC").unwrap();
        let mut rows = stmt.query([]).unwrap();
        let mut names = Vec::new();
        while let Some(row) = rows.next().unwrap() {
            names.push(row.get_unwrap(0));
        }
        names
    };
    assert_eq!(stored, texts(&["a", "b", "C"]));
    assert_eq!(database.list_kilns().unwrap(), texts(&["C", "a", "b"]));
}

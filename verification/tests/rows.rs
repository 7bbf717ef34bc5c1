use kiln::db::{images_table, programs_table, projects_table, steps_table, Database, Row};

#[test]
fn a_row_pairs_a_key_with_its_record() {
    let row = Row::new(7, String::from("full fuse"));
    assert_eq!(row.id(), 7);
    assert_eq!(row.Contents(), "full fuse");
}

#[test]
fn a_row_hands_out_clones_of_its_record() {
    let row = Row::new(u32::MAX, vec![1u8, 2, 3]);
    let mut first = row.Contents();
    first.push(4);
    assert_eq!(row.Contents(), vec![1u8, 2, 3]);
    assert_eq!(row.id(), u32::MAX);
    let copy = row.clone();
    assert_eq!(copy.id(), row.id());
    assert_eq!(copy.Contents(), row.Contents());
}

fn has_table(db: &rusqlite::Connection, name: &str) -> bool {
    let mut stmt = db
        .prepare("SELECT COUNT(*) FROM sqlite_schema WHERE type = 'table' AND name = ?")
        .unwrap();
    let mut rows = stmt.query([name]).unwrap();
    let count: u64 = rows.next().unwrap().unwrap().get_unwrap(0);
    count == 1
}

#[test]
fn opening_a_store_creates_its_four_tables() {
    let database = Database::new(":memory:").unwrap();
    assert!(has_table(&database.connection, "Programs"));
    assert!(has_table(&database.connection, "Steps"));
    assert!(has_table(&database.connection, "Projects"));
    assert!(has_table(&database.connection, "Images"));
}

#[test]
fn opening_a_store_twice_keeps_what_it_holds() {
    let path = "file:program_store_kept?mode=memory&cache=shared";
    let first = Database::new(path).unwrap();
    first
        .connection
        .execute("INSERT INTO Programs (name, description) VALUES ('full-fuse', 'fusing')", [])
        .unwrap();
    let second = Database::new(path).unwrap();
    let mut stmt = second.connection.prepare("SELECT id, name FROM Programs").unwrap();
    let mut rows = stmt.query([]).unwrap();
    let row = rows.next().unwrap().unwrap();
    assert_eq!(row.get_unwrap::<usize, u64>(0), 1);
    assert_eq!(row.get_unwrap::<usize, String>(1), "full-fuse");
    assert!(rows.next().unwrap().is_none());
}

#[test]
fn the_statements_of_the_tables_are_spelled_out() {
    assert_eq!(
        programs_table(),
        "CREATE TABLE IF NOT EXISTS Programs (id INTEGER PRIMARY KEY AUTOINCREMENT, name TEXT, description TEXT)"
    );
    for text in [programs_table(), steps_table(), projects_table(), images_table()] {
        assert!(text.starts_with("CREATE TABLE IF NOT EXISTS "));
    }
    assert!(steps_table().contains("hold_time INTEGER"));
    assert!(projects_table().contains("program_id INTEGER"));
    assert!(images_table().contains("project_id INTEGER, path TEXT"));
}

#[test]
fn a_store_that_cannot_be_opened_is_reported() {
    let result = Database::new("/no/such/directory/anywhere/programs.db");
    assert!(result.is_err());
}

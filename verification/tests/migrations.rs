use aphanite::data::migrations::{migration_order, parse_migration_filename, pending_migrations};

fn parsed(name: &str) -> Option<(u16, String, String)> {
    parse_migration_filename(name)
}

#[test]
fn migration_filename_parts() {
    assert_eq!(
        parsed("0001-init-schema.sql"),
        Some((1, "init-schema".to_string(), "InitSchema".to_string()))
    );
    assert_eq!(parsed("12-add-totp"), Some((12, "add-totp".to_string(), "AddTotp".to_string())));
}

#[test]
fn migration_filename_trailing_sql_endings_removed() {
    assert_eq!(parsed("3-texture.sql.sql"), Some((3, "texture".to_string(), "Texture".to_string())));
}

#[test]
fn migration_filename_empty_words_and_signs() {
    assert_eq!(parsed("+5-a--b.sql"), Some((5, "a--b".to_string(), "AB".to_string())));
    assert_eq!(parsed("7-.sql"), Some((7, String::new(), String::new())));
    assert_eq!(parsed("8-x-2fa.sql"), Some((8, "x-2fa".to_string(), "X2fa".to_string())));
}

#[test]
fn migration_filename_unicode_uppercase() {
    assert_eq!(parsed("9-\u{df}eta.sql"), Some((9, "\u{df}eta".to_string(), "SSeta".to_string())));
    assert_eq!(parsed("10-\u{e9}t\u{e9}.sql"), Some((10, "\u{e9}t\u{e9}".to_string(), "\u{c9}t\u{e9}".to_string())));
}

#[test]
fn migration_filename_refused() {
    assert_eq!(parsed("init.sql"), None);
    assert_eq!(parsed("abc-init.sql"), None);
    assert_eq!(parsed("-init.sql"), None);
    assert_eq!(parsed("65536-init.sql"), None);
    assert_eq!(parsed("65535-last.sql"), Some((65535, "last".to_string(), "Last".to_string())));
}

#[test]
fn migrations_ordered_by_id() {
    assert_eq!(migration_order(&vec![3, 1, 2]), Some(vec![1, 2, 3]));
    assert_eq!(migration_order(&vec![]), Some(vec![]));
    assert_eq!(migration_order(&vec![2, 5, 2]), None);
}

#[test]
fn pending_migrations_keep_order() {
    assert_eq!(pending_migrations(&vec![1, 2, 3, 4], &vec![4, 2]), vec![1, 3]);
    assert_eq!(pending_migrations(&vec![1, 2], &vec![]), vec![1, 2]);
    assert_eq!(pending_migrations(&vec![1, 2], &vec![1, 2, 9]), Vec::<u16>::new());
}

#[test]
fn migrations_run_once() {
    let all = vec![1, 2, 3, 4, 5];
    let mut applied = vec![2, 5];
    let first = pending_migrations(&all, &applied);
    assert_eq!(first, vec![1, 3, 4]);
    applied.extend(first);
    assert!(pending_migrations(&all, &applied).is_empty());
}

#[test]
fn migration_filename_of_the_create_user_table_script() {
    assert_eq!(
        parsed("0002-create-user-table.sql"),
        Some((2, "create-user-table".to_string(), "CreateUserTable".to_string()))
    );
}

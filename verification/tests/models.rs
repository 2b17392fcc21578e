use rust_mysql_crud::hex_id::ID_BYTES;
use rust_mysql_crud::models::{Command, DbError, User};

fn new_row(name: &str, email: &str) -> User {
    match User::create(name, email) {
        Command::Insert { user } => user,
        other => panic!("unexpected command {:?}", other),
    }
}

#[test]
fn create_keeps_name_and_email() {
    let user = new_row("Ada", "ada@example.com");
    assert_eq!(user.name, "Ada");
    assert_eq!(user.email, "ada@example.com");
}

#[test]
fn create_inspects_neither_text() {
    let user = new_row("", "not an address");
    assert_eq!(user.name, "");
    assert_eq!(user.email, "not an address");
}

#[test]
fn create_draws_a_random_uuid() {
    for _ in 0..64 {
        let user = new_row("n", "e");
        assert_eq!(user.id.len(), ID_BYTES);
        assert_eq!(user.id[6] >> 4, 4);
        assert_eq!(user.id[8] >> 6, 2);
    }
}

#[test]
fn create_draws_a_new_id_each_time() {
    let first = new_row("Ada", "ada@example.com");
    let second = new_row("Ada", "ada@example.com");
    assert_ne!(first.id, second.id);
    assert_ne!(first, second);
}

#[test]
fn read_reads_every_row() {
    assert_eq!(User::read(), Command::ReadAll);
}

#[test]
fn update_names_the_row_and_the_new_texts() {
    assert_eq!(
        User::update(&[7u8; 16], "Ada L.", "ada@example.com"),
        Command::Update {
            id: vec![7u8; 16],
            name: "Ada L.".to_string(),
            email: "ada@example.com".to_string(),
        }
    );
}

#[test]
fn delete_names_the_row() {
    assert_eq!(User::delete(&[9u8; 16]), Command::Delete { id: vec![9u8; 16] });
    assert_eq!(User::delete(&[]), Command::Delete { id: Vec::new() });
}

#[test]
fn failures_are_told_apart() {
    assert_ne!(DbError::NotFound, DbError::ConstraintViolation);
    assert_ne!(DbError::NotFound, DbError::Failure);
    assert_ne!(DbError::ConstraintViolation, DbError::Failure);
}

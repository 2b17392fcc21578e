use rust_mysql_crud::handlers::{
    advance, create_user, delete_user, get_users, update_user, Body, CreateUserRequest, Response,
    Step, UpdateUserRequest, UserResponse,
};
use rust_mysql_crud::models::{Command, DbError, Outcome, User};

/// Runs a command on rows held in memory.
fn run(rows: &mut Vec<User>, command: &Command) -> Outcome {
    match command {
        Command::ReadAll => Outcome::Rows(rows.clone()),
        Command::Insert { user } => {
            if rows.iter().any(|row| row.id == user.id) {
                Outcome::Failed(DbError::ConstraintViolation)
            } else {
                rows.push(user.clone());
                Outcome::Count(1)
            }
        }
        Command::Update { id, name, email } => match rows.iter_mut().find(|row| &row.id == id) {
            Some(row) => {
                row.name = name.clone();
                row.email = email.clone();
                Outcome::Count(1)
            }
            None => Outcome::Count(0),
        },
        Command::ReadOne { id } => match rows.iter().find(|row| &row.id == id) {
            Some(row) => Outcome::Row(row.clone()),
            None => Outcome::Failed(DbError::NotFound),
        },
        Command::Delete { id } => {
            let before = rows.len();
            rows.retain(|row| &row.id != id);
            Outcome::Count(before - rows.len())
        }
    }
}

/// Carries a request out on rows held in memory, from its first step to its
/// response, and counts the commands on the way.
fn serve_counting(rows: &mut Vec<User>, first: Step) -> (Response, usize) {
    let mut step = first;
    let mut commands = 0;
    loop {
        match step {
            Step::Reply(response) => return (response, commands),
            Step::Run(command) => {
                commands += 1;
                let outcome = run(rows, &command);
                step = advance(command, outcome);
            }
        }
    }
}

fn serve(rows: &mut Vec<User>, first: Step) -> Response {
    serve_counting(rows, first).0
}

fn post(rows: &mut Vec<User>, name: &str, email: &str) -> Response {
    let request = CreateUserRequest { name: name.to_string(), email: email.to_string() };
    serve(rows, create_user(&request))
}

fn put(rows: &mut Vec<User>, id: &str, name: &str, email: &str) -> Response {
    let request = UpdateUserRequest { name: name.to_string(), email: email.to_string() };
    serve(rows, update_user(id, &request))
}

fn one(response: &Response) -> UserResponse {
    match &response.body {
        Body::One(user) => user.clone(),
        other => panic!("unexpected body {:?}", other),
    }
}

fn list(response: &Response) -> Vec<UserResponse> {
    match &response.body {
        Body::List(users) => users.clone(),
        other => panic!("unexpected body {:?}", other),
    }
}

fn is_lower_hex_id(text: &str) -> bool {
    text.len() == 32 && text.chars().all(|c| c.is_ascii_digit() || ('a'..='f').contains(&c))
}

#[test]
fn create_then_list() {
    let mut rows = Vec::new();
    let earlier = one(&post(&mut rows, "Grace", "grace@example.com"));

    let created = post(&mut rows, "Ada", "ada@example.com");
    assert_eq!(created.status, 201);
    let ada = one(&created);
    assert_eq!(ada.name, "Ada");
    assert_eq!(ada.email, "ada@example.com");
    assert!(is_lower_hex_id(&ada.id));
    assert_ne!(ada.id, earlier.id);

    let listed = serve(&mut rows, get_users());
    assert_eq!(listed.status, 200);
    let users = list(&listed);
    assert_eq!(users.len(), 2);
    assert_eq!(users.iter().filter(|user| user.id == ada.id).count(), 1);
    assert!(users.contains(&ada));
    assert!(users.contains(&earlier));
}

#[test]
fn two_users_of_one_name_are_two_rows() {
    let mut rows = Vec::new();
    let first = one(&post(&mut rows, "Ada", "ada@example.com"));
    let second = one(&post(&mut rows, "Ada", "ada@example.com"));
    assert_ne!(first.id, second.id);
    assert_eq!(list(&serve(&mut rows, get_users())).len(), 2);
}

#[test]
fn update_twice_gives_the_same_state() {
    let mut rows = Vec::new();
    let ada = one(&post(&mut rows, "Ada", "ada@example.com"));
    let expected = UserResponse {
        id: ada.id.clone(),
        name: "Ada L.".to_string(),
        email: "lovelace@example.com".to_string(),
    };

    let first = put(&mut rows, &ada.id, "Ada L.", "lovelace@example.com");
    assert_eq!(first, Response { status: 200, body: Body::One(expected.clone()) });
    let after_first = rows.clone();

    let second = put(&mut rows, &ada.id, "Ada L.", "lovelace@example.com");
    assert_eq!(second, Response { status: 200, body: Body::One(expected.clone()) });
    assert_eq!(rows, after_first);
    assert_eq!(list(&serve(&mut rows, get_users())), vec![expected]);
}

#[test]
fn update_of_an_absent_id_does_not_succeed() {
    let mut rows = Vec::new();
    post(&mut rows, "Ada", "ada@example.com");
    let before = rows.clone();

    let response = put(&mut rows, "00000000000000000000000000000000", "n", "e");
    assert_eq!(response, Response { status: 500, body: Body::Empty });
    assert!(!response.is_success());
    assert_eq!(rows, before);
}

#[test]
fn delete_works_once() {
    let mut rows = Vec::new();
    let ada = one(&post(&mut rows, "Ada", "ada@example.com"));
    let grace = one(&post(&mut rows, "Grace", "grace@example.com"));

    let first = serve(&mut rows, delete_user(&ada.id));
    assert_eq!(first, Response { status: 204, body: Body::Empty });
    assert_eq!(list(&serve(&mut rows, get_users())), vec![grace]);

    let second = serve(&mut rows, delete_user(&ada.id));
    assert_eq!(second, Response { status: 404, body: Body::Empty });
    assert_eq!(rows.len(), 1);
}

#[test]
fn a_bad_id_is_refused_before_the_table_is_asked() {
    let mut rows = Vec::new();
    post(&mut rows, "Ada", "ada@example.com");
    let before = rows.clone();
    let refused = Response { status: 400, body: Body::Empty };

    for path in ["", "xyz", "12345", "0123456789abcdef", "0123456789abcdef0123456789abcdeg"] {
        assert_eq!(delete_user(path), Step::Reply(refused.clone()));
        let request = UpdateUserRequest { name: "n".to_string(), email: "e".to_string() };
        assert_eq!(update_user(path, &request), Step::Reply(refused.clone()));
        assert_eq!(serve_counting(&mut rows, delete_user(path)), (refused.clone(), 0));
    }
    assert_eq!(rows, before);
}

#[test]
fn a_request_takes_two_commands_at_most() {
    let mut rows = Vec::new();
    let request = CreateUserRequest { name: "Ada".to_string(), email: "a@b".to_string() };
    let (created, commands) = serve_counting(&mut rows, create_user(&request));
    assert_eq!(commands, 1);
    let id = one(&created).id;
    let request = UpdateUserRequest { name: "Ada L.".to_string(), email: "a@b".to_string() };
    assert_eq!(serve_counting(&mut rows, update_user(&id, &request)).1, 2);
    assert_eq!(serve_counting(&mut rows, get_users()).1, 1);
    assert_eq!(serve_counting(&mut rows, delete_user(&id)).1, 1);
    assert_eq!(serve_counting(&mut rows, update_user(&id, &request)).1, 2);
    assert_eq!(serve_counting(&mut rows, delete_user(&id)).1, 1);
}

#[test]
fn a_user_from_create_to_delete() {
    let mut rows = Vec::new();

    let created = post(&mut rows, "Ada", "ada@example.com");
    assert_eq!(created.status, 201);
    let ada = one(&created);
    assert!(is_lower_hex_id(&ada.id));
    assert_eq!(ada.name, "Ada");
    assert_eq!(ada.email, "ada@example.com");

    let listed = serve(&mut rows, get_users());
    assert_eq!(listed.status, 200);
    assert!(list(&listed).contains(&ada));

    let updated = put(&mut rows, &ada.id, "Ada L.", "ada@example.com");
    assert_eq!(updated.status, 200);
    assert_eq!(
        one(&updated),
        UserResponse {
            id: ada.id.clone(),
            name: "Ada L.".to_string(),
            email: "ada@example.com".to_string(),
        }
    );

    assert_eq!(serve(&mut rows, delete_user(&ada.id)), Response { status: 204, body: Body::Empty });
    assert_eq!(serve(&mut rows, delete_user(&ada.id)), Response { status: 404, body: Body::Empty });
}

use user_api::dtos::FilterUserDto;
use user_api::models::{Timestamp, User, UserRole};

fn user(id: u128, name: &str, role: UserRole, secs: i64) -> User {
    User {
        id,
        name: name.to_string(),
        email: format!("{}@example.com", name),
        password: "$argon2id$v=19$hash".to_string(),
        role,
        verified: secs % 2 == 0,
        created_at: Timestamp { seconds: secs, nanos: 5 },
        updated_at: Timestamp { seconds: secs + 1, nanos: 0 },
    }
}

#[test]
fn single_projection() {
    let u = user(0x0123456789abcdef0123456789abcdef, "ann", UserRole::Admin, 10);
    let v = FilterUserDto::filter_user(&u);
    assert_eq!(v.id, "01234567-89ab-cdef-0123-456789abcdef");
    assert_eq!(v.name, "ann");
    assert_eq!(v.email, "ann@example.com");
    assert_eq!(v.role, "admin");
    assert!(v.verified);
    assert_eq!(v.created_at, Timestamp { seconds: 10, nanos: 5 });
    assert_eq!(v.updated_at, Timestamp { seconds: 11, nanos: 0 });
}

#[test]
fn identifier_is_hyphenated_lowercase() {
    let v = FilterUserDto::filter_user(&user(0, "z", UserRole::User, 1));
    assert_eq!(v.id, "00000000-0000-0000-0000-000000000000");
    let v = FilterUserDto::filter_user(&user(u128::MAX, "z", UserRole::User, 1));
    assert_eq!(v.id, "ffffffff-ffff-ffff-ffff-ffffffffffff");
}

#[test]
fn sequence_projection_keeps_order_and_count() {
    let users = vec![
        user(1, "a", UserRole::User, 1),
        user(2, "b", UserRole::Moderator, 2),
        user(3, "c", UserRole::Admin, 3),
    ];
    let views = FilterUserDto::filter_users(&users);
    assert_eq!(views.len(), 3);
    let names: Vec<&str> = views.iter().map(|v| v.name.as_str()).collect();
    assert_eq!(names, vec!["a", "b", "c"]);
    let roles: Vec<&str> = views.iter().map(|v| v.role.as_str()).collect();
    assert_eq!(roles, vec!["user", "moderator", "admin"]);
    assert_eq!(views[1].id, "00000000-0000-0000-0000-000000000002");
    for v in &views {
        assert!(!v.id.contains("argon2") && !v.name.contains("argon2"));
        assert!(!v.email.contains("argon2") && !v.role.contains("argon2"));
    }
}

#[test]
fn empty_sequence_projection() {
    assert!(FilterUserDto::filter_users(&[]).is_empty());
}

use user_store::repository::UserRepository;
use user_store::store::InMemoryUserRepository;
use user_store::user::CreateUserRequest;

#[test]
fn test_user_creation() {
    let mut repo = InMemoryUserRepository::new();
    let request = CreateUserRequest {
        name: "Test User".to_string(),
        email: "test@example.com".to_string(),
    };

    let user = repo.create_user(request).unwrap();
    assert_eq!(user.name, "Test User");
    assert_eq!(user.email, "test@example.com");
}

#[test]
fn test_user_repository_trait() {
    let repo = InMemoryUserRepository::new();

    let users = repo.list_users().unwrap();
    assert!(users.is_empty());
}

#[test]
fn fresh_store_scenario() {
    let mut repo = InMemoryUserRepository::new();
    let request = CreateUserRequest {
        name: "John Doe".to_string(),
        email: "john@example.com".to_string(),
    };

    let user = repo.create_user(request).unwrap();
    assert_eq!(user.id, 1);
    assert_eq!(user.name, "John Doe");
    assert_eq!(user.email, "john@example.com");

    let found = repo.find_user(1).unwrap();
    assert_eq!(found, Some(user.clone()));

    let listed = repo.list_users().unwrap();
    assert_eq!(listed, vec![user]);

    assert_eq!(repo.find_user(2).unwrap(), None);
}

#[test]
fn create_at_uses_given_timestamp() {
    let mut repo = InMemoryUserRepository::new();
    let request = CreateUserRequest {
        name: "Jane".to_string(),
        email: "jane@example.com".to_string(),
    };

    let user = repo.create_user_at(request, 1234567890).unwrap();
    assert_eq!(user.created_at, 1234567890);
    assert_eq!(repo.find_user(user.id).unwrap().unwrap().created_at, 1234567890);
}

#[test]
fn initialize_seeds_fixture_record() {
    let mut repo = InMemoryUserRepository::new();
    repo.initialize().unwrap();

    let found = repo.find_user(1).unwrap().unwrap();
    assert_eq!(found.name, "John Doe");
    assert_eq!(found.email, "john@example.com");
    assert_eq!(repo.list_users().unwrap().len(), 1);
}

#[test]
fn created_ids_are_unique() {
    let mut repo = InMemoryUserRepository::new();
    let mut ids: Vec<u64> = Vec::new();
    for i in 0..5 {
        let request = CreateUserRequest {
            name: format!("user{}", i),
            email: format!("user{}@example.com", i),
        };
        ids.push(repo.create_user(request).unwrap().id);
    }

    let mut distinct = ids.clone();
    distinct.sort();
    distinct.dedup();
    assert_eq!(distinct.len(), 5);
}

#[test]
fn list_after_sequential_creates_is_complete() {
    let mut repo = InMemoryUserRepository::new();
    let mut created_ids: Vec<u64> = Vec::new();
    for i in 0..4 {
        let request = CreateUserRequest {
            name: format!("name{}", i),
            email: format!("mail{}@example.com", i),
        };
        created_ids.push(repo.create_user(request).unwrap().id);
    }

    let listed = repo.list_users().unwrap();
    assert_eq!(listed.len(), 4);
    let listed_ids: Vec<u64> = listed.iter().map(|u| u.id).collect();
    assert_eq!(listed_ids, created_ids);
}

#[test]
fn never_issued_id_is_absent_not_an_error() {
    let mut repo = InMemoryUserRepository::new();
    assert_eq!(repo.find_user(0).unwrap(), None);
    assert_eq!(repo.find_user(42).unwrap(), None);

    let request = CreateUserRequest {
        name: "Solo".to_string(),
        email: "solo@example.com".to_string(),
    };
    repo.create_user(request).unwrap();
    assert_eq!(repo.find_user(0).unwrap(), None);
    assert_eq!(repo.find_user(2).unwrap(), None);
}

#[test]
fn repeated_reads_are_identical() {
    let mut repo = InMemoryUserRepository::new();
    let request = CreateUserRequest {
        name: "Reread".to_string(),
        email: "reread@example.com".to_string(),
    };
    let user = repo.create_user(request).unwrap();

    let first_find = repo.find_user(user.id).unwrap();
    let second_find = repo.find_user(user.id).unwrap();
    assert_eq!(first_find, second_find);

    let first_list = repo.list_users().unwrap();
    let second_list = repo.list_users().unwrap();
    assert_eq!(first_list, second_list);
}

#[test]
fn duplicate_copies_every_field() {
    let mut repo = InMemoryUserRepository::new();
    let request = CreateUserRequest {
        name: "Copy Me".to_string(),
        email: "copy@example.com".to_string(),
    };
    let user = repo.create_user_at(request, 7).unwrap();
    let copy = user.duplicate();
    assert_eq!(copy, user);
}

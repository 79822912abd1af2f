use user_store::handle::SharedHandle;
use user_store::store::InMemoryUserRepository;
use user_store::user::{CreateUserRequest, StorageError};

#[test]
fn handle_create_then_read() {
    let handle = SharedHandle::new(InMemoryUserRepository::new());
    let request = CreateUserRequest {
        name: "Shared".to_string(),
        email: "shared@example.com".to_string(),
    };

    let user = handle.create_user(request).unwrap();
    assert_eq!(user.id, 1);
    assert_eq!(user.name, "Shared");

    let found = handle.find_user(user.id).unwrap();
    assert_eq!(found, Some(user.clone()));

    let listed = handle.list_users().unwrap();
    assert_eq!(listed, vec![user]);
}

#[test]
fn handle_over_seeded_store() {
    let mut store = InMemoryUserRepository::new();
    store.initialize().unwrap();
    let handle = SharedHandle::new(store);

    let found = handle.find_user(1).unwrap().unwrap();
    assert_eq!(found.name, "John Doe");
    assert_eq!(found.email, "john@example.com");
    assert_eq!(handle.find_user(2).unwrap(), None);
}

#[test]
fn empty_handle_lists_nothing() {
    let handle = SharedHandle::new_empty();
    assert!(handle.list_users().unwrap().is_empty());
    assert_eq!(handle.find_user(1).unwrap(), None);
}

#[test]
fn handle_listing_keeps_insertion_order() {
    let handle = SharedHandle::new_empty();
    for i in 0..3 {
        let request = CreateUserRequest {
            name: format!("h{}", i),
            email: format!("h{}@example.com", i),
        };
        handle.create_user(request).unwrap();
    }

    let listed = handle.list_users().unwrap();
    let ids: Vec<u64> = listed.iter().map(|u| u.id).collect();
    assert_eq!(ids, vec![1, 2, 3]);
}

#[test]
fn storage_error_has_a_message() {
    let err = StorageError;
    assert_eq!(err.message(), "storage backend failure");
}

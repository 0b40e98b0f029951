use user_store::handler::{
    create_user, delete_user, fetch_user, get_user, storage_lock_error, update_user, STATUS_INTERNAL_ERROR,
    STATUS_NOT_FOUND, STATUS_OK,
};
use user_store::response::ApiResponse;
use user_store::storage::UserStorage;
use user_store::user::User;

fn body(name: &str, email: &str) -> User {
    User {
        id: None,
        name: name.to_string(),
        email: email.to_string(),
    }
}

#[test]
fn create_assigns_nonempty_distinct_ids_and_keeps_all() {
    let mut s = UserStorage::new();
    let mut ids: Vec<String> = Vec::new();
    for i in 0..20 {
        let (status, resp) = create_user(&mut s, body(&format!("user{}", i), &format!("user{}@x.com", i)));
        assert_eq!(status, STATUS_OK);
        assert_eq!(resp.message, "success");
        let created = resp.data.expect("create reply carries the record");
        let id = created.id.expect("create assigns an identifier");
        assert!(!id.is_empty());
        assert!(!ids.contains(&id));
        ids.push(id);
    }
    let (status, resp) = fetch_user(&s);
    assert_eq!(status, STATUS_OK);
    let listed = resp.data.expect("list reply carries the records");
    assert_eq!(listed.len(), 20);
    for id in &ids {
        assert!(listed.iter().any(|u| u.id.as_ref() == Some(id)));
    }
}

#[test]
fn create_then_get_round_trip() {
    let mut s = UserStorage::new();
    let (status, resp) = create_user(&mut s, body("Ada", "ada@x.com"));
    assert_eq!(status, STATUS_OK);
    assert_eq!(resp.message, "success");
    let created = resp.data.expect("create reply carries the record");
    let id = created.id.clone().expect("create assigns an identifier");
    assert_eq!(id.len(), 36, "hyphenated UUID form");
    assert_eq!(created.name, "Ada");
    assert_eq!(created.email, "ada@x.com");

    let (status, resp) = get_user(&s, &id);
    assert_eq!(status, STATUS_OK);
    assert_eq!(resp.message, "success");
    let got = resp.data.expect("get reply carries the record");
    assert_eq!(got.id.as_deref(), Some(id.as_str()));
    assert_eq!(got.name, "Ada");
    assert_eq!(got.email, "ada@x.com");
}

#[test]
fn get_with_a_wrong_id_is_not_found() {
    let mut s = UserStorage::new();
    let (_, resp) = create_user(&mut s, body("Ada", "ada@x.com"));
    let id = resp.data.unwrap().id.unwrap();
    let wrong = format!("{}x", id);
    let (status, resp) = get_user(&s, &wrong);
    assert_eq!(status, STATUS_NOT_FOUND);
    assert_eq!(resp.message, "user not found");
    assert!(resp.data.is_none());
}

#[test]
fn update_handler_statuses() {
    let mut s = UserStorage::new();
    let (_, resp) = create_user(&mut s, body("Ada", "ada@x.com"));
    let id = resp.data.unwrap().id.unwrap();

    let (status, resp) = update_user(&mut s, &id, body("Grace", "grace@x.com"));
    assert_eq!(status, STATUS_OK);
    assert_eq!(resp.message, "success");
    let updated = resp.data.expect("update reply carries the record");
    assert_eq!(updated.id.as_deref(), Some(id.as_str()));
    assert_eq!(updated.name, "Grace");
    assert_eq!(updated.email, "grace@x.com");

    let (status, resp) = update_user(&mut s, "no-such-id", body("Eve", "eve@x.com"));
    assert_eq!(status, STATUS_NOT_FOUND);
    assert_eq!(resp.message, "user not found");
    assert!(resp.data.is_none());
}

#[test]
fn delete_handler_statuses() {
    let mut s = UserStorage::new();
    let (_, resp) = create_user(&mut s, body("Ada", "ada@x.com"));
    let id = resp.data.unwrap().id.unwrap();

    let (status, resp) = delete_user(&mut s, &id);
    assert_eq!(status, STATUS_OK);
    assert_eq!(resp.message, "success");
    let removed = resp.data.expect("delete reply carries the record");
    assert_eq!(removed.name, "Ada");

    let (status, resp) = get_user(&s, &id);
    assert_eq!(status, STATUS_NOT_FOUND);
    assert!(resp.data.is_none());

    let (status, resp) = delete_user(&mut s, &id);
    assert_eq!(status, STATUS_NOT_FOUND);
    assert_eq!(resp.message, "user not found");
    assert!(resp.data.is_none());
}

#[test]
fn update_then_delete_and_delete_then_update_agree() {
    // Run the two orders on two stores holding the same record.
    let mut first = UserStorage::new();
    let (_, resp) = create_user(&mut first, body("Ada", "ada@x.com"));
    let id = resp.data.unwrap().id.unwrap();
    let mut second = UserStorage::new();
    second.create(User {
        id: Some(id.clone()),
        name: "Ada".to_string(),
        email: "ada@x.com".to_string(),
    });

    // update, then delete: the record is fully gone afterwards
    let (status, _) = update_user(&mut first, &id, body("Grace", "grace@x.com"));
    assert_eq!(status, STATUS_OK);
    let (status, _) = delete_user(&mut first, &id);
    assert_eq!(status, STATUS_OK);

    // delete, then update: the update finds nothing
    let (status, _) = delete_user(&mut second, &id);
    assert_eq!(status, STATUS_OK);
    let (status, resp) = update_user(&mut second, &id, body("Grace", "grace@x.com"));
    assert_eq!(status, STATUS_NOT_FOUND);
    assert!(resp.data.is_none());

    // either way the final state misses the record entirely
    let (status, _) = get_user(&first, &id);
    assert_eq!(status, STATUS_NOT_FOUND);
    let (status, _) = get_user(&second, &id);
    assert_eq!(status, STATUS_NOT_FOUND);
    assert!(fetch_user(&first).1.data.unwrap().is_empty());
    assert!(fetch_user(&second).1.data.unwrap().is_empty());
}

#[test]
fn lock_error_reply_shape() {
    let (status, resp): (u16, ApiResponse<User>) = storage_lock_error();
    assert_eq!(status, STATUS_INTERNAL_ERROR);
    assert_eq!(resp.message, "Storage lock error");
    assert!(resp.data.is_none());
}

#[test]
fn envelope_constructors() {
    let ok: ApiResponse<u32> = ApiResponse::success(7);
    assert_eq!(ok.message, "success");
    assert_eq!(ok.data, Some(7));
    let err: ApiResponse<u32> = ApiResponse::error("boom".to_string());
    assert_eq!(err.message, "boom");
    assert!(err.data.is_none());
}

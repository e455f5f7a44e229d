use user_auth::middleware::{authorize_at, GuardDecision};
use user_auth::models::NewUser;
use user_auth::routes::{
    create_user, delete_user, get_user, login, DeleteResponse, GetUserResponse, LoginResponse,
    RegisterResponse,
};
use user_auth::store::UserStore;

const SECRET: &[u8] = b"unit-test-signing-secret";

fn credentials(username: &str, password: &str) -> NewUser {
    NewUser {
        username: username.to_string(),
        password: password.to_string(),
    }
}

#[test]
fn register_login_fetch_delete_end_to_end() {
    let mut store = UserStore::new();

    let registered = create_user(&mut store, &credentials("bob", "pw1"));
    assert_eq!(registered, RegisterResponse::Created);
    assert_eq!(registered.status(), 201);

    let logged_in = login(&store, &credentials("bob", "pw1"), SECRET);
    assert_eq!(logged_in.status(), 200);
    let token = match logged_in {
        LoginResponse::Success(t) => t,
        _ => panic!("expected a token"),
    };
    assert!(!token.is_empty());

    let header = format!("Bearer {}", token);
    let now = 1; // freshly issued: valid at any time inside its hour
    assert_eq!(authorize_at(Some(&header), SECRET, now), GuardDecision::Admitted);

    let id = store.find_by_username("bob").unwrap().id;
    let fetched = get_user(&store, id);
    assert_eq!(fetched.status(), 200);
    match fetched {
        GetUserResponse::Found(u) => {
            assert_eq!(u.id, id);
            assert_eq!(u.username, "bob");
            assert_ne!(u.password_hash, "pw1");
        }
        GetUserResponse::NotFound => panic!("expected the record"),
    }

    let deleted = delete_user(&mut store, id);
    assert_eq!(deleted, DeleteResponse::Deleted);
    assert_eq!(deleted.status(), 200);

    let gone = get_user(&store, id);
    assert_eq!(gone.status(), 404);
    assert!(matches!(gone, GetUserResponse::NotFound));
}

#[test]
fn duplicate_username_is_a_conflict() {
    let mut store = UserStore::new();
    assert_eq!(
        create_user(&mut store, &credentials("bob", "pw1")),
        RegisterResponse::Created
    );
    let again = create_user(&mut store, &credentials("bob", "pw2"));
    assert_eq!(again, RegisterResponse::Conflict);
    assert_eq!(again.status(), 409);
    assert_eq!(store.len(), 1);
}

#[test]
fn login_rejections_are_indistinguishable() {
    let mut store = UserStore::new();
    assert_eq!(
        create_user(&mut store, &credentials("bob", "pw1")),
        RegisterResponse::Created
    );

    let wrong_password = login(&store, &credentials("bob", "wrong"), SECRET);
    let unknown_username = login(&store, &credentials("alice", "pw1"), SECRET);

    assert!(matches!(wrong_password, LoginResponse::Unauthorized));
    assert!(matches!(unknown_username, LoginResponse::Unauthorized));
    assert_eq!(wrong_password.status(), unknown_username.status());
    assert_eq!(wrong_password.status(), 401);
    assert_eq!(wrong_password.body(), unknown_username.body());
    assert_eq!(wrong_password.body(), "Invalid username or password");
}

#[test]
fn fetching_an_unknown_id_is_not_found() {
    let store = UserStore::new();
    assert!(matches!(get_user(&store, 42), GetUserResponse::NotFound));
}

#[test]
fn deleting_an_unknown_id_is_not_found() {
    let mut store = UserStore::new();
    let r = delete_user(&mut store, 42);
    assert_eq!(r, DeleteResponse::NotFound);
    assert_eq!(r.status(), 404);
}

#[test]
fn ids_are_assigned_in_insertion_order_and_stay_unique() {
    let mut store = UserStore::new();
    assert_eq!(create_user(&mut store, &credentials("a", "pw")), RegisterResponse::Created);
    assert_eq!(create_user(&mut store, &credentials("b", "pw")), RegisterResponse::Created);
    let ida = store.find_by_username("a").unwrap().id;
    let idb = store.find_by_username("b").unwrap().id;
    assert_ne!(ida, idb);
    assert_eq!(delete_user(&mut store, ida), DeleteResponse::Deleted);
    assert_eq!(create_user(&mut store, &credentials("c", "pw")), RegisterResponse::Created);
    let idc = store.find_by_username("c").unwrap().id;
    assert_ne!(idb, idc);
}

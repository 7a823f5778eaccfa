use osma::outcome::SigninOutcome;
use osma::service::Core;
use osma::types::{PersonalLibrary, Review, Role, StoredUser};

const NOW: i64 = 1_700_000_000;

fn stored_user(name: &str, password: &str, salt: &str, role: Role) -> StoredUser {
    StoredUser {
        name: String::from(name),
        password_hash: osma::hashing::digest_with_salt(
            &format!("{}{}", name, password),
            salt,
        ),
        email: format!("{}@example.net", name),
        img: String::new(),
        role,
    }
}

#[test]
fn loaded_account_authenticates() {
    let mut core = Core::new(String::from("topsecret"), String::from("pepper"));
    assert!(core.insert_user(stored_user("alice", "opensesame", "pepper", Role::User)));
    let r = core.signin(&String::from("alice"), &String::from("opensesame"), NOW);
    assert!(matches!(r, SigninOutcome::SignedIn { .. }));
}

#[test]
fn intake_refuses_a_taken_name() {
    let mut core = Core::new(String::from("topsecret"), String::from("pepper"));
    assert!(core.insert_user(stored_user("alice", "opensesame", "pepper", Role::User)));
    assert!(!core.insert_user(stored_user("alice", "other", "pepper", Role::Admin)));
}

#[test]
fn intake_refuses_a_library_without_its_account() {
    let mut core = Core::new(String::from("topsecret"), String::from("pepper"));
    let lib = PersonalLibrary { name: String::from("ghostname"), apps: Vec::new() };
    assert!(!core.insert_library(lib));
}

#[test]
fn intake_accepts_a_library_of_a_loaded_account() {
    let mut core = Core::new(String::from("topsecret"), String::from("pepper"));
    assert!(core.insert_user(stored_user("alice", "opensesame", "pepper", Role::User)));
    let lib = PersonalLibrary {
        name: String::from("alice"),
        apps: vec![String::from("editor")],
    };
    assert!(core.insert_library(lib));
    let second = PersonalLibrary { name: String::from("alice"), apps: Vec::new() };
    assert!(!core.insert_library(second));
}

#[test]
fn intake_keeps_one_review_per_user() {
    let mut core = Core::new(String::from("topsecret"), String::from("pepper"));
    let review = Review {
        user_name: String::from("alice"),
        app_id: String::from("editor"),
        score: 4,
        text: String::from("good"),
        timestamp: NOW,
    };
    let duplicate = Review {
        user_name: String::from("alice"),
        app_id: String::from("game"),
        score: 1,
        text: String::from("bad"),
        timestamp: NOW + 1,
    };
    assert!(core.insert_review(review));
    assert!(!core.insert_review(duplicate));
    let kept = core.get_reviews(&String::from("editor"));
    assert_eq!(kept.len(), 1);
    assert_eq!(kept[0].score, 4);
}

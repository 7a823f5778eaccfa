use osma::outcome::{
    AddOutcome, AppOutcome, ChangePasswordOutcome, LatestVersionOutcome, LibraryOutcome,
    RatingOutcome, RemoveOutcome, ReviewOutcome, SigninOutcome, SignupOutcome,
    UpdateProfileOutcome,
};
use osma::service::Core;
use osma::token::verify;
use osma::types::{App, AppTags, AppVersion, ReviewData, User, UserData};

const NOW: i64 = 1_700_000_000;

fn fresh_core() -> Core {
    Core::new(String::from("topsecret"), String::from("pepper"))
}

fn sample_app(app_id: &str, tags: &[&str]) -> App {
    App {
        app_id: String::from(app_id),
        name: format!("{} (name)", app_id),
        description: String::from("a description"),
        version: String::from("1.0.0"),
        platform: String::from("linux"),
        tags: tags.iter().map(|t| String::from(*t)).collect(),
    }
}

fn sample_user(name: &str, password: &str) -> User {
    User {
        name: String::from(name),
        password: String::from(password),
        email: format!("{}@example.net", name),
    }
}

fn signup_ok(core: &mut Core, name: &str, password: &str) -> String {
    match core.signup(&sample_user(name, password), NOW) {
        SignupOutcome::Created { token } => token,
        _ => panic!("signup of {} failed", name),
    }
}

#[test]
fn signup_returns_verifiable_token() {
    let mut core = fresh_core();
    let token = signup_ok(&mut core, "alice", "opensesame");
    let claims = verify(token.as_str(), "topsecret", NOW).expect("token did not verify");
    assert_eq!(claims.name, "alice");
    assert_eq!(claims.role, "user");
    assert_eq!(claims.exp, NOW + 604800);
}

#[test]
fn registered_user_authenticates() {
    let mut core = fresh_core();
    signup_ok(&mut core, "alice", "opensesame");
    let r = core.signin(&String::from("alice"), &String::from("opensesame"), NOW);
    assert!(matches!(r, SigninOutcome::SignedIn { .. }));
}

#[test]
fn wrong_password_is_denied() {
    let mut core = fresh_core();
    signup_ok(&mut core, "alice", "opensesame");
    let r = core.signin(&String::from("alice"), &String::from("letmein"), NOW);
    assert!(matches!(r, SigninOutcome::WrongPassword));
}

#[test]
fn unknown_user_cannot_sign_in() {
    let core = fresh_core();
    let r = core.signin(&String::from("nobody"), &String::from("whatever"), NOW);
    assert!(matches!(r, SigninOutcome::UserNotFound));
}

#[test]
fn duplicate_name_is_refused_and_first_account_survives() {
    let mut core = fresh_core();
    signup_ok(&mut core, "alice", "opensesame");
    let second = core.signup(&sample_user("alice", "otherpass"), NOW);
    assert!(matches!(second, SignupOutcome::DuplicateName));
    // The first account's credentials still hold; the second's never took.
    let with_first = core.signin(&String::from("alice"), &String::from("opensesame"), NOW);
    assert!(matches!(with_first, SigninOutcome::SignedIn { .. }));
    let with_second = core.signin(&String::from("alice"), &String::from("otherpass"), NOW);
    assert!(matches!(with_second, SigninOutcome::WrongPassword));
}

#[test]
fn change_password_requires_the_old_one() {
    let mut core = fresh_core();
    signup_ok(&mut core, "alice", "opensesame");
    let refused = core.change_password(
        &String::from("alice"),
        &String::from("guessed"),
        &String::from("newpass"),
    );
    assert!(matches!(refused, ChangePasswordOutcome::WrongPassword));
    // The store is unchanged: the old password still authenticates.
    let r = core.signin(&String::from("alice"), &String::from("opensesame"), NOW);
    assert!(matches!(r, SigninOutcome::SignedIn { .. }));
}

#[test]
fn change_password_switches_the_accepted_password() {
    let mut core = fresh_core();
    signup_ok(&mut core, "alice", "opensesame");
    let updated = core.change_password(
        &String::from("alice"),
        &String::from("opensesame"),
        &String::from("newpass"),
    );
    assert!(matches!(updated, ChangePasswordOutcome::Updated));
    let with_old = core.signin(&String::from("alice"), &String::from("opensesame"), NOW);
    assert!(matches!(with_old, SigninOutcome::WrongPassword));
    let with_new = core.signin(&String::from("alice"), &String::from("newpass"), NOW);
    assert!(matches!(with_new, SigninOutcome::SignedIn { .. }));
}

#[test]
fn change_password_of_unknown_user_is_not_found() {
    let mut core = fresh_core();
    let r = core.change_password(
        &String::from("nobody"),
        &String::from("old"),
        &String::from("new"),
    );
    assert!(matches!(r, ChangePasswordOutcome::UserNotFound));
}

#[test]
fn update_user_reports_updated() {
    let mut core = fresh_core();
    signup_ok(&mut core, "alice", "opensesame");
    let info = UserData { email: String::from("new@example.net"), img: String::from("i.png") };
    let r = core.update_user(&String::from("alice"), &info);
    assert!(matches!(r, UpdateProfileOutcome::Updated));
    // An unknown name is an overwrite that matched nothing, still reported
    // as updated.
    let r2 = core.update_user(&String::from("nobody"), &info);
    assert!(matches!(r2, UpdateProfileOutcome::Updated));
}

#[test]
fn catalog_reads_back_inserted_apps() {
    let mut core = fresh_core();
    assert!(core.insert_app(sample_app("editor", &["tools"])));
    assert!(core.insert_app(sample_app("game", &["fun"])));
    assert!(!core.insert_app(sample_app("editor", &["tools"])));
    let apps = core.get_apps();
    assert_eq!(apps.len(), 2);
    assert_eq!(apps[0].app_id, "editor");
    assert_eq!(apps[1].app_id, "game");
    match core.get_app(&String::from("game")) {
        AppOutcome::Found(a) => assert_eq!(a.app_id, "game"),
        AppOutcome::AppNotFound => panic!("expected the app to be found"),
    }
    assert!(matches!(
        core.get_app(&String::from("missing")),
        AppOutcome::AppNotFound
    ));
}

#[test]
fn tag_filter_selects_apps_sharing_a_tag() {
    let mut core = fresh_core();
    assert!(core.insert_app(sample_app("editor", &["tools", "text"])));
    assert!(core.insert_app(sample_app("game", &["fun"])));
    assert!(core.insert_app(sample_app("paint", &["tools", "art"])));
    let tags = AppTags { tags: vec![String::from("tools"), String::from("music")] };
    let hits = core.get_apps_by_tag(&tags);
    assert_eq!(hits.len(), 2);
    assert_eq!(hits[0].app_id, "editor");
    assert_eq!(hits[1].app_id, "paint");
    let none = core.get_apps_by_tag(&AppTags { tags: vec![String::from("music")] });
    assert!(none.is_empty());
}

#[test]
fn versions_come_back_newest_first() {
    let mut core = fresh_core();
    core.insert_version(AppVersion {
        app_id: String::from("editor"),
        version: String::from("1.0.0"),
        timestamp: 100,
    });
    core.insert_version(AppVersion {
        app_id: String::from("editor"),
        version: String::from("1.2.0"),
        timestamp: 300,
    });
    core.insert_version(AppVersion {
        app_id: String::from("editor"),
        version: String::from("1.1.0"),
        timestamp: 200,
    });
    core.insert_version(AppVersion {
        app_id: String::from("game"),
        version: String::from("0.1.0"),
        timestamp: 250,
    });
    let versions = core.get_versions(&String::from("editor"));
    assert_eq!(versions.len(), 3);
    assert_eq!(versions[0].version, "1.2.0");
    assert_eq!(versions[1].version, "1.1.0");
    assert_eq!(versions[2].version, "1.0.0");
    match core.get_latest_version(&String::from("editor")) {
        LatestVersionOutcome::Latest(v) => {
            assert_eq!(v.version, "1.2.0");
            assert_eq!(v.timestamp, 300);
        }
        LatestVersionOutcome::NoVersions => panic!("expected a latest version"),
    }
    assert!(matches!(
        core.get_latest_version(&String::from("missing")),
        LatestVersionOutcome::NoVersions
    ));
}

#[test]
fn review_of_missing_app_is_denied() {
    let mut core = fresh_core();
    let review = ReviewData {
        app_id: String::from("missing"),
        score: 5,
        text: String::from("great"),
    };
    let r = core.write_review(&String::from("alice"), &review, NOW);
    assert!(matches!(r, ReviewOutcome::AppNotFound));
    assert!(core.get_reviews(&String::from("missing")).is_empty());
}

#[test]
fn review_is_stored_and_read_back() {
    let mut core = fresh_core();
    assert!(core.insert_app(sample_app("editor", &["tools"])));
    let review = ReviewData {
        app_id: String::from("editor"),
        score: 4,
        text: String::from("good"),
    };
    let r = core.write_review(&String::from("alice"), &review, NOW);
    assert!(matches!(r, ReviewOutcome::Written));
    let reviews = core.get_reviews(&String::from("editor"));
    assert_eq!(reviews.len(), 1);
    assert_eq!(reviews[0].user_name, "alice");
    assert_eq!(reviews[0].score, 4);
    assert_eq!(reviews[0].text, "good");
    assert_eq!(reviews[0].timestamp, NOW);
}

#[test]
fn later_review_replaces_the_reviewers_earlier_one() {
    // The upsert is keyed on the writing user's name alone: a review of a
    // second application replaces the review of the first.
    let mut core = fresh_core();
    assert!(core.insert_app(sample_app("editor", &["tools"])));
    assert!(core.insert_app(sample_app("game", &["fun"])));
    let first = ReviewData {
        app_id: String::from("editor"),
        score: 4,
        text: String::from("good"),
    };
    let second = ReviewData {
        app_id: String::from("game"),
        score: 2,
        text: String::from("meh"),
    };
    core.write_review(&String::from("alice"), &first, NOW);
    core.write_review(&String::from("alice"), &second, NOW + 10);
    assert!(core.get_reviews(&String::from("editor")).is_empty());
    let reviews = core.get_reviews(&String::from("game"));
    assert_eq!(reviews.len(), 1);
    assert_eq!(reviews[0].score, 2);
    assert_eq!(reviews[0].timestamp, NOW + 10);
}

#[test]
fn rating_is_the_exact_mean_of_the_scores() {
    let mut core = fresh_core();
    assert!(core.insert_app(sample_app("editor", &["tools"])));
    for (who, score) in [("alice", 3), ("bob", 4), ("carol", 5)] {
        let review = ReviewData {
            app_id: String::from("editor"),
            score,
            text: String::from("fine"),
        };
        let r = core.write_review(&String::from(who), &review, NOW);
        assert!(matches!(r, ReviewOutcome::Written));
    }
    match core.get_rating(&String::from("editor")) {
        RatingOutcome::Rated(rating) => {
            assert_eq!(rating.sum, 12);
            assert_eq!(rating.count, 3);
            assert_eq!(rating.sum as f64 / rating.count as f64, 4.0);
        }
        RatingOutcome::NoReviews => panic!("expected a rating"),
    }
}

#[test]
fn no_reviews_is_no_rating_not_zero() {
    let mut core = fresh_core();
    assert!(core.insert_app(sample_app("editor", &["tools"])));
    assert!(matches!(
        core.get_rating(&String::from("editor")),
        RatingOutcome::NoReviews
    ));
}

#[test]
fn adding_a_missing_app_leaves_the_library_alone() {
    let mut core = fresh_core();
    signup_ok(&mut core, "alice", "opensesame");
    let r = core.add_app_to_personal_library(
        &String::from("alice"),
        &String::from("nonexistent-app"),
    );
    assert!(matches!(r, AddOutcome::AppNotFound));
    match core.get_personal_library(&String::from("alice")) {
        LibraryOutcome::Apps(apps) => assert!(apps.is_empty()),
        LibraryOutcome::UserNotFound => panic!("the library was created at signup"),
    }
}

#[test]
fn library_keeps_duplicates_in_insertion_order() {
    let mut core = fresh_core();
    signup_ok(&mut core, "alice", "opensesame");
    assert!(core.insert_app(sample_app("editor", &["tools"])));
    assert!(core.insert_app(sample_app("game", &["fun"])));
    let alice = String::from("alice");
    let editor = String::from("editor");
    let game = String::from("game");
    assert!(matches!(core.add_app_to_personal_library(&alice, &editor), AddOutcome::Added));
    assert!(matches!(core.add_app_to_personal_library(&alice, &game), AddOutcome::Added));
    assert!(matches!(core.add_app_to_personal_library(&alice, &editor), AddOutcome::Added));
    match core.get_personal_library(&alice) {
        LibraryOutcome::Apps(apps) => {
            assert_eq!(apps, vec![
                String::from("editor"),
                String::from("game"),
                String::from("editor")
            ]);
        }
        LibraryOutcome::UserNotFound => panic!("the library was created at signup"),
    }
}

#[test]
fn one_removal_clears_both_duplicate_entries() {
    let mut core = fresh_core();
    signup_ok(&mut core, "alice", "opensesame");
    assert!(core.insert_app(sample_app("editor", &["tools"])));
    assert!(core.insert_app(sample_app("game", &["fun"])));
    let alice = String::from("alice");
    let editor = String::from("editor");
    let game = String::from("game");
    core.add_app_to_personal_library(&alice, &editor);
    core.add_app_to_personal_library(&alice, &game);
    core.add_app_to_personal_library(&alice, &editor);
    let r = core.delete_app_from_personal_library(&alice, &editor);
    assert!(matches!(r, RemoveOutcome::Removed));
    match core.get_personal_library(&alice) {
        LibraryOutcome::Apps(apps) => assert_eq!(apps, vec![String::from("game")]),
        LibraryOutcome::UserNotFound => panic!("the library was created at signup"),
    }
}

#[test]
fn removal_for_unknown_owner_still_reports_removed() {
    let mut core = fresh_core();
    let r = core.delete_app_from_personal_library(
        &String::from("nobody"),
        &String::from("editor"),
    );
    assert!(matches!(r, RemoveOutcome::Removed));
}

#[test]
fn library_of_unknown_owner_is_not_found() {
    let core = fresh_core();
    assert!(matches!(
        core.get_personal_library(&String::from("nobody")),
        LibraryOutcome::UserNotFound
    ));
}

#[test]
fn core_hash_appends_the_salt() {
    let core = fresh_core();
    assert_eq!(
        core.hash("abc"),
        osma::hashing::digest_with_salt("abc", "pepper")
    );
}

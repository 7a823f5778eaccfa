use osma::outcome::{
    AddOutcome, ChangePasswordOutcome, Code, RatingOutcome, RemoveOutcome, ReviewOutcome,
    SigninOutcome, SignupOutcome, UpdateProfileOutcome, Rating,
};

#[test]
fn codes_map_to_the_transport_statuses() {
    assert_eq!(osma::outcome::status_of(Code::Success), 200);
    assert_eq!(osma::outcome::status_of(Code::SuccessBody), 200);
    assert_eq!(osma::outcome::status_of(Code::Denied), 403);
    assert_eq!(osma::outcome::status_of(Code::Failure), 500);
}

#[test]
fn signup_outcomes_carry_their_codes() {
    let created = SignupOutcome::Created { token: String::from("t") };
    assert_eq!(created.code(), Code::Success);
    assert_eq!(SignupOutcome::DuplicateName.code(), Code::Denied);
    assert_eq!(SignupOutcome::SigningError.code(), Code::Failure);
}

#[test]
fn signin_outcomes_carry_their_codes() {
    let signed_in = SigninOutcome::SignedIn { token: String::from("t") };
    assert_eq!(signed_in.code(), Code::Success);
    assert_eq!(SigninOutcome::WrongPassword.code(), Code::Denied);
    assert_eq!(SigninOutcome::UserNotFound.code(), Code::Denied);
    assert_eq!(SigninOutcome::SigningError.code(), Code::Failure);
}

#[test]
fn mutation_outcomes_carry_their_codes() {
    assert_eq!(ChangePasswordOutcome::Updated.code(), Code::Success);
    assert_eq!(ChangePasswordOutcome::WrongPassword.code(), Code::Denied);
    assert_eq!(ChangePasswordOutcome::UserNotFound.code(), Code::Failure);
    assert_eq!(UpdateProfileOutcome::Updated.code(), Code::Success);
    assert_eq!(ReviewOutcome::Written.code(), Code::Success);
    assert_eq!(ReviewOutcome::AppNotFound.code(), Code::Denied);
    assert_eq!(AddOutcome::Added.code(), Code::Success);
    assert_eq!(AddOutcome::AppNotFound.code(), Code::Denied);
    assert_eq!(RemoveOutcome::Removed.code(), Code::Success);
}

#[test]
fn aggregate_outcomes_carry_their_codes() {
    let rated = RatingOutcome::Rated(Rating { sum: 12, count: 3 });
    assert_eq!(rated.code(), Code::SuccessBody);
    assert_eq!(RatingOutcome::NoReviews.code(), Code::Denied);
}

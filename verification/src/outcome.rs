//! Tagged outcomes of each operation and their mapping to transport status.
//!
//! Every service operation returns one closed outcome set; the single
//! boundary point renders an outcome as a transport status: a success
//! envelope and a bare success body both map to 200, a business-rule denial
//! to 403, and everything else — infrastructure or signing failure — to 500.
use crate::types::{App, AppVersion};
use vstd::prelude::*;

verus! {

/// The generic outcome codes emitted internally.
#[derive(Clone, Copy, PartialEq, Eq, Structural, Debug)]
pub enum Code {
    /// Success, rendered inside an envelope.
    Success,
    /// Success, rendered as the bare payload.
    SuccessBody,
    /// A business-rule denial.
    Denied,
    /// An infrastructure or signing failure, detail not exposed.
    Failure,
}

/// The transport status a code is rendered as.
pub open spec fn spec_status_of(c: Code) -> int {
    match c {
        Code::Success => 200,
        Code::SuccessBody => 200,
        Code::Denied => 403,
        Code::Failure => 500,
    }
}

/// Renders an outcome code as its transport status.
pub fn status_of(c: Code) -> (s: u16)
    ensures
        s == spec_status_of(c),
{
    match c {
        Code::Success => 200,
        Code::SuccessBody => 200,
        Code::Denied => 403,
        Code::Failure => 500,
    }
}

/// Outcome of registering an account.
#[derive(Debug)]
pub enum SignupOutcome {
    /// The account and its empty personal library were created; the session
    /// token is returned.
    Created { token: String },
    /// An account with this name already exists; nothing changed.
    DuplicateName,
    /// The signing call produced no token; nothing changed. Minting with an
    /// HMAC secret always succeeds, so registration never returns this; the
    /// variant keeps the outcome set closed over the failure taxonomy.
    SigningError,
}

impl SignupOutcome {
    pub open spec fn spec_code(&self) -> Code {
        match self {
            SignupOutcome::Created { .. } => Code::Success,
            SignupOutcome::DuplicateName => Code::Denied,
            SignupOutcome::SigningError => Code::Failure,
        }
    }

    pub fn code(&self) -> (c: Code)
        ensures
            c == self.spec_code(),
    {
        match self {
            SignupOutcome::Created { .. } => Code::Success,
            SignupOutcome::DuplicateName => Code::Denied,
            SignupOutcome::SigningError => Code::Failure,
        }
    }
}

/// Outcome of authenticating.
#[derive(Debug)]
pub enum SigninOutcome {
    /// The supplied password matches the stored digest; a session token is
    /// returned.
    SignedIn { token: String },
    /// The account exists but the supplied password does not match.
    WrongPassword,
    /// No account with this name exists.
    UserNotFound,
    /// The signing call produced no token. Minting with an HMAC secret
    /// always succeeds, so authentication never returns this; the variant
    /// keeps the outcome set closed over the failure taxonomy.
    SigningError,
}

impl SigninOutcome {
    pub open spec fn spec_code(&self) -> Code {
        match self {
            SigninOutcome::SignedIn { .. } => Code::Success,
            SigninOutcome::WrongPassword => Code::Denied,
            SigninOutcome::UserNotFound => Code::Denied,
            SigninOutcome::SigningError => Code::Failure,
        }
    }

    pub fn code(&self) -> (c: Code)
        ensures
            c == self.spec_code(),
    {
        match self {
            SigninOutcome::SignedIn { .. } => Code::Success,
            SigninOutcome::WrongPassword => Code::Denied,
            SigninOutcome::UserNotFound => Code::Denied,
            SigninOutcome::SigningError => Code::Failure,
        }
    }
}

/// Outcome of changing a password.
#[derive(Clone, Copy, PartialEq, Eq, Structural, Debug)]
pub enum ChangePasswordOutcome {
    /// The caller proved knowledge of the old password; the digest of the
    /// new one is now stored.
    Updated,
    /// The supplied old password does not match the stored digest; nothing
    /// changed.
    WrongPassword,
    /// No account with this name exists; nothing changed.
    UserNotFound,
}

impl ChangePasswordOutcome {
    pub open spec fn spec_code(&self) -> Code {
        match self {
            ChangePasswordOutcome::Updated => Code::Success,
            ChangePasswordOutcome::WrongPassword => Code::Denied,
            ChangePasswordOutcome::UserNotFound => Code::Failure,
        }
    }

    pub fn code(&self) -> (c: Code)
        ensures
            c == self.spec_code(),
    {
        match self {
            ChangePasswordOutcome::Updated => Code::Success,
            ChangePasswordOutcome::WrongPassword => Code::Denied,
            ChangePasswordOutcome::UserNotFound => Code::Failure,
        }
    }
}

/// Outcome of an unconditional profile overwrite.
#[derive(Clone, Copy, PartialEq, Eq, Structural, Debug)]
pub enum UpdateProfileOutcome {
    /// The stored address and image were overwritten (a missing account
    /// leaves the store unchanged but is not reported).
    Updated,
}

impl UpdateProfileOutcome {
    pub open spec fn spec_code(&self) -> Code {
        Code::Success
    }

    pub fn code(&self) -> (c: Code)
        ensures
            c == self.spec_code(),
    {
        Code::Success
    }
}

/// Outcome of writing a review.
#[derive(Clone, Copy, PartialEq, Eq, Structural, Debug)]
pub enum ReviewOutcome {
    /// The review was written, replacing any earlier review by the same
    /// author.
    Written,
    /// The named application does not exist; nothing changed.
    AppNotFound,
}

impl ReviewOutcome {
    pub open spec fn spec_code(&self) -> Code {
        match self {
            ReviewOutcome::Written => Code::Success,
            ReviewOutcome::AppNotFound => Code::Denied,
        }
    }

    pub fn code(&self) -> (c: Code)
        ensures
            c == self.spec_code(),
    {
        match self {
            ReviewOutcome::Written => Code::Success,
            ReviewOutcome::AppNotFound => Code::Denied,
        }
    }
}

/// Outcome of adding an application to a personal library.
#[derive(Clone, Copy, PartialEq, Eq, Structural, Debug)]
pub enum AddOutcome {
    /// The id was appended to the owner's library (an owner without a
    /// library record is left unchanged but not reported).
    Added,
    /// The named application does not exist; no library changed.
    AppNotFound,
}

impl AddOutcome {
    pub open spec fn spec_code(&self) -> Code {
        match self {
            AddOutcome::Added => Code::Success,
            AddOutcome::AppNotFound => Code::Denied,
        }
    }

    pub fn code(&self) -> (c: Code)
        ensures
            c == self.spec_code(),
    {
        match self {
            AddOutcome::Added => Code::Success,
            AddOutcome::AppNotFound => Code::Denied,
        }
    }
}

/// Outcome of removing an application from a personal library.
#[derive(Clone, Copy, PartialEq, Eq, Structural, Debug)]
pub enum RemoveOutcome {
    /// Every occurrence of the id was removed from the owner's library.
    Removed,
}

impl RemoveOutcome {
    pub open spec fn spec_code(&self) -> Code {
        Code::Success
    }

    pub fn code(&self) -> (c: Code)
        ensures
            c == self.spec_code(),
    {
        Code::Success
    }
}

/// Outcome of reading one application.
#[derive(Debug)]
pub enum AppOutcome {
    /// The catalog entry with the requested id.
    Found(App),
    /// No application with this id exists.
    AppNotFound,
}

impl AppOutcome {
    pub open spec fn spec_code(&self) -> Code {
        match self {
            AppOutcome::Found(..) => Code::SuccessBody,
            AppOutcome::AppNotFound => Code::Denied,
        }
    }

    pub fn code(&self) -> (c: Code)
        ensures
            c == self.spec_code(),
    {
        match self {
            AppOutcome::Found(..) => Code::SuccessBody,
            AppOutcome::AppNotFound => Code::Denied,
        }
    }
}

/// Outcome of listing a personal library.
#[derive(Debug)]
pub enum LibraryOutcome {
    /// The application ids in the owner's library, in insertion order.
    Apps(Vec<String>),
    /// No library record exists for this owner.
    UserNotFound,
}

impl LibraryOutcome {
    pub open spec fn spec_code(&self) -> Code {
        match self {
            LibraryOutcome::Apps(..) => Code::SuccessBody,
            LibraryOutcome::UserNotFound => Code::Denied,
        }
    }

    pub fn code(&self) -> (c: Code)
        ensures
            c == self.spec_code(),
    {
        match self {
            LibraryOutcome::Apps(..) => Code::SuccessBody,
            LibraryOutcome::UserNotFound => Code::Denied,
        }
    }
}

/// The exact mean rating of an application, as a rational: the sum of the
/// scores over how many reviews carry them.
#[derive(Clone, Copy, PartialEq, Eq, Structural, Debug)]
pub struct Rating {
    pub sum: i128,
    pub count: usize,
}

/// Outcome of aggregating the reviews of one application.
#[derive(Clone, Copy, PartialEq, Eq, Structural, Debug)]
pub enum RatingOutcome {
    /// At least one review names the application; the mean of the scores is
    /// `sum / count`.
    Rated(Rating),
    /// No review names the application. Deliberately distinct from a zero
    /// score: absence of a rating is not a rating.
    NoReviews,
}

impl RatingOutcome {
    pub open spec fn spec_code(&self) -> Code {
        match self {
            RatingOutcome::Rated(..) => Code::SuccessBody,
            RatingOutcome::NoReviews => Code::Denied,
        }
    }

    pub fn code(&self) -> (c: Code)
        ensures
            c == self.spec_code(),
    {
        match self {
            RatingOutcome::Rated(..) => Code::SuccessBody,
            RatingOutcome::NoReviews => Code::Denied,
        }
    }
}

/// Outcome of asking for the newest version of an application.
#[derive(Debug)]
pub enum LatestVersionOutcome {
    /// A version record with the greatest timestamp among this
    /// application's versions.
    Latest(AppVersion),
    /// The application has no version records.
    NoVersions,
}

impl LatestVersionOutcome {
    pub open spec fn spec_code(&self) -> Code {
        match self {
            LatestVersionOutcome::Latest(..) => Code::SuccessBody,
            LatestVersionOutcome::NoVersions => Code::Denied,
        }
    }

    pub fn code(&self) -> (c: Code)
        ensures
            c == self.spec_code(),
    {
        match self {
            LatestVersionOutcome::Latest(..) => Code::SuccessBody,
            LatestVersionOutcome::NoVersions => Code::Denied,
        }
    }
}

} // verus!

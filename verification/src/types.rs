//! Record types of the marketplace core and their mathematical views.
use vstd::prelude::*;

verus! {

/// A role a stored account can hold.
#[derive(Clone, Copy, PartialEq, Eq, Structural, Debug)]
pub enum Role {
    User,
    Admin,
}

impl Role {
    /// The role name carried in stored records and token claims.
    pub open spec fn spec_str(self) -> Seq<char> {
        match self {
            Role::User => "user"@,
            Role::Admin => "admin"@,
        }
    }

    pub fn as_str(self) -> (r: &'static str)
        ensures
            r@ == self.spec_str(),
    {
        match self {
            Role::User => "user",
            Role::Admin => "admin",
        }
    }
}

/// A catalog entry: one published application.
#[derive(Debug)]
pub struct App {
    pub app_id: String,
    pub name: String,
    pub description: String,
    pub version: String,
    pub platform: String,
    pub tags: Vec<String>,
}

#[verifier::ext_equal]
pub ghost struct AppView {
    pub app_id: Seq<char>,
    pub name: Seq<char>,
    pub description: Seq<char>,
    pub version: Seq<char>,
    pub platform: Seq<char>,
    pub tags: Seq<Seq<char>>,
}

impl DeepView for App {
    type V = AppView;

    open spec fn deep_view(&self) -> AppView {
        AppView {
            app_id: self.app_id@,
            name: self.name@,
            description: self.description@,
            version: self.version@,
            platform: self.platform@,
            tags: self.tags.deep_view(),
        }
    }
}

impl Clone for App {
    fn clone(&self) -> (r: App)
        ensures
            r.deep_view() == self.deep_view(),
    {
        let r = App {
            app_id: self.app_id.clone(),
            name: self.name.clone(),
            description: self.description.clone(),
            version: self.version.clone(),
            platform: self.platform.clone(),
            tags: self.tags.clone(),
        };
        proof {
            assert(r.tags.deep_view() =~= self.tags.deep_view());
            assert(r.deep_view() =~= self.deep_view());
        }
        r
    }
}

/// One published version of an application, stamped with its release time.
#[derive(Debug)]
pub struct AppVersion {
    pub app_id: String,
    pub version: String,
    pub timestamp: i64,
}

#[verifier::ext_equal]
pub ghost struct AppVersionView {
    pub app_id: Seq<char>,
    pub version: Seq<char>,
    pub timestamp: int,
}

impl DeepView for AppVersion {
    type V = AppVersionView;

    open spec fn deep_view(&self) -> AppVersionView {
        AppVersionView {
            app_id: self.app_id@,
            version: self.version@,
            timestamp: self.timestamp as int,
        }
    }
}

impl Clone for AppVersion {
    fn clone(&self) -> (r: AppVersion)
        ensures
            r == *self,
    {
        AppVersion {
            app_id: self.app_id.clone(),
            version: self.version.clone(),
            timestamp: self.timestamp,
        }
    }
}

/// A stored user account. The password is held only as a salted digest.
#[derive(Debug)]
pub struct StoredUser {
    pub name: String,
    pub password_hash: String,
    pub email: String,
    pub img: String,
    pub role: Role,
}

#[verifier::ext_equal]
pub ghost struct StoredUserView {
    pub name: Seq<char>,
    pub password_hash: Seq<char>,
    pub email: Seq<char>,
    pub img: Seq<char>,
    pub role: Role,
}

impl DeepView for StoredUser {
    type V = StoredUserView;

    open spec fn deep_view(&self) -> StoredUserView {
        StoredUserView {
            name: self.name@,
            password_hash: self.password_hash@,
            email: self.email@,
            img: self.img@,
            role: self.role,
        }
    }
}

/// A stored review. At most one is kept per user: the write path matches
/// on the writing user's name alone, so a later review replaces the earlier
/// one whatever application it speaks of.
#[derive(Debug)]
pub struct Review {
    pub user_name: String,
    pub app_id: String,
    pub score: i32,
    pub text: String,
    pub timestamp: i64,
}

#[verifier::ext_equal]
pub ghost struct ReviewView {
    pub user_name: Seq<char>,
    pub app_id: Seq<char>,
    pub score: int,
    pub text: Seq<char>,
    pub timestamp: int,
}

impl DeepView for Review {
    type V = ReviewView;

    open spec fn deep_view(&self) -> ReviewView {
        ReviewView {
            user_name: self.user_name@,
            app_id: self.app_id@,
            score: self.score as int,
            text: self.text@,
            timestamp: self.timestamp as int,
        }
    }
}

impl Clone for Review {
    fn clone(&self) -> (r: Review)
        ensures
            r == *self,
    {
        Review {
            user_name: self.user_name.clone(),
            app_id: self.app_id.clone(),
            score: self.score,
            text: self.text.clone(),
            timestamp: self.timestamp,
        }
    }
}

/// One user's personal library: the application ids added to it, duplicates
/// kept as they were added.
#[derive(Debug)]
pub struct PersonalLibrary {
    pub name: String,
    pub apps: Vec<String>,
}

#[verifier::ext_equal]
pub ghost struct PersonalLibraryView {
    pub name: Seq<char>,
    pub apps: Seq<Seq<char>>,
}

impl DeepView for PersonalLibrary {
    type V = PersonalLibraryView;

    open spec fn deep_view(&self) -> PersonalLibraryView {
        PersonalLibraryView { name: self.name@, apps: self.apps.deep_view() }
    }
}

/// A signup request: name, plaintext password, contact address.
#[derive(Debug)]
pub struct User {
    pub name: String,
    pub password: String,
    pub email: String,
}

/// A signin request.
#[derive(Debug)]
pub struct UserAuth {
    pub name: String,
    pub password: String,
}

/// The claims carried by a session token: who, with which role, until when
/// (unix seconds).
#[derive(Debug)]
pub struct JwtInfo {
    pub name: String,
    pub role: String,
    pub exp: i64,
}

impl DeepView for JwtInfo {
    type V = (Seq<char>, Seq<char>, int);

    open spec fn deep_view(&self) -> (Seq<char>, Seq<char>, int) {
        (self.name@, self.role@, self.exp as int)
    }
}

impl Clone for JwtInfo {
    fn clone(&self) -> (r: JwtInfo)
        ensures
            r == *self,
    {
        JwtInfo { name: self.name.clone(), role: self.role.clone(), exp: self.exp }
    }
}

/// A profile update: the new contact address and image reference.
#[derive(Debug)]
pub struct UserData {
    pub email: String,
    pub img: String,
}

/// A review submission.
#[derive(Debug)]
pub struct ReviewData {
    pub app_id: String,
    pub score: i32,
    pub text: String,
}

/// A password change request.
#[derive(Debug)]
pub struct PasswordsInf {
    pub old_password: String,
    pub new_password: String,
}

/// A request naming one application.
#[derive(Debug)]
pub struct AppInfo {
    pub app_id: String,
}

/// A tag filter: applications carrying any of these tags are selected.
#[derive(Debug)]
pub struct AppTags {
    pub tags: Vec<String>,
}

} // verus!

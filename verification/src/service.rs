//! The marketplace core: account lifecycle, catalog reads and aggregation,
//! review upsert and personal-library membership, over the store model.
//!
//! The store itself is per-document: every operation touches one record,
//! and concurrent writers to the same record race read-then-write with
//! last-write-wins semantics — no compare-and-swap is provided.
use crate::hashing::digest_with_salt;
use crate::hashing::salted_digest;
use crate::outcome::{
    AddOutcome, AppOutcome, ChangePasswordOutcome, LatestVersionOutcome, LibraryOutcome, Rating,
    RatingOutcome, RemoveOutcome, ReviewOutcome, SigninOutcome, SignupOutcome,
    UpdateProfileOutcome,
};
use crate::store::{
    app_index, app_named, apps_with_any_tag, authenticate_ok, has_app, has_library,
    has_review_by, has_user, is_review_for, is_version_for, keeps_app_id, lemma_app_index_is,
    lemma_library_index_is, lemma_review_index_is, lemma_user_index_is, lemma_versions_for_sorted, lemma_wf_after_app_push,
    lemma_wf_after_library_update, lemma_wf_after_library_intake,
    lemma_wf_after_review_write, lemma_wf_after_signup, lemma_wf_after_user_intake,
    lemma_wf_after_user_update, lemma_wf_after_version_insert, lib_push, lib_without,
    library_index, library_named, review_index, reviews_for, score_sum, shares_any_tag,
    shares_tag, signup_user, unique_app_ids, unique_library_names, unique_review_owners,
    unique_user_names, user_index, user_named, versions_for, versions_sorted, wf, with_password,
    with_profile, StoreView,
};
use crate::token::{jwt_payload, mint};
use crate::types::{
    App, AppTags, AppVersion, PersonalLibrary, PersonalLibraryView, Review, ReviewData,
    ReviewView, Role, StoredUser, User, UserData,
};
use vstd::prelude::*;

verus! {

/// Whether the sequence holds this exact string.
fn vec_contains(v: &Vec<String>, s: &String) -> (r: bool)
    ensures
        r == v.deep_view().contains(s@),
{
    let n = v.len();
    for i in 0..n
        invariant
            n == v.len(),
            forall|k: int| 0 <= k < i ==> v.deep_view()[k] != s@,
    {
        if v[i] == *s {
            proof {
                assert(v.deep_view()[i as int] == s@);
            }
            return true;
        }
    }
    proof {
        assert(!v.deep_view().contains(s@));
    }
    false
}

/// Whether the entry carries at least one of the given tags — the
/// membership test tag filtering selects with.
fn app_shares_tag(a: &App, tags: &Vec<String>) -> (r: bool)
    ensures
        r == shares_tag(a.deep_view(), tags.deep_view()),
{
    let n = a.tags.len();
    for i in 0..n
        invariant
            n == a.tags.len(),
            forall|k: int| 0 <= k < i ==> !tags.deep_view().contains(a.deep_view().tags[k]),
    {
        if vec_contains(tags, &a.tags[i]) {
            proof {
                assert(tags.deep_view().contains(a.deep_view().tags[i as int]));
            }
            return true;
        }
    }
    false
}

/// The marketplace core: the store's collections together with the
/// process-wide configuration — signing secret and hash salt — injected
/// once at construction and never mutated.
pub struct Core {
    users: Vec<StoredUser>,
    apps: Vec<App>,
    apps_versions: Vec<AppVersion>,
    reviews: Vec<Review>,
    personal_libraries: Vec<PersonalLibrary>,
    jwt_secret: String,
    salt: String,
}

impl View for Core {
    type V = StoreView;

    closed spec fn view(&self) -> StoreView {
        StoreView {
            users: self.users.deep_view(),
            apps: self.apps.deep_view(),
            versions: self.apps_versions.deep_view(),
            reviews: self.reviews.deep_view(),
            libraries: self.personal_libraries.deep_view(),
        }
    }
}

impl Core {
    pub closed spec fn spec_salt(&self) -> Seq<char> {
        self.salt@
    }

    pub closed spec fn spec_jwt_secret(&self) -> Seq<char> {
        self.jwt_secret@
    }

    /// The store is well formed and the configuration is as given.
    pub open spec fn wf(&self) -> bool {
        wf(self@)
    }

    /// The configuration an operation leaves untouched.
    pub open spec fn same_config(&self, other: &Core) -> bool {
        self.spec_salt() == other.spec_salt() && self.spec_jwt_secret() == other.spec_jwt_secret()
    }

    /// Builds an empty core around the injected configuration.
    pub fn new(jwt_secret: String, salt: String) -> (r: Core)
        ensures
            r.wf(),
            r@ == (StoreView {
                users: Seq::empty(),
                apps: Seq::empty(),
                versions: Seq::empty(),
                reviews: Seq::empty(),
                libraries: Seq::empty(),
            }),
            r.spec_jwt_secret() == jwt_secret@,
            r.spec_salt() == salt@,
    {
        let r = Core {
            users: Vec::new(),
            apps: Vec::new(),
            apps_versions: Vec::new(),
            reviews: Vec::new(),
            personal_libraries: Vec::new(),
            jwt_secret,
            salt,
        };
        proof {
            assert(r@ =~= (StoreView {
                users: Seq::empty(),
                apps: Seq::empty(),
                versions: Seq::empty(),
                reviews: Seq::empty(),
                libraries: Seq::empty(),
            }));
        }
        r
    }

    /// The salted digest under which credentials are stored and compared:
    /// 64 lowercase hex digits.
    pub fn hash(&self, to_hash: &str) -> (r: String)
        ensures
            r@ == salted_digest(to_hash@, self.spec_salt()),
            r@.len() == 64,
    {
        digest_with_salt(to_hash, self.salt.as_str())
    }

    /// The digest of `name` followed by `password`: what signup stores and
    /// what authentication recomputes.
    fn credential_digest(&self, name: &String, password: &String) -> (r: String)
        ensures
            r@ == salted_digest(name@ + password@, self.spec_salt()),
    {
        let mut joined = name.clone();
        joined.append(password.as_str());
        self.hash(joined.as_str())
    }

    fn find_user(&self, name: &String) -> (r: Option<usize>)
        requires
            unique_user_names(self@.users),
        ensures
            match r {
                Some(i) => has_user(self@.users, name@) && user_index(self@.users, name@)
                    == i as int,
                None => !has_user(self@.users, name@),
            },
    {
        let n = self.users.len();
        for i in 0..n
            invariant
                n == self.users.len(),
                unique_user_names(self@.users),
                forall|k: int| 0 <= k < i ==> self@.users[k].name != name@,
        {
            if self.users[i].name == *name {
                proof {
                    lemma_user_index_is(self@.users, name@, i as int);
                }
                return Some(i);
            }
        }
        None
    }

    fn find_app(&self, app_id: &String) -> (r: Option<usize>)
        requires
            unique_app_ids(self@.apps),
        ensures
            match r {
                Some(i) => has_app(self@.apps, app_id@) && app_index(self@.apps, app_id@)
                    == i as int,
                None => !has_app(self@.apps, app_id@),
            },
    {
        let n = self.apps.len();
        for i in 0..n
            invariant
                n == self.apps.len(),
                unique_app_ids(self@.apps),
                forall|k: int| 0 <= k < i ==> self@.apps[k].app_id != app_id@,
        {
            if self.apps[i].app_id == *app_id {
                proof {
                    lemma_app_index_is(self@.apps, app_id@, i as int);
                }
                return Some(i);
            }
        }
        None
    }

    fn find_library(&self, name: &String) -> (r: Option<usize>)
        requires
            unique_library_names(self@.libraries),
        ensures
            match r {
                Some(i) => has_library(self@.libraries, name@) && library_index(
                    self@.libraries,
                    name@,
                ) == i as int,
                None => !has_library(self@.libraries, name@),
            },
    {
        let n = self.personal_libraries.len();
        for i in 0..n
            invariant
                n == self.personal_libraries.len(),
                unique_library_names(self@.libraries),
                forall|k: int| 0 <= k < i ==> self@.libraries[k].name != name@,
        {
            if self.personal_libraries[i].name == *name {
                proof {
                    lemma_library_index_is(self@.libraries, name@, i as int);
                }
                return Some(i);
            }
        }
        None
    }

    fn find_review(&self, user_name: &String) -> (r: Option<usize>)
        requires
            unique_review_owners(self@.reviews),
        ensures
            match r {
                Some(i) => has_review_by(self@.reviews, user_name@) && review_index(
                    self@.reviews,
                    user_name@,
                ) == i as int,
                None => !has_review_by(self@.reviews, user_name@),
            },
    {
        let n = self.reviews.len();
        for i in 0..n
            invariant
                n == self.reviews.len(),
                unique_review_owners(self@.reviews),
                forall|k: int| 0 <= k < i ==> self@.reviews[k].user_name != user_name@,
        {
            if self.reviews[i].user_name == *user_name {
                proof {
                    lemma_review_index_is(self@.reviews, user_name@, i as int);
                }
                return Some(i);
            }
        }
        None
    }

    fn create_personal_library(&mut self, name: &String)
        ensures
            final(self)@.libraries == old(self)@.libraries.push(
                (PersonalLibraryView { name: name@, apps: Seq::empty() }),
            ),
            final(self)@.users == old(self)@.users,
            final(self)@.apps == old(self)@.apps,
            final(self)@.versions == old(self)@.versions,
            final(self)@.reviews == old(self)@.reviews,
            final(self).same_config(old(self)),
    {
        self.personal_libraries.push(PersonalLibrary { name: name.clone(), apps: Vec::new() });
        proof {
            assert(self@.libraries =~~= old(self)@.libraries.push(
                (PersonalLibraryView { name: name@, apps: Seq::empty() }),
            ));
        }
    }

    /// Registers an account: mints its first session token, refuses a taken
    /// name, and otherwise creates the account — role `user`, salted
    /// credential digest — together with its empty personal library.
    pub fn signup(&mut self, user: &User, now: i64) -> (r: SignupOutcome)
        requires
            old(self).wf(),
            now <= i64::MAX - 604800,
        ensures
            final(self).wf(),
            final(self).same_config(old(self)),
            !has_user(old(self)@.users, user.name@) ==> r is Created,
            has_user(old(self)@.users, user.name@) ==> r is DuplicateName,
            match r {
                SignupOutcome::Created { token } => {
                    &&& !has_user(old(self)@.users, user.name@)
                    &&& final(self)@.users == old(self)@.users.push(
                        signup_user(
                            user.name@,
                            user.password@,
                            user.email@,
                            old(self).spec_salt(),
                        ),
                    )
                    &&& final(self)@.libraries == old(self)@.libraries.push(
                        (PersonalLibraryView { name: user.name@, apps: Seq::empty() }),
                    )
                    &&& final(self)@.apps == old(self)@.apps
                    &&& final(self)@.versions == old(self)@.versions
                    &&& final(self)@.reviews == old(self)@.reviews
                    &&& jwt_payload(token@, old(self).spec_jwt_secret()) == Some(
                        (user.name@, Role::User.spec_str(), now as int + 604800),
                    )
                },
                SignupOutcome::DuplicateName => has_user(old(self)@.users, user.name@)
                    && final(self)@ == old(self)@,
                SignupOutcome::SigningError => final(self)@ == old(self)@,
            },
    {
        match mint(user.name.as_str(), Role::User.as_str(), now, self.jwt_secret.as_str()) {
            None => SignupOutcome::SigningError,
            Some(token) => {
                match self.find_user(&user.name) {
                    Some(_) => SignupOutcome::DuplicateName,
                    None => {
                        let digest = self.credential_digest(&user.name, &user.password);
                        let su = StoredUser {
                            name: user.name.clone(),
                            password_hash: digest,
                            email: user.email.clone(),
                            img: String::new(),
                            role: Role::User,
                        };
                        let ghost suv = su.deep_view();
                        proof {
                            assert(suv =~= signup_user(
                                user.name@,
                                user.password@,
                                user.email@,
                                old(self).spec_salt(),
                            ));
                        }
                        self.users.push(su);
                        proof {
                            assert(self@.users =~~= old(self)@.users.push(suv));
                        }
                        self.create_personal_library(&user.name);
                        proof {
                            lemma_wf_after_signup(
                                old(self)@,
                                self@,
                                suv,
                                (PersonalLibraryView { name: user.name@, apps: Seq::empty() }),
                            );
                        }
                        SignupOutcome::Created { token }
                    },
                }
            },
        }
    }

    /// Overwrites the stored password digest, provided the caller proves
    /// knowledge of the old password; an account that does not exist is
    /// reported as such.
    pub fn change_password(
        &mut self,
        name: &String,
        old_password: &String,
        new_password: &String,
    ) -> (r: ChangePasswordOutcome)
        requires
            old(self).wf(),
        ensures
            final(self).wf(),
            final(self).same_config(old(self)),
            final(self)@.apps == old(self)@.apps,
            final(self)@.versions == old(self)@.versions,
            final(self)@.reviews == old(self)@.reviews,
            final(self)@.libraries == old(self)@.libraries,
            match r {
                ChangePasswordOutcome::Updated => {
                    &&& authenticate_ok(old(self)@, name@, old_password@, old(self).spec_salt())
                    &&& final(self)@.users == old(self)@.users.update(
                        user_index(old(self)@.users, name@),
                        with_password(
                            user_named(old(self)@.users, name@),
                            salted_digest(name@ + new_password@, old(self).spec_salt()),
                        ),
                    )
                },
                ChangePasswordOutcome::WrongPassword => {
                    &&& has_user(old(self)@.users, name@)
                    &&& !authenticate_ok(old(self)@, name@, old_password@, old(self).spec_salt())
                    &&& final(self)@ == old(self)@
                },
                ChangePasswordOutcome::UserNotFound => !has_user(old(self)@.users, name@)
                    && final(self)@ == old(self)@,
            },
    {
        match self.find_user(name) {
            Some(i) => {
                let old_digest = self.credential_digest(name, old_password);
                if old_digest == self.users[i].password_hash {
                    let new_digest = self.credential_digest(name, new_password);
                    let u = &self.users[i];
                    let nu = StoredUser {
                        name: u.name.clone(),
                        password_hash: new_digest,
                        email: u.email.clone(),
                        img: u.img.clone(),
                        role: u.role,
                    };
                    let ghost nuv = nu.deep_view();
                    proof {
                        assert(nuv =~= with_password(
                            user_named(old(self)@.users, name@),
                            salted_digest(name@ + new_password@, old(self).spec_salt()),
                        ));
                    }
                    self.users.set(i, nu);
                    proof {
                        assert(self@.users =~~= old(self)@.users.update(i as int, nuv));
                        lemma_wf_after_user_update(old(self)@, self@, i as int, nuv);
                    }
                    ChangePasswordOutcome::Updated
                } else {
                    ChangePasswordOutcome::WrongPassword
                }
            },
            None => ChangePasswordOutcome::UserNotFound,
        }
    }

    /// Overwrites the stored contact address and image unconditionally: no
    /// prior value is read or merged, and a missing account is not reported.
    pub fn update_user(&mut self, name: &String, info: &UserData) -> (r: UpdateProfileOutcome)
        requires
            old(self).wf(),
        ensures
            final(self).wf(),
            final(self).same_config(old(self)),
            final(self)@.apps == old(self)@.apps,
            final(self)@.versions == old(self)@.versions,
            final(self)@.reviews == old(self)@.reviews,
            final(self)@.libraries == old(self)@.libraries,
            has_user(old(self)@.users, name@) ==> final(self)@.users == old(self)@.users.update(
                user_index(old(self)@.users, name@),
                with_profile(user_named(old(self)@.users, name@), info.email@, info.img@),
            ),
            !has_user(old(self)@.users, name@) ==> final(self)@ == old(self)@,
            r == UpdateProfileOutcome::Updated,
    {
        match self.find_user(name) {
            Some(i) => {
                let u = &self.users[i];
                let nu = StoredUser {
                    name: u.name.clone(),
                    password_hash: u.password_hash.clone(),
                    email: info.email.clone(),
                    img: info.img.clone(),
                    role: u.role,
                };
                let ghost nuv = nu.deep_view();
                proof {
                    assert(nuv =~= with_profile(
                        user_named(old(self)@.users, name@),
                        info.email@,
                        info.img@,
                    ));
                }
                self.users.set(i, nu);
                proof {
                    assert(self@.users =~~= old(self)@.users.update(i as int, nuv));
                    lemma_wf_after_user_update(old(self)@, self@, i as int, nuv);
                }
                UpdateProfileOutcome::Updated
            },
            None => UpdateProfileOutcome::Updated,
        }
    }

    /// Lists the whole catalog.
    pub fn get_apps(&self) -> (r: Vec<App>)
        ensures
            r.deep_view() == self@.apps,
    {
        let r = self.apps.clone();
        proof {
            assert(r.deep_view() =~~= self@.apps);
        }
        r
    }

    /// Reads one catalog entry by its id.
    pub fn get_app(&self, name: &String) -> (r: AppOutcome)
        requires
            self.wf(),
        ensures
            match r {
                AppOutcome::Found(a) => has_app(self@.apps, name@) && a.deep_view() == app_named(
                    self@.apps,
                    name@,
                ),
                AppOutcome::AppNotFound => !has_app(self@.apps, name@),
            },
    {
        match self.find_app(name) {
            Some(i) => AppOutcome::Found(self.apps[i].clone()),
            None => AppOutcome::AppNotFound,
        }
    }

    /// Lists the application ids in one owner's personal library.
    pub fn get_personal_library(&self, name: &String) -> (r: LibraryOutcome)
        requires
            self.wf(),
        ensures
            match r {
                LibraryOutcome::Apps(apps) => has_library(self@.libraries, name@)
                    && apps.deep_view() == library_named(self@.libraries, name@).apps,
                LibraryOutcome::UserNotFound => !has_library(self@.libraries, name@),
            },
    {
        match self.find_library(name) {
            Some(i) => {
                let apps = self.personal_libraries[i].apps.clone();
                proof {
                    assert(apps.deep_view() =~~= library_named(self@.libraries, name@).apps);
                }
                LibraryOutcome::Apps(apps)
            },
            None => LibraryOutcome::UserNotFound,
        }
    }

    /// Lists the reviews naming one application, in storage order.
    pub fn get_reviews(&self, app_id: &String) -> (r: Vec<Review>)
        ensures
            r.deep_view() == reviews_for(self@.reviews, app_id@),
    {
        let mut out: Vec<Review> = Vec::new();
        proof {
            reveal(Seq::filter);
            assert(out.deep_view() =~= self@.reviews.take(0).filter(is_review_for(app_id@)));
        }
        let n = self.reviews.len();
        for i in 0..n
            invariant
                n == self.reviews.len(),
                out.deep_view() == self@.reviews.take(i as int).filter(is_review_for(app_id@)),
        {
            let rv = &self.reviews[i];
            if rv.app_id == *app_id {
                out.push(rv.clone());
            }
            proof {
                reveal(Seq::filter);
                let s = self@.reviews;
                assert(s.take(i + 1).drop_last() =~= s.take(i as int));
                assert(s.take(i + 1).last() == s[i as int]);
                assert(out.deep_view() =~= s.take(i + 1).filter(is_review_for(app_id@)));
            }
        }
        proof {
            assert(self@.reviews.take(n as int) =~= self@.reviews);
        }
        out
    }

    /// Lists the catalog entries carrying at least one of the given tags,
    /// in storage order.
    pub fn get_apps_by_tag(&self, info: &AppTags) -> (r: Vec<App>)
        ensures
            r.deep_view() == apps_with_any_tag(self@.apps, info.tags.deep_view()),
    {
        let mut out: Vec<App> = Vec::new();
        proof {
            reveal(Seq::filter);
            assert(out.deep_view() =~= self@.apps.take(0).filter(
                shares_any_tag(info.tags.deep_view()),
            ));
        }
        let n = self.apps.len();
        for i in 0..n
            invariant
                n == self.apps.len(),
                out.deep_view() == self@.apps.take(i as int).filter(
                    shares_any_tag(info.tags.deep_view()),
                ),
        {
            let a = &self.apps[i];
            if app_shares_tag(a, &info.tags) {
                out.push(a.clone());
            }
            proof {
                reveal(Seq::filter);
                let s = self@.apps;
                assert(s.take(i + 1).drop_last() =~= s.take(i as int));
                assert(s.take(i + 1).last() == s[i as int]);
                assert(out.deep_view() =~= s.take(i + 1).filter(
                    shares_any_tag(info.tags.deep_view()),
                ));
            }
        }
        proof {
            assert(self@.apps.take(n as int) =~= self@.apps);
        }
        out
    }

    /// Lists the version history of one application, newest first.
    pub fn get_versions(&self, app_id: &String) -> (r: Vec<AppVersion>)
        requires
            self.wf(),
        ensures
            r.deep_view() == versions_for(self@.versions, app_id@),
            versions_sorted(r.deep_view()),
    {
        proof {
            lemma_versions_for_sorted(self@.versions, app_id@);
        }
        let mut out: Vec<AppVersion> = Vec::new();
        proof {
            reveal(Seq::filter);
            assert(out.deep_view() =~= self@.versions.take(0).filter(is_version_for(app_id@)));
        }
        let n = self.apps_versions.len();
        for i in 0..n
            invariant
                n == self.apps_versions.len(),
                out.deep_view() == self@.versions.take(i as int).filter(is_version_for(app_id@)),
        {
            let v = &self.apps_versions[i];
            if v.app_id == *app_id {
                out.push(v.clone());
            }
            proof {
                reveal(Seq::filter);
                let s = self@.versions;
                assert(s.take(i + 1).drop_last() =~= s.take(i as int));
                assert(s.take(i + 1).last() == s[i as int]);
                assert(out.deep_view() =~= s.take(i + 1).filter(is_version_for(app_id@)));
            }
        }
        proof {
            assert(self@.versions.take(n as int) =~= self@.versions);
        }
        out
    }

    /// Reads the newest version of one application: a record with the
    /// greatest timestamp among those naming it.
    pub fn get_latest_version(&self, app_id: &String) -> (r: LatestVersionOutcome)
        requires
            self.wf(),
        ensures
            match r {
                LatestVersionOutcome::Latest(v) => {
                    &&& self@.versions.contains(v.deep_view())
                    &&& v.deep_view().app_id == app_id@
                    &&& forall|k: int|
                        0 <= k < self@.versions.len() && self@.versions[k].app_id == app_id@
                            ==> self@.versions[k].timestamp <= v.deep_view().timestamp
                },
                LatestVersionOutcome::NoVersions => forall|k: int|
                    0 <= k < self@.versions.len() ==> self@.versions[k].app_id != app_id@,
            },
    {
        let n = self.apps_versions.len();
        for i in 0..n
            invariant
                n == self.apps_versions.len(),
                self.wf(),
                forall|k: int| 0 <= k < i ==> self@.versions[k].app_id != app_id@,
        {
            let v = &self.apps_versions[i];
            if v.app_id == *app_id {
                let out = v.clone();
                proof {
                    assert(self@.versions[i as int] == out.deep_view());
                    assert forall|k: int|
                        0 <= k < self@.versions.len() && self@.versions[k].app_id
                            == app_id@ implies self@.versions[k].timestamp
                        <= out.deep_view().timestamp by {
                        if k < i {
                            assert(self@.versions[k].app_id != app_id@);
                        } else if k > i {
                            assert(self@.versions[i as int].timestamp
                                >= self@.versions[k].timestamp);
                        }
                    }
                    assert(self@.versions.contains(out.deep_view()));
                }
                return LatestVersionOutcome::Latest(out);
            }
        }
        LatestVersionOutcome::NoVersions
    }

    /// Aggregates the reviews naming one application into the exact mean
    /// rating, as the sum of their scores over their number; no reviews mean
    /// no rating, not a zero one.
    pub fn get_rating(&self, app_id: &String) -> (r: RatingOutcome)
        ensures
            match r {
                RatingOutcome::Rated(rt) => {
                    &&& reviews_for(self@.reviews, app_id@).len() > 0
                    &&& rt.count as int == reviews_for(self@.reviews, app_id@).len()
                    &&& rt.sum as int == score_sum(reviews_for(self@.reviews, app_id@))
                },
                RatingOutcome::NoReviews => reviews_for(self@.reviews, app_id@).len() == 0,
            },
    {
        let mut sum: i128 = 0;
        let mut count: usize = 0;
        proof {
            reveal(Seq::filter);
            assert(self@.reviews.take(0).filter(is_review_for(app_id@))
                =~= Seq::<ReviewView>::empty());
        }
        let n = self.reviews.len();
        for i in 0..n
            invariant
                n == self.reviews.len(),
                count <= i,
                count as int == reviews_for(self@.reviews.take(i as int), app_id@).len(),
                sum as int == score_sum(reviews_for(self@.reviews.take(i as int), app_id@)),
                -(count as int) * 2147483648 <= sum as int,
                sum as int <= (count as int) * 2147483647,
        {
            let rv = &self.reviews[i];
            proof {
                reveal(Seq::filter);
                let s = self@.reviews;
                assert(s.take(i + 1).drop_last() =~= s.take(i as int));
                assert(s.take(i + 1).last() == s[i as int]);
            }
            if rv.app_id == *app_id {
                proof {
                    let q = reviews_for(self@.reviews.take(i as int), app_id@);
                    let q2 = reviews_for(self@.reviews.take(i + 1), app_id@);
                    assert(q2 == q.push(self@.reviews[i as int]));
                    assert(q2.drop_last() =~= q);
                    assert(score_sum(q2) == score_sum(q) + self@.reviews[i as int].score);
                    assert((count as int + 1) * 2147483648 == (count as int) * 2147483648
                        + 2147483648) by (nonlinear_arith);
                    assert((count as int + 1) * 2147483647 == (count as int) * 2147483647
                        + 2147483647) by (nonlinear_arith);
                }
                sum = sum + (rv.score as i128);
                count = count + 1;
            }
        }
        proof {
            assert(self@.reviews.take(n as int) =~= self@.reviews);
        }
        if count > 0 {
            RatingOutcome::Rated(Rating { sum, count })
        } else {
            RatingOutcome::NoReviews
        }
    }

    /// Writes a review of an existing application, stamped `now`: replaces
    /// this author's earlier review, whatever application it named, or
    /// stores a first one.
    pub fn write_review(&mut self, name: &String, info: &ReviewData, now: i64) -> (r:
        ReviewOutcome)
        requires
            old(self).wf(),
        ensures
            final(self).wf(),
            final(self).same_config(old(self)),
            final(self)@.users == old(self)@.users,
            final(self)@.apps == old(self)@.apps,
            final(self)@.versions == old(self)@.versions,
            final(self)@.libraries == old(self)@.libraries,
            match r {
                ReviewOutcome::Written => {
                    &&& has_app(old(self)@.apps, info.app_id@)
                    &&& {
                        let rv = (ReviewView {
                            user_name: name@,
                            app_id: info.app_id@,
                            score: info.score as int,
                            text: info.text@,
                            timestamp: now as int,
                        });
                        if has_review_by(old(self)@.reviews, name@) {
                            final(self)@.reviews == old(self)@.reviews.update(
                                review_index(old(self)@.reviews, name@),
                                rv,
                            )
                        } else {
                            final(self)@.reviews == old(self)@.reviews.push(rv)
                        }
                    }
                },
                ReviewOutcome::AppNotFound => !has_app(old(self)@.apps, info.app_id@) && final(self)@ == old(self)@,
            },
    {
        if self.find_app(&info.app_id).is_none() {
            return ReviewOutcome::AppNotFound;
        }
        let nr = Review {
            user_name: name.clone(),
            app_id: info.app_id.clone(),
            score: info.score,
            text: info.text.clone(),
            timestamp: now,
        };
        let ghost nrv = nr.deep_view();
        match self.find_review(name) {
            Some(j) => {
                self.reviews.set(j, nr);
                proof {
                    assert(self@.reviews =~~= old(self)@.reviews.update(j as int, nrv));
                    lemma_wf_after_review_write(old(self)@, self@, nrv);
                }
            },
            None => {
                self.reviews.push(nr);
                proof {
                    assert(self@.reviews =~~= old(self)@.reviews.push(nrv));
                    lemma_wf_after_review_write(old(self)@, self@, nrv);
                }
            },
        }
        ReviewOutcome::Written
    }

    /// Appends an application id to the owner's library, provided the
    /// application exists. Duplicates are kept: adding twice leaves two
    /// entries. An owner without a library record is left unchanged, as a
    /// write that matched nothing.
    pub fn add_app_to_personal_library(&mut self, name: &String, app: &String) -> (r: AddOutcome)
        requires
            old(self).wf(),
        ensures
            final(self).wf(),
            final(self).same_config(old(self)),
            final(self)@.users == old(self)@.users,
            final(self)@.apps == old(self)@.apps,
            final(self)@.versions == old(self)@.versions,
            final(self)@.reviews == old(self)@.reviews,
            match r {
                AddOutcome::Added => {
                    &&& has_app(old(self)@.apps, app@)
                    &&& if has_library(old(self)@.libraries, name@) {
                        final(self)@.libraries == old(self)@.libraries.update(
                            library_index(old(self)@.libraries, name@),
                            lib_push(library_named(old(self)@.libraries, name@), app@),
                        )
                    } else {
                        final(self)@.libraries == old(self)@.libraries
                    }
                },
                AddOutcome::AppNotFound => !has_app(old(self)@.apps, app@) && final(self)@ == old(self)@,
            },
    {
        if self.find_app(app).is_none() {
            return AddOutcome::AppNotFound;
        }
        match self.find_library(name) {
            Some(i) => {
                let lname = self.personal_libraries[i].name.clone();
                let mut new_apps = self.personal_libraries[i].apps.clone();
                proof {
                    assert(new_apps.deep_view() =~= self@.libraries[i as int].apps);
                }
                new_apps.push(app.clone());
                let nl = PersonalLibrary { name: lname, apps: new_apps };
                let ghost nlv = nl.deep_view();
                proof {
                    assert(nlv =~~= lib_push(library_named(old(self)@.libraries, name@), app@));
                }
                self.personal_libraries.set(i, nl);
                proof {
                    assert(self@.libraries =~~= old(self)@.libraries.update(i as int, nlv));
                    lemma_wf_after_library_update(old(self)@, self@, i as int, nlv);
                }
                AddOutcome::Added
            },
            None => AddOutcome::Added,
        }
    }

    /// Removes every occurrence of an application id from the owner's
    /// library — a filter, not a single-element delete. An owner without a
    /// library record is left unchanged, as a write that matched nothing.
    pub fn delete_app_from_personal_library(&mut self, name: &String, app: &String) -> (r:
        RemoveOutcome)
        requires
            old(self).wf(),
        ensures
            final(self).wf(),
            final(self).same_config(old(self)),
            final(self)@.users == old(self)@.users,
            final(self)@.apps == old(self)@.apps,
            final(self)@.versions == old(self)@.versions,
            final(self)@.reviews == old(self)@.reviews,
            r == RemoveOutcome::Removed,
            if has_library(old(self)@.libraries, name@) {
                final(self)@.libraries == old(self)@.libraries.update(
                    library_index(old(self)@.libraries, name@),
                    lib_without(library_named(old(self)@.libraries, name@), app@),
                )
            } else {
                final(self)@.libraries == old(self)@.libraries
            },
    {
        match self.find_library(name) {
            Some(i) => {
                let lname = self.personal_libraries[i].name.clone();
                let lib_len = self.personal_libraries[i].apps.len();
                let mut kept: Vec<String> = Vec::new();
                proof {
                    reveal(Seq::filter);
                    assert(kept.deep_view() =~= self@.libraries[i as int].apps.take(0).filter(
                        keeps_app_id(app@),
                    ));
                }
                for k in 0..lib_len
                    invariant
                        i < self.personal_libraries.len(),
                        lib_len == self.personal_libraries[i as int].apps.len(),
                        kept.deep_view() == self@.libraries[i as int].apps.take(k as int).filter(
                            keeps_app_id(app@),
                        ),
                {
                    if self.personal_libraries[i].apps[k] == *app {
                    } else {
                        kept.push(self.personal_libraries[i].apps[k].clone());
                    }
                    proof {
                        reveal(Seq::filter);
                        let s = self@.libraries[i as int].apps;
                        assert(s.take(k + 1).drop_last() =~= s.take(k as int));
                        assert(s.take(k + 1).last() == s[k as int]);
                        assert(kept.deep_view() =~= s.take(k + 1).filter(keeps_app_id(app@)));
                    }
                }
                proof {
                    assert(self@.libraries[i as int].apps.take(lib_len as int)
                        =~= self@.libraries[i as int].apps);
                }
                let nl = PersonalLibrary { name: lname, apps: kept };
                let ghost nlv = nl.deep_view();
                proof {
                    assert(nlv =~~= lib_without(library_named(old(self)@.libraries, name@), app@));
                }
                self.personal_libraries.set(i, nl);
                proof {
                    assert(self@.libraries =~~= old(self)@.libraries.update(i as int, nlv));
                    lemma_wf_after_library_update(old(self)@, self@, i as int, nlv);
                }
                RemoveOutcome::Removed
            },
            None => RemoveOutcome::Removed,
        }
    }

    /// Takes one catalog entry from the external publishing process;
    /// refuses a taken id.
    pub fn insert_app(&mut self, app: App) -> (r: bool)
        requires
            old(self).wf(),
        ensures
            final(self).wf(),
            final(self).same_config(old(self)),
            final(self)@.users == old(self)@.users,
            final(self)@.versions == old(self)@.versions,
            final(self)@.reviews == old(self)@.reviews,
            final(self)@.libraries == old(self)@.libraries,
            r == !has_app(old(self)@.apps, app.app_id@),
            r ==> final(self)@.apps == old(self)@.apps.push(app.deep_view()),
            !r ==> final(self)@ == old(self)@,
    {
        if self.find_app(&app.app_id).is_some() {
            return false;
        }
        let ghost av = app.deep_view();
        self.apps.push(app);
        proof {
            assert(self@.apps =~~= old(self)@.apps.push(av));
            lemma_wf_after_app_push(old(self)@, self@, av);
        }
        true
    }

    /// Takes one stored account from the storage engine at startup, digest
    /// and role as stored; refuses a taken name.
    pub fn insert_user(&mut self, u: StoredUser) -> (r: bool)
        requires
            old(self).wf(),
        ensures
            final(self).wf(),
            final(self).same_config(old(self)),
            final(self)@.apps == old(self)@.apps,
            final(self)@.versions == old(self)@.versions,
            final(self)@.reviews == old(self)@.reviews,
            final(self)@.libraries == old(self)@.libraries,
            r == !has_user(old(self)@.users, u.name@),
            r ==> final(self)@.users == old(self)@.users.push(u.deep_view()),
            !r ==> final(self)@ == old(self)@,
    {
        if self.find_user(&u.name).is_some() {
            return false;
        }
        let ghost uv = u.deep_view();
        self.users.push(u);
        proof {
            assert(self@.users =~~= old(self)@.users.push(uv));
            lemma_wf_after_user_intake(old(self)@, self@, uv);
        }
        true
    }

    /// Takes one stored library from the storage engine at startup;
    /// refuses a taken owner and one without an account.
    pub fn insert_library(&mut self, l: PersonalLibrary) -> (r: bool)
        requires
            old(self).wf(),
        ensures
            final(self).wf(),
            final(self).same_config(old(self)),
            final(self)@.users == old(self)@.users,
            final(self)@.apps == old(self)@.apps,
            final(self)@.versions == old(self)@.versions,
            final(self)@.reviews == old(self)@.reviews,
            r == (!has_library(old(self)@.libraries, l.name@) && has_user(
                old(self)@.users,
                l.name@,
            )),
            r ==> final(self)@.libraries == old(self)@.libraries.push(l.deep_view()),
            !r ==> final(self)@ == old(self)@,
    {
        if self.find_user(&l.name).is_none() {
            return false;
        }
        if self.find_library(&l.name).is_some() {
            return false;
        }
        let ghost lv = l.deep_view();
        self.personal_libraries.push(l);
        proof {
            assert(self@.libraries =~~= old(self)@.libraries.push(lv));
            lemma_wf_after_library_intake(old(self)@, self@, lv);
        }
        true
    }

    /// Takes one stored review from the storage engine at startup; refuses
    /// an author that already has one.
    pub fn insert_review(&mut self, review: Review) -> (r: bool)
        requires
            old(self).wf(),
        ensures
            final(self).wf(),
            final(self).same_config(old(self)),
            final(self)@.users == old(self)@.users,
            final(self)@.apps == old(self)@.apps,
            final(self)@.versions == old(self)@.versions,
            final(self)@.libraries == old(self)@.libraries,
            r == !has_review_by(old(self)@.reviews, review.user_name@),
            r ==> final(self)@.reviews == old(self)@.reviews.push(review.deep_view()),
            !r ==> final(self)@ == old(self)@,
    {
        if self.find_review(&review.user_name).is_some() {
            return false;
        }
        let ghost rv = review.deep_view();
        self.reviews.push(review);
        proof {
            assert(self@.reviews =~~= old(self)@.reviews.push(rv));
            lemma_wf_after_review_write(old(self)@, self@, rv);
        }
        true
    }

    /// Takes one version record from the external publishing process,
    /// keeping the history ordered newest first.
    pub fn insert_version(&mut self, v: AppVersion)
        requires
            old(self).wf(),
        ensures
            final(self).wf(),
            final(self).same_config(old(self)),
            final(self)@.users == old(self)@.users,
            final(self)@.apps == old(self)@.apps,
            final(self)@.reviews == old(self)@.reviews,
            final(self)@.libraries == old(self)@.libraries,
            exists|j: int|
                0 <= j <= old(self)@.versions.len() && final(self)@.versions == old(self)@.versions.insert(j, v.deep_view()),
    {
        let ghost vv = v.deep_view();
        let n = self.apps_versions.len();
        let mut j: usize = 0;
        while j < n && self.apps_versions[j].timestamp >= v.timestamp
            invariant
                n == self.apps_versions.len(),
                j <= n,
                vv == v.deep_view(),
                forall|k: int| 0 <= k < j ==> self@.versions[k].timestamp >= vv.timestamp,
            decreases n - j,
        {
            proof {
                assert(self@.versions[j as int] == self.apps_versions@[j as int].deep_view());
                assert(self@.versions[j as int].timestamp >= vv.timestamp);
            }
            j += 1;
        }
        proof {
            assert forall|k: int|
                j <= k < self@.versions.len() implies vv.timestamp
                > self@.versions[k].timestamp by {
                assert(self@.versions[j as int].timestamp < vv.timestamp);
                if k > j {
                    assert(self@.versions[j as int].timestamp >= self@.versions[k].timestamp);
                }
            }
        }
        let ghost pre = self@;
        self.apps_versions.insert(j, v);
        proof {
            pre.versions.insert_ensures(j as int, vv);
            assert(self@.versions =~~= pre.versions.insert(j as int, vv));
            lemma_wf_after_version_insert(pre, self@, j as int, vv);
        }
    }

    /// Authenticates `name` with `password` and, on success, mints a session
    /// token for the stored role, expiring a week after `now`.
    pub fn signin(&self, name: &String, password: &String, now: i64) -> (r: SigninOutcome)
        requires
            self.wf(),
            now <= i64::MAX - 604800,
        ensures
            authenticate_ok(self@, name@, password@, self.spec_salt()) ==> r is SignedIn,
            match r {
                SigninOutcome::SignedIn { token } => {
                    &&& authenticate_ok(self@, name@, password@, self.spec_salt())
                    &&& jwt_payload(token@, self.spec_jwt_secret()) == Some(
                        (
                            name@,
                            user_named(self@.users, name@).role.spec_str(),
                            now as int + 604800,
                        ),
                    )
                },
                SigninOutcome::WrongPassword => has_user(self@.users, name@)
                    && !authenticate_ok(self@, name@, password@, self.spec_salt()),
                SigninOutcome::UserNotFound => !has_user(self@.users, name@),
                SigninOutcome::SigningError => authenticate_ok(
                    self@,
                    name@,
                    password@,
                    self.spec_salt(),
                ),
            },
    {
        match self.find_user(name) {
            Some(i) => {
                let digest = self.credential_digest(name, password);
                let stored = &self.users[i];
                if digest == stored.password_hash {
                    match mint(name.as_str(), stored.role.as_str(), now, self.jwt_secret.as_str())
                        {
                        Some(token) => SigninOutcome::SignedIn { token },
                        None => SigninOutcome::SigningError,
                    }
                } else {
                    SigninOutcome::WrongPassword
                }
            },
            None => SigninOutcome::UserNotFound,
        }
    }
}

} // verus!

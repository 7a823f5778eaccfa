//! The mathematical model of the document store: one sequence per
//! collection, the keys each collection is matched on, and the
//! well-formedness the operations preserve.
use crate::hashing::salted_digest;
use crate::types::{
    AppVersionView, AppView, PersonalLibraryView, ReviewView, Role, StoredUserView,
};
use vstd::prelude::*;

verus! {

/// The whole store, as the contracts see it.
#[verifier::ext_equal]
pub ghost struct StoreView {
    pub users: Seq<StoredUserView>,
    pub apps: Seq<AppView>,
    pub versions: Seq<AppVersionView>,
    pub reviews: Seq<ReviewView>,
    pub libraries: Seq<PersonalLibraryView>,
}

// ---- accounts, matched on `name` ----
pub open spec fn has_user(users: Seq<StoredUserView>, name: Seq<char>) -> bool {
    exists|i: int| 0 <= i < users.len() && users[i].name == name
}

pub open spec fn user_index(users: Seq<StoredUserView>, name: Seq<char>) -> int {
    choose|i: int| 0 <= i < users.len() && users[i].name == name
}

pub open spec fn user_named(users: Seq<StoredUserView>, name: Seq<char>) -> StoredUserView {
    users[user_index(users, name)]
}

pub open spec fn unique_user_names(users: Seq<StoredUserView>) -> bool {
    forall|i: int, j: int| 0 <= i < j < users.len() ==> users[i].name != users[j].name
}

// ---- catalog entries, matched on `app_id` ----
pub open spec fn has_app(apps: Seq<AppView>, app_id: Seq<char>) -> bool {
    exists|i: int| 0 <= i < apps.len() && apps[i].app_id == app_id
}

pub open spec fn app_index(apps: Seq<AppView>, app_id: Seq<char>) -> int {
    choose|i: int| 0 <= i < apps.len() && apps[i].app_id == app_id
}

pub open spec fn app_named(apps: Seq<AppView>, app_id: Seq<char>) -> AppView {
    apps[app_index(apps, app_id)]
}

pub open spec fn unique_app_ids(apps: Seq<AppView>) -> bool {
    forall|i: int, j: int| 0 <= i < j < apps.len() ==> apps[i].app_id != apps[j].app_id
}

// ---- reviews, matched on the writing user's name alone ----
pub open spec fn has_review_by(reviews: Seq<ReviewView>, user_name: Seq<char>) -> bool {
    exists|i: int| 0 <= i < reviews.len() && reviews[i].user_name == user_name
}

pub open spec fn review_index(reviews: Seq<ReviewView>, user_name: Seq<char>) -> int {
    choose|i: int| 0 <= i < reviews.len() && reviews[i].user_name == user_name
}

pub open spec fn unique_review_owners(reviews: Seq<ReviewView>) -> bool {
    forall|i: int, j: int|
        0 <= i < j < reviews.len() ==> reviews[i].user_name != reviews[j].user_name
}

// ---- personal libraries, matched on the owner's name ----
pub open spec fn has_library(libs: Seq<PersonalLibraryView>, name: Seq<char>) -> bool {
    exists|i: int| 0 <= i < libs.len() && libs[i].name == name
}

pub open spec fn library_index(libs: Seq<PersonalLibraryView>, name: Seq<char>) -> int {
    choose|i: int| 0 <= i < libs.len() && libs[i].name == name
}

pub open spec fn library_named(
    libs: Seq<PersonalLibraryView>,
    name: Seq<char>,
) -> PersonalLibraryView {
    libs[library_index(libs, name)]
}

pub open spec fn unique_library_names(libs: Seq<PersonalLibraryView>) -> bool {
    forall|i: int, j: int| 0 <= i < j < libs.len() ==> libs[i].name != libs[j].name
}

// ---- version history, newest first ----
pub open spec fn versions_sorted(versions: Seq<AppVersionView>) -> bool {
    forall|i: int, j: int|
        0 <= i < j < versions.len() ==> versions[i].timestamp >= versions[j].timestamp
}

/// Every personal library belongs to an account: libraries are created only
/// at signup, with the account that owns them.
pub open spec fn libraries_owned(s: StoreView) -> bool {
    forall|i: int| 0 <= i < s.libraries.len() ==> has_user(s.users, s.libraries[i].name)
}

/// Well-formedness of the store: every keyed collection holds at most one
/// record per key, every library has its account, and the version history
/// is ordered newest first.
pub open spec fn wf(s: StoreView) -> bool {
    &&& unique_user_names(s.users)
    &&& unique_app_ids(s.apps)
    &&& unique_review_owners(s.reviews)
    &&& unique_library_names(s.libraries)
    &&& libraries_owned(s)
    &&& versions_sorted(s.versions)
}

// ---- record transformations the mutating operations are stated with ----
/// The account a successful registration stores.
pub open spec fn signup_user(
    name: Seq<char>,
    password: Seq<char>,
    email: Seq<char>,
    salt: Seq<char>,
) -> StoredUserView {
    StoredUserView {
        name: name,
        password_hash: salted_digest(name + password, salt),
        email: email,
        img: Seq::empty(),
        role: Role::User,
    }
}

pub open spec fn with_password(u: StoredUserView, password_hash: Seq<char>) -> StoredUserView {
    StoredUserView {
        name: u.name,
        password_hash: password_hash,
        email: u.email,
        img: u.img,
        role: u.role,
    }
}

pub open spec fn with_profile(
    u: StoredUserView,
    email: Seq<char>,
    img: Seq<char>,
) -> StoredUserView {
    StoredUserView {
        name: u.name,
        password_hash: u.password_hash,
        email: email,
        img: img,
        role: u.role,
    }
}

pub open spec fn lib_push(l: PersonalLibraryView, app_id: Seq<char>) -> PersonalLibraryView {
    PersonalLibraryView { name: l.name, apps: l.apps.push(app_id) }
}

/// The predicate removal filters with: everything but `app_id` stays.
pub open spec fn keeps_app_id(app_id: Seq<char>) -> spec_fn(Seq<char>) -> bool {
    |a: Seq<char>| a != app_id
}

pub open spec fn lib_without(l: PersonalLibraryView, app_id: Seq<char>) -> PersonalLibraryView {
    PersonalLibraryView { name: l.name, apps: l.apps.filter(keeps_app_id(app_id)) }
}

// ---- read aggregations ----
pub open spec fn is_review_for(app_id: Seq<char>) -> spec_fn(ReviewView) -> bool {
    |r: ReviewView| r.app_id == app_id
}

pub open spec fn reviews_for(reviews: Seq<ReviewView>, app_id: Seq<char>) -> Seq<ReviewView> {
    reviews.filter(is_review_for(app_id))
}

pub open spec fn score_sum(reviews: Seq<ReviewView>) -> int
    decreases reviews.len(),
{
    if reviews.len() == 0 {
        0
    } else {
        score_sum(reviews.drop_last()) + reviews.last().score
    }
}

pub open spec fn is_version_for(app_id: Seq<char>) -> spec_fn(AppVersionView) -> bool {
    |v: AppVersionView| v.app_id == app_id
}

pub open spec fn versions_for(
    versions: Seq<AppVersionView>,
    app_id: Seq<char>,
) -> Seq<AppVersionView> {
    versions.filter(is_version_for(app_id))
}

/// Whether the entry carries at least one of the given tags.
pub open spec fn shares_tag(a: AppView, tags: Seq<Seq<char>>) -> bool {
    exists|i: int| 0 <= i < a.tags.len() && tags.contains(a.tags[i])
}

pub open spec fn shares_any_tag(tags: Seq<Seq<char>>) -> spec_fn(AppView) -> bool {
    |a: AppView| shares_tag(a, tags)
}

pub open spec fn apps_with_any_tag(apps: Seq<AppView>, tags: Seq<Seq<char>>) -> Seq<AppView> {
    apps.filter(shares_any_tag(tags))
}

/// In a history ordered newest first, one application's versions come out
/// ordered newest first too: what the version listing promises.
pub proof fn lemma_versions_for_sorted(versions: Seq<AppVersionView>, app_id: Seq<char>)
    requires
        versions_sorted(versions),
    ensures
        versions_sorted(versions_for(versions, app_id)),
    decreases versions.len(),
{
    reveal(Seq::filter);
    if versions.len() > 0 {
        let t = versions.drop_last();
        assert(versions_sorted(t)) by {
            assert(forall|i: int| 0 <= i < t.len() ==> t[i] == versions[i]);
        }
        lemma_versions_for_sorted(t, app_id);
        let f = versions_for(versions, app_id);
        let ft = versions_for(t, app_id);
        if is_version_for(app_id)(versions.last()) {
            assert(f == ft.push(versions.last()));
            assert forall|p: int, q: int|
                0 <= p < q < f.len() implies f[p].timestamp >= f[q].timestamp by {
                if q == f.len() - 1 {
                    assert(f[p] == ft[p]);
                    assert(ft.contains(ft[p]));
                    t.lemma_filter_contains_rev(is_version_for(app_id), ft[p]);
                    let i = choose|i: int| 0 <= i < t.len() && t[i] == ft[p];
                    assert(versions[i] == t[i]);
                    assert(versions[i].timestamp >= versions[versions.len() - 1].timestamp);
                } else {
                    assert(f[p] == ft[p] && f[q] == ft[q]);
                }
            }
        } else {
            assert(f == ft);
        }
    }
}

/// Whether `name` names an account whose stored digest matches the supplied
/// password under `salt`: exactly when authentication succeeds.
pub open spec fn authenticate_ok(
    s: StoreView,
    name: Seq<char>,
    password: Seq<char>,
    salt: Seq<char>,
) -> bool {
    has_user(s.users, name) && user_named(s.users, name).password_hash == salted_digest(
        name + password,
        salt,
    )
}

// ---- the keyed lookups are unambiguous in a well-formed store ----
pub proof fn lemma_user_index_is(users: Seq<StoredUserView>, name: Seq<char>, i: int)
    requires
        unique_user_names(users),
        0 <= i < users.len(),
        users[i].name == name,
    ensures
        has_user(users, name),
        user_index(users, name) == i,
{
    assert(has_user(users, name));
    let j = user_index(users, name);
    assert(0 <= j < users.len() && users[j].name == name);
    if i < j {
        assert(users[i].name != users[j].name);
    } else if j < i {
        assert(users[j].name != users[i].name);
    }
}

pub proof fn lemma_app_index_is(apps: Seq<AppView>, app_id: Seq<char>, i: int)
    requires
        unique_app_ids(apps),
        0 <= i < apps.len(),
        apps[i].app_id == app_id,
    ensures
        has_app(apps, app_id),
        app_index(apps, app_id) == i,
{
    assert(has_app(apps, app_id));
    let j = app_index(apps, app_id);
    assert(0 <= j < apps.len() && apps[j].app_id == app_id);
    if i < j {
        assert(apps[i].app_id != apps[j].app_id);
    } else if j < i {
        assert(apps[j].app_id != apps[i].app_id);
    }
}

pub proof fn lemma_review_index_is(reviews: Seq<ReviewView>, user_name: Seq<char>, i: int)
    requires
        unique_review_owners(reviews),
        0 <= i < reviews.len(),
        reviews[i].user_name == user_name,
    ensures
        has_review_by(reviews, user_name),
        review_index(reviews, user_name) == i,
{
    assert(has_review_by(reviews, user_name));
    let j = review_index(reviews, user_name);
    assert(0 <= j < reviews.len() && reviews[j].user_name == user_name);
    if i < j {
        assert(reviews[i].user_name != reviews[j].user_name);
    } else if j < i {
        assert(reviews[j].user_name != reviews[i].user_name);
    }
}

pub proof fn lemma_library_index_is(libs: Seq<PersonalLibraryView>, name: Seq<char>, i: int)
    requires
        unique_library_names(libs),
        0 <= i < libs.len(),
        libs[i].name == name,
    ensures
        has_library(libs, name),
        library_index(libs, name) == i,
{
    assert(has_library(libs, name));
    let j = library_index(libs, name);
    assert(0 <= j < libs.len() && libs[j].name == name);
    if i < j {
        assert(libs[i].name != libs[j].name);
    } else if j < i {
        assert(libs[j].name != libs[i].name);
    }
}

// ---- account lookups survive growth and same-name updates ----
pub proof fn lemma_push_preserves_has_user(
    users: Seq<StoredUserView>,
    u: StoredUserView,
    name: Seq<char>,
)
    requires
        has_user(users, name),
    ensures
        has_user(users.push(u), name),
{
    let i = choose|i: int| 0 <= i < users.len() && users[i].name == name;
    assert(users.push(u)[i].name == name);
}

pub proof fn lemma_same_names_preserve_has_user(
    a: Seq<StoredUserView>,
    b: Seq<StoredUserView>,
    name: Seq<char>,
)
    requires
        a.len() == b.len(),
        forall|k: int| 0 <= k < a.len() ==> a[k].name == b[k].name,
        has_user(a, name),
    ensures
        has_user(b, name),
{
    let i = choose|i: int| 0 <= i < a.len() && a[i].name == name;
    assert(b[i].name == name);
}

// ---- pushing a fresh key keeps a collection well-keyed ----
pub proof fn lemma_push_fresh_user(users: Seq<StoredUserView>, u: StoredUserView)
    requires
        unique_user_names(users),
        !has_user(users, u.name),
    ensures
        unique_user_names(users.push(u)),
{
    let pushed = users.push(u);
    assert forall|i: int, j: int|
        0 <= i < j < pushed.len() implies pushed[i].name != pushed[j].name by {
        if j == users.len() {
            assert(pushed[i] == users[i]);
            if users[i].name == u.name {
                assert(has_user(users, u.name));
            }
        } else {
            assert(pushed[i] == users[i] && pushed[j] == users[j]);
        }
    }
}

pub proof fn lemma_push_fresh_library(libs: Seq<PersonalLibraryView>, l: PersonalLibraryView)
    requires
        unique_library_names(libs),
        !has_library(libs, l.name),
    ensures
        unique_library_names(libs.push(l)),
{
    let pushed = libs.push(l);
    assert forall|i: int, j: int|
        0 <= i < j < pushed.len() implies pushed[i].name != pushed[j].name by {
        if j == libs.len() {
            assert(pushed[i] == libs[i]);
            if libs[i].name == l.name {
                assert(has_library(libs, l.name));
            }
        } else {
            assert(pushed[i] == libs[i] && pushed[j] == libs[j]);
        }
    }
}

pub proof fn lemma_push_fresh_review(reviews: Seq<ReviewView>, r: ReviewView)
    requires
        unique_review_owners(reviews),
        !has_review_by(reviews, r.user_name),
    ensures
        unique_review_owners(reviews.push(r)),
{
    let pushed = reviews.push(r);
    assert forall|i: int, j: int|
        0 <= i < j < pushed.len() implies pushed[i].user_name != pushed[j].user_name by {
        if j == reviews.len() {
            assert(pushed[i] == reviews[i]);
            if reviews[i].user_name == r.user_name {
                assert(has_review_by(reviews, r.user_name));
            }
        } else {
            assert(pushed[i] == reviews[i] && pushed[j] == reviews[j]);
        }
    }
}

pub proof fn lemma_push_fresh_app(apps: Seq<AppView>, a: AppView)
    requires
        unique_app_ids(apps),
        !has_app(apps, a.app_id),
    ensures
        unique_app_ids(apps.push(a)),
{
    let pushed = apps.push(a);
    assert forall|i: int, j: int|
        0 <= i < j < pushed.len() implies pushed[i].app_id != pushed[j].app_id by {
        if j == apps.len() {
            assert(pushed[i] == apps[i]);
            if apps[i].app_id == a.app_id {
                assert(has_app(apps, a.app_id));
            }
        } else {
            assert(pushed[i] == apps[i] && pushed[j] == apps[j]);
        }
    }
}

// ---- updating a record in place, key kept, keeps a collection well-keyed ----
pub proof fn lemma_update_same_name_user(
    users: Seq<StoredUserView>,
    i: int,
    u: StoredUserView,
)
    requires
        unique_user_names(users),
        0 <= i < users.len(),
        u.name == users[i].name,
    ensures
        unique_user_names(users.update(i, u)),
{
    let updated = users.update(i, u);
    assert forall|p: int, q: int|
        0 <= p < q < updated.len() implies updated[p].name != updated[q].name by {
        assert(users[p].name != users[q].name);
    }
}

pub proof fn lemma_update_same_owner_review(reviews: Seq<ReviewView>, i: int, r: ReviewView)
    requires
        unique_review_owners(reviews),
        0 <= i < reviews.len(),
        r.user_name == reviews[i].user_name,
    ensures
        unique_review_owners(reviews.update(i, r)),
{
    let updated = reviews.update(i, r);
    assert forall|p: int, q: int|
        0 <= p < q < updated.len() implies updated[p].user_name != updated[q].user_name by {
        assert(reviews[p].user_name != reviews[q].user_name);
    }
}

// ---- each mutation's shape keeps the store well formed ----
/// Registration pushes a fresh account and its empty library.
pub proof fn lemma_wf_after_signup(
    s: StoreView,
    s2: StoreView,
    u: StoredUserView,
    l: PersonalLibraryView,
)
    requires
        wf(s),
        !has_user(s.users, u.name),
        l.name == u.name,
        s2.users == s.users.push(u),
        s2.libraries == s.libraries.push(l),
        s2.apps == s.apps,
        s2.versions == s.versions,
        s2.reviews == s.reviews,
    ensures
        wf(s2),
{
    lemma_push_fresh_user(s.users, u);
    assert(!has_library(s.libraries, l.name)) by {
        if has_library(s.libraries, l.name) {
            let i = choose|i: int| 0 <= i < s.libraries.len() && s.libraries[i].name == l.name;
            assert(has_user(s.users, s.libraries[i].name));
        }
    }
    lemma_push_fresh_library(s.libraries, l);
    assert forall|i: int|
        0 <= i < s2.libraries.len() implies has_user(s2.users, s2.libraries[i].name) by {
        if i < s.libraries.len() {
            lemma_push_preserves_has_user(s.users, u, s.libraries[i].name);
        } else {
            assert(s2.users[s.users.len() as int].name == l.name);
        }
    }
}

/// Account intake from the storage engine pushes a fresh name.
pub proof fn lemma_wf_after_user_intake(s: StoreView, s2: StoreView, u: StoredUserView)
    requires
        wf(s),
        !has_user(s.users, u.name),
        s2.users == s.users.push(u),
        s2.apps == s.apps,
        s2.versions == s.versions,
        s2.reviews == s.reviews,
        s2.libraries == s.libraries,
    ensures
        wf(s2),
{
    lemma_push_fresh_user(s.users, u);
    assert forall|i: int|
        0 <= i < s2.libraries.len() implies has_user(s2.users, s2.libraries[i].name) by {
        lemma_push_preserves_has_user(s.users, u, s.libraries[i].name);
    }
}

/// Library intake from the storage engine pushes a fresh owner that has an
/// account.
pub proof fn lemma_wf_after_library_intake(s: StoreView, s2: StoreView, l: PersonalLibraryView)
    requires
        wf(s),
        !has_library(s.libraries, l.name),
        has_user(s.users, l.name),
        s2.libraries == s.libraries.push(l),
        s2.users == s.users,
        s2.apps == s.apps,
        s2.versions == s.versions,
        s2.reviews == s.reviews,
    ensures
        wf(s2),
{
    lemma_push_fresh_library(s.libraries, l);
}

/// A password or profile write updates one account in place, name kept.
pub proof fn lemma_wf_after_user_update(s: StoreView, s2: StoreView, i: int, u: StoredUserView)
    requires
        wf(s),
        0 <= i < s.users.len(),
        u.name == s.users[i].name,
        s2.users == s.users.update(i, u),
        s2.apps == s.apps,
        s2.versions == s.versions,
        s2.reviews == s.reviews,
        s2.libraries == s.libraries,
    ensures
        wf(s2),
{
    lemma_update_same_name_user(s.users, i, u);
    assert forall|j: int|
        0 <= j < s2.libraries.len() implies has_user(s2.users, s2.libraries[j].name) by {
        lemma_same_names_preserve_has_user(s.users, s2.users, s.libraries[j].name);
    }
}

/// A review upsert replaces that user's record or appends a first one.
pub proof fn lemma_wf_after_review_write(s: StoreView, s2: StoreView, r: ReviewView)
    requires
        wf(s),
        if has_review_by(s.reviews, r.user_name) {
            s2.reviews == s.reviews.update(review_index(s.reviews, r.user_name), r)
        } else {
            s2.reviews == s.reviews.push(r)
        },
        s2.users == s.users,
        s2.apps == s.apps,
        s2.versions == s.versions,
        s2.libraries == s.libraries,
    ensures
        wf(s2),
{
    if has_review_by(s.reviews, r.user_name) {
        let i = review_index(s.reviews, r.user_name);
        assert(0 <= i < s.reviews.len() && s.reviews[i].user_name == r.user_name);
        lemma_update_same_owner_review(s.reviews, i, r);
    } else {
        lemma_push_fresh_review(s.reviews, r);
    }
}

/// A library write updates one library in place, owner kept.
pub proof fn lemma_wf_after_library_update(
    s: StoreView,
    s2: StoreView,
    i: int,
    l: PersonalLibraryView,
)
    requires
        wf(s),
        0 <= i < s.libraries.len(),
        l.name == s.libraries[i].name,
        s2.libraries == s.libraries.update(i, l),
        s2.users == s.users,
        s2.apps == s.apps,
        s2.versions == s.versions,
        s2.reviews == s.reviews,
    ensures
        wf(s2),
{
    lemma_update_same_name_library(s.libraries, i, l);
}

/// Catalog intake pushes an entry with a fresh id.
pub proof fn lemma_wf_after_app_push(s: StoreView, s2: StoreView, a: AppView)
    requires
        wf(s),
        !has_app(s.apps, a.app_id),
        s2.apps == s.apps.push(a),
        s2.users == s.users,
        s2.versions == s.versions,
        s2.reviews == s.reviews,
        s2.libraries == s.libraries,
    ensures
        wf(s2),
{
    lemma_push_fresh_app(s.apps, a);
}

/// Version intake inserts where the history stays ordered newest first.
pub proof fn lemma_wf_after_version_insert(
    s: StoreView,
    s2: StoreView,
    j: int,
    v: AppVersionView,
)
    requires
        wf(s),
        0 <= j <= s.versions.len(),
        forall|k: int| 0 <= k < j ==> s.versions[k].timestamp >= v.timestamp,
        forall|k: int| j <= k < s.versions.len() ==> v.timestamp > s.versions[k].timestamp,
        s2.versions == s.versions.insert(j, v),
        s2.users == s.users,
        s2.apps == s.apps,
        s2.reviews == s.reviews,
        s2.libraries == s.libraries,
    ensures
        wf(s2),
{
    s.versions.insert_ensures(j, v);
    let t = s2.versions;
    assert forall|p: int, q: int|
        0 <= p < q < t.len() implies t[p].timestamp >= t[q].timestamp by {
        if p < j && q == j {
            assert(t[p] == s.versions[p]);
        } else if p == j && q > j {
            assert(t[q] == s.versions[q - 1]);
        } else if p < j && q > j {
            assert(t[p] == s.versions[p] && t[q] == s.versions[q - 1]);
        } else if p > j && q > j {
            assert(t[p] == s.versions[p - 1] && t[q] == s.versions[q - 1]);
        }
    }
}

pub proof fn lemma_update_same_name_library(
    libs: Seq<PersonalLibraryView>,
    i: int,
    l: PersonalLibraryView,
)
    requires
        unique_library_names(libs),
        0 <= i < libs.len(),
        l.name == libs[i].name,
    ensures
        unique_library_names(libs.update(i, l)),
{
    let updated = libs.update(i, l);
    assert forall|p: int, q: int|
        0 <= p < q < updated.len() implies updated[p].name != updated[q].name by {
        assert(libs[p].name != libs[q].name);
    }
}

} // verus!

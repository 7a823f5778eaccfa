//! Laws relating the operations, stated over the store model and proved
//! once for all inputs. Each speaks through the same spec functions the
//! operations' contracts use, so it composes directly with them.
use crate::hashing::salted_digest;
use crate::store::{
    authenticate_ok, has_user, keeps_app_id, lemma_push_fresh_user, lemma_update_same_name_user,
    lemma_user_index_is, lib_push, lib_without, signup_user, user_index, user_named, wf,
    StoreView,
};
use crate::types::PersonalLibraryView;
use vstd::prelude::*;

verus! {

/// Law: a freshly registered account authenticates with its password —
/// and not with a password whose salted digest differs from it. (A
/// password that collides with the stored digest is indistinguishable from
/// the right one by construction, so it is left out.)
pub proof fn lemma_signup_then_authenticate(
    s: StoreView,
    s2: StoreView,
    salt: Seq<char>,
    name: Seq<char>,
    password: Seq<char>,
    email: Seq<char>,
    wrong: Seq<char>,
)
    requires
        wf(s),
        !has_user(s.users, name),
        s2.users == s.users.push(signup_user(name, password, email, salt)),
        salted_digest(name + wrong, salt) != salted_digest(name + password, salt),
    ensures
        authenticate_ok(s2, name, password, salt),
        !authenticate_ok(s2, name, wrong, salt),
{
    let u = signup_user(name, password, email, salt);
    lemma_push_fresh_user(s.users, u);
    lemma_user_index_is(s2.users, name, s.users.len() as int);
    assert(user_named(s2.users, name) == u);
}

/// Law: a password change takes effect exactly. In the store a successful
/// change leaves, the account authenticates with the new password and no
/// longer with the old one (their digests differing).
pub proof fn lemma_change_password_effect(
    s: StoreView,
    s2: StoreView,
    salt: Seq<char>,
    name: Seq<char>,
    old_password: Seq<char>,
    new_password: Seq<char>,
)
    requires
        wf(s),
        authenticate_ok(s, name, old_password, salt),
        s2.users == s.users.update(
            user_index(s.users, name),
            crate::store::with_password(
                user_named(s.users, name),
                salted_digest(name + new_password, salt),
            ),
        ),
        salted_digest(name + old_password, salt) != salted_digest(name + new_password, salt),
    ensures
        authenticate_ok(s2, name, new_password, salt),
        !authenticate_ok(s2, name, old_password, salt),
{
    let i = user_index(s.users, name);
    assert(0 <= i < s.users.len() && s.users[i].name == name);
    let nu = crate::store::with_password(
        user_named(s.users, name),
        salted_digest(name + new_password, salt),
    );
    lemma_update_same_name_user(s.users, i, nu);
    lemma_user_index_is(s2.users, name, i);
    assert(user_named(s2.users, name) == nu);
}

/// Law: registration takes its name. In the store a successful
/// registration leaves, the name resolves to an account — so registering
/// it again is refused as a duplicate, which by the registration contract
/// leaves every record, the first account's among them, unchanged.
pub proof fn lemma_signup_name_taken(
    s: StoreView,
    s2: StoreView,
    salt: Seq<char>,
    name: Seq<char>,
    password: Seq<char>,
    email: Seq<char>,
)
    requires
        s2.users == s.users.push(signup_user(name, password, email, salt)),
    ensures
        has_user(s2.users, name),
{
    assert(s2.users[s.users.len() as int].name == name);
}

/// Law: one removal clears duplicate entries. Adding the same application
/// id twice and then removing it leaves the library without any occurrence
/// of the id — the same library a removal from the original would give.
pub proof fn lemma_remove_after_double_add(l: PersonalLibraryView, app_id: Seq<char>)
    ensures
        lib_without(lib_push(lib_push(l, app_id), app_id), app_id) == lib_without(l, app_id),
        forall|k: int|
            0 <= k < lib_without(lib_push(lib_push(l, app_id), app_id), app_id).apps.len()
                ==> lib_without(lib_push(lib_push(l, app_id), app_id), app_id).apps[k] != app_id,
{
    reveal(Seq::filter);
    let l1 = lib_push(l, app_id);
    let l2 = lib_push(l1, app_id);
    assert(l1.apps.drop_last() =~= l.apps);
    assert(l2.apps.drop_last() =~= l1.apps);
    assert(l1.apps.last() == app_id);
    assert(l2.apps.last() == app_id);
    assert(l2.apps.filter(keeps_app_id(app_id)) == l1.apps.filter(keeps_app_id(app_id)));
    assert(l1.apps.filter(keeps_app_id(app_id)) == l.apps.filter(keeps_app_id(app_id)));
    assert(lib_without(l2, app_id) =~~= lib_without(l, app_id));
    assert forall|k: int|
        0 <= k < lib_without(l2, app_id).apps.len() implies lib_without(l2, app_id).apps[k]
        != app_id by {
        l2.apps.lemma_filter_pred(keeps_app_id(app_id), k);
    }
}

} // verus!

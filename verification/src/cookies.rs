//! The session cookies: reading them back from the saved cookie file,
//! writing them out for it, forgetting them on logout and reading the CSRF
//! token (the `bili_jct` cookie) that state-changing requests carry.

use crate::bili_api::Error;
use crate::signing::param_views;
use cookie_store::CookieStore;
use vstd::multiset::Multiset;
use vstd::prelude::*;

verus! {

#[verifier::external_type_specification]
#[verifier::external_body]
pub struct ExCookieStore(CookieStore);

/// The name and value of every cookie `store` holds, expired ones included.
pub uninterp spec fn stored_cookies(store: CookieStore) -> Multiset<(Seq<char>, Seq<char>)>;

/// `CookieStore::clear`: empties the store. Trusted: the source clears the
/// map that holds every cookie, so none is left.
#[verifier::external_body]
fn store_clear(store: &mut CookieStore)
    ensures
        stored_cookies(*final(store)) =~= Multiset::empty(),
{
    store.clear()
}

/// `CookieStore::iter_any`: the name and value of each stored cookie.
/// Trusted: the source walks every cookie of the store once, expired ones
/// included; the walk follows hash-map order, so only the multiset of the
/// pairs is claimed, not their order.
#[verifier::external_body]
fn store_entries(store: &CookieStore) -> (entries: Vec<(String, String)>)
    ensures
        param_views(entries@).to_multiset() == stored_cookies(*store),
{
    store.iter_any().map(|c| (c.name().to_string(), c.value().to_string())).collect()
}

/// `CookieStore::default`: a store without cookies. Trusted: the derived
/// default holds an empty map of cookies.
#[verifier::external_body]
fn store_empty() -> (store: CookieStore)
    ensures
        stored_cookies(store) =~= Multiset::empty(),
{
    CookieStore::default()
}

/// The name and value of every cookie a saved cookie file lists, as
/// `cookie_store` reads the JSON text `json`.
pub uninterp spec fn saved_cookie_entries(json: Seq<u8>) -> Multiset<(Seq<char>, Seq<char>)>;

/// `cookie_store::serde::json::load` on the bytes of a saved cookie file.
/// Trusted: the source reads the bytes as UTF-8 text, parses the cookie list
/// and keeps those not expired by the current time, one per domain, path and
/// name; so every cookie of the store is one the file lists. Which ones are
/// dropped depends on the clock and is not stated, nor when the call fails.
#[verifier::external_body]
fn store_from_json(json: &[u8]) -> (store: Option<CookieStore>)
    ensures
        store matches Some(s) ==> stored_cookies(s).subset_of(saved_cookie_entries(json@)),
{
    cookie_store::serde::json::load(json).ok()
}

/// The cookie store read back from the bytes of the saved cookie file: the
/// cookies it lists that are still valid, or no cookie at all when the file
/// cannot be read as a cookie list.
pub fn load_cookie_store(json: &[u8]) -> (store: CookieStore)
    ensures
        stored_cookies(store).subset_of(saved_cookie_entries(json@)),
{
    match store_from_json(json) {
        Some(store) => store,
        None => {
            let store = store_empty();
            proof {
                broadcast use vstd::multiset::group_multiset_axioms;
            }
            store
        },
    }
}

/// `cookie_store::serde::json::save` into memory. Trusted: the source writes
/// the unexpired persistent cookies as a pretty-printed JSON array followed
/// by a newline, and writing into a `Vec` cannot fail. Which cookies are
/// written depends on the clock, so nothing is stated of them, nor whether
/// the JSON serializer succeeds.
#[verifier::external_body]
fn store_to_json(store: &CookieStore) -> (json: Option<Vec<u8>>)
    ensures
        json matches Some(bytes) ==> bytes@.len() >= 3 && bytes@[0] == 91u8 && bytes@.last()
            == 10u8,
{
    let mut bytes = Vec::new();
    cookie_store::serde::json::save(store, &mut bytes).ok()?;
    Some(bytes)
}

/// The bytes of the cookie file for `store`: a JSON array of the cookies
/// worth keeping, ended by a newline; `None` when they cannot be written.
pub fn saved_cookie_file(store: &CookieStore) -> (json: Option<Vec<u8>>)
    ensures
        json matches Some(bytes) ==> bytes@.len() >= 3 && bytes@[0] == 91u8 && bytes@.last()
            == 10u8,
{
    store_to_json(store)
}

/// The store holds a cookie called `name` with value `value`.
pub open spec fn holds_cookie(store: CookieStore, name: Seq<char>, value: Seq<char>) -> bool {
    stored_cookies(store).count((name, value)) > 0
}

/// The store holds a CSRF token with value `value`.
pub open spec fn holds_csrf_token(store: CookieStore, value: Seq<char>) -> bool {
    holds_cookie(store, "bili_jct"@, value)
}

/// Forgets every cookie of the session.
pub fn clear_cookies(store: &mut CookieStore)
    ensures
        stored_cookies(*final(store)) =~= Multiset::empty(),
{
    store_clear(store)
}

/// The value of a stored `bili_jct` cookie, if there is one.
pub fn get_csrf_token(store: &CookieStore) -> (token: Option<String>)
    ensures
        token matches Some(value) ==> holds_csrf_token(*store, value@),
        token is None <==> !exists|value: Seq<char>| #[trigger] holds_csrf_token(*store, value),
{
    let entries = store_entries(store);
    let wanted = String::from_str("bili_jct");
    let n = entries.len();
    for i in 0..n
        invariant
            n == entries@.len(),
            wanted@ == "bili_jct"@,
            param_views(entries@).to_multiset() == stored_cookies(*store),
            forall|j: int| 0 <= j < i ==> entries@[j].0@ != "bili_jct"@,
    {
        if entries[i].0 == wanted {
            let value = entries[i].1.clone();
            assert(param_views(entries@)[i as int] == ("bili_jct"@, value@));
            assert(param_views(entries@).contains(("bili_jct"@, value@)));
            proof {
                param_views(entries@).to_multiset_ensures();
            }
            assert(param_views(entries@).to_multiset().count(("bili_jct"@, value@)) > 0);
            assert(holds_csrf_token(*store, value@));
            return Some(value);
        }
    }
    proof {
        param_views(entries@).to_multiset_ensures();
    }
    assert forall|value: Seq<char>| !#[trigger] holds_csrf_token(*store, value) by {
        if param_views(entries@).contains(("bili_jct"@, value)) {
            let j = choose|j: int|
                0 <= j < param_views(entries@).len() && param_views(entries@)[j] == (
                    "bili_jct"@,
                    value,
                );
            assert(entries@[j].0@ == "bili_jct"@);
        }
    }
    None
}

/// The CSRF token a state-changing request needs; without one the account
/// is not signed in, which the API reports as code -101.
pub fn require_csrf_token(store: &CookieStore) -> (token: Result<String, Error>)
    ensures
        token matches Ok(value) ==> holds_csrf_token(*store, value@),
        token is Err <==> !exists|value: Seq<char>| #[trigger] holds_csrf_token(*store, value),
        token matches Err(e) ==> (e matches Error::Api { code, message } && code == -101
            && message@ == "账号未登录"@),
{
    match get_csrf_token(store) {
        Some(value) => Ok(value),
        None => Err(Error::Api { code: -101, message: String::from_str("账号未登录") }),
    }
}

/// Once the cookies are cleared no CSRF token is left: a request made after
/// logging out cannot carry the previous session's token.
pub proof fn lemma_cleared_store_has_no_csrf_token(store: CookieStore)
    requires
        stored_cookies(store) =~= Multiset::empty(),
    ensures
        !exists|value: Seq<char>| #[trigger] holds_csrf_token(store, value),
{
    broadcast use vstd::multiset::group_multiset_axioms;

}

} // verus!

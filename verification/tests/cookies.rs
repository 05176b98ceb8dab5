use bili_live_tool::bili_api::Error;
use bili_live_tool::cookies::{
    clear_cookies, get_csrf_token, load_cookie_store, require_csrf_token, saved_cookie_file,
};
use cookie_store::CookieStore;

fn store_with(cookies: &[&str]) -> CookieStore {
    let mut store = CookieStore::default();
    let url = reqwest::Url::parse("https://www.bilibili.com/").unwrap();
    for cookie in cookies {
        store.parse(cookie, &url).unwrap();
    }
    store
}

#[test]
fn csrf_token_is_the_bili_jct_cookie() {
    let store = store_with(&[
        "SESSDATA=session; Domain=bilibili.com; Path=/",
        "bili_jct=0123456789abcdef; Domain=bilibili.com; Path=/",
        "DedeUserID=42; Domain=bilibili.com; Path=/",
    ]);
    assert_eq!(get_csrf_token(&store).as_deref(), Some("0123456789abcdef"));
    assert_eq!(require_csrf_token(&store).unwrap(), "0123456789abcdef");
}

#[test]
fn no_csrf_token_without_bili_jct() {
    let store = store_with(&["SESSDATA=session; Domain=bilibili.com; Path=/"]);
    assert_eq!(get_csrf_token(&store), None);
    match require_csrf_token(&store) {
        Err(Error::Api { code, message }) => {
            assert_eq!(code, -101);
            assert_eq!(message, "账号未登录");
        }
        other => panic!("unexpected {other:?}"),
    }
}

#[test]
fn clearing_cookies_forgets_the_csrf_token() {
    let mut store = store_with(&["bili_jct=token; Domain=bilibili.com; Path=/"]);
    assert!(get_csrf_token(&store).is_some());
    clear_cookies(&mut store);
    assert_eq!(store.iter_any().count(), 0);
    assert_eq!(get_csrf_token(&store), None);
}

#[test]
fn saved_cookie_file_reads_back_its_persistent_cookies() {
    let store = store_with(&[
        "bili_jct=token; Domain=bilibili.com; Path=/; Expires=Tue, 03 Aug 2100 00:38:37 GMT",
        "SESSDATA=session; Domain=bilibili.com; Path=/",
    ]);
    let json = saved_cookie_file(&store).unwrap();
    assert_eq!(json[0], b'[');
    assert_eq!(*json.last().unwrap(), b'\n');
    let loaded = load_cookie_store(&json);
    assert_eq!(get_csrf_token(&loaded).as_deref(), Some("token"));
    // a session cookie without expiry is not written to the file
    assert_eq!(loaded.iter_any().count(), 1);
}

#[test]
fn unreadable_cookie_file_gives_an_empty_store() {
    assert_eq!(load_cookie_store(b"").iter_any().count(), 0);
    assert_eq!(load_cookie_store(b"not json").iter_any().count(), 0);
    assert_eq!(load_cookie_store(&[0xff, 0xfe]).iter_any().count(), 0);
}

#[test]
fn empty_store_saves_an_empty_list() {
    let json = saved_cookie_file(&CookieStore::default()).unwrap();
    assert_eq!(json, b"[]\n");
    assert_eq!(load_cookie_store(&json).iter_any().count(), 0);
}

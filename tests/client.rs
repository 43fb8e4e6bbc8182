use quark_downloader::account::{can_read_account_info, parse_account_info_state, AccountPayload};
use quark_downloader::quark::{
    logout_url, qr_cookie_url, qr_status_path, qr_token_path,
    find_api_route, get_api_routes, has_puus, joined_cookie_pairs, logout_cookie_present,
    logout_verdict, proxy_url, puus_pair, request_cookie_header, HttpMethod,
};

fn payload() -> AccountPayload {
    AccountPayload {
        is_null: false,
        success: false,
        code: String::new(),
        message: String::new(),
        has_data: false,
        data_has_fields: false,
        nickname: None,
        mobilekps: None,
    }
}

#[test]
fn route_table_lookup() {
    let routes = get_api_routes();
    assert_eq!(routes.len(), 7);
    let r = find_api_route("/api/share/save").unwrap();
    assert_eq!(r.path, "/1/clouddrive/share/sharepage/save");
    assert_eq!(r.method, HttpMethod::Post);
    assert_eq!(r.host, "drive-pc.quark.cn");
    assert_eq!(find_api_route("/api/member").unwrap().method, HttpMethod::Get);
    assert!(find_api_route("/api/unknown").is_none());
}

#[test]
fn proxy_urls() {
    assert_eq!(
        proxy_url("drive.quark.cn", "/1/clouddrive/member", "fetch=1", true),
        "https://drive.quark.cn/1/clouddrive/member?pr=ucpro&fr=pc&uc_param_str=&fetch=1"
    );
    assert_eq!(proxy_url("uop.quark.cn", "/cas?x=1", "", false), "https://uop.quark.cn/cas?x=1");
    assert_eq!(proxy_url("pan.quark.cn", "/account/info", "fr=pc", false), "https://pan.quark.cn/account/info?fr=pc");
}

#[test]
fn puus_cookies() {
    assert_eq!(puus_pair("__puus=abc; Path=/"), Some("__puus=abc".to_string()));
    assert_eq!(puus_pair("__pus=abc; Path=/"), None);
    assert!(has_puus("a=1; __puus=2"));
    assert!(!has_puus("a=1; __pus=2"));
}

#[test]
fn cookie_strings() {
    let raws = vec!["a=1; Path=/".to_string(), " ; x".to_string(), "b=2".to_string()];
    assert_eq!(request_cookie_header(&raws), "a=1; b=2");
    assert_eq!(joined_cookie_pairs(&raws), "a=1; ; b=2");
}

#[test]
fn logout_verdicts() {
    assert!(!logout_cookie_present("  \t"));
    assert!(logout_cookie_present(" a=1 "));
    let v = logout_verdict("", "", false, "");
    assert!(v.ok && v.logged_out);
    assert_eq!(v.message, "Signed out");
    let v = logout_verdict("", "", true, "neo");
    assert!(!v.logged_out);
    assert_eq!(v.message, "Logout did not take effect; still signed in as neo");
    let v = logout_verdict("timeout", "", false, "");
    assert!(!v.ok && v.logged_out);
    assert_eq!(v.message, "The logout request failed, but the session is no longer valid");
    let v = logout_verdict("", "boom", false, "");
    assert!(!v.ok && !v.logged_out);
    assert_eq!(v.message, "The account is still signed in; try again later");
}

#[test]
fn account_state() {
    let mut p = payload();
    p.code = "ok".to_string();
    p.nickname = Some("  neo ".to_string());
    let s = parse_account_info_state(200, &p);
    assert!(s.is_logged_in);
    assert_eq!(s.nickname, "neo");
    assert_eq!(s.code, "OK");
    assert!(!parse_account_info_state(401, &p).is_logged_in);
    p.message = "Token EXPIRED".to_string();
    assert!(!parse_account_info_state(200, &p).is_logged_in);
    p.message = "未登录".to_string();
    assert!(!parse_account_info_state(200, &p).is_logged_in);
}

#[test]
fn account_readable() {
    let mut p = payload();
    p.success = true;
    assert!(!can_read_account_info(200, &p));
    p.has_data = true;
    assert!(!can_read_account_info(200, &p));
    p.mobilekps = Some("k".to_string());
    assert!(can_read_account_info(200, &p));
    assert!(!can_read_account_info(500, &p));
    p.is_null = true;
    assert!(!can_read_account_info(200, &p));
}

#[test]
fn login_urls_are_encoded() {
    assert_eq!(qr_cookie_url("a b&c"), "https://pan.quark.cn/account/info?st=a%20b%26c&lw=scan");
    assert_eq!(logout_url(), "https://pan.quark.cn/account/logout?callback=https%3A%2F%2Fpan.quark.cn");
    assert_eq!(
        qr_status_path("t/1", "id"),
        "/cas/ajax/getServiceTicketByQrcodeToken?client_id=532&v=1.2&token=t%2F1&request_id=id"
    );
    assert_eq!(qr_cookie_url("é~-._"), "https://pan.quark.cn/account/info?st=%C3%A9~-._&lw=scan");
    assert_eq!(qr_token_path("r1"), "/cas/ajax/getTokenForQrcodeLogin?client_id=532&v=1.2&request_id=r1");
}

use yumd::twitch::{
    authorized_request_headers, bearer, FollowInfo, TwitchFollowRespone, TwitchInfo, TwitchRespone,
    TwitchToken,
};

fn s(x: &str) -> String {
    x.to_string()
}

#[test]
fn token_request_query() {
    assert_eq!(
        TwitchToken::request_query("cid", "secret"),
        vec![
            (s("client_id"), s("cid")),
            (s("client_secret"), s("secret")),
            (s("grant_type"), s("client_credentials")),
        ]
    );
    assert_eq!(TwitchToken::request_headers(), vec![(s("User-Agent"), s("yumD"))]);
}

#[test]
fn login_and_follow_queries() {
    assert_eq!(TwitchToken::login_query("someone"), vec![(s("login"), s("someone"))]);
    assert_eq!(
        TwitchFollowRespone::follow_query("12345"),
        vec![(s("from_id"), s("12345")), (s("first"), s("100"))]
    );
}

#[test]
fn bearer_header() {
    assert_eq!(bearer("abc"), "Bearer abc");
    assert_eq!(
        authorized_request_headers("tok", "cid"),
        vec![
            (s("User-Agent"), s("yumD")),
            (s("Authorization"), s("Bearer tok")),
            (s("Client-Id"), s("cid")),
        ]
    );
}

#[test]
fn twitch_addresses() {
    assert_eq!(TwitchToken::request_url().ok().unwrap(), "https://id.twitch.tv/oauth2/token");
    assert_eq!(TwitchToken::login_url().ok().unwrap(), "https://api.twitch.tv/helix/users");
    assert_eq!(
        TwitchFollowRespone::follow_url().ok().unwrap(),
        "https://api.twitch.tv/helix/users/follows"
    );
}

#[test]
fn token_and_user_fields() {
    let t = TwitchToken::new_token(s("tok"), s("bearer"), 5000);
    assert_eq!(t.access_token, "tok");
    assert_eq!(t.token_type(), "bearer");
    assert_eq!(t.expires_in, 5000);
    let u = TwitchInfo::new(s("1"), s("login"), s("Name"), s("2020-01-01"));
    assert_eq!(u.id, "1");
    assert_eq!(u.login(), "login");
    assert_eq!(u.display_name, "Name");
    assert_eq!(u.created_at, "2020-01-01");
    let r = TwitchRespone { data: vec![u] };
    assert_eq!(r.data().len(), 1);
}

#[test]
fn follow_list_fields() {
    let f = FollowInfo { to_id: s("9"), to_login: s("chan"), to_name: s("Chan"), followed_at: s("2021") };
    let r = TwitchFollowRespone::new(vec![f]);
    assert_eq!(r.data().len(), 1);
    assert_eq!(r.data()[0].to_login, "chan");
    let d = r.into_data();
    assert_eq!(d[0].to_name, "Chan");
}

use yumd::dashboard::{TwitchLoginAction, TwitchLoginEvent};
use yumd::twitch::TwitchToken;
use yumd::dashboard::{
    all_dates_splittable, stream_url, tick_token_time, tick_uptime, MyApp, NewsCardData,
    NewsConfig, OpenSetting, Token, TwitchConfig, YoutubeConfig,
};
use yumd::news::{Article, NewsAPIResponse};
use yumd::sysinfo::{MyInfo, System};
use yumd::twitch::{FollowInfo, TwitchInfo, TwitchRespone};

fn s(x: &str) -> String {
    x.to_string()
}

fn article(title: &str, published: &str) -> Article {
    Article::new(s("A"), s(title), format!("https://n.example/{}", title), s(published))
}

fn app_with_key(key: &str) -> MyApp {
    let config = NewsConfig { api_key: s(key), current_page: 1, page_line: 20 };
    MyApp::new(config, TwitchConfig::new(), YoutubeConfig::new())
}

#[test]
fn configs_start_empty() {
    let n = NewsConfig::new();
    assert_eq!(n.api_key, "");
    assert_eq!(n.current_page, 0);
    assert_eq!(n.page_line, 0);
    let t = TwitchConfig::new();
    assert!(t.id.is_empty() && t.password.is_empty() && t.client_id.is_empty() && t.client_secret.is_empty());
    let y = YoutubeConfig::new();
    assert!(y.id.is_empty() && y.password.is_empty());
    let tok = Token::new();
    assert!(!tok.twitch_use && !tok.youtubu_use && tok.twitch_token.is_empty());
}

#[test]
fn new_app_state() {
    let app = app_with_key("KEY");
    assert!(app.api_used);
    assert!(!app.date && !app.has_next && !app.setting_menu_open);
    assert!(app.on_setting_menu == OpenSetting::twitch);
    assert_eq!(app.open_win_name, "None");
    assert_eq!(app.totalResults, 0);
    assert!(app.articles.is_empty() && app.tfollow_list.is_empty());
    assert!(!app_with_key("").api_used);
}

#[test]
fn card_takes_the_date() {
    let c = NewsCardData::from_article(&article("T", "2023-05-01T10:00:00Z"));
    assert_eq!(c.title, "T");
    assert_eq!(c.url, "https://n.example/T");
    assert_eq!(c.publishedAt, "2023-05-01");
}

#[test]
fn card_date_with_wide_characters() {
    // "가" takes three bytes: three of them and a dash make ten bytes.
    let c = NewsCardData::from_article(&article("K", "가나다-xyz"));
    assert_eq!(c.publishedAt, "가나다-");
}

#[test]
fn splittable_dates() {
    assert!(all_dates_splittable(&vec![article("a", "2023-05-01T00"), article("b", "0123456789")]));
    assert!(!all_dates_splittable(&vec![article("a", "2023-05-01"), article("b", "NoUrl")]));
    assert!(!all_dates_splittable(&vec![article("a", "가나다라")]));
    assert!(all_dates_splittable(&vec![]));
}

#[test]
fn fetch_appends_and_refresh_replaces() {
    let mut app = app_with_key("KEY");
    let r = NewsAPIResponse::new(s("ok"), 2, vec![article("a", "2023-05-01T00"), article("b", "2023-05-02T00")]);
    app.fech_news(Some(&r));
    assert_eq!(app.totalResults, 2);
    assert_eq!(app.articles.len(), 2);
    app.fech_news(Some(&r));
    assert_eq!(app.articles.len(), 4);
    assert_eq!(app.articles[3].publishedAt, "2023-05-02");
    app.fech_news(None);
    assert_eq!(app.articles.len(), 4);

    let r2 = NewsAPIResponse::new(s("ok"), 7, vec![article("c", "2024-01-01T00")]);
    app.fech_newsupdate(Some(&r2));
    assert_eq!(app.totalResults, 7);
    assert_eq!(app.articles.len(), 1);
    assert_eq!(app.articles[0].title, "c");
    app.fech_newsupdate(Some(&r2));
    assert_eq!(app.articles.len(), 1);
    app.fech_newsupdate(None);
    assert!(app.articles.is_empty());
    assert_eq!(app.totalResults, 7);
}

#[test]
fn paging() {
    let mut app = app_with_key("KEY");
    assert!(!app.previous_page());
    assert_eq!(app.news_config.current_page, 1);
    app.next_page();
    app.next_page();
    assert_eq!(app.news_config.current_page, 3);
    assert!(app.previous_page());
    assert_eq!(app.news_config.current_page, 2);
    app.next_page();
    assert!(app.previous_page());
    assert_eq!(app.news_config.current_page, 2);
    assert_eq!(app.news_config.page_line, 20);
}

#[test]
fn stored_news_config() {
    let app = app_with_key("SECRET");
    let c = app.news_config_to_store();
    assert_eq!(c.api_key, "SECRET");
    assert_eq!(c.current_page, 1);
    assert_eq!(c.page_line, 20);
    let d = NewsConfig::stored_with_key("k");
    assert_eq!((d.api_key.as_str(), d.current_page, d.page_line), ("k", 1, 20));
}

#[test]
fn windows_toggle() {
    let mut app = app_with_key("KEY");
    app.toggle_code_window(s("pacman"), s("[options]"));
    assert!(app.has_next);
    assert_eq!(app.open_win_name, "pacman");
    assert_eq!(app.open_win_code, "[options]");
    app.toggle_code_window(s("pacman"), s("[options]"));
    assert!(!app.has_next);

    app.toggle_settings(OpenSetting::youtube);
    assert!(app.setting_menu_open);
    assert!(app.on_setting_menu == OpenSetting::youtube);
    app.toggle_settings(OpenSetting::youtube);
    assert!(!app.setting_menu_open);
    app.toggle_settings(OpenSetting::twitch);
    assert!(app.setting_menu_open && app.on_setting_menu == OpenSetting::twitch);
}

#[test]
fn twitch_login_follow_and_expiry() {
    let mut app = app_with_key("KEY");
    let login = TwitchRespone {
        data: vec![TwitchInfo::new(s("42"), s("me"), s("Me"), s("2019-02-03")), TwitchInfo::new(s("7"), s("x"), s("X"), s("y"))],
    };
    app.record_twitch_login(s("tok"), &login);
    assert!(app.token.twitch_use);
    assert_eq!(app.token.twitch_token, "tok");
    assert_eq!(app.token.twitch_id, "42");
    assert_eq!(app.token.twitch_nick, "Me");
    assert_eq!(app.token.twitch_date, "2019-02-03");

    app.add_follows(vec![
        FollowInfo { to_id: s("1"), to_login: s("one"), to_name: s("One"), followed_at: s("d1") },
        FollowInfo { to_id: s("2"), to_login: s("two"), to_name: s("Two"), followed_at: s("d2") },
    ]);
    assert_eq!(app.tfollow_list.len(), 2);
    assert_eq!(app.tfollow_list[1].id_num, "2");
    assert_eq!(app.tfollow_list[1].id_str, "two");
    assert_eq!(app.tfollow_list[1].nick_name, "Two");
    assert_eq!(app.tfollow_list[1].followed_at, "d2");
    assert!(!app.tfollow_list[1].chat && !app.tfollow_list[1].view);

    app.toggle_chat(1);
    assert!(app.tfollow_list[1].chat && !app.tfollow_list[0].chat);
    app.toggle_chat(1);
    assert!(!app.tfollow_list[1].chat);

    app.expire_twitch_login(5);
    assert!(app.token.twitch_use);
    app.expire_twitch_login(0);
    assert!(!app.token.twitch_use);

    app.record_twitch_login(s("tok2"), &login);
    app.logout_twitch();
    assert!(!app.token.twitch_use);
    assert_eq!(app.token.twitch_token, "tok2");
}

#[test]
fn stored_account_configs() {
    let mut app = app_with_key("KEY");
    app.twitch_config = TwitchConfig { id: s("id"), password: s("pw"), client_id: s("cid"), client_secret: s("cs") };
    let t = app.twitch_config_to_store();
    assert_eq!((t.id.as_str(), t.password.as_str(), t.client_id.as_str(), t.client_secret.as_str()), ("id", "pw", "cid", "cs"));
    app.youtube_config = YoutubeConfig { id: s("yid"), password: s("ypw") };
    let y = app.youtube_config_to_store();
    assert_eq!((y.id.as_str(), y.password.as_str()), ("id", "pw"));
}

#[test]
fn counters_tick() {
    assert_eq!(tick_uptime(0), 1);
    assert_eq!(tick_uptime(-5), -4);
    assert_eq!(tick_token_time(10), 9);
    assert_eq!(tick_token_time(1), 0);
    assert_eq!(tick_token_time(0), 0);
    let mut t = 3u64;
    for _ in 0..10 {
        t = tick_token_time(t);
    }
    assert_eq!(t, 0);
}

#[test]
fn stream_address() {
    assert_eq!(stream_url("somechannel"), "https://www.twitch.tv/somechannel");
}

#[test]
fn system_files() {
    let sys = System::new("/etc/pacman.conf", "pacman", true);
    assert_eq!(sys.menu(), "pacman : ");
    assert!(sys.used && sys.opendoc());
    assert_eq!(sys.path, "/etc/pacman.conf");
    let info = MyInfo::new([true, false, true, false]);
    assert_eq!(info.list.len(), 4);
    assert_eq!(info.list[0].sysname, "system.conf");
    assert_eq!(info.list[0].path, "/etc/systemd/system.conf");
    assert!(info.list[0].used && !info.list[1].used);
    assert_eq!(info.list[3].menu(), "vfio : ");
    let files = MyInfo::watched_files();
    assert_eq!(files.len(), 4);
    for (i, (path, name)) in files.iter().enumerate() {
        assert_eq!(info.list[i].path, *path);
        assert_eq!(info.list[i].sysname, *name);
    }
}

#[test]
fn headline_request_from_settings() {
    let config = NewsConfig { api_key: s("KEY"), current_page: 4, page_line: 15 };
    let api = config.news_api();
    assert_eq!(api.query(), yumd::news::NewsApi::new("kr", 15, 4).query());
    assert_eq!(api.query()[0].1, "kr");
    assert_eq!(api.query()[2].1, "15");
    assert_eq!(api.query()[3].1, "4");
}

#[test]
fn twitch_login_steps() {
    let mut app = app_with_key("KEY");
    app.twitch_config = TwitchConfig { id: s("me"), password: s("pw"), client_id: s("cid"), client_secret: s("cs") };
    let token = TwitchToken::new_token(s("tok"), s("bearer"), 100);
    match app.twitch_login_step(TwitchLoginEvent::TokenIssued(token)) {
        TwitchLoginAction::LookUpUser { login, token, client_id } => {
            assert_eq!((login.as_str(), token.as_str(), client_id.as_str()), ("me", "tok", "cid"));
        }
        _ => panic!("expected a user lookup"),
    }
    assert_eq!(app.token.twitch_token, "tok");
    assert!(!app.token.twitch_use);
    let found = TwitchRespone { data: vec![TwitchInfo::new(s("42"), s("me"), s("Me"), s("2019"))] };
    match app.twitch_login_step(TwitchLoginEvent::UserFound(found)) {
        TwitchLoginAction::ListFollows { user_id, token, client_id } => {
            assert_eq!((user_id.as_str(), token.as_str(), client_id.as_str()), ("42", "tok", "cid"));
        }
        _ => panic!("expected a follow list request"),
    }
    assert!(app.token.twitch_use);
    assert_eq!(app.token.twitch_nick, "Me");
    let follows = vec![FollowInfo { to_id: s("1"), to_login: s("one"), to_name: s("One"), followed_at: s("d") }];
    assert!(matches!(app.twitch_login_step(TwitchLoginEvent::FollowsListed(follows)), TwitchLoginAction::Finished));
    assert_eq!(app.tfollow_list.len(), 1);
    assert_eq!(app.tfollow_list[0].id_str, "one");
}

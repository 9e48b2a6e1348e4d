use yumd::decimal::u32_to_decimal;
use yumd::news::{
    author_default, date_default, url_default, Article, Country, NewsAPIResponse, NewsApi,
};
use yumd::urls::{absolute_url, append_segment, UrlError};

#[test]
fn decimal_matches_to_string() {
    for n in [0u32, 1, 9, 10, 11, 19, 20, 99, 100, 101, 1000, 4096, 65535, 123456789, u32::MAX] {
        assert_eq!(u32_to_decimal(n), n.to_string());
    }
}

#[test]
fn decimal_exact_values() {
    assert_eq!(u32_to_decimal(0), "0");
    assert_eq!(u32_to_decimal(20), "20");
    assert_eq!(u32_to_decimal(4294967295), "4294967295");
}

#[test]
fn defaults_fill_missing_fields() {
    assert_eq!(author_default(None), "Noauthor");
    assert_eq!(url_default(None), "NoUrl");
    assert_eq!(date_default(None), "NoUrl");
    assert_eq!(author_default(Some("Kim".to_string())), "Kim");
    assert_eq!(url_default(Some("https://a.b/c".to_string())), "https://a.b/c");
    assert_eq!(date_default(Some("2023-05-01T10:00:00Z".to_string())), "2023-05-01T10:00:00Z");
}

#[test]
fn article_fields() {
    let a = Article::new(
        "Kim".to_string(),
        "Title".to_string(),
        "https://x.y/z".to_string(),
        "2023-05-01T10:00:00Z".to_string(),
    );
    assert_eq!(a.author(), "Kim");
    assert_eq!(a.title, "Title");
    assert_eq!(a.url, "https://x.y/z");
    assert_eq!(a.publishedAt, "2023-05-01T10:00:00Z");
}

#[test]
fn response_fields() {
    let a = Article::new("A".to_string(), "T".to_string(), "U".to_string(), "2023-01-01".to_string());
    let r = NewsAPIResponse::new("ok".to_string(), 38, vec![a]);
    assert_eq!(r.totalResults, 38);
    assert_eq!(r.total_results(), 38);
    assert_eq!(r.status(), "ok");
    assert_eq!(r.articles().len(), 1);
    assert_eq!(r.articles()[0].title, "T");
}

#[test]
fn country_codes() {
    assert_eq!(Country::Kr.to_string(), "kr");
    assert_eq!(Country::Us.to_string(), "us");
}

#[test]
fn news_query_carries_settings() {
    let api = NewsApi::new("kr", 20, 3);
    let q = api.query();
    let expected = vec![
        ("country".to_string(), "kr".to_string()),
        ("sortBy".to_string(), "popularity".to_string()),
        ("pageSize".to_string(), "20".to_string()),
        ("page".to_string(), "3".to_string()),
    ];
    assert_eq!(q, expected);
}

#[test]
fn news_update_replaces_settings() {
    let mut api = NewsApi::new("kr", 20, 3);
    api.update("us", 5, 12);
    let fresh = NewsApi::new("us", 5, 12);
    assert_eq!(api.query(), fresh.query());
    assert_eq!(api.query()[2].1, "5");
    assert_eq!(api.query()[3].1, "12");
    assert_eq!(api.request_url().ok(), fresh.request_url().ok());
}

#[test]
fn news_headers() {
    let api = NewsApi::new("kr", 1, 1);
    let h = api.headers("api/0.1.0", "KEY".to_string());
    assert_eq!(
        h,
        vec![
            ("User-Agent".to_string(), "api/0.1.0".to_string()),
            ("Authorization".to_string(), "KEY".to_string()),
        ]
    );
}

#[test]
fn news_request_url() {
    let api = NewsApi::new("kr", 20, 1);
    assert_eq!(api.request_url().ok().unwrap(), "https://newsapi.org/v2/top-headlines");
}

#[test]
fn absolute_url_parses_and_refuses() {
    assert_eq!(absolute_url("https://newsapi.org/v2").ok().unwrap(), "https://newsapi.org/v2");
    assert_eq!(absolute_url("HTTPS://Example.COM").ok().unwrap(), "https://example.com/");
    assert!(matches!(absolute_url("no scheme here"), Err(UrlError::UrlParsing(_))));
    assert!(matches!(absolute_url(""), Err(UrlError::UrlParsing(_))));
}

#[test]
fn append_segment_encodes_and_refuses() {
    assert_eq!(append_segment("https://a.org/v2", "top-headlines").ok().unwrap(), "https://a.org/v2/top-headlines");
    assert_eq!(append_segment("https://a.org/", "a b/c").ok().unwrap(), "https://a.org/a%20b%2Fc");
    assert!(matches!(append_segment("mailto:someone@example.com", "x"), Err(UrlError::CannotBeABase)));
    assert!(matches!(append_segment("not a url", "x"), Err(UrlError::UrlParsing(_))));
    assert!(matches!(append_segment("HTTPS://A.org/v2", "x"), Err(UrlError::NotSerialized)));
    assert!(matches!(append_segment("https://a.org/v2 ", "x"), Err(UrlError::NotSerialized)));
}

#[test]
fn decimal_reads_back() {
    for n in [0u32, 7, 10, 305, 99999, 1_000_000, u32::MAX - 1] {
        assert_eq!(u32_to_decimal(n).parse::<u32>().unwrap(), n);
        assert!(u32_to_decimal(n).chars().all(|c| c.is_ascii_digit()));
    }
}

#[test]
fn query_numbers_read_back() {
    let q = NewsApi::new("us", 37, 4051).query();
    assert_eq!(q[2].1.parse::<u32>().unwrap(), 37);
    assert_eq!(q[3].1.parse::<u32>().unwrap(), 4051);
}

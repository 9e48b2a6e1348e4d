//! Headlines from the news API: the response, its articles, and the request
//! that asks for one page of them.

use vstd::prelude::*;
use vstd::string::StringExecFns;

use crate::decimal::{decimal, decimal_value, lemma_decimal_value, u32_to_decimal};
use crate::urls::{
    absolute_url, append_outcome, append_segment, parsed_url, UrlError,
};

verus! {

/// What the news API answers for one page of headlines.
#[allow(non_snake_case)]
pub struct NewsAPIResponse {
    status: String,
    pub totalResults: u32,
    articles: Vec<Article>,
}

/// A list of articles.
pub struct Articles {
    pub articles: Vec<Article>,
}

/// One headline. A missing author, address or publication time is replaced
/// by a placeholder when the response is read (see `author_default`,
/// `url_default` and `date_default`).
#[allow(non_snake_case)]
pub struct Article {
    author: String,
    pub title: String,
    pub url: String,
    pub publishedAt: String,
}

/// The author written when the response has none.
pub open spec fn no_author() -> Seq<char> {
    "Noauthor"@
}

/// The address (and, as the API client writes it, the publication time)
/// written when the response has none.
pub open spec fn no_url() -> Seq<char> {
    "NoUrl"@
}

/// `x`'s text, or `default` where there is none.
pub open spec fn text_or(x: Option<String>, default: Seq<char>) -> Seq<char> {
    match x {
        Some(s) => s@,
        None => default,
    }
}

/// The author as read from the response: "Noauthor" where it is null.
pub fn author_default(x: Option<String>) -> (res: String)
    ensures
        res@ == text_or(x, no_author()),
{
    match x {
        Some(s) => s,
        None => String::from_str("Noauthor"),
    }
}

/// The address as read from the response: "NoUrl" where it is null.
pub fn url_default(x: Option<String>) -> (res: String)
    ensures
        res@ == text_or(x, no_url()),
{
    match x {
        Some(s) => s,
        None => String::from_str("NoUrl"),
    }
}

/// The publication time as read from the response: "NoUrl" where it is null
/// (the same placeholder as for a missing address).
pub fn date_default(x: Option<String>) -> (res: String)
    ensures
        res@ == text_or(x, no_url()),
{
    match x {
        Some(s) => s,
        None => String::from_str("NoUrl"),
    }
}

/// The text of an article's fields.
pub struct ArticleView {
    pub author: Seq<char>,
    pub title: Seq<char>,
    pub url: Seq<char>,
    pub published_at: Seq<char>,
}

impl View for Article {
    type V = ArticleView;

    closed spec fn view(&self) -> ArticleView {
        ArticleView {
            author: self.author@,
            title: self.title@,
            url: self.url@,
            published_at: self.publishedAt@,
        }
    }
}

impl Article {
    /// An article with the given fields.
    #[allow(non_snake_case)]
    pub fn new(author: String, title: String, url: String, publishedAt: String) -> (res: Article)
        ensures
            res@ == (ArticleView {
                author: author@,
                title: title@,
                url: url@,
                published_at: publishedAt@,
            }),
    {
        Article { author, title, url, publishedAt }
    }

    /// The author's name.
    pub fn author(&self) -> (res: &String)
        ensures
            res@ == self@.author,
    {
        &self.author
    }

    /// The title.
    pub fn title(&self) -> (res: &String)
        ensures
            res@ == self@.title,
    {
        &self.title
    }

    /// The address of the article.
    pub fn url(&self) -> (res: &String)
        ensures
            res@ == self@.url,
    {
        &self.url
    }

    /// The publication time.
    pub fn published_at(&self) -> (res: &String)
        ensures
            res@ == self@.published_at,
    {
        &self.publishedAt
    }
}

/// The text of a response.
pub struct NewsResponseView {
    pub status: Seq<char>,
    pub total_results: u32,
    pub articles: Seq<ArticleView>,
}

/// The text of a sequence of articles.
pub open spec fn articles_view(articles: Seq<Article>) -> Seq<ArticleView> {
    articles.map_values(|a: Article| a@)
}

impl View for NewsAPIResponse {
    type V = NewsResponseView;

    closed spec fn view(&self) -> NewsResponseView {
        NewsResponseView {
            status: self.status@,
            total_results: self.totalResults,
            articles: articles_view(self.articles@),
        }
    }
}

impl NewsAPIResponse {
    /// A response with the given fields.
    #[allow(non_snake_case)]
    pub fn new(status: String, totalResults: u32, articles: Vec<Article>) -> (res: NewsAPIResponse)
        ensures
            res@ == (NewsResponseView {
                status: status@,
                total_results: totalResults,
                articles: articles_view(articles@),
            }),
    {
        NewsAPIResponse { status, totalResults, articles }
    }

    /// The articles of the page, in the order of the response.
    pub fn articles(&self) -> (res: &Vec<Article>)
        ensures
            articles_view(res@) == self@.articles,
    {
        &self.articles
    }

    /// The status the API reported.
    pub fn status(&self) -> (res: &String)
        ensures
            res@ == self@.status,
    {
        &self.status
    }

    /// The number of results the API reported.
    pub fn total_results(&self) -> (res: u32)
        ensures
            res == self@.total_results,
    {
        self.totalResults
    }
}

/// A country the news API can be asked about.
pub enum Country {
    Kr,
    Us,
}

/// The country code that the API takes for `c`.
pub open spec fn country_code(c: Country) -> Seq<char> {
    match c {
        Country::Kr => "kr"@,
        Country::Us => "us"@,
    }
}

impl Country {
    /// The country code that the API takes: "kr" or "us".
    pub fn to_string(&self) -> (res: String)
        ensures
            res@ == country_code(*self),
    {
        match self {
            Country::Kr => String::from_str("kr"),
            Country::Us => String::from_str("us"),
        }
    }
}

/// The settings of a headline request, as text.
pub struct NewsApiView {
    pub base_url: Seq<char>,
    pub country: Seq<char>,
    pub total_page: Seq<char>,
    pub current_page: Seq<char>,
}

/// The address of the news API.
pub open spec fn news_base_url() -> Seq<char> {
    "https://newsapi.org/v2"@
}

/// The path segment of the headline endpoint.
pub open spec fn headlines_segment() -> Seq<char> {
    "top-headlines"@
}

/// A request for one page of headlines: the country, the page size and the
/// page number, kept as the text the query carries.
#[allow(non_snake_case)]
pub struct NewsApi {
    base_url: String,
    Country: String,
    total_page: String,
    current_page: String,
}

impl NewsApi {
    /// Every request goes to the news API's address.
    #[verifier::type_invariant]
    closed spec fn addressed_to_news_api(self) -> bool {
        self.base_url@ == news_base_url()
    }
}

impl View for NewsApi {
    type V = NewsApiView;

    closed spec fn view(&self) -> NewsApiView {
        NewsApiView {
            base_url: self.base_url@,
            country: self.Country@,
            total_page: self.total_page@,
            current_page: self.current_page@,
        }
    }
}

/// The request settings for `country`, pages of `total_page` articles, page
/// `current_page`, with the numbers in decimal.
pub open spec fn news_request(country: Seq<char>, total_page: u32, current_page: u32) -> NewsApiView {
    NewsApiView {
        base_url: news_base_url(),
        country,
        total_page: decimal(total_page as nat),
        current_page: decimal(current_page as nat),
    }
}

/// The query of a headline request: country, order, page size and page.
pub open spec fn news_query(v: NewsApiView) -> Seq<(Seq<char>, Seq<char>)> {
    seq![
        ("country"@, v.country),
        ("sortBy"@, "popularity"@),
        ("pageSize"@, v.total_page),
        ("page"@, v.current_page),
    ]
}

/// The text of a list of name/value pairs.
pub open spec fn pairs_view(v: Seq<(String, String)>) -> Seq<(Seq<char>, Seq<char>)> {
    v.map_values(|p: (String, String)| (p.0@, p.1@))
}

/// The headers of a headline request: the client's name and the API key.
pub open spec fn news_headers(user_agent: Seq<char>, api_key: Seq<char>) -> Seq<(Seq<char>, Seq<char>)> {
    seq![("User-Agent"@, user_agent), ("Authorization"@, api_key)]
}

/// A name/value pair of owned strings.
pub fn pair(name: &str, value: &str) -> (res: (String, String))
    ensures
        res.0@ == name@,
        res.1@ == value@,
{
    (String::from_str(name), String::from_str(value))
}

impl NewsApi {
    /// A request for page `current_page` of the headlines of `country`, with
    /// `total_page` articles a page.
    pub fn new(country: &str, total_page: u32, current_page: u32) -> (res: NewsApi)
        ensures
            res@ == news_request(country@, total_page, current_page),
    {
        NewsApi {
            base_url: String::from_str("https://newsapi.org/v2"),
            Country: String::from_str(country),
            total_page: u32_to_decimal(total_page),
            current_page: u32_to_decimal(current_page),
        }
    }

    /// Sets the country, the page size and the page: the request is then
    /// the one that `new` makes for these settings, whatever it was before.
    pub fn update(&mut self, country: &str, total_page: u32, current_page: u32)
        ensures
            final(self)@ == news_request(country@, total_page, current_page),
    {
        proof {
            use_type_invariant(&*self);
        }
        self.Country = String::from_str(country);
        self.total_page = u32_to_decimal(total_page);
        self.current_page = u32_to_decimal(current_page);
    }

    /// The query parameters, in the order the request sends them.
    pub fn query(&self) -> (res: Vec<(String, String)>)
        ensures
            pairs_view(res@) == news_query(self@),
    {
        let mut v: Vec<(String, String)> = Vec::new();
        v.push((String::from_str("country"), self.Country.clone()));
        v.push(pair("sortBy", "popularity"));
        v.push((String::from_str("pageSize"), self.total_page.clone()));
        v.push((String::from_str("page"), self.current_page.clone()));
        assert(pairs_view(v@) =~= news_query(self@));
        v
    }

    /// The request headers: `user_agent` and the API key.
    pub fn headers(&self, user_agent: &str, api_key: String) -> (res: Vec<(String, String)>)
        ensures
            pairs_view(res@) == news_headers(user_agent@, api_key@),
    {
        let mut v: Vec<(String, String)> = Vec::new();
        v.push(pair("User-Agent", user_agent));
        v.push((String::from_str("Authorization"), api_key));
        assert(pairs_view(v@) =~= news_headers(user_agent@, api_key@));
        v
    }

    /// The address of the headline endpoint: the base address with the
    /// segment "top-headlines" appended.
    pub fn request_url(&self) -> (res: Result<String, UrlError>)
        ensures
            match parsed_url(news_base_url()) {
                None => (res matches Err(e) && e is UrlParsing),
                Some(b) => append_outcome(b, headlines_segment(), res),
            },
    {
        proof {
            use_type_invariant(self);
        }
        let base = absolute_url(self.base_url.as_str())?;
        append_segment(base.as_str(), "top-headlines")
    }
}

/// The page size and the page number that a request sends read back as
/// the numbers it was made with.
pub proof fn lemma_query_numbers_read_back(country: Seq<char>, total_page: u32, current_page: u32)
    ensures
        decimal_value(news_query(news_request(country, total_page, current_page))[2].1) == total_page,
        decimal_value(news_query(news_request(country, total_page, current_page))[3].1) == current_page,
{
    lemma_decimal_value(total_page as nat);
    lemma_decimal_value(current_page as nat);
}

} // verus!

//! The dashboard's state: the news settings and cards, the Twitch login and
//! follow list, the settings windows, and the per-second counters.

use vstd::prelude::*;
use vstd::string::{StringExecFns, StringSliceAdditionalSpecFns};
use vstd::utf8::*;

use crate::news::{articles_view, news_request, Article, ArticleView, NewsAPIResponse, NewsApi};
use crate::twitch::{FollowInfo, TwitchRespone, TwitchToken};

verus! {

broadcast use group_utf8_lib;

/// The news settings that are kept between runs.
pub struct NewsConfig {
    pub api_key: String,
    pub current_page: u32,
    pub page_line: u32,
}

/// The page that "previous" leads to from `page`: one less, but page 1 stays.
pub open spec fn page_before(page: u32) -> u32 {
    if page != 1 { (page - 1) as u32 } else { page }
}

/// The page that "next" leads to from `page`.
pub open spec fn page_after(page: u32) -> u32 {
    (page + 1) as u32
}

impl NewsConfig {
    /// Empty settings: no key, page 0, no page size.
    pub fn new() -> (res: NewsConfig)
        ensures
            res.api_key@ == Seq::<char>::empty(),
            res.current_page == 0,
            res.page_line == 0,
    {
        NewsConfig { current_page: 0, page_line: 0, api_key: String::new() }
    }

    /// The headline request these settings ask for: the headlines of Korea,
    /// `page_line` articles a page, page `current_page`.
    pub fn news_api(&self) -> (res: NewsApi)
        ensures
            res@ == news_request("kr"@, self.page_line, self.current_page),
    {
        NewsApi::new("kr", self.page_line, self.current_page)
    }

    /// The settings stored when an API key is entered: the key, page 1, and
    /// twenty articles a page.
    pub fn stored_with_key(api_key: &str) -> (res: NewsConfig)
        ensures
            res.api_key@ == api_key@,
            res.current_page == 1,
            res.page_line == 20,
    {
        NewsConfig { current_page: 1, page_line: 20, api_key: String::from_str(api_key) }
    }

    /// Moves to the previous page, except from page 1; tells whether the
    /// page changed (and the headlines are to be fetched again).
    pub fn previous_page(&mut self) -> (changed: bool)
        requires
            old(self).current_page >= 1,
        ensures
            changed == (old(self).current_page != 1),
            final(self).current_page == page_before(old(self).current_page),
            old(self).current_page != 1 ==> final(self).current_page == old(self).current_page - 1,
            old(self).current_page == 1 ==> final(self).current_page == 1,
            final(self).page_line == old(self).page_line,
            final(self).api_key == old(self).api_key,
    {
        if self.current_page != 1 {
            self.current_page = self.current_page - 1;
            true
        } else {
            false
        }
    }

    /// Moves to the next page.
    pub fn next_page(&mut self)
        requires
            old(self).current_page < u32::MAX,
        ensures
            final(self).current_page == page_after(old(self).current_page),
            final(self).current_page == old(self).current_page + 1,
            final(self).page_line == old(self).page_line,
            final(self).api_key == old(self).api_key,
    {
        self.current_page = self.current_page + 1;
    }
}

/// "Next" and then "previous" come back to the page they started from.
pub proof fn lemma_next_then_previous(page: u32)
    requires
        1 <= page < u32::MAX,
    ensures
        page_before(page_after(page)) == page,
{
}

/// "Previous" and then "next" come back to the page they started from,
/// except on page 1, where "previous" does nothing.
pub proof fn lemma_previous_then_next(page: u32)
    requires
        1 < page,
    ensures
        page_after(page_before(page)) == page,
{
}

/// "Previous" never leaves the pages that start at 1.
pub proof fn lemma_previous_stays_positive(page: u32)
    requires
        1 <= page,
    ensures
        1 <= page_before(page) <= page,
{
}

/// The Twitch account settings.
pub struct TwitchConfig {
    pub id: String,
    pub password: String,
    pub client_id: String,
    pub client_secret: String,
}

/// The YouTube account settings.
pub struct YoutubeConfig {
    pub id: String,
    pub password: String,
}

impl TwitchConfig {
    /// Empty settings.
    pub fn new() -> (res: TwitchConfig)
        ensures
            res.id@ == Seq::<char>::empty(),
            res.password@ == Seq::<char>::empty(),
            res.client_id@ == Seq::<char>::empty(),
            res.client_secret@ == Seq::<char>::empty(),
    {
        TwitchConfig {
            id: String::new(),
            password: String::new(),
            client_id: String::new(),
            client_secret: String::new(),
        }
    }
}

impl YoutubeConfig {
    /// Empty settings.
    pub fn new() -> (res: YoutubeConfig)
        ensures
            res.id@ == Seq::<char>::empty(),
            res.password@ == Seq::<char>::empty(),
    {
        YoutubeConfig { id: String::new(), password: String::new() }
    }
}

/// The logins in use: the Twitch user and token, and the YouTube token.
pub struct Token {
    pub twitch_id: String,
    pub twitch_nick: String,
    pub twitch_date: String,
    pub twitch_token: String,
    pub twitch_use: bool,
    pub youtubu_token: String,
    pub youtubu_use: bool,
}

impl Token {
    /// No login.
    pub fn new() -> (res: Token)
        ensures
            res.twitch_id@ == Seq::<char>::empty(),
            res.twitch_nick@ == Seq::<char>::empty(),
            res.twitch_date@ == Seq::<char>::empty(),
            res.twitch_token@ == Seq::<char>::empty(),
            !res.twitch_use,
            res.youtubu_token@ == Seq::<char>::empty(),
            !res.youtubu_use,
    {
        Token {
            twitch_id: String::new(),
            twitch_nick: String::new(),
            twitch_date: String::new(),
            twitch_token: String::new(),
            twitch_use: false,
            youtubu_token: String::new(),
            youtubu_use: false,
        }
    }
}

/// Which settings window is shown.
#[allow(non_camel_case_types)]
#[derive(PartialEq, Eq, Structural, Clone, Copy)]
pub enum OpenSetting {
    twitch,
    youtube,
}

/// A headline as the dashboard lists it: the title, the link and the day.
#[allow(non_snake_case)]
pub struct NewsCardData {
    pub title: String,
    pub url: String,
    pub publishedAt: String,
}

/// The text of a headline card.
pub struct NewsCardView {
    pub title: Seq<char>,
    pub url: Seq<char>,
    pub published_at: Seq<char>,
}

impl View for NewsCardData {
    type V = NewsCardView;

    open spec fn view(&self) -> NewsCardView {
        NewsCardView { title: self.title@, url: self.url@, published_at: self.publishedAt@ }
    }
}

/// Whether the first ten bytes of the UTF-8 encoding of `s` end on a
/// character boundary (so that they can be cut off without splitting a
/// character; false where `s` is shorter than ten bytes).
pub open spec fn date_splittable(s: Seq<char>) -> bool {
    is_char_boundary(encode_utf8(s), 10)
}

/// The characters that the first ten bytes of `s` encode: the date of an
/// ISO 8601 timestamp.
pub open spec fn date_prefix(s: Seq<char>) -> Seq<char> {
    decode_utf8(encode_utf8(s).subrange(0, 10))
}

/// The card for an article.
pub open spec fn card_of(a: ArticleView) -> NewsCardView {
    NewsCardView { title: a.title, url: a.url, published_at: date_prefix(a.published_at) }
}

/// The cards for a sequence of articles, in order.
pub open spec fn cards_of(articles: Seq<ArticleView>) -> Seq<NewsCardView> {
    articles.map_values(|a: ArticleView| card_of(a))
}

/// The text of a sequence of cards.
pub open spec fn cards_view(cards: Seq<NewsCardData>) -> Seq<NewsCardView> {
    cards.map_values(|c: NewsCardData| c@)
}

/// Whether every article's publication time can be cut to its date.
pub open spec fn dates_splittable(articles: Seq<ArticleView>) -> bool {
    forall|i: int| 0 <= i < articles.len() ==> date_splittable(#[trigger] articles[i].published_at)
}

/// The date of a card is where the publication time starts, and it takes
/// ten bytes.
pub proof fn lemma_date_prefix(s: Seq<char>)
    requires
        date_splittable(s),
    ensures
        date_prefix(s).is_prefix_of(s),
        encode_utf8(date_prefix(s)).len() == 10,
{
    let bytes = encode_utf8(s);
    assert(bytes.len() >= 10);
    decode_utf8_split(bytes, 10);
    valid_utf8_split(bytes, 10);
    let d = date_prefix(s);
    let rest = decode_utf8(bytes.subrange(10, bytes.len() as int));
    assert(s == d + rest);
    assert(d.len() <= s.len());
    assert forall|i: int| 0 <= i < d.len() implies d[i] == s[i] by {
        assert((d + rest)[i] == d[i]);
    }
    assert(encode_utf8(d) == bytes.subrange(0, 10));
}

impl NewsCardData {
    /// The card for `a`: its title, its link, and the first ten bytes of its
    /// publication time (the date).
    pub fn from_article(a: &Article) -> (res: NewsCardData)
        requires
            date_splittable(a@.published_at),
        ensures
            res@ == card_of(a@),
    {
        let published = a.published_at().as_str();
        let (first, _last) = published.split_at(10);
        proof {
            assert(first@ == decode_utf8(first.spec_bytes()));
        }
        NewsCardData {
            title: a.title().clone(),
            url: a.url().clone(),
            publishedAt: String::from_str(first),
        }
    }
}

/// Whether every article's publication time can be cut to its date.
pub fn all_dates_splittable(articles: &Vec<Article>) -> (ok: bool)
    ensures
        ok == dates_splittable(articles_view(articles@)),
{
    let n = articles.len();
    for i in 0..n
        invariant
            n == articles@.len(),
            forall|j: int| 0 <= j < i ==> date_splittable(#[trigger] articles_view(articles@)[j].published_at),
    {
        if !articles[i].published_at().as_str().is_char_boundary(10) {
            assert(!date_splittable(articles_view(articles@)[i as int].published_at));
            return false;
        }
    }
    true
}

/// Appends the cards for `articles` to `cards`.
fn push_cards(cards: &mut Vec<NewsCardData>, articles: &Vec<Article>)
    requires
        dates_splittable(articles_view(articles@)),
    ensures
        cards_view(final(cards)@) == cards_view(old(cards)@) + cards_of(articles_view(articles@)),
{
    let n = articles.len();
    let ghost start = cards_view(cards@);
    let ghost src = articles_view(articles@);
    for i in 0..n
        invariant
            n == articles@.len(),
            src == articles_view(articles@),
            dates_splittable(src),
            cards_view(cards@) == start + cards_of(src.take(i as int)),
    {
        assert(date_splittable(src[i as int].published_at));
        let card = NewsCardData::from_article(&articles[i]);
        let ghost before = cards@;
        let ghost card_view = card@;
        cards.push(card);
        assert(cards_view(cards@) =~= cards_view(before).push(card_view));
        assert(src.take(i + 1) =~= src.take(i as int).push(src[i as int]));
        assert(cards_of(src.take(i + 1)) =~= cards_of(src.take(i as int)).push(card_of(src[i as int])));
        assert(cards_view(cards@) =~= start + cards_of(src.take(i + 1)));
    }
    assert(src.take(n as int) =~= src);
}

/// A followed channel as the dashboard lists it: id, login, name, when it
/// was followed, and whether its video and its chat are open.
pub struct TwitchFollowInfo {
    pub id_num: String,
    pub id_str: String,
    pub nick_name: String,
    pub followed_at: String,
    pub view: bool,
    pub chat: bool,
}

/// The text of a listed channel.
pub struct TwitchFollowView {
    pub id_num: Seq<char>,
    pub id_str: Seq<char>,
    pub nick_name: Seq<char>,
    pub followed_at: Seq<char>,
    pub view: bool,
    pub chat: bool,
}

impl View for TwitchFollowInfo {
    type V = TwitchFollowView;

    open spec fn view(&self) -> TwitchFollowView {
        TwitchFollowView {
            id_num: self.id_num@,
            id_str: self.id_str@,
            nick_name: self.nick_name@,
            followed_at: self.followed_at@,
            view: self.view,
            chat: self.chat,
        }
    }
}

/// The listed entry for a followed channel: closed video, closed chat.
pub open spec fn follow_entry(f: FollowInfo) -> TwitchFollowView {
    TwitchFollowView {
        id_num: f.to_id@,
        id_str: f.to_login@,
        nick_name: f.to_name@,
        followed_at: f.followed_at@,
        view: false,
        chat: false,
    }
}

/// The text of a list of channels.
pub open spec fn follows_view(list: Seq<TwitchFollowInfo>) -> Seq<TwitchFollowView> {
    list.map_values(|f: TwitchFollowInfo| f@)
}

/// The list with the chat of entry `i` opened or closed.
pub open spec fn chat_toggled(list: Seq<TwitchFollowView>, i: int) -> Seq<TwitchFollowView> {
    list.update(i, TwitchFollowView { chat: !list[i].chat, ..list[i] })
}

/// Opening and then closing a chat (or the other way round) leaves the list
/// as it was.
pub proof fn lemma_chat_toggle_twice(list: Seq<TwitchFollowView>, i: int)
    requires
        0 <= i < list.len(),
    ensures
        chat_toggled(chat_toggled(list, i), i) == list,
{
    assert(chat_toggled(chat_toggled(list, i), i) =~= list);
}

/// The dashboard's state.
#[allow(non_snake_case)]
pub struct MyApp {
    pub date: bool,
    pub setting_menu_open: bool,
    pub on_setting_menu: OpenSetting,
    pub has_next: bool,
    pub open_win_name: String,
    pub open_win_code: String,
    pub articles: Vec<NewsCardData>,
    pub tfollow_list: Vec<TwitchFollowInfo>,
    pub news_config: NewsConfig,
    pub youtube_config: YoutubeConfig,
    pub twitch_config: TwitchConfig,
    pub api_used: bool,
    pub totalResults: u32,
    pub token: Token,
}

/// The address of the stream of the channel `login`.
pub open spec fn stream_address(login: Seq<char>) -> Seq<char> {
    "https://www.twitch.tv/"@ + login
}

/// The seconds counter one second later.
pub open spec fn uptime_after_tick(seconds: i128) -> int {
    seconds + 1
}

/// The token's remaining seconds one second later: one less, down to 0.
pub open spec fn token_time_after_tick(remaining: u64) -> u64 {
    if remaining != 0 { (remaining - 1) as u64 } else { 0 }
}

/// The token's remaining seconds after `n` seconds.
pub open spec fn token_time_after(remaining: u64, n: nat) -> u64
    decreases n,
{
    if n == 0 {
        remaining
    } else {
        token_time_after_tick(token_time_after(remaining, (n - 1) as nat))
    }
}

/// The token's remaining seconds count down by one a second and then stay
/// at 0.
pub proof fn lemma_token_countdown(remaining: u64, n: nat)
    ensures
        token_time_after(remaining, n) == (if n >= remaining { 0 } else { remaining - n }),
    decreases n,
{
    if n > 0 {
        lemma_token_countdown(remaining, (n - 1) as nat);
    }
}

/// The seconds counter one second later.
pub fn tick_uptime(seconds: i128) -> (res: i128)
    requires
        seconds < i128::MAX,
    ensures
        res == uptime_after_tick(seconds),
        res == seconds + 1,
{
    seconds + 1
}

/// The token's remaining seconds one second later.
pub fn tick_token_time(remaining: u64) -> (res: u64)
    ensures
        res == token_time_after_tick(remaining),
{
    if remaining != 0 {
        remaining - 1
    } else {
        remaining
    }
}

/// The address of the stream of the channel `login`, which the video
/// button opens.
pub fn stream_url(login: &str) -> (res: String)
    ensures
        res@ == stream_address(login@),
{
    String::from_str("https://www.twitch.tv/").concat(login)
}



/// "Next" goes to the page one higher.
pub proof fn lemma_page_after_adds_one(page: u32)
    requires
        page < u32::MAX,
    ensures
        page_after(page) == page + 1,
{
}

/// "Previous" goes to the page one lower, and stays on page 1.
pub proof fn lemma_page_before_subtracts_one(page: u32)
    requires
        page >= 1,
    ensures
        page > 1 ==> page_before(page) == page - 1,
        page == 1 ==> page_before(page) == 1,
{
}

/// The seconds counter after `n` seconds.
pub open spec fn uptime_after(seconds: i128, n: nat) -> int
    decreases n,
{
    if n == 0 {
        seconds as int
    } else {
        let before = uptime_after(seconds, (n - 1) as nat);
        uptime_after_tick(before as i128)
    }
}

/// Each second adds exactly one to the counter: `n` seconds from `seconds`
/// give `seconds + n`, while that stays below `i128::MAX`.
pub proof fn lemma_uptime_counts_seconds(seconds: i128, n: nat)
    requires
        seconds + n <= i128::MAX,
    ensures
        uptime_after(seconds, n) == seconds + n,
    decreases n,
{
    if n > 0 {
        lemma_uptime_counts_seconds(seconds, (n - 1) as nat);
    }
}

/// Toggling a chat flips that entry's chat, keeps its other fields and the
/// length, and leaves every other entry as it was.
pub proof fn lemma_chat_toggle_touches_one(list: Seq<TwitchFollowView>, i: int)
    requires
        0 <= i < list.len(),
    ensures
        chat_toggled(list, i).len() == list.len(),
        chat_toggled(list, i)[i].chat == !list[i].chat,
        chat_toggled(list, i)[i].id_num == list[i].id_num,
        chat_toggled(list, i)[i].id_str == list[i].id_str,
        chat_toggled(list, i)[i].nick_name == list[i].nick_name,
        chat_toggled(list, i)[i].followed_at == list[i].followed_at,
        chat_toggled(list, i)[i].view == list[i].view,
        forall|j: int| 0 <= j < list.len() && j != i ==> #[trigger] chat_toggled(list, i)[j] == list[j],
{
}

/// A successful fetch keeps the cards already listed, in place, and puts the
/// response's cards after them, one per article in reply order.
pub proof fn lemma_news_appended(before: MyApp, after: MyApp, kept: Seq<NewsCardView>, r: &NewsAPIResponse)
    requires
        news_applied(before, after, kept, Some(r)),
    ensures
        cards_view(after.articles@).len() == kept.len() + r@.articles.len(),
        forall|i: int| 0 <= i < kept.len() ==> #[trigger] cards_view(after.articles@)[i] == kept[i],
        forall|k: int| 0 <= k < r@.articles.len()
            ==> cards_view(after.articles@)[kept.len() + k] == card_of(#[trigger] r@.articles[k]),
        after.totalResults == r@.total_results,
{
    let all = cards_view(after.articles@);
    assert forall|i: int| 0 <= i < kept.len() implies #[trigger] all[i] == kept[i] by {
        assert(all[i] == (kept + cards_of(r@.articles))[i]);
    }
    assert forall|k: int| 0 <= k < r@.articles.len()
        implies all[kept.len() + k] == card_of(#[trigger] r@.articles[k]) by {
        assert(all[kept.len() + k] == (kept + cards_of(r@.articles))[kept.len() + k]);
        assert(cards_of(r@.articles)[k] == card_of(r@.articles[k]));
    }
}

/// A card carries the article's title and link, and the characters of the
/// first ten bytes of its publication time.
pub proof fn lemma_card_of_fields(a: ArticleView)
    ensures
        card_of(a).title == a.title,
        card_of(a).url == a.url,
        encode_utf8(card_of(a).published_at) == encode_utf8(a.published_at).subrange(0, 10)
            || !date_splittable(a.published_at),
{
    if date_splittable(a.published_at) {
        lemma_date_prefix(a.published_at);
        let bytes = encode_utf8(a.published_at);
        valid_utf8_split(bytes, 10);
    }
}

/// Whether `t` holds no login.
pub open spec fn no_login(t: Token) -> bool {
    &&& t.twitch_id@ == Seq::<char>::empty()
    &&& t.twitch_nick@ == Seq::<char>::empty()
    &&& t.twitch_date@ == Seq::<char>::empty()
    &&& t.twitch_token@ == Seq::<char>::empty()
    &&& !t.twitch_use
    &&& t.youtubu_token@ == Seq::<char>::empty()
    &&& !t.youtubu_use
}

/// The state after a headline request: `response` where it succeeded, its
/// result count and, after the cards already there (`kept`), its cards.
pub open spec fn news_applied(
    before: MyApp,
    after: MyApp,
    kept: Seq<NewsCardView>,
    response: Option<&NewsAPIResponse>,
) -> bool {
    match response {
        None => {
            &&& cards_view(after.articles@) == kept
            &&& after == (MyApp { articles: after.articles, ..before })
        },
        Some(r) => {
            &&& cards_view(after.articles@) == kept + cards_of(r@.articles)
            &&& after.totalResults == r@.total_results
            &&& after == (MyApp { articles: after.articles, totalResults: after.totalResults, ..before })
        },
    }
}

/// Whether every article of a successful response can be cut to its date.
pub open spec fn response_splittable(response: Option<&NewsAPIResponse>) -> bool {
    response matches Some(r) ==> dates_splittable(r@.articles)
}

/// The state after "show code" with the title `name` and the text `code`.
pub open spec fn code_window_toggled(s: MyApp, name: String, code: String) -> MyApp {
    MyApp { has_next: !s.has_next, open_win_name: name, open_win_code: code, ..s }
}

/// The state after a click on the label of the settings window `which`.
pub open spec fn settings_toggled(s: MyApp, which: OpenSetting) -> MyApp {
    MyApp { on_setting_menu: which, setting_menu_open: !s.setting_menu_open, ..s }
}

/// Clicking the same settings label twice leaves the window as it was,
/// apart from which one is selected.
pub proof fn lemma_settings_toggle_twice(s: MyApp, which: OpenSetting)
    ensures
        settings_toggled(settings_toggled(s, which), which) == (MyApp { on_setting_menu: which, ..s }),
{
}

/// "Show code" twice on the same file closes the window it opened (or opens
/// the one it closed).
pub proof fn lemma_code_window_toggle_twice(s: MyApp, name: String, code: String)
    ensures
        code_window_toggled(code_window_toggled(s, name, code), name, code)
            == (MyApp { open_win_name: name, open_win_code: code, ..s }),
{
}

/// Refreshing twice with the same answer lists the same headlines and the
/// same result count as refreshing once.
pub proof fn lemma_refresh_idempotent(
    a: MyApp,
    b: MyApp,
    c: MyApp,
    response: Option<&NewsAPIResponse>,
)
    requires
        news_applied(a, b, Seq::empty(), response),
        news_applied(b, c, Seq::empty(), response),
    ensures
        cards_view(c.articles@) == cards_view(b.articles@),
        c.totalResults == b.totalResults,
{
}

impl MyApp {
    /// The state at start-up, with the stored settings: no window open, no
    /// cards, no login; the news list is shown where an API key is set.
    pub fn new(config: NewsConfig, twitch_config: TwitchConfig, youtube_config: YoutubeConfig) -> (res: MyApp)
        ensures
            !res.date,
            !res.setting_menu_open,
            res.on_setting_menu == OpenSetting::twitch,
            !res.has_next,
            res.api_used == (config.api_key@.len() != 0),
            res.open_win_name@ == "None"@,
            res.open_win_code@ == Seq::<char>::empty(),
            res.articles@.len() == 0,
            res.tfollow_list@.len() == 0,
            res.news_config == config,
            res.youtube_config == youtube_config,
            res.twitch_config == twitch_config,
            res.totalResults == 0,
            no_login(res.token),
    {
        let api_used = !config.api_key.as_str().is_empty();
        MyApp {
            date: false,
            setting_menu_open: false,
            on_setting_menu: OpenSetting::twitch,
            has_next: false,
            api_used,
            open_win_name: String::from_str("None"),
            open_win_code: String::new(),
            articles: Vec::new(),
            news_config: config,
            totalResults: 0,
            youtube_config,
            twitch_config,
            token: Token::new(),
            tfollow_list: Vec::new(),
        }
    }

    /// Adds the headlines of a response after those listed already; `None`
    /// (a failed request) changes nothing.
    pub fn fech_news(&mut self, response: Option<&NewsAPIResponse>)
        requires
            response_splittable(response),
        ensures
            news_applied(*old(self), *final(self), cards_view(old(self).articles@), response),
            response matches Some(r) ==> {
                &&& final(self).articles@.len() == old(self).articles@.len() + r@.articles.len()
                &&& forall|i: int| 0 <= i < old(self).articles@.len()
                    ==> (#[trigger] final(self).articles@[i])@ == old(self).articles@[i]@
                &&& forall|k: int| 0 <= k < r@.articles.len()
                    ==> final(self).articles@[old(self).articles@.len() + k]@ == card_of(#[trigger] r@.articles[k])
            },
    {
        let ghost old_cards = self.articles@;
        if let Some(r) = response {
            self.totalResults = r.total_results();
            push_cards(&mut self.articles, r.articles());
            proof {
                lemma_news_appended(*old(self), *self, cards_view(old_cards), r);
                assert forall|i: int| 0 <= i < old_cards.len()
                    implies (#[trigger] self.articles@[i])@ == old_cards[i]@ by {
                    assert(cards_view(self.articles@)[i] == self.articles@[i]@);
                    assert(cards_view(old_cards)[i] == old_cards[i]@);
                }
                assert forall|k: int| 0 <= k < r@.articles.len()
                    implies self.articles@[old_cards.len() + k]@ == card_of(#[trigger] r@.articles[k]) by {
                    assert(cards_view(self.articles@)[old_cards.len() + k] == self.articles@[old_cards.len() + k]@);
                }
            }
        }
    }

    /// Replaces the listed headlines with those of a response; `None` (a
    /// failed request) leaves the list empty.
    pub fn fech_newsupdate(&mut self, response: Option<&NewsAPIResponse>)
        requires
            response_splittable(response),
        ensures
            news_applied(*old(self), *final(self), Seq::empty(), response),
    {
        self.articles.clear();
        assert(cards_view(self.articles@) =~= Seq::<NewsCardView>::empty());
        if let Some(r) = response {
            self.totalResults = r.total_results();
            push_cards(&mut self.articles, r.articles());
        }
    }

    /// "Previous page": tells whether the page changed and the headlines are
    /// to be fetched again.
    pub fn previous_page(&mut self) -> (changed: bool)
        requires
            old(self).news_config.current_page >= 1,
        ensures
            changed == (old(self).news_config.current_page != 1),
            final(self).news_config.current_page == page_before(old(self).news_config.current_page),
            old(self).news_config.current_page != 1
                ==> final(self).news_config.current_page == old(self).news_config.current_page - 1,
            old(self).news_config.current_page == 1 ==> final(self).news_config.current_page == 1,
            *final(self) == (MyApp {
                news_config: NewsConfig { current_page: final(self).news_config.current_page, ..old(self).news_config },
                ..*old(self)
            }),
    {
        self.news_config.previous_page()
    }

    /// "Next page"; the headlines are to be fetched again.
    pub fn next_page(&mut self)
        requires
            old(self).news_config.current_page < u32::MAX,
        ensures
            final(self).news_config.current_page == page_after(old(self).news_config.current_page),
            final(self).news_config.current_page == old(self).news_config.current_page + 1,
            *final(self) == (MyApp {
                news_config: NewsConfig { current_page: final(self).news_config.current_page, ..old(self).news_config },
                ..*old(self)
            }),
    {
        self.news_config.next_page()
    }

    /// The news settings to store once an API key is entered.
    pub fn news_config_to_store(&self) -> (res: NewsConfig)
        ensures
            res.api_key@ == self.news_config.api_key@,
            res.current_page == 1,
            res.page_line == 20,
    {
        NewsConfig::stored_with_key(self.news_config.api_key.as_str())
    }

    /// "Show code" on a system file: opens or closes the code window, which
    /// shows `code` under the title `name`.
    pub fn toggle_code_window(&mut self, name: String, code: String)
        ensures
            *final(self) == code_window_toggled(*old(self), name, code),
    {
        self.has_next = !self.has_next;
        self.open_win_name = name;
        self.open_win_code = code;
    }

    /// Ends the Twitch login once the token has no time left.
    pub fn expire_twitch_login(&mut self, remaining: u64)
        ensures
            final(self).token.twitch_use == (old(self).token.twitch_use && remaining != 0),
            *final(self) == (MyApp {
                token: Token { twitch_use: final(self).token.twitch_use, ..old(self).token },
                ..*old(self)
            }),
    {
        if remaining == 0 {
            self.token.twitch_use = false;
        }
    }

    /// A click on "Twitch" or "YouTube": selects that settings window and
    /// opens or closes it.
    pub fn toggle_settings(&mut self, which: OpenSetting)
        ensures
            *final(self) == settings_toggled(*old(self), which),
    {
        self.on_setting_menu = which;
        self.setting_menu_open = !self.setting_menu_open;
    }

    /// "Logout": the Twitch login is no longer in use.
    pub fn logout_twitch(&mut self)
        ensures
            *final(self) == (MyApp { token: Token { twitch_use: false, ..old(self).token }, ..*old(self) }),
    {
        self.token.twitch_use = false;
    }

    /// Records a Twitch login: the token, and the id, display name and
    /// creation time of the first user that the lookup found.
    pub fn record_twitch_login(&mut self, access_token: String, login: &TwitchRespone)
        requires
            login.data@.len() > 0,
        ensures
            final(self).token.twitch_token == access_token,
            final(self).token.twitch_use,
            final(self).token.twitch_id@ == login.data@[0]@.id,
            final(self).token.twitch_nick@ == login.data@[0]@.display_name,
            final(self).token.twitch_date@ == login.data@[0]@.created_at,
            final(self).token.youtubu_token == old(self).token.youtubu_token,
            final(self).token.youtubu_use == old(self).token.youtubu_use,
            *final(self) == (MyApp { token: final(self).token, ..*old(self) }),
    {
        let first = &login.data[0];
        self.token.twitch_token = access_token;
        self.token.twitch_use = true;
        self.token.twitch_id = first.id().clone();
        self.token.twitch_nick = first.display_name().clone();
        self.token.twitch_date = first.created_at().clone();
    }

    /// Lists the followed channels after those listed already, each with its
    /// video and chat closed.
    pub fn add_follows(&mut self, follows: Vec<FollowInfo>)
        ensures
            follows_view(final(self).tfollow_list@)
                == follows_view(old(self).tfollow_list@) + follows@.map_values(|f: FollowInfo| follow_entry(f)),
            *final(self) == (MyApp { tfollow_list: final(self).tfollow_list, ..*old(self) }),
    {
        let ghost start = follows_view(self.tfollow_list@);
        let ghost src = follows@.map_values(|f: FollowInfo| follow_entry(f));
        let n = follows.len();
        let mut i: usize = 0;
        let mut rest = follows;
        let ghost all = rest@;
        while i < n
            invariant
                n == all.len(),
                i <= n,
                rest@ =~= all.subrange(i as int, n as int),
                src == all.map_values(|f: FollowInfo| follow_entry(f)),
                follows_view(self.tfollow_list@) == start + src.take(i as int),
                *self == (MyApp { tfollow_list: self.tfollow_list, ..*old(self) }),
            decreases n - i,
        {
            assert(rest@.len() == n - i);
            let f = rest.remove(0);
            assert(f == all[i as int]);
            let ghost before = self.tfollow_list@;
            let entry = TwitchFollowInfo {
                id_num: f.to_id,
                id_str: f.to_login,
                nick_name: f.to_name,
                followed_at: f.followed_at,
                view: false,
                chat: false,
            };
            let ghost entry_view = entry@;
            self.tfollow_list.push(entry);
            assert(follows_view(self.tfollow_list@) =~= follows_view(before).push(entry_view));
            assert(src.take(i + 1) =~= src.take(i as int).push(src[i as int]));
            i = i + 1;
            assert(rest@ =~= all.subrange(i as int, n as int));
        }
        assert(src.take(n as int) =~= src);
    }

    /// "Chat" on the `i`th channel: opens or closes its chat window.
    pub fn toggle_chat(&mut self, i: usize)
        requires
            i < old(self).tfollow_list@.len(),
        ensures
            follows_view(final(self).tfollow_list@) == chat_toggled(follows_view(old(self).tfollow_list@), i as int),
            final(self).tfollow_list@.len() == old(self).tfollow_list@.len(),
            final(self).tfollow_list@[i as int]@.chat == !old(self).tfollow_list@[i as int]@.chat,
            final(self).tfollow_list@[i as int]@ == (TwitchFollowView {
                chat: final(self).tfollow_list@[i as int]@.chat,
                ..old(self).tfollow_list@[i as int]@
            }),
            forall|j: int| 0 <= j < old(self).tfollow_list@.len() && j != i
                ==> (#[trigger] final(self).tfollow_list@[j]) == old(self).tfollow_list@[j],
            *final(self) == (MyApp { tfollow_list: final(self).tfollow_list, ..*old(self) }),
    {
        let f = &self.tfollow_list[i];
        let toggled = TwitchFollowInfo {
            id_num: f.id_num.clone(),
            id_str: f.id_str.clone(),
            nick_name: f.nick_name.clone(),
            followed_at: f.followed_at.clone(),
            view: f.view,
            chat: !f.chat,
        };
        let ghost before = self.tfollow_list@;
        self.tfollow_list.set(i, toggled);
        assert(follows_view(self.tfollow_list@) =~= chat_toggled(follows_view(before), i as int));
    }

    /// The Twitch settings to store when "OK" is clicked.
    pub fn twitch_config_to_store(&self) -> (res: TwitchConfig)
        ensures
            res == self.twitch_config,
    {
        TwitchConfig {
            id: self.twitch_config.id.clone(),
            password: self.twitch_config.password.clone(),
            client_id: self.twitch_config.client_id.clone(),
            client_secret: self.twitch_config.client_secret.clone(),
        }
    }

    /// The YouTube settings to store when "OK" is clicked: the id and
    /// password of the Twitch settings, which is what the form saves.
    pub fn youtube_config_to_store(&self) -> (res: YoutubeConfig)
        ensures
            res.id == self.twitch_config.id,
            res.password == self.twitch_config.password,
    {
        YoutubeConfig {
            id: self.twitch_config.id.clone(),
            password: self.twitch_config.password.clone(),
        }
    }
}


/// What happens in a Twitch login: a token was issued, the user lookup
/// answered, or the follow list came.
pub enum TwitchLoginEvent {
    TokenIssued(TwitchToken),
    UserFound(TwitchRespone),
    FollowsListed(Vec<FollowInfo>),
}

/// What a Twitch login asks for next.
pub enum TwitchLoginAction {
    /// Look the user `login` up with `token` for the client `client_id`.
    LookUpUser { login: String, token: String, client_id: String },
    /// List the channels `user_id` follows, with `token` for `client_id`.
    ListFollows { user_id: String, token: String, client_id: String },
    /// The login is complete.
    Finished,
}

/// Whether `event` can be taken in: a user lookup must have found someone.
pub open spec fn login_event_ok(event: TwitchLoginEvent) -> bool {
    event matches TwitchLoginEvent::UserFound(r) ==> r.data@.len() > 0
}

/// The state and the next request after `event`: a token is kept and the
/// configured user is looked up with it; the first user found is recorded
/// and the channels it follows are asked for with the same token; the
/// followed channels are listed and the login is complete.
pub open spec fn login_step(before: MyApp, after: MyApp, event: TwitchLoginEvent, action: TwitchLoginAction) -> bool {
    match event {
        TwitchLoginEvent::TokenIssued(t) => {
            &&& after.token.twitch_token@ == t@.access_token
            &&& after == (MyApp { token: Token { twitch_token: after.token.twitch_token, ..before.token }, ..before })
            &&& action matches TwitchLoginAction::LookUpUser { login, token, client_id }
            &&& login@ == before.twitch_config.id@
            &&& token@ == t@.access_token
            &&& client_id@ == before.twitch_config.client_id@
        },
        TwitchLoginEvent::UserFound(r) => {
            &&& after.token.twitch_use
            &&& after.token.twitch_id@ == r.data@[0]@.id
            &&& after.token.twitch_nick@ == r.data@[0]@.display_name
            &&& after.token.twitch_date@ == r.data@[0]@.created_at
            &&& after == (MyApp {
                token: Token {
                    twitch_use: after.token.twitch_use,
                    twitch_id: after.token.twitch_id,
                    twitch_nick: after.token.twitch_nick,
                    twitch_date: after.token.twitch_date,
                    ..before.token
                },
                ..before
            })
            &&& action matches TwitchLoginAction::ListFollows { user_id, token, client_id }
            &&& user_id@ == r.data@[0]@.id
            &&& token@ == before.token.twitch_token@
            &&& client_id@ == before.twitch_config.client_id@
        },
        TwitchLoginEvent::FollowsListed(v) => {
            &&& follows_view(after.tfollow_list@)
                == follows_view(before.tfollow_list@) + v@.map_values(|f: FollowInfo| follow_entry(f))
            &&& after == (MyApp { tfollow_list: after.tfollow_list, ..before })
            &&& action is Finished
        },
    }
}

impl MyApp {
    /// One step of a Twitch login: takes in what the last request answered
    /// and tells what to ask for next.
    pub fn twitch_login_step(&mut self, event: TwitchLoginEvent) -> (action: TwitchLoginAction)
        requires
            login_event_ok(event),
        ensures
            login_step(*old(self), *final(self), event, action),
    {
        match event {
            TwitchLoginEvent::TokenIssued(t) => {
                let access = t.access_token().clone();
                self.token.twitch_token = access.clone();
                TwitchLoginAction::LookUpUser {
                    login: self.twitch_config.id.clone(),
                    token: access,
                    client_id: self.twitch_config.client_id.clone(),
                }
            },
            TwitchLoginEvent::UserFound(r) => {
                let access = self.token.twitch_token.clone();
                self.record_twitch_login(access, &r);
                TwitchLoginAction::ListFollows {
                    user_id: self.token.twitch_id.clone(),
                    token: self.token.twitch_token.clone(),
                    client_id: self.twitch_config.client_id.clone(),
                }
            },
            TwitchLoginEvent::FollowsListed(v) => {
                self.add_follows(v);
                TwitchLoginAction::Finished
            },
        }
    }
}

} // verus!

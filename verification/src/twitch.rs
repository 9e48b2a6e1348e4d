//! The Twitch API: the login token, the user lookup and the follow list, and
//! the requests that ask for them.

use vstd::prelude::*;
use vstd::string::StringExecFns;

use crate::news::{pair, pairs_view};
use crate::urls::{absolute_url, parse_outcome, UrlError};

verus! {

/// The users that the user lookup found.
pub struct TwitchRespone {
    pub data: Vec<TwitchInfo>,
}

/// One Twitch user.
pub struct TwitchInfo {
    pub id: String,
    login: String,
    pub display_name: String,
    pub created_at: String,
}

/// An app access token and the number of seconds it stays valid.
pub struct TwitchToken {
    pub access_token: String,
    token_type: String,
    pub expires_in: u64,
}

/// The channels a user follows.
pub struct TwitchFollowRespone {
    data: Vec<FollowInfo>,
}

/// One followed channel.
pub struct FollowInfo {
    pub to_id: String,
    pub to_login: String,
    pub to_name: String,
    pub followed_at: String,
}

/// The text of a user's fields.
pub struct TwitchInfoView {
    pub id: Seq<char>,
    pub login: Seq<char>,
    pub display_name: Seq<char>,
    pub created_at: Seq<char>,
}

impl View for TwitchInfo {
    type V = TwitchInfoView;

    closed spec fn view(&self) -> TwitchInfoView {
        TwitchInfoView {
            id: self.id@,
            login: self.login@,
            display_name: self.display_name@,
            created_at: self.created_at@,
        }
    }
}

impl TwitchInfo {
    /// A user with the given fields.
    pub fn new(id: String, login: String, display_name: String, created_at: String) -> (res: TwitchInfo)
        ensures
            res@ == (TwitchInfoView {
                id: id@,
                login: login@,
                display_name: display_name@,
                created_at: created_at@,
            }),
    {
        TwitchInfo { id, login, display_name, created_at }
    }

    /// The user's id.
    pub fn id(&self) -> (res: &String)
        ensures
            res@ == self@.id,
    {
        &self.id
    }

    /// The user's login name.
    pub fn login(&self) -> (res: &String)
        ensures
            res@ == self@.login,
    {
        &self.login
    }

    /// The user's display name.
    pub fn display_name(&self) -> (res: &String)
        ensures
            res@ == self@.display_name,
    {
        &self.display_name
    }

    /// When the account was made.
    pub fn created_at(&self) -> (res: &String)
        ensures
            res@ == self@.created_at,
    {
        &self.created_at
    }
}

impl TwitchRespone {
    /// The users found.
    pub fn data(&self) -> (res: &Vec<TwitchInfo>)
        ensures
            res == &self.data,
    {
        &self.data
    }
}

/// The text of a token's fields.
pub struct TwitchTokenView {
    pub access_token: Seq<char>,
    pub token_type: Seq<char>,
    pub expires_in: u64,
}

impl View for TwitchToken {
    type V = TwitchTokenView;

    closed spec fn view(&self) -> TwitchTokenView {
        TwitchTokenView {
            access_token: self.access_token@,
            token_type: self.token_type@,
            expires_in: self.expires_in,
        }
    }
}

/// The query that asks for an app access token.
pub open spec fn token_query(client_id: Seq<char>, client_secret: Seq<char>) -> Seq<(Seq<char>, Seq<char>)> {
    seq![
        ("client_id"@, client_id),
        ("client_secret"@, client_secret),
        ("grant_type"@, "client_credentials"@),
    ]
}

/// The query that looks a user up by login name.
pub open spec fn login_query(user_id: Seq<char>) -> Seq<(Seq<char>, Seq<char>)> {
    seq![("login"@, user_id)]
}

/// The query that asks for the first hundred channels a user follows.
pub open spec fn follow_query(user_id: Seq<char>) -> Seq<(Seq<char>, Seq<char>)> {
    seq![("from_id"@, user_id), ("first"@, "100"@)]
}

/// The client name that every Twitch request carries.
pub open spec fn twitch_user_agent() -> Seq<char> {
    "yumD"@
}

/// The value of the Authorization header for `token`.
pub open spec fn bearer_value(token: Seq<char>) -> Seq<char> {
    "Bearer "@ + token
}

/// The headers of a request made with a token.
pub open spec fn authorized_headers(token: Seq<char>, client_id: Seq<char>) -> Seq<(Seq<char>, Seq<char>)> {
    seq![
        ("User-Agent"@, twitch_user_agent()),
        ("Authorization"@, bearer_value(token)),
        ("Client-Id"@, client_id),
    ]
}

/// The address that issues tokens.
pub open spec fn token_address() -> Seq<char> {
    "https://id.twitch.tv/oauth2/token"@
}

/// The address of the user lookup.
pub open spec fn users_address() -> Seq<char> {
    "https://api.twitch.tv/helix/users"@
}

/// The address of the follow list.
pub open spec fn follows_address() -> Seq<char> {
    "https://api.twitch.tv/helix/users/follows"@
}

impl TwitchToken {
    /// A token with the given fields.
    pub fn new_token(access_token: String, token_type: String, expires_in: u64) -> (res: TwitchToken)
        ensures
            res@ == (TwitchTokenView {
                access_token: access_token@,
                token_type: token_type@,
                expires_in,
            }),
    {
        TwitchToken { access_token, token_type, expires_in }
    }

    /// The token itself.
    pub fn access_token(&self) -> (res: &String)
        ensures
            res@ == self@.access_token,
    {
        &self.access_token
    }

    /// The seconds the token stays valid.
    pub fn expires_in(&self) -> (res: u64)
        ensures
            res == self@.expires_in,
    {
        self.expires_in
    }

    /// The kind of token issued.
    pub fn token_type(&self) -> (res: &String)
        ensures
            res@ == self@.token_type,
    {
        &self.token_type
    }

    /// The query of the token request: the client's id and secret, and the
    /// client-credentials grant.
    pub fn request_query(client_id: &str, client_secret: &str) -> (res: Vec<(String, String)>)
        ensures
            pairs_view(res@) == token_query(client_id@, client_secret@),
    {
        let mut v: Vec<(String, String)> = Vec::new();
        v.push(pair("client_id", client_id));
        v.push(pair("client_secret", client_secret));
        v.push(pair("grant_type", "client_credentials"));
        assert(pairs_view(v@) =~= token_query(client_id@, client_secret@));
        v
    }

    /// The headers of the token request: the client name alone.
    pub fn request_headers() -> (res: Vec<(String, String)>)
        ensures
            pairs_view(res@) == seq![("User-Agent"@, twitch_user_agent())],
    {
        let mut v: Vec<(String, String)> = Vec::new();
        v.push(pair("User-Agent", "yumD"));
        assert(pairs_view(v@) =~= seq![("User-Agent"@, twitch_user_agent())]);
        v
    }

    /// The address that issues tokens.
    pub fn request_url() -> (res: Result<String, UrlError>)
        ensures
            parse_outcome(token_address(), res),
    {
        absolute_url("https://id.twitch.tv/oauth2/token")
    }

    /// The query of the user lookup: the login name.
    pub fn login_query(user_id: &str) -> (res: Vec<(String, String)>)
        ensures
            pairs_view(res@) == login_query(user_id@),
    {
        let mut v: Vec<(String, String)> = Vec::new();
        v.push(pair("login", user_id));
        assert(pairs_view(v@) =~= login_query(user_id@));
        v
    }

    /// The address of the user lookup.
    pub fn login_url() -> (res: Result<String, UrlError>)
        ensures
            parse_outcome(users_address(), res),
    {
        absolute_url("https://api.twitch.tv/helix/users")
    }
}

/// The value of the Authorization header for `token`: "Bearer " and the token.
pub fn bearer(token: &str) -> (res: String)
    ensures
        res@ == bearer_value(token@),
{
    String::from_str("Bearer ").concat(token)
}

/// The headers of a request made with `token` for the client `client_id`.
pub fn authorized_request_headers(token: &str, client_id: &str) -> (res: Vec<(String, String)>)
    ensures
        pairs_view(res@) == authorized_headers(token@, client_id@),
{
    let mut v: Vec<(String, String)> = Vec::new();
    v.push(pair("User-Agent", "yumD"));
    v.push((String::from_str("Authorization"), bearer(token)));
    v.push(pair("Client-Id", client_id));
    assert(pairs_view(v@) =~= authorized_headers(token@, client_id@));
    v
}

impl TwitchFollowRespone {
    /// The followed channels, in the order of the response.
    pub closed spec fn follows(&self) -> Seq<FollowInfo> {
        self.data@
    }

    /// A follow list with the given channels.
    pub fn new(data: Vec<FollowInfo>) -> (res: TwitchFollowRespone)
        ensures
            res.follows() == data@,
    {
        TwitchFollowRespone { data }
    }

    /// The followed channels.
    pub fn data(&self) -> (res: &Vec<FollowInfo>)
        ensures
            res@ == self.follows(),
    {
        &self.data
    }

    /// The followed channels, taken out of the response.
    pub fn into_data(self) -> (res: Vec<FollowInfo>)
        ensures
            res@ == self.follows(),
    {
        self.data
    }

    /// The query of the follow list: the user, and the first hundred channels.
    pub fn follow_query(user_id: &str) -> (res: Vec<(String, String)>)
        ensures
            pairs_view(res@) == follow_query(user_id@),
    {
        let mut v: Vec<(String, String)> = Vec::new();
        v.push(pair("from_id", user_id));
        v.push(pair("first", "100"));
        assert(pairs_view(v@) =~= follow_query(user_id@));
        v
    }

    /// The address of the follow list.
    pub fn follow_url() -> (res: Result<String, UrlError>)
        ensures
            parse_outcome(follows_address(), res),
    {
        absolute_url("https://api.twitch.tv/helix/users/follows")
    }
}

} // verus!

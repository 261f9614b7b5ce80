//! The client: where the API lives, how a caller is authorized, and which
//! request each endpoint takes.
//!
//! A `ManifoldClient` sends nothing. Every endpoint method hands back the
//! `Request` to send, and every listing method the `PaginatedStream` to drive.

use crate::header::{header_bytes, header_text, parse_header};
use crate::request::{
    members, numeral, optional, push_optional, push_optional_number, text, BodyView, Field,
    FieldView, Method, Request, RequestView,
};
use crate::streams::{cursor_free, pairs, PaginatedStream, ParamsView, StreamView};
use crate::text::{join, trim_end_slashes, trim_slashes};
use crate::types::{Bet, LiteMarket, Outcome, OutcomeView, User};
use reqwest::header::HeaderValue;
use vstd::prelude::*;
use vstd::utf8::encode_utf8;

verus! {

/// Where the API lives unless the caller says otherwise.
pub const DEFAULT_BASE: &'static str = "https://manifold.markets/api/v0";

/// What every request asks the server to answer in.
pub const ACCEPT: &'static str = "application/json";

/// How the client names itself to the server.
pub const USER_AGENT: &'static str = "manifold-markets.rs/0.1.0";

/// How the caller is known to the API.
#[derive(Clone, Debug)]
pub enum ManifoldAuthorization {
    ApiKey(String),
    JWT(String),
    NoAuthorization,
}

impl ManifoldAuthorization {
    /// The text of the `Authorization` header, if one is sent.
    pub open spec fn credentials(self) -> Option<Seq<char>> {
        match self {
            ManifoldAuthorization::ApiKey(key) => Some("Key "@ + key@),
            ManifoldAuthorization::JWT(token) => Some("Bearer "@ + token@),
            ManifoldAuthorization::NoAuthorization => None,
        }
    }

    /// Whether the credentials can be sent in a header: they can unless they
    /// hold a control character other than the tab.
    pub open spec fn encodable(self) -> bool {
        match self.credentials() {
            Some(text) => header_text(text),
            None => true,
        }
    }

    /// The text of the `Authorization` header, if one is sent.
    pub fn header_text(&self) -> (r: Option<String>)
        ensures
            match r {
                Some(text) => self.credentials() == Some(text@),
                None => self.credentials() is None,
            },
    {
        match self {
            ManifoldAuthorization::ApiKey(key) => Some(join("Key ", key.as_str())),
            ManifoldAuthorization::JWT(token) => Some(join("Bearer ", token.as_str())),
            ManifoldAuthorization::NoAuthorization => None,
        }
    }

    /// Whether the credentials can be sent in a header.
    pub fn is_encodable(&self) -> (r: bool)
        ensures
            r == self.encodable(),
    {
        match self.header_text() {
            Some(text) => parse_header(text.as_str()).is_some(),
            None => true,
        }
    }

    /// The `Authorization` header, if one is sent.
    pub fn header_value(&self) -> (r: Option<HeaderValue>)
        requires
            self.encodable(),
        ensures
            match self.credentials() {
                Some(text) => r matches Some(value) && header_bytes(value) == encode_utf8(text),
                None => r is None,
            },
    {
        match self.header_text() {
            Some(text) => parse_header(text.as_str()),
            None => None,
        }
    }
}

/// The settings every request of one caller shares.
#[derive(Debug)]
pub struct ManifoldClient {
    /// The address of the API, without a slash at its end.
    pub base: String,
    /// The `Authorization` header, if one is sent.
    pub authorization: Option<HeaderValue>,
}

/// The request for `GET url` with the query `query`.
pub open spec fn get(url: Seq<char>, query: ParamsView) -> RequestView {
    RequestView { method: Method::Get, url, query, body: None }
}

/// The members of the body of a bet, in the order they are written: the
/// amount, the contract, the target value of a numeric outcome, the outcome,
/// and the limit probability where one is given.
pub open spec fn bet_body(
    amount: u64,
    contract_id: Seq<char>,
    outcome: OutcomeView,
    limit_prob: Option<u64>,
) -> BodyView {
    seq![("amount"@, FieldView::Integer(amount)), ("contractId"@, FieldView::Text(contract_id))]
        + (match outcome {
        OutcomeView::Numeric(_, value) => seq![("value"@, FieldView::Number(value))],
        _ => Seq::empty(),
    }) + seq![("outcome"@, FieldView::Text(outcome.label()))] + (match limit_prob {
        Some(bits) => seq![("limitProb"@, FieldView::Number(bits))],
        None => Seq::empty(),
    })
}

/// The parameters that narrow a listing of bets.
pub open spec fn bets_params(
    user_id: Option<Seq<char>>,
    username: Option<Seq<char>>,
    contract_id: Option<Seq<char>>,
    contract_slug: Option<Seq<char>>,
) -> ParamsView {
    optional("userId"@, user_id) + optional("username"@, username) + optional(
        "contractId"@,
        contract_id,
    ) + optional("contractSlug"@, contract_slug)
}

/// None of the parameters that narrow a listing of bets takes the name of the
/// cursor.
pub proof fn lemma_bets_params_cursor_free(
    user_id: Option<Seq<char>>,
    username: Option<Seq<char>>,
    contract_id: Option<Seq<char>>,
    contract_slug: Option<Seq<char>>,
)
    ensures
        cursor_free(bets_params(user_id, username, contract_id, contract_slug)),
{
    reveal_strlit("before");
    reveal_strlit("userId");
    reveal_strlit("username");
    reveal_strlit("contractId");
    reveal_strlit("contractSlug");
    assert("userId"@[0] != "before"@[0]);
    assert("username"@[0] != "before"@[0]);
    assert("contractId"@[0] != "before"@[0]);
    assert("contractSlug"@[0] != "before"@[0]);
}

impl ManifoldClient {
    /// A client that is known to the API by an API key.
    ///
    /// This is the most usual way to authenticate with Manifold. The key can
    /// be found in the account settings.
    pub fn from_api_key(key: &str) -> (r: ManifoldClient)
        requires
            header_text("Key "@ + key@),
        ensures
            r.base@ == trim_slashes(DEFAULT_BASE@),
            r.authorization matches Some(value) && header_bytes(value) == encode_utf8(
                "Key "@ + key@,
            ),
    {
        ManifoldClient::new(ManifoldAuthorization::ApiKey(key.to_owned()))
    }

    /// A client of the public API.
    pub fn new(auth: ManifoldAuthorization) -> (r: ManifoldClient)
        requires
            auth.encodable(),
        ensures
            r.base@ == trim_slashes(DEFAULT_BASE@),
            match auth.credentials() {
                Some(text) => r.authorization matches Some(value) && header_bytes(value)
                    == encode_utf8(text),
                None => r.authorization is None,
            },
    {
        ManifoldClient::new_custom_base(auth, DEFAULT_BASE)
    }

    /// A client of the API at `base`. Slashes at the end of `base` are
    /// dropped, since every path starts with one.
    pub fn new_custom_base(auth: ManifoldAuthorization, base: &str) -> (r: ManifoldClient)
        requires
            auth.encodable(),
        ensures
            r.base@ == trim_slashes(base@),
            match auth.credentials() {
                Some(text) => r.authorization matches Some(value) && header_bytes(value)
                    == encode_utf8(text),
                None => r.authorization is None,
            },
    {
        ManifoldClient {
            base: trim_end_slashes(base).to_owned(),
            authorization: auth.header_value(),
        }
    }

    /// The address of the resource at `path`.
    pub fn url(&self, path: &str) -> (r: String)
        ensures
            r@ == self.base@ + path@,
    {
        join(self.base.as_str(), path)
    }

    /// The request that reads the resource at `path`.
    pub fn http_get(&self, path: &str) -> (r: Request)
        ensures
            r@ == get(self.base@ + path@, Seq::empty()),
    {
        let r = Request { method: Method::Get, url: self.url(path), query: Vec::new(), body: None };
        assert(pairs(r.query@) =~= Seq::empty());
        r
    }

    /// The request that posts to the resource at `path`, with an empty body.
    pub fn http_post(&self, path: &str) -> (r: Request)
        ensures
            r@ == (RequestView {
                method: Method::Post,
                url: self.base@ + path@,
                query: Seq::empty(),
                body: Some(Seq::empty()),
            }),
    {
        let r = Request {
            method: Method::Post,
            url: self.url(path),
            query: Vec::new(),
            body: Some(Vec::new()),
        };
        assert(pairs(r.query@) =~= Seq::empty());
        assert(members(r.body->Some_0@) =~= Seq::empty());
        r
    }

    /// GET /v0/user/[username]
    ///
    /// Gets a user by their username. Remember that usernames may change.
    /// Requires no authorization.
    pub fn get_user(&self, username: &str) -> (r: Request)
        ensures
            r@ == get(self.base@ + ("/user/"@ + username@), Seq::empty()),
    {
        self.http_get(join("/user/", username).as_str())
    }

    /// GET /v0/user/by-id/[id]
    ///
    /// Gets a user by their unique ID. Many other API endpoints return this
    /// as the userId. Requires no authorization.
    pub fn get_user_by_id(&self, id: &str) -> (r: Request)
        ensures
            r@ == get(self.base@ + ("/user/by-id/"@ + id@), Seq::empty()),
    {
        self.http_get(join("/user/by-id/", id).as_str())
    }

    /// GET /v0/me
    ///
    /// Gets the currently authenticated user.
    pub fn get_me(&self) -> (r: Request)
        ensures
            r@ == get(self.base@ + "/me"@, Seq::empty()),
    {
        self.http_get("/me")
    }

    /// GET /v0/groups
    ///
    /// Gets all groups, in no particular order. With `available_to_user_id`,
    /// only groups that the user can join and groups they have already joined
    /// are returned. Requires no authorization.
    pub fn get_groups(&self, available_to_user_id: Option<&str>) -> (r: Request)
        ensures
            r@ == get(
                self.base@ + "/groups"@,
                optional("availableToUserId"@, text(available_to_user_id)),
            ),
    {
        let mut r = self.http_get("/groups");
        push_optional(&mut r.query, "availableToUserId", available_to_user_id);
        assert(pairs(r.query@) =~= optional("availableToUserId"@, text(available_to_user_id)));
        r
    }

    /// GET /v0/group/[slug]
    ///
    /// Gets a group by its slug. Requires no authorization. Note: group is
    /// singular in the URL.
    pub fn get_group(&self, slug: &str) -> (r: Request)
        ensures
            r@ == get(self.base@ + ("/group/"@ + slug@), Seq::empty()),
    {
        self.http_get(join("/group/", slug).as_str())
    }

    /// GET /v0/group/by-id/[id]
    ///
    /// Gets a group by its unique ID. Requires no authorization. Note: group
    /// is singular in the URL.
    pub fn get_group_by_id(&self, id: &str) -> (r: Request)
        ensures
            r@ == get(self.base@ + ("/group/by-id/"@ + id@), Seq::empty()),
    {
        self.http_get(join("/group/by-id/", id).as_str())
    }

    /// GET /v0/group/by-id/[id]/markets
    ///
    /// Gets a group's markets by its unique ID. Requires no authorization.
    /// Note: group is singular in the URL.
    pub fn get_group_markets(&self, id: &str) -> (r: Request)
        ensures
            r@ == get(self.base@ + ("/group/by-id/"@ + id@ + "/markets"@), Seq::empty()),
    {
        let mut path = join("/group/by-id/", id);
        path.append("/markets");
        self.http_get(path.as_str())
    }

    /// GET /v0/markets
    ///
    /// Lists all markets, ordered by creation date descending. `limit` says
    /// how many markets to return; the maximum is 1000 and the default is
    /// 500. `before` is the ID of the market before which the list will
    /// start. Requires no authorization.
    pub fn get_markets(&self, limit: Option<u32>, before: Option<&str>) -> (r: Request)
        ensures
            r@ == get(
                self.base@ + "/markets"@,
                optional("limit"@, numeral(limit)) + optional("before"@, text(before)),
            ),
    {
        let mut r = self.http_get("/markets");
        push_optional_number(&mut r.query, "limit", limit);
        push_optional(&mut r.query, "before", before);
        assert(pairs(r.query@) =~= optional("limit"@, numeral(limit)) + optional(
            "before"@,
            text(before),
        ));
        r
    }

    /// GET /v0/market/[marketId]
    ///
    /// Gets information about a single market by ID. Includes answers, but
    /// not bets and comments. Requires no authorization.
    pub fn get_market(&self, market_id: &str) -> (r: Request)
        ensures
            r@ == get(self.base@ + ("/market/"@ + market_id@), Seq::empty()),
    {
        self.http_get(join("/market/", market_id).as_str())
    }

    /// GET /v0/slug/[marketSlug]
    ///
    /// Gets information about a single market by slug (the portion of the URL
    /// path after the username). Requires no authorization.
    pub fn get_market_by_slug(&self, market_slug: &str) -> (r: Request)
        ensures
            r@ == get(self.base@ + ("/slug/"@ + market_slug@), Seq::empty()),
    {
        self.http_get(join("/slug/", market_slug).as_str())
    }

    /// GET /v0/users
    ///
    /// Gets a list of users, ordered by creation date descending. `limit`
    /// says how many users to return; the maximum and the default are 1000.
    /// `before` is the ID of the user before which the list will start.
    /// Requires no authorization.
    pub fn get_users(&self, limit: Option<u32>, before: Option<u32>) -> (r: Request)
        ensures
            r@ == get(
                self.base@ + "/users"@,
                optional("limit"@, numeral(limit)) + optional("before"@, numeral(before)),
            ),
    {
        let mut r = self.http_get("/users");
        push_optional_number(&mut r.query, "limit", limit);
        push_optional_number(&mut r.query, "before", before);
        assert(pairs(r.query@) =~= optional("limit"@, numeral(limit)) + optional(
            "before"@,
            numeral(before),
        ));
        r
    }

    /// POST /v0/bet
    ///
    /// Creates a new bet on behalf of the authorized user. `amount` is the
    /// amount to bet, in mana, before fees. `limit_prob` is the bit pattern,
    /// as an IEEE 754 double, of a number between 0.001 and 0.999 inclusive:
    /// the bet will execute immediately in the direction of `outcome`, but not
    /// beyond this limit.
    pub fn post_bet(
        &self,
        amount: u64,
        contract_id: &str,
        outcome: Outcome,
        limit_prob: Option<u64>,
    ) -> (r: Request)
        ensures
            r@ == (RequestView {
                method: Method::Post,
                url: self.base@ + "/bet"@,
                query: Seq::empty(),
                body: Some(bet_body(amount, contract_id@, outcome@, limit_prob)),
            }),
    {
        let mut body: Vec<(String, Field)> = Vec::new();
        body.push(("amount".to_owned(), Field::Integer(amount)));
        body.push(("contractId".to_owned(), Field::Text(contract_id.to_owned())));
        match &outcome {
            Outcome::Numeric(_, value) => {
                body.push(("value".to_owned(), Field::Number(*value)));
            },
            _ => {},
        }
        body.push(("outcome".to_owned(), Field::Text(outcome.label())));
        match limit_prob {
            Some(bits) => {
                body.push(("limitProb".to_owned(), Field::Number(bits)));
            },
            None => {},
        }
        assert(members(body@) =~= bet_body(amount, contract_id@, outcome@, limit_prob));
        let mut r = self.http_post("/bet");
        r.body = Some(body);
        r
    }

    /// A stream over the listing at `path`, narrowed by `params`. The
    /// parameters must leave the name `before` to the stream.
    pub fn stream_paginated<T>(&self, path: String, params: Vec<(String, String)>) -> (r:
        PaginatedStream<T>)
        requires
            cursor_free(pairs(params@)),
        ensures
            r@ == StreamView::<T>::fresh(path@, pairs(params@)),
    {
        PaginatedStream::new(path, params)
    }

    /// All markets, newest first.
    pub fn stream_markets(&self) -> (r: PaginatedStream<LiteMarket>)
        ensures
            r@ == StreamView::<LiteMarket>::fresh("/markets"@, Seq::empty()),
    {
        let params: Vec<(String, String)> = Vec::new();
        assert(pairs(params@) =~= Seq::empty());
        self.stream_paginated("/markets".to_owned(), params)
    }

    /// All users, newest first.
    pub fn stream_users(&self) -> (r: PaginatedStream<User>)
        ensures
            r@ == StreamView::<User>::fresh("/users"@, Seq::empty()),
    {
        let params: Vec<(String, String)> = Vec::new();
        assert(pairs(params@) =~= Seq::empty());
        self.stream_paginated("/users".to_owned(), params)
    }

    /// The bets of a user or on a contract, newest first. Each argument that
    /// is given narrows the listing.
    pub fn stream_bets(
        &self,
        user_id: Option<&str>,
        username: Option<&str>,
        contract_id: Option<&str>,
        contract_slug: Option<&str>,
    ) -> (r: PaginatedStream<Bet>)
        ensures
            r@ == StreamView::<Bet>::fresh(
                "/bets"@,
                bets_params(text(user_id), text(username), text(contract_id), text(contract_slug)),
            ),
    {
        let mut params: Vec<(String, String)> = Vec::new();
        assert(pairs(params@) =~= Seq::empty());
        push_optional(&mut params, "userId", user_id);
        push_optional(&mut params, "username", username);
        push_optional(&mut params, "contractId", contract_id);
        push_optional(&mut params, "contractSlug", contract_slug);
        proof {
            assert(pairs(params@) =~= bets_params(
                text(user_id),
                text(username),
                text(contract_id),
                text(contract_slug),
            ));
            lemma_bets_params_cursor_free(
                text(user_id),
                text(username),
                text(contract_id),
                text(contract_slug),
            );
        }
        self.stream_paginated("/bets".to_owned(), params)
    }
}

} // verus!

//! The records of the API.
//!
//! A record keeps the JSON object the server sent, so that members this crate
//! does not know stay within reach. What the accessors rely on is checked
//! once, when the record is decoded: a record that exists has the members its
//! accessors hand out, and no accessor can fail.

use crate::json::{
    integer, integer_member, member, member_of, null, number, number_member, string_text,
    text_member,
};
use crate::page::Decode;
use crate::text::same_text;
use crate::time::{instant_of_millis, millis_to_instant, now_millis};
use chrono::NaiveDateTime;
use serde_json::Value;
use vstd::prelude::*;

verus! {

/// One of BINARY, FREE_RESPONSE, MULTIPLE_CHOICE, or PSEUDO_NUMERIC.
#[derive(Debug, Clone, Copy, PartialEq, Eq, Structural)]
pub enum OutcomeType {
    Binary,
    FreeResponse,
    MultipleChoice,
    PseudoNumeric,
}

/// What a bet is placed on, or what a share of a pool stands for.
///
/// For binary markets this is YES or NO. For free response markets it is the
/// ID of the free response answer. For numeric markets it is the target bucket
/// together with the target value.
#[derive(Debug, Clone, PartialEq)]
pub enum Outcome {
    Yes,
    No,
    FreeResponse(String),
    /// The bucket, and the bit pattern of the target value as an IEEE 754
    /// double.
    Numeric(String, u64),
}

/// `Outcome` with its texts as sequences of characters.
pub ghost enum OutcomeView {
    Yes,
    No,
    FreeResponse(Seq<char>),
    Numeric(Seq<char>, u64),
}

impl View for Outcome {
    type V = OutcomeView;

    open spec fn view(&self) -> OutcomeView {
        match *self {
            Outcome::Yes => OutcomeView::Yes,
            Outcome::No => OutcomeView::No,
            Outcome::FreeResponse(id) => OutcomeView::FreeResponse(id@),
            Outcome::Numeric(bucket, value) => OutcomeView::Numeric(bucket@, value),
        }
    }
}

impl OutcomeView {
    /// The text that stands for the outcome in a request.
    pub open spec fn label(self) -> Seq<char> {
        match self {
            OutcomeView::Yes => "YES"@,
            OutcomeView::No => "NO"@,
            OutcomeView::FreeResponse(id) => id,
            OutcomeView::Numeric(bucket, _) => bucket,
        }
    }
}

impl Outcome {
    /// The text that stands for the outcome in a request.
    pub fn label(&self) -> (r: String)
        ensures
            r@ == self@.label(),
    {
        match self {
            Outcome::Yes => "YES".to_owned(),
            Outcome::No => "NO".to_owned(),
            Outcome::FreeResponse(id) => id.clone(),
            Outcome::Numeric(bucket, _) => bucket.clone(),
        }
    }
}

impl OutcomeType {
    /// The outcome type that the API calls `name`.
    pub open spec fn named(name: Seq<char>) -> Option<OutcomeType> {
        if name == "BINARY"@ {
            Some(OutcomeType::Binary)
        } else if name == "FREE_RESPONSE"@ {
            Some(OutcomeType::FreeResponse)
        } else if name == "MULTIPLE_CHOICE"@ {
            Some(OutcomeType::MultipleChoice)
        } else if name == "PSEUDO_NUMERIC"@ {
            Some(OutcomeType::PseudoNumeric)
        } else {
            None
        }
    }

    /// What the API calls this outcome type.
    pub open spec fn spec_name(self) -> Seq<char> {
        match self {
            OutcomeType::Binary => "BINARY"@,
            OutcomeType::FreeResponse => "FREE_RESPONSE"@,
            OutcomeType::MultipleChoice => "MULTIPLE_CHOICE"@,
            OutcomeType::PseudoNumeric => "PSEUDO_NUMERIC"@,
        }
    }

    /// The outcome that the key `key` of a pool stands for in a market of
    /// this type; `None` where the market cannot have such a key. Binary and
    /// pseudo-numeric markets have the keys YES and NO and no other. In a free
    /// response or multiple choice market every key is the ID of an answer.
    pub open spec fn pool_outcome(self, key: Seq<char>) -> Option<OutcomeView> {
        match self {
            OutcomeType::Binary | OutcomeType::PseudoNumeric => {
                if key == "YES"@ {
                    Some(OutcomeView::Yes)
                } else if key == "NO"@ {
                    Some(OutcomeView::No)
                } else {
                    None
                }
            },
            OutcomeType::FreeResponse | OutcomeType::MultipleChoice => Some(
                OutcomeView::FreeResponse(key),
            ),
        }
    }

    /// Reads an outcome type by the name the API gives it.
    pub fn from_name(name: &str) -> (r: Option<OutcomeType>)
        ensures
            r == OutcomeType::named(name@),
    {
        if same_text(name, "BINARY") {
            Some(OutcomeType::Binary)
        } else if same_text(name, "FREE_RESPONSE") {
            Some(OutcomeType::FreeResponse)
        } else if same_text(name, "MULTIPLE_CHOICE") {
            Some(OutcomeType::MultipleChoice)
        } else if same_text(name, "PSEUDO_NUMERIC") {
            Some(OutcomeType::PseudoNumeric)
        } else {
            None
        }
    }

    /// What the API calls this outcome type.
    pub fn name(self) -> (r: &'static str)
        ensures
            r@ == self.spec_name(),
    {
        match self {
            OutcomeType::Binary => "BINARY",
            OutcomeType::FreeResponse => "FREE_RESPONSE",
            OutcomeType::MultipleChoice => "MULTIPLE_CHOICE",
            OutcomeType::PseudoNumeric => "PSEUDO_NUMERIC",
        }
    }

    /// The outcome that a key of a market's pool stands for.
    pub fn outcome_for_key(self, key: String) -> (r: Option<Outcome>)
        ensures
            match r {
                Some(outcome) => self.pool_outcome(key@) == Some(outcome@),
                None => self.pool_outcome(key@) is None,
            },
    {
        match self {
            OutcomeType::Binary | OutcomeType::PseudoNumeric => {
                if same_text(key.as_str(), "YES") {
                    Some(Outcome::Yes)
                } else if same_text(key.as_str(), "NO") {
                    Some(Outcome::No)
                } else {
                    None
                }
            },
            OutcomeType::FreeResponse | OutcomeType::MultipleChoice => Some(
                Outcome::FreeResponse(key),
            ),
        }
    }
}

/// Every outcome type is read back from its own name.
pub proof fn theorem_name_round_trip(outcome_type: OutcomeType)
    ensures
        OutcomeType::named(outcome_type.spec_name()) == Some(outcome_type),
{
    reveal_strlit("BINARY");
    reveal_strlit("FREE_RESPONSE");
    reveal_strlit("MULTIPLE_CHOICE");
    reveal_strlit("PSEUDO_NUMERIC");
    assert("BINARY"@.len() == 6);
    assert("FREE_RESPONSE"@.len() == 13);
    assert("MULTIPLE_CHOICE"@.len() == 15);
    assert("PSEUDO_NUMERIC"@.len() == 14);
}

/// The outcome type that a raw market names, if it names one.
pub open spec fn outcome_type_in(raw: Value) -> Option<OutcomeType> {
    match string_text(member(raw, "outcomeType"@)) {
        Some(name) => OutcomeType::named(name),
        None => None,
    }
}

/// The closing time of a raw market in milliseconds since the Unix epoch;
/// `None` where the market has none.
pub open spec fn close_millis_in(raw: Value) -> Option<i64> {
    if null(member(raw, "closeTime"@)) {
        None
    } else {
        integer(member(raw, "closeTime"@))
    }
}

/// Whether the `closeTime` of a raw market is missing, or is a timestamp
/// that stands for a date and time.
pub open spec fn close_time_ok(raw: Value) -> bool {
    null(member(raw, "closeTime"@)) || (integer(member(raw, "closeTime"@)) matches Some(millis)
        && instant_of_millis(millis) is Some)
}

/// Whether a market that closes at `close`, if it closes at all, is open at
/// `now`; both in milliseconds since the Unix epoch.
pub open spec fn open_at(close: Option<i64>, now: i64) -> bool {
    match close {
        None => true,
        Some(millis) => millis > now,
    }
}

/// What makes a JSON value a market: a string `id`, an `outcomeType` that
/// names an outcome type, and a `closeTime` that is absent or a timestamp.
pub open spec fn market_shaped(raw: Value) -> bool {
    &&& string_text(member(raw, "id"@)) is Some
    &&& outcome_type_in(raw) is Some
    &&& close_time_ok(raw)
}

/// What makes a JSON value a user: the strings `id`, `name`, `url` and
/// `username`, the integers `createdTime` and `totalDeposits`, the number
/// `balance`, and in `profitCached` the numbers `allTime`, `daily`, `monthly`
/// and `weekly`.
pub open spec fn user_shaped(raw: Value) -> bool {
    &&& string_text(member(raw, "id"@)) is Some
    &&& string_text(member(raw, "name"@)) is Some
    &&& string_text(member(raw, "url"@)) is Some
    &&& string_text(member(raw, "username"@)) is Some
    &&& integer(member(raw, "createdTime"@)) is Some
    &&& integer(member(raw, "totalDeposits"@)) is Some
    &&& number(member(raw, "balance"@))
    &&& number(member(member(raw, "profitCached"@), "allTime"@))
    &&& number(member(member(raw, "profitCached"@), "daily"@))
    &&& number(member(member(raw, "profitCached"@), "monthly"@))
    &&& number(member(member(raw, "profitCached"@), "weekly"@))
}

/// What is wrong with a raw value that is no market: the first of its
/// members, in the order `id`, `outcomeType`, `closeTime`, that is not as a
/// market has it. `None` for a market.
pub open spec fn market_fault(raw: Value) -> Option<Seq<char>> {
    if string_text(member(raw, "id"@)) is None {
        Some("Market.id is not a string"@)
    } else if outcome_type_in(raw) is None {
        Some("Market.outcomeType is not an OutcomeType"@)
    } else if null(member(raw, "closeTime"@)) {
        None
    } else if integer(member(raw, "closeTime"@)) is None {
        Some("Invalid closeTime"@)
    } else if instant_of_millis(integer(member(raw, "closeTime"@))->Some_0) is None {
        Some("Market.closeTime is not a valid timestamp"@)
    } else {
        None
    }
}

/// What is wrong with a raw value that is no user: the first of its members,
/// in the order of `user_shaped`, that is not as a user has it. `None` for a
/// user.
pub open spec fn user_fault(raw: Value) -> Option<Seq<char>> {
    if string_text(member(raw, "id"@)) is None {
        Some("User.id is not a string"@)
    } else if string_text(member(raw, "name"@)) is None {
        Some("User.name is not a string"@)
    } else if string_text(member(raw, "url"@)) is None {
        Some("User.url is not a string"@)
    } else if string_text(member(raw, "username"@)) is None {
        Some("User.username is not a string"@)
    } else if integer(member(raw, "createdTime"@)) is None {
        Some("User.createdTime is not a number"@)
    } else if integer(member(raw, "totalDeposits"@)) is None {
        Some("User.totalDeposits is not a number"@)
    } else if !number(member(raw, "balance"@)) {
        Some("User.balance is not a number"@)
    } else if !user_shaped(raw) {
        Some("User.profitCached is not a ProfitCached"@)
    } else {
        None
    }
}

/// Checks that a raw value is a market, and says what is wrong where it is
/// not.
pub fn check_market(raw: &Value) -> (r: Result<(), String>)
    ensures
        r is Ok <==> market_shaped(*raw),
        match r {
            Ok(_) => market_fault(*raw) is None,
            Err(message) => market_fault(*raw) == Some(message@),
        },
{
    if text_member(raw, "id").is_none() {
        return Err("Market.id is not a string".to_owned());
    }
    let known = match text_member(raw, "outcomeType") {
        Some(name) => OutcomeType::from_name(name).is_some(),
        None => false,
    };
    if !known {
        return Err("Market.outcomeType is not an OutcomeType".to_owned());
    }
    let close_time = member_of(raw, "closeTime");
    if !close_time.is_null() {
        match close_time.as_i64() {
            None => {
                return Err("Invalid closeTime".to_owned());
            },
            Some(millis) => {
                if millis_to_instant(millis).is_none() {
                    return Err("Market.closeTime is not a valid timestamp".to_owned());
                }
            },
        }
    }
    Ok(())
}

/// Checks that a raw value is a user, and says what is wrong where it is not.
pub fn check_user(raw: &Value) -> (r: Result<(), String>)
    ensures
        r is Ok <==> user_shaped(*raw),
        match r {
            Ok(_) => user_fault(*raw) is None,
            Err(message) => user_fault(*raw) == Some(message@),
        },
{
    if text_member(raw, "id").is_none() {
        return Err("User.id is not a string".to_owned());
    }
    if text_member(raw, "name").is_none() {
        return Err("User.name is not a string".to_owned());
    }
    if text_member(raw, "url").is_none() {
        return Err("User.url is not a string".to_owned());
    }
    if text_member(raw, "username").is_none() {
        return Err("User.username is not a string".to_owned());
    }
    if integer_member(raw, "createdTime").is_none() {
        return Err("User.createdTime is not a number".to_owned());
    }
    if integer_member(raw, "totalDeposits").is_none() {
        return Err("User.totalDeposits is not a number".to_owned());
    }
    if !number_member(raw, "balance") {
        return Err("User.balance is not a number".to_owned());
    }
    let profit = member_of(raw, "profitCached");
    if !(number_member(profit, "allTime") && number_member(profit, "daily") && number_member(
        profit,
        "monthly",
    ) && number_member(profit, "weekly")) {
        return Err("User.profitCached is not a ProfitCached".to_owned());
    }
    Ok(())
}

/// A user of the platform.
#[derive(Debug)]
pub struct User {
    data: Value,
}

/// A group of markets. Nothing is asked of its members.
#[derive(Debug, Clone)]
pub struct Group {
    data: Value,
}

/// A market with its answers.
#[derive(Debug)]
pub struct FullMarket {
    data: Value,
}

/// A market as the listings give it.
#[derive(Debug)]
pub struct LiteMarket {
    data: Value,
}

/// A bet. Nothing is asked of its members.
#[derive(Debug, Clone)]
pub struct Bet {
    data: Value,
}

impl User {
    #[verifier::type_invariant]
    spec fn well_formed(self) -> bool {
        user_shaped(self.data)
    }

    /// The JSON object the user was decoded from.
    pub closed spec fn raw(self) -> Value {
        self.data
    }

    /// The JSON object the user was decoded from.
    pub fn data(&self) -> (r: &Value)
        ensures
            *r == self.raw(),
            user_shaped(*r),
    {
        proof {
            use_type_invariant(self);
        }
        &self.data
    }

    pub fn avatar_url(&self) -> (r: Option<&str>)
        ensures
            match r {
                Some(url) => string_text(member(self.raw(), "avatarUrl"@)) == Some(url@),
                None => string_text(member(self.raw(), "avatarUrl"@)) is None,
            },
    {
        text_member(&self.data, "avatarUrl")
    }

    pub fn created_time(&self) -> (r: i64)
        ensures
            Some(r) == integer(member(self.raw(), "createdTime"@)),
    {
        match integer_member(self.data(), "createdTime") {
            Some(millis) => millis,
            None => 0,
        }
    }

    pub fn id(&self) -> (r: &str)
        ensures
            Some(r@) == string_text(member(self.raw(), "id"@)),
    {
        match text_member(self.data(), "id") {
            Some(text) => text,
            None => "",
        }
    }

    pub fn name(&self) -> (r: &str)
        ensures
            Some(r@) == string_text(member(self.raw(), "name"@)),
    {
        match text_member(self.data(), "name") {
            Some(text) => text,
            None => "",
        }
    }

    pub fn total_deposits(&self) -> (r: i64)
        ensures
            Some(r) == integer(member(self.raw(), "totalDeposits"@)),
    {
        match integer_member(self.data(), "totalDeposits") {
            Some(amount) => amount,
            None => 0,
        }
    }

    pub fn url(&self) -> (r: &str)
        ensures
            Some(r@) == string_text(member(self.raw(), "url"@)),
    {
        match text_member(self.data(), "url") {
            Some(text) => text,
            None => "",
        }
    }

    pub fn username(&self) -> (r: &str)
        ensures
            Some(r@) == string_text(member(self.raw(), "username"@)),
    {
        match text_member(self.data(), "username") {
            Some(text) => text,
            None => "",
        }
    }
}

impl Clone for User {
    fn clone(&self) -> (r: User)
        ensures
            r == *self,
    {
        proof {
            use_type_invariant(self);
        }
        let data = self.data.clone();
        User { data }
    }
}

impl Decode for User {
    closed spec fn decodes(raw: Value, outcome: Option<User>) -> bool {
        outcome == if user_shaped(raw) {
            Some(User { data: raw })
        } else {
            None
        }
    }

    fn decode(raw: &Value) -> (r: Result<User, String>)
        ensures
            r matches Err(message) ==> user_fault(*raw) == Some(message@),
    {
        match check_user(raw) {
            Ok(()) => {
                let data = raw.clone();
                Ok(User { data })
            },
            Err(message) => Err(message),
        }
    }
}

impl Group {
    /// The JSON value the group was decoded from.
    pub closed spec fn raw(self) -> Value {
        self.data
    }

    /// The JSON value the group was decoded from.
    pub fn data(&self) -> (r: &Value)
        ensures
            *r == self.raw(),
    {
        &self.data
    }
}

impl Decode for Group {
    closed spec fn decodes(raw: Value, outcome: Option<Group>) -> bool {
        outcome == Some(Group { data: raw })
    }

    fn decode(raw: &Value) -> (r: Result<Group, String>) {
        Ok(Group { data: raw.clone() })
    }
}

impl Bet {
    /// The JSON value the bet was decoded from.
    pub closed spec fn raw(self) -> Value {
        self.data
    }

    /// The JSON value the bet was decoded from.
    pub fn data(&self) -> (r: &Value)
        ensures
            *r == self.raw(),
    {
        &self.data
    }
}

impl Decode for Bet {
    closed spec fn decodes(raw: Value, outcome: Option<Bet>) -> bool {
        outcome == Some(Bet { data: raw })
    }

    fn decode(raw: &Value) -> (r: Result<Bet, String>) {
        Ok(Bet { data: raw.clone() })
    }
}

/// What full and lite markets have in common.
pub trait Market {
    /// The JSON object the market was decoded from.
    spec fn raw(&self) -> Value;

    /// The JSON object the market was decoded from.
    fn data(&self) -> (r: &Value)
        ensures
            *r == self.raw(),
            market_shaped(*r),
    ;

    fn id(&self) -> (r: &str)
        ensures
            Some(r@) == string_text(member(self.raw(), "id"@)),
    {
        match text_member(self.data(), "id") {
            Some(text) => text,
            None => "",
        }
    }

    fn outcome_type(&self) -> (r: OutcomeType)
        ensures
            Some(r) == outcome_type_in(self.raw()),
    {
        let known = match text_member(self.data(), "outcomeType") {
            Some(name) => OutcomeType::from_name(name),
            None => None,
        };
        match known {
            Some(outcome_type) => outcome_type,
            None => OutcomeType::Binary,
        }
    }

    /// When the market closes, in milliseconds since the Unix epoch; `None`
    /// for a market that stays open.
    fn close_millis(&self) -> (r: Option<i64>)
        ensures
            r == close_millis_in(self.raw()),
    {
        let close_time = member_of(self.data(), "closeTime");
        if close_time.is_null() {
            None
        } else {
            close_time.as_i64()
        }
    }

    /// When the market closes, in UTC; `None` for a market that stays open.
    fn close_time(&self) -> (r: Option<NaiveDateTime>)
        ensures
            match close_millis_in(self.raw()) {
                None => r is None,
                Some(millis) => r is Some && r == instant_of_millis(millis),
            },
    {
        let close_time = member_of(self.data(), "closeTime");
        if close_time.is_null() {
            None
        } else {
            match close_time.as_i64() {
                Some(millis) => millis_to_instant(millis),
                None => None,
            }
        }
    }

    /// Whether the market is open at `now`, given in milliseconds since the
    /// Unix epoch: it is unless its closing time has come.
    fn is_active_at(&self, now: i64) -> (r: bool)
        ensures
            r == open_at(close_millis_in(self.raw()), now),
    {
        match self.close_millis() {
            None => true,
            Some(millis) => millis > now,
        }
    }

    /// Whether the market is open by the system clock: what `is_active_at`
    /// says of some time, the one the clock gave. A market without a closing
    /// time is open whatever the clock says.
    fn is_active(&self) -> (r: bool)
        ensures
            close_millis_in(self.raw()) is None ==> r,
            exists|now: i64| r == open_at(close_millis_in(self.raw()), now),
    {
        let now = now_millis();
        assert(open_at(close_millis_in(self.raw()), now) == open_at(
            close_millis_in(self.raw()),
            now,
        ));
        self.is_active_at(now)
    }
}

impl FullMarket {
    #[verifier::type_invariant]
    spec fn well_formed(self) -> bool {
        market_shaped(self.data)
    }
}

impl LiteMarket {
    #[verifier::type_invariant]
    spec fn well_formed(self) -> bool {
        market_shaped(self.data)
    }
}

impl Market for FullMarket {
    closed spec fn raw(&self) -> Value {
        self.data
    }

    fn data(&self) -> (r: &Value) {
        proof {
            use_type_invariant(self);
        }
        &self.data
    }
}

impl Market for LiteMarket {
    closed spec fn raw(&self) -> Value {
        self.data
    }

    fn data(&self) -> (r: &Value) {
        proof {
            use_type_invariant(self);
        }
        &self.data
    }
}

impl Clone for FullMarket {
    fn clone(&self) -> (r: FullMarket)
        ensures
            r == *self,
    {
        proof {
            use_type_invariant(self);
        }
        let data = self.data.clone();
        FullMarket { data }
    }
}

impl Decode for FullMarket {
    closed spec fn decodes(raw: Value, outcome: Option<FullMarket>) -> bool {
        outcome == if market_shaped(raw) {
            Some(FullMarket { data: raw })
        } else {
            None
        }
    }

    fn decode(raw: &Value) -> (r: Result<FullMarket, String>)
        ensures
            r matches Err(message) ==> market_fault(*raw) == Some(message@),
    {
        match check_market(raw) {
            Ok(()) => {
                let data = raw.clone();
                Ok(FullMarket { data })
            },
            Err(message) => Err(message),
        }
    }
}

impl Clone for LiteMarket {
    fn clone(&self) -> (r: LiteMarket)
        ensures
            r == *self,
    {
        proof {
            use_type_invariant(self);
        }
        let data = self.data.clone();
        LiteMarket { data }
    }
}

impl Decode for LiteMarket {
    closed spec fn decodes(raw: Value, outcome: Option<LiteMarket>) -> bool {
        outcome == if market_shaped(raw) {
            Some(LiteMarket { data: raw })
        } else {
            None
        }
    }

    fn decode(raw: &Value) -> (r: Result<LiteMarket, String>)
        ensures
            r matches Err(message) ==> market_fault(*raw) == Some(message@),
    {
        match check_market(raw) {
            Ok(()) => {
                let data = raw.clone();
                Ok(LiteMarket { data })
            },
            Err(message) => Err(message),
        }
    }
}

/// A value decodes into a user exactly where it is shaped like one, and the
/// user keeps the value it was decoded from. The same holds of markets.
/// Groups and bets decode from every value.
pub proof fn theorem_decodes(raw: Value)
    ensures
        forall|outcome: Option<User>| #[trigger]
            User::decodes(raw, outcome) ==> (outcome is Some <==> user_shaped(raw)) && (
            outcome matches Some(user) ==> user.raw() == raw),
        forall|outcome: Option<FullMarket>| #[trigger]
            FullMarket::decodes(raw, outcome) ==> (outcome is Some <==> market_shaped(raw)) && (
            outcome matches Some(market) ==> market.raw() == raw),
        forall|outcome: Option<LiteMarket>| #[trigger]
            LiteMarket::decodes(raw, outcome) ==> (outcome is Some <==> market_shaped(raw)) && (
            outcome matches Some(market) ==> market.raw() == raw),
        forall|outcome: Option<Group>| #[trigger]
            Group::decodes(raw, outcome) ==> (outcome matches Some(group) && group.raw() == raw),
        forall|outcome: Option<Bet>| #[trigger]
            Bet::decodes(raw, outcome) ==> (outcome matches Some(bet) && bet.raw() == raw),
{
}

} // verus!

//! The response envelope, the ticker record, and their decoding from JSON.
use vstd::prelude::*;

verus! {

/// A JSON value of `serde_json`, carried through unread but by its accessors.
#[verifier::external_type_specification]
#[verifier::external_body]
pub struct ExValue(serde_json::Value);

/// The parse error of `serde_json`.
#[verifier::external_type_specification]
#[verifier::external_body]
pub struct ExJsonError(serde_json::Error);

/// The JSON value that `text` holds, or `None` where it holds no single
/// JSON value that the parser takes.
pub uninterp spec fn json_parsed(text: Seq<char>) -> Option<serde_json::Value>;

/// The member of an object under `key`; `None` where the value is no
/// object or has no such member.
pub uninterp spec fn json_member(v: serde_json::Value, key: Seq<char>) -> Option<serde_json::Value>;

/// The elements of an array; `None` where the value is no array.
pub uninterp spec fn json_elements(v: serde_json::Value) -> Option<Seq<serde_json::Value>>;

/// The integer of a number that is an integer within `i64`.
pub uninterp spec fn json_as_i64(v: serde_json::Value) -> Option<i64>;

/// The text of a string.
pub uninterp spec fn json_as_str(v: serde_json::Value) -> Option<Seq<char>>;

/// The value of a boolean.
pub uninterp spec fn json_as_bool(v: serde_json::Value) -> Option<bool>;

/// Whether the value is `null`.
pub uninterp spec fn json_is_null(v: serde_json::Value) -> bool;

/// Relies on `serde_json::from_str` into a `Value`: the value that the text
/// holds, which the text alone decides.
#[verifier::external_body]
fn parse_json(text: &str) -> (r: Result<serde_json::Value, serde_json::Error>)
    ensures
        match r {
            Ok(v) => json_parsed(text@) == Some(v),
            Err(_) => json_parsed(text@) is None,
        },
{
    serde_json::from_str::<serde_json::Value>(text)
}

/// Relies on `serde_json::Value::get` with a string key: the member of an
/// object under that key, if the value is an object that has one.
#[verifier::external_body]
fn member(v: &serde_json::Value, key: &str) -> (r: Option<serde_json::Value>)
    ensures
        r == json_member(*v, key@),
{
    v.get(key).cloned()
}

/// Relies on `serde_json::Value::as_array`: the elements of an array.
#[verifier::external_body]
fn elements(v: &serde_json::Value) -> (r: Option<Vec<serde_json::Value>>)
    ensures
        match r {
            Some(items) => json_elements(*v) == Some(items@),
            None => json_elements(*v) is None,
        },
{
    v.as_array().cloned()
}

/// Relies on `serde_json::Value::as_i64`: the number, where it is an integer
/// that fits `i64`.
pub assume_specification[ serde_json::Value::as_i64 ](v: &serde_json::Value) -> (r: Option<i64>)
    ensures
        r == json_as_i64(*v),
;

/// Relies on `serde_json::Value::as_str`: the text of a string.
pub assume_specification<'a>[ serde_json::Value::as_str ](v: &'a serde_json::Value) -> (r: Option<
    &'a str,
>)
    ensures
        match r {
            Some(s) => json_as_str(*v) == Some(s@),
            None => json_as_str(*v) is None,
        },
;

/// Relies on `serde_json::Value::as_bool`: the value of a boolean.
pub assume_specification[ serde_json::Value::as_bool ](v: &serde_json::Value) -> (r: Option<bool>)
    ensures
        r == json_as_bool(*v),
;

/// Relies on `serde_json::Value::is_null`: whether the value is `null`.
pub assume_specification[ serde_json::Value::is_null ](v: &serde_json::Value) -> (r: bool)
    ensures
        r == json_is_null(*v),
;

/// What a member of a JSON object holds, as far as decoding looks at it.
pub enum Member<T> {
    /// The object has no member under the key.
    Missing,
    /// The member is `null`.
    Null,
    /// The member has the expected kind.
    Found(T),
    /// The member is of another kind.
    Mistyped,
}

/// A member with its value seen through its view.
pub open spec fn member_view<T: View>(m: Member<T>) -> Member<T::V> {
    match m {
        Member::Missing => Member::Missing,
        Member::Null => Member::Null,
        Member::Found(x) => Member::Found(x@),
        Member::Mistyped => Member::Mistyped,
    }
}

/// The value of a member that must be there.
pub open spec fn required<T>(m: Member<T>) -> Option<T> {
    match m {
        Member::Found(x) => Some(x),
        _ => None,
    }
}

/// The value of a member that may be left out or `null`; `None` where it is
/// of another kind.
pub open spec fn optional<T>(m: Member<T>) -> Option<Option<T>> {
    match m {
        Member::Missing | Member::Null => Some(None),
        Member::Found(x) => Some(Some(x)),
        Member::Mistyped => None,
    }
}

/// An optional text seen through its view.
pub open spec fn optional_view(x: Option<String>) -> Option<Seq<char>> {
    match x {
        Some(s) => Some(s@),
        None => None,
    }
}

/// The member of `obj` under `key`, read as text.
pub open spec fn text_member(obj: serde_json::Value, key: Seq<char>) -> Member<Seq<char>> {
    match json_member(obj, key) {
        None => Member::Missing,
        Some(v) => if json_is_null(v) {
            Member::Null
        } else {
            match json_as_str(v) {
                Some(s) => Member::Found(s),
                None => Member::Mistyped,
            }
        },
    }
}

/// The member of `obj` under `key`, read as an integer.
pub open spec fn int_member(obj: serde_json::Value, key: Seq<char>) -> Member<i64> {
    match json_member(obj, key) {
        None => Member::Missing,
        Some(v) => if json_is_null(v) {
            Member::Null
        } else {
            match json_as_i64(v) {
                Some(n) => Member::Found(n),
                None => Member::Mistyped,
            }
        },
    }
}

/// The member of `obj` under `key`, read as a boolean.
pub open spec fn bool_member(obj: serde_json::Value, key: Seq<char>) -> Member<bool> {
    match json_member(obj, key) {
        None => Member::Missing,
        Some(v) => if json_is_null(v) {
            Member::Null
        } else {
            match json_as_bool(v) {
                Some(b) => Member::Found(b),
                None => Member::Mistyped,
            }
        },
    }
}

/// The member of `obj` under `key`, read as an array.
pub open spec fn array_member(obj: serde_json::Value, key: Seq<char>) -> Member<Seq<serde_json::Value>> {
    match json_member(obj, key) {
        None => Member::Missing,
        Some(v) => if json_is_null(v) {
            Member::Null
        } else {
            match json_elements(v) {
                Some(items) => Member::Found(items),
                None => Member::Mistyped,
            }
        },
    }
}

/// Whether an integer fits the envelope's `count`.
pub open spec fn fits_i32(n: i64) -> bool {
    i32::MIN <= n <= i32::MAX
}

/// Whether the five members make up an envelope: `count` an integer that
/// fits 32 bits, `next_url` text or left out, the rest present with their
/// kinds.
pub open spec fn envelope_accepts(
    count: Member<i64>,
    next_url: Member<Seq<char>>,
    request_id: Member<Seq<char>>,
    results: Member<Seq<serde_json::Value>>,
    status: Member<Seq<char>>,
) -> bool {
    required(count) is Some && fits_i32(required(count)->0) && optional(next_url) is Some
        && required(request_id) is Some && required(results) is Some && required(status) is Some
}

/// Whether `e` holds what the five members hold.
pub open spec fn envelope_holds(
    e: ResponseObject,
    count: Member<i64>,
    next_url: Member<Seq<char>>,
    request_id: Member<Seq<char>>,
    results: Member<Seq<serde_json::Value>>,
    status: Member<Seq<char>>,
) -> bool {
    required(count) == Some(e.count as i64) && optional(next_url) == Some(optional_view(e.next_url))
        && required(request_id) == Some(e.request_id@) && required(results) == Some(e.results@)
        && required(status) == Some(e.status@)
}

/// Whether the body text is a JSON object that makes up an envelope.
pub open spec fn body_accepts(text: Seq<char>) -> bool {
    match json_parsed(text) {
        None => false,
        Some(v) => envelope_accepts(
            int_member(v, "count"@),
            text_member(v, "next_url"@),
            text_member(v, "request_id"@),
            array_member(v, "results"@),
            text_member(v, "status"@),
        ),
    }
}

/// Whether `e` holds what the body text's object holds.
pub open spec fn body_holds(text: Seq<char>, e: ResponseObject) -> bool {
    match json_parsed(text) {
        None => false,
        Some(v) => envelope_holds(
            e,
            int_member(v, "count"@),
            text_member(v, "next_url"@),
            text_member(v, "request_id"@),
            array_member(v, "results"@),
            text_member(v, "status"@),
        ),
    }
}

/// The member that an optional text is written as: `null` where it is absent.
pub open spec fn member_of_optional(x: Option<Seq<char>>) -> Member<Seq<char>> {
    match x {
        None => Member::Null,
        Some(u) => Member::Found(u),
    }
}

/// An envelope's own fields, read back as the members of its JSON object,
/// make up that same envelope again.
pub proof fn lemma_envelope_members_round_trip(e: ResponseObject)
    ensures
        envelope_accepts(
            Member::Found(e.count as i64),
            member_of_optional(optional_view(e.next_url)),
            Member::Found(e.request_id@),
            Member::Found(e.results@),
            Member::Found(e.status@),
        ),
        envelope_holds(
            e,
            Member::Found(e.count as i64),
            member_of_optional(optional_view(e.next_url)),
            Member::Found(e.request_id@),
            Member::Found(e.results@),
            Member::Found(e.status@),
        ),
{
}

/// The envelope of every response: one page of results.
#[derive(Debug)]
pub struct ResponseObject {
    /// How many results there are in all, over every page.
    pub count: i32,
    /// Where the next page is, if there is one.
    pub next_url: Option<String>,
    pub request_id: String,
    /// The results of this page.
    pub results: Vec<serde_json::Value>,
    /// `OK` on success.
    pub status: String,
}

/// A ticker symbol's reference record: one item of the markets results.
#[derive(Debug, Clone)]
pub struct Ticker {
    pub ticker: String,
    pub name: String,
    pub market: String,
    pub locale: String,
    pub currency_name: String,
    pub active: bool,
    pub cik: String,
    pub primary_exchange: String,
    pub share_class_figi: String,
    pub composite_figi: String,
    /// The security type, under the key `type`.
    pub type_: String,
    pub last_updated_utc: String,
    pub delisted_utc: Option<String>,
}

/// The members of one JSON result that a ticker record is made of, with
/// text as `S`.
pub struct TickerMembers<S> {
    pub ticker: Member<S>,
    pub name: Member<S>,
    pub market: Member<S>,
    pub locale: Member<S>,
    pub currency_name: Member<S>,
    pub active: Member<bool>,
    pub cik: Member<S>,
    pub primary_exchange: Member<S>,
    pub share_class_figi: Member<S>,
    pub composite_figi: Member<S>,
    pub type_: Member<S>,
    pub last_updated_utc: Member<S>,
    pub delisted_utc: Member<S>,
}

/// The members seen through their views.
pub open spec fn ticker_members_view(m: TickerMembers<String>) -> TickerMembers<Seq<char>> {
    TickerMembers {
        ticker: member_view(m.ticker),
        name: member_view(m.name),
        market: member_view(m.market),
        locale: member_view(m.locale),
        currency_name: member_view(m.currency_name),
        active: m.active,
        cik: member_view(m.cik),
        primary_exchange: member_view(m.primary_exchange),
        share_class_figi: member_view(m.share_class_figi),
        composite_figi: member_view(m.composite_figi),
        type_: member_view(m.type_),
        last_updated_utc: member_view(m.last_updated_utc),
        delisted_utc: member_view(m.delisted_utc),
    }
}

/// The members of the JSON result `v`.
pub open spec fn ticker_members_of(v: serde_json::Value) -> TickerMembers<Seq<char>> {
    TickerMembers {
        ticker: text_member(v, "ticker"@),
        name: text_member(v, "name"@),
        market: text_member(v, "market"@),
        locale: text_member(v, "locale"@),
        currency_name: text_member(v, "currency_name"@),
        active: bool_member(v, "active"@),
        cik: text_member(v, "cik"@),
        primary_exchange: text_member(v, "primary_exchange"@),
        share_class_figi: text_member(v, "share_class_figi"@),
        composite_figi: text_member(v, "composite_figi"@),
        type_: text_member(v, "type"@),
        last_updated_utc: text_member(v, "last_updated_utc"@),
        delisted_utc: text_member(v, "delisted_utc"@),
    }
}

/// Whether the members make up a ticker record: every member present with
/// its kind, but `delisted_utc`, which may be left out or `null`.
pub open spec fn ticker_accepts(m: TickerMembers<Seq<char>>) -> bool {
    required(m.ticker) is Some
        && required(m.name) is Some
        && required(m.market) is Some
        && required(m.locale) is Some
        && required(m.currency_name) is Some
        && required(m.active) is Some
        && required(m.cik) is Some
        && required(m.primary_exchange) is Some
        && required(m.share_class_figi) is Some
        && required(m.composite_figi) is Some
        && required(m.type_) is Some
        && required(m.last_updated_utc) is Some
        && optional(m.delisted_utc) is Some
}

/// Whether `t` holds what the members hold.
pub open spec fn ticker_holds(t: Ticker, m: TickerMembers<Seq<char>>) -> bool {
    required(m.ticker) == Some(t.ticker@)
        && required(m.name) == Some(t.name@)
        && required(m.market) == Some(t.market@)
        && required(m.locale) == Some(t.locale@)
        && required(m.currency_name) == Some(t.currency_name@)
        && required(m.active) == Some(t.active)
        && required(m.cik) == Some(t.cik@)
        && required(m.primary_exchange) == Some(t.primary_exchange@)
        && required(m.share_class_figi) == Some(t.share_class_figi@)
        && required(m.composite_figi) == Some(t.composite_figi@)
        && required(m.type_) == Some(t.type_@)
        && required(m.last_updated_utc) == Some(t.last_updated_utc@)
        && optional(m.delisted_utc) == Some(optional_view(t.delisted_utc))
}

fn read_text(obj: &serde_json::Value, key: &str) -> (r: Member<String>)
    ensures
        member_view(r) == text_member(*obj, key@),
{
    match member(obj, key) {
        None => Member::Missing,
        Some(v) => if v.is_null() {
            Member::Null
        } else {
            match v.as_str() {
                Some(s) => Member::Found(String::from_str(s)),
                None => Member::Mistyped,
            }
        },
    }
}

fn read_int(obj: &serde_json::Value, key: &str) -> (r: Member<i64>)
    ensures
        r == int_member(*obj, key@),
{
    match member(obj, key) {
        None => Member::Missing,
        Some(v) => if v.is_null() {
            Member::Null
        } else {
            match v.as_i64() {
                Some(n) => Member::Found(n),
                None => Member::Mistyped,
            }
        },
    }
}

fn read_bool(obj: &serde_json::Value, key: &str) -> (r: Member<bool>)
    ensures
        r == bool_member(*obj, key@),
{
    match member(obj, key) {
        None => Member::Missing,
        Some(v) => if v.is_null() {
            Member::Null
        } else {
            match v.as_bool() {
                Some(b) => Member::Found(b),
                None => Member::Mistyped,
            }
        },
    }
}

fn read_array(obj: &serde_json::Value, key: &str) -> (r: Member<Vec<serde_json::Value>>)
    ensures
        member_view(r) == array_member(*obj, key@),
{
    match member(obj, key) {
        None => Member::Missing,
        Some(v) => if v.is_null() {
            Member::Null
        } else {
            match elements(&v) {
                Some(items) => Member::Found(items),
                None => Member::Mistyped,
            }
        },
    }
}

/// The value of a member that must be there, or a message that names it.
pub fn take_required<T>(m: Member<T>, key: &str) -> (r: Result<T, String>)
    ensures
        match r {
            Ok(x) => required(m) == Some(x),
            Err(_) => required(m) is None,
        },
{
    match m {
        Member::Found(x) => Ok(x),
        _ => {
            let mut msg = String::from_str("missing or mistyped field: ");
            msg.append(key);
            Err(msg)
        },
    }
}

/// The value of a member that may be left out or `null`, or a message that
/// names it where it is of another kind.
pub fn take_optional<T>(m: Member<T>, key: &str) -> (r: Result<Option<T>, String>)
    ensures
        match r {
            Ok(x) => optional(m) == Some(x),
            Err(_) => optional(m) is None,
        },
{
    match m {
        Member::Missing | Member::Null => Ok(None),
        Member::Found(x) => Ok(Some(x)),
        Member::Mistyped => {
            let mut msg = String::from_str("mistyped field: ");
            msg.append(key);
            Err(msg)
        },
    }
}

impl ResponseObject {
    /// Puts the envelope together from its five members: `count` must be an
    /// integer that fits 32 bits, `next_url` text or left out, and the rest
    /// present with their kinds.
    pub fn from_members(
        count: Member<i64>,
        next_url: Member<String>,
        request_id: Member<String>,
        results: Member<Vec<serde_json::Value>>,
        status: Member<String>,
    ) -> (r: Result<ResponseObject, String>)
        ensures
            match r {
                Ok(e) => envelope_accepts(
                    count,
                    member_view(next_url),
                    member_view(request_id),
                    member_view(results),
                    member_view(status),
                ) && envelope_holds(
                    e,
                    count,
                    member_view(next_url),
                    member_view(request_id),
                    member_view(results),
                    member_view(status),
                ),
                Err(_) => !envelope_accepts(
                    count,
                    member_view(next_url),
                    member_view(request_id),
                    member_view(results),
                    member_view(status),
                ),
            },
    {
        let ghost (nv, rv, sv, tv) = (
            member_view(next_url),
            member_view(request_id),
            member_view(results),
            member_view(status),
        );
        let n = take_required(count, "count")?;
        if n < i32::MIN as i64 || n > i32::MAX as i64 {
            return Err(String::from_str("field out of range: count"));
        }
        let next_url = take_optional(next_url, "next_url")?;
        let request_id = take_required(request_id, "request_id")?;
        let results = take_required(results, "results")?;
        let status = take_required(status, "status")?;
        let e = ResponseObject { count: n as i32, next_url, request_id, results, status };
        assert(envelope_holds(e, count, nv, rv, sv, tv));
        Ok(e)
    }

    /// Decodes an envelope from the text of a response body: it succeeds
    /// exactly where the text is a JSON object that makes up an envelope,
    /// and then holds what that object holds.
    pub fn from_json(text: &str) -> (r: Result<ResponseObject, String>)
        ensures
            match r {
                Ok(e) => body_accepts(text@) && body_holds(text@, e),
                Err(_) => !body_accepts(text@),
            },
    {
        match parse_json(text) {
            Err(_) => Err(String::from_str("the body is not well-formed JSON")),
            Ok(v) => ResponseObject::from_members(
                read_int(&v, "count"),
                read_text(&v, "next_url"),
                read_text(&v, "request_id"),
                read_array(&v, "results"),
                read_text(&v, "status"),
            ),
        }
    }
}

impl Ticker {
    /// Puts a ticker record together from its members.
    pub fn from_members(m: TickerMembers<String>) -> (r: Result<Ticker, String>)
        ensures
            match r {
                Ok(t) => ticker_accepts(ticker_members_view(m)) && ticker_holds(
                    t,
                    ticker_members_view(m),
                ),
                Err(_) => !ticker_accepts(ticker_members_view(m)),
            },
    {
        let ghost mv = ticker_members_view(m);
        let ticker = take_required(m.ticker, "ticker")?;
        let name = take_required(m.name, "name")?;
        let market = take_required(m.market, "market")?;
        let locale = take_required(m.locale, "locale")?;
        let currency_name = take_required(m.currency_name, "currency_name")?;
        let active = take_required(m.active, "active")?;
        let cik = take_required(m.cik, "cik")?;
        let primary_exchange = take_required(m.primary_exchange, "primary_exchange")?;
        let share_class_figi = take_required(m.share_class_figi, "share_class_figi")?;
        let composite_figi = take_required(m.composite_figi, "composite_figi")?;
        let type_ = take_required(m.type_, "type")?;
        let last_updated_utc = take_required(m.last_updated_utc, "last_updated_utc")?;
        let delisted_utc = take_optional(m.delisted_utc, "delisted_utc")?;
        let t = Ticker {
            ticker,
            name,
            market,
            locale,
            currency_name,
            active,
            cik,
            primary_exchange,
            share_class_figi,
            composite_figi,
            type_,
            last_updated_utc,
            delisted_utc,
        };
        assert(ticker_holds(t, mv));
        Ok(t)
    }

    /// Decodes a ticker record from one JSON result, an object whose member
    /// `type` holds the security type.
    pub fn from_value(v: &serde_json::Value) -> (r: Result<Ticker, String>)
        ensures
            match r {
                Ok(t) => ticker_accepts(ticker_members_of(*v)) && ticker_holds(
                    t,
                    ticker_members_of(*v),
                ),
                Err(_) => !ticker_accepts(ticker_members_of(*v)),
            },
    {
        let m = TickerMembers {
            ticker: read_text(v, "ticker"),
            name: read_text(v, "name"),
            market: read_text(v, "market"),
            locale: read_text(v, "locale"),
            currency_name: read_text(v, "currency_name"),
            active: read_bool(v, "active"),
            cik: read_text(v, "cik"),
            primary_exchange: read_text(v, "primary_exchange"),
            share_class_figi: read_text(v, "share_class_figi"),
            composite_figi: read_text(v, "composite_figi"),
            type_: read_text(v, "type"),
            last_updated_utc: read_text(v, "last_updated_utc"),
            delisted_utc: read_text(v, "delisted_utc"),
        };
        assert(ticker_members_view(m) == ticker_members_of(*v));
        Ticker::from_members(m)
    }
}

} // verus!

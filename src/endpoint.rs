//! Endpoint URLs: the text that is built from a base URL, and its parse.
use vstd::prelude::*;

verus! {

/// Path of the ticker reference data.
pub const TICKERS: &'static str = "/v3/reference/tickers";

/// Path of the company financials.
pub const FINANCIALS: &'static str = "/vX/reference/financials";

/// Query of the markets listing: active stocks.
pub const MARKETS_QUERY: &'static str = "?market=stocks&active=true";

/// Start of the query that selects one ticker symbol.
pub const TICKER_QUERY: &'static str = "?ticker=";

/// Whether `c` occurs in `s`.
pub open spec fn has_char(s: Seq<char>, c: char) -> bool {
    exists|i: int| 0 <= i < s.len() && s[i] == c
}

/// The part of `s` before its first `#`: all of it where there is none.
pub open spec fn before_fragment(s: Seq<char>) -> Seq<char>
    decreases s.len(),
{
    if s.len() == 0 || s[0] == '#' {
        Seq::empty()
    } else {
        seq![s[0]] + before_fragment(s.drop_first())
    }
}

/// The query of a URL text: what follows its first `?` up to the fragment,
/// if a `?` comes before any `#`.
pub open spec fn query_of(u: Seq<char>) -> Option<Seq<char>>
    decreases u.len(),
{
    if u.len() == 0 || u[0] == '#' {
        None
    } else if u[0] == '?' {
        Some(before_fragment(u.drop_first()))
    } else {
        query_of(u.drop_first())
    }
}

/// The text of the markets URL under `base`.
pub open spec fn markets_url_spec(base: Seq<char>) -> Seq<char> {
    base + TICKERS@ + MARKETS_QUERY@
}

/// The text of the financials URL under `base`: the whole listing for an
/// empty symbol, else the one ticker.
pub open spec fn financials_url_spec(base: Seq<char>, symbol: Seq<char>) -> Seq<char> {
    if symbol.len() == 0 {
        base + FINANCIALS@
    } else {
        base + FINANCIALS@ + TICKER_QUERY@ + symbol
    }
}

/// The parse error of `url`.
#[verifier::external_type_specification]
#[verifier::external_body]
pub struct ExParseError(url::ParseError);

/// The serialization of the URL that `text` parses to, or `None` where it
/// is no absolute URL.
pub uninterp spec fn url_serialization(text: Seq<char>) -> Option<Seq<char>>;

/// Relies on `url::Url::parse`, and on `From<Url> for String`, which hands
/// out the serialization: both depend on the text alone.
#[verifier::external_body]
pub(crate) fn parse_url(text: &str) -> (r: Result<String, url::ParseError>)
    ensures
        match r {
            Ok(u) => url_serialization(text@) == Some(u@),
            Err(_) => url_serialization(text@) is None,
        },
{
    url::Url::parse(text).map(String::from)
}

/// Builds the text of the markets URL.
pub fn markets_url(base: &str) -> (r: String)
    ensures
        r@ == markets_url_spec(base@),
{
    let mut u = String::from_str(base);
    u.append(TICKERS);
    u.append(MARKETS_QUERY);
    u
}

/// Builds the text of the financials URL.
pub fn financials_url(base: &str, symbol: &str) -> (r: String)
    ensures
        r@ == financials_url_spec(base@, symbol@),
{
    let mut u = String::from_str(base);
    u.append(FINANCIALS);
    if !symbol.is_empty() {
        u.append(TICKER_QUERY);
        u.append(symbol);
    }
    u
}

proof fn lemma_query_after_plain_prefix(p: Seq<char>, q: Seq<char>)
    requires
        !has_char(p, '?'),
        !has_char(p, '#'),
    ensures
        query_of(p + q) == query_of(q),
    decreases p.len(),
{
    if p.len() > 0 {
        assert(p[0] != '?' && p[0] != '#');
        assert((p + q)[0] == p[0]);
        assert((p + q).drop_first() =~= p.drop_first() + q);
        assert forall|i: int| 0 <= i < p.drop_first().len() implies p.drop_first()[i] != '?'
            && p.drop_first()[i] != '#' by {
            assert(p.drop_first()[i] == p[i + 1]);
        }
        lemma_query_after_plain_prefix(p.drop_first(), q);
    } else {
        assert(p + q =~= q);
    }
}

proof fn lemma_query_starts_here(r: Seq<char>)
    requires
        r.len() > 0,
        r[0] == '?',
    ensures
        query_of(r) == Some(before_fragment(r.drop_first())),
{
}

proof fn lemma_no_fragment(s: Seq<char>)
    requires
        !has_char(s, '#'),
    ensures
        before_fragment(s) == s,
    decreases s.len(),
{
    if s.len() > 0 {
        assert(s[0] != '#');
        assert forall|i: int| 0 <= i < s.drop_first().len() implies s.drop_first()[i] != '#' by {
            assert(s.drop_first()[i] == s[i + 1]);
        }
        lemma_no_fragment(s.drop_first());
        assert(seq![s[0]] + s.drop_first() =~= s);
    } else {
        assert(s =~= Seq::<char>::empty());
    }
}

/// A financials URL carries `ticker=<symbol>` as its whole query when the
/// symbol is not empty, and no query at all when it is. A symbol without `&`
/// adds no second parameter, and one without `#` starts no fragment.
pub proof fn lemma_financials_query(base: Seq<char>, symbol: Seq<char>)
    requires
        !has_char(base, '?'),
        !has_char(base, '#'),
    ensures
        symbol.len() == 0 ==> query_of(financials_url_spec(base, symbol)) is None,
        symbol.len() > 0 && !has_char(symbol, '#') ==> query_of(
            financials_url_spec(base, symbol),
        ) == Some("ticker="@ + symbol),
        !has_char(symbol, '&') ==> !has_char("ticker="@ + symbol, '&'),
{
    reveal_strlit("/vX/reference/financials");
    reveal_strlit("?ticker=");
    reveal_strlit("ticker=");
    let path = base + FINANCIALS@;
    assert(!has_char(path, '?') && !has_char(path, '#')) by {
        assert forall|i: int| 0 <= i < path.len() implies path[i] != '?' && path[i] != '#' by {
            if i >= base.len() {
                assert(path[i] == FINANCIALS@[i - base.len()]);
            }
        }
    }
    let t = "ticker="@ + symbol;
    if symbol.len() == 0 {
        lemma_query_after_plain_prefix(path, Seq::empty());
        assert(path + Seq::<char>::empty() =~= path);
    } else {
        let rest = TICKER_QUERY@ + symbol;
        assert(base + FINANCIALS@ + TICKER_QUERY@ + symbol =~= path + rest);
        lemma_query_after_plain_prefix(path, rest);
        lemma_query_starts_here(rest);
        assert(rest.drop_first() =~= t);
        if !has_char(symbol, '#') {
            assert forall|i: int| 0 <= i < t.len() implies t[i] != '#' by {
                if i >= 7 {
                    assert(t[i] == symbol[i - 7]);
                }
            }
            lemma_no_fragment(t);
        }
    }
    if !has_char(symbol, '&') {
        assert forall|i: int| 0 <= i < t.len() implies t[i] != '&' by {
            if i >= 7 {
                assert(t[i] == symbol[i - 7]);
            }
        }
    }
}

/// Whatever the base URL, the markets URL targets the tickers path with
/// `market=stocks&active=true` as its whole query.
pub proof fn lemma_markets_query(base: Seq<char>)
    requires
        !has_char(base, '?'),
        !has_char(base, '#'),
    ensures
        markets_url_spec(base) == base + TICKERS@ + "?"@ + "market=stocks&active=true"@,
        query_of(markets_url_spec(base)) == Some("market=stocks&active=true"@),
{
    reveal_strlit("/v3/reference/tickers");
    reveal_strlit("?market=stocks&active=true");
    reveal_strlit("market=stocks&active=true");
    reveal_strlit("?");
    let path = base + TICKERS@;
    assert(!has_char(path, '?') && !has_char(path, '#')) by {
        assert forall|i: int| 0 <= i < path.len() implies path[i] != '?' && path[i] != '#' by {
            if i >= base.len() {
                assert(path[i] == TICKERS@[i - base.len()]);
            }
        }
    }
    let q = "market=stocks&active=true"@;
    assert(MARKETS_QUERY@ =~= "?"@ + q);
    assert(markets_url_spec(base) =~= base + TICKERS@ + "?"@ + q);
    lemma_query_after_plain_prefix(path, MARKETS_QUERY@);
    lemma_query_starts_here(MARKETS_QUERY@);
    assert(MARKETS_QUERY@.drop_first() =~= q);
    assert(!has_char(q, '#')) by {
        assert forall|i: int| 0 <= i < q.len() implies q[i] != '#' by {
            assert(MARKETS_QUERY@[i + 1] == q[i]);
        }
    }
    lemma_no_fragment(q);
}

} // verus!

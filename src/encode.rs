//! The JSON text of an envelope, in the order of its fields.
use vstd::prelude::*;
use crate::common::ResponseObject;

verus! {

/// The character of a decimal digit.
pub open spec fn digit_char(d: nat) -> char {
    if d == 0 {
        '0'
    } else if d == 1 {
        '1'
    } else if d == 2 {
        '2'
    } else if d == 3 {
        '3'
    } else if d == 4 {
        '4'
    } else if d == 5 {
        '5'
    } else if d == 6 {
        '6'
    } else if d == 7 {
        '7'
    } else if d == 8 {
        '8'
    } else {
        '9'
    }
}

/// The decimal digits of `n`, without leading zeros.
pub open spec fn nat_text(n: nat) -> Seq<char>
    decreases n,
{
    if n < 10 {
        seq![digit_char(n)]
    } else {
        nat_text(n / 10) + seq![digit_char(n % 10)]
    }
}

/// The decimal text of an integer, with `-` before a negative one.
pub open spec fn int_text(n: int) -> Seq<char> {
    if n < 0 {
        seq!['-'] + nat_text((-n) as nat)
    } else {
        nat_text(n as nat)
    }
}

/// The JSON string literal that stands for `s`, quotes and escapes included.
pub uninterp spec fn json_quoted(s: Seq<char>) -> Seq<char>;

/// Relies on the `Display` of `serde_json::Value` for a string: the compact
/// JSON literal of the string, which the string alone decides.
#[verifier::external_body]
fn quote(s: &str) -> (r: String)
    ensures
        r@ == json_quoted(s@),
{
    serde_json::Value::from(s).to_string()
}

/// The compact JSON text of an array of the items.
pub uninterp spec fn json_array_text(items: Seq<serde_json::Value>) -> Seq<char>;

/// Relies on the `Display` of `serde_json::Value` for an array: the compact
/// JSON text of the items, which the items alone decide.
#[verifier::external_body]
fn array_text(items: &Vec<serde_json::Value>) -> (r: String)
    ensures
        r@ == json_array_text(items@),
{
    serde_json::Value::Array(items.clone()).to_string()
}

fn digit_str(d: u64) -> (r: &'static str)
    requires
        d < 10,
    ensures
        r@ == seq![digit_char(d as nat)],
{
    if d == 0 {
        proof { reveal_strlit("0"); }
        "0"
    } else if d == 1 {
        proof { reveal_strlit("1"); }
        "1"
    } else if d == 2 {
        proof { reveal_strlit("2"); }
        "2"
    } else if d == 3 {
        proof { reveal_strlit("3"); }
        "3"
    } else if d == 4 {
        proof { reveal_strlit("4"); }
        "4"
    } else if d == 5 {
        proof { reveal_strlit("5"); }
        "5"
    } else if d == 6 {
        proof { reveal_strlit("6"); }
        "6"
    } else if d == 7 {
        proof { reveal_strlit("7"); }
        "7"
    } else if d == 8 {
        proof { reveal_strlit("8"); }
        "8"
    } else {
        proof { reveal_strlit("9"); }
        "9"
    }
}

/// The decimal text of `n`.
pub fn decimal_text(n: i32) -> (r: String)
    ensures
        r@ == int_text(n as int),
{
    let negative = n < 0;
    let mut m: u64 = if negative {
        (-(n as i64)) as u64
    } else {
        n as u64
    };
    let ghost m0: nat = m as nat;
    let mut s = String::from_str(digit_str(m % 10));
    m = m / 10;
    while m > 0
        invariant
            m == 0 ==> s@ == nat_text(m0),
            m > 0 ==> nat_text(m0) == nat_text(m as nat) + s@,
        decreases m,
    {
        let t = String::from_str(digit_str(m % 10));
        let ghost old_s = s@;
        s = t.concat(s.as_str());
        proof {
            if m >= 10 {
                assert(nat_text(m as nat) == nat_text((m / 10) as nat) + seq![digit_char((m % 10) as nat)]);
                assert(nat_text(m as nat) + old_s =~= nat_text((m / 10) as nat) + s@);
            } else {
                assert(nat_text(m as nat) == seq![digit_char(m as nat)]);
            }
        }
        m = m / 10;
    }
    if negative {
        proof { reveal_strlit("-"); }
        let r = String::from_str("-").concat(s.as_str());
        r
    } else {
        s
    }
}

/// The JSON text of an envelope: its fields in order, the results as the
/// compact text of their array.
pub open spec fn envelope_text(e: ResponseObject) -> Seq<char> {
    "{\"count\":"@ + int_text(e.count as int) + ",\"next_url\":"@ + match e.next_url {
        None => "null"@,
        Some(u) => json_quoted(u@),
    } + ",\"request_id\":"@ + json_quoted(e.request_id@) + ",\"results\":"@ + json_array_text(
        e.results@,
    )
        + ",\"status\":"@ + json_quoted(e.status@) + "}"@
}

impl ResponseObject {
    /// The compact JSON text of the envelope, its fields in order.
    pub fn to_string(&self) -> (r: String)
        ensures
            r@ == envelope_text(*self),
    {
        let mut t = String::from_str("{\"count\":");
        let count = decimal_text(self.count);
        t.append(count.as_str());
        t.append(",\"next_url\":");
        match &self.next_url {
            None => t.append("null"),
            Some(u) => {
                let q = quote(u.as_str());
                t.append(q.as_str());
            },
        }
        t.append(",\"request_id\":");
        let q = quote(self.request_id.as_str());
        t.append(q.as_str());
        t.append(",\"results\":");
        let items = array_text(&self.results);
        t.append(items.as_str());
        t.append(",\"status\":");
        let q = quote(self.status.as_str());
        t.append(q.as_str());
        t.append("}");
        assert(t@ =~= envelope_text(*self));
        t
    }

    /// The compact JSON text of the envelope, taking it.
    pub fn into(self) -> (r: String)
        ensures
            r@ == envelope_text(self),
    {
        self.to_string()
    }
}

} // verus!

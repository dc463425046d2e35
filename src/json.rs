//! Writing JSON text: strings, integers, numbers, arrays and objects.
use vstd::prelude::*;

verus! {

/// What serde_json writes for a string value: the quoted, escaped text.
pub uninterp spec fn json_quoted(s: Seq<char>) -> Seq<char>;

/// What serde_json reads a number literal as, written back in its own form;
/// `None` where the text is not a finite JSON number.
pub uninterp spec fn json_number_form(s: Seq<char>) -> Option<Seq<char>>;

/// Relies on `serde_json::to_string` for a `str`: the JSON string literal
/// that holds `s`.
#[verifier::external_body]
pub(crate) fn quote(s: &str) -> (r: String)
    ensures
        r@ == json_quoted(s@),
{
    serde_json::to_string(s).unwrap_or_default()
}

/// Relies on `serde_json::Number`'s `FromStr` and `Display`: the number that
/// `s` denotes, as serde_json writes it.
#[verifier::external_body]
fn number_form(s: &str) -> (r: Option<String>)
    ensures
        json_number_form(s@) == (match r {
            Some(t) => Some(t@),
            None => None,
        }),
{
    s.parse::<serde_json::Number>().ok().map(|n| n.to_string())
}

pub open spec fn digit_char(d: nat) -> char {
    "0123456789"@[d as int]
}

/// The decimal digits of `n`, most significant first.
pub open spec fn digits(n: nat) -> Seq<char>
    decreases n,
{
    if n < 10 {
        seq![digit_char(n)]
    } else {
        digits(n / 10) + seq![digit_char(n % 10)]
    }
}

/// The JSON text of an integer.
pub open spec fn int_json(v: int) -> Seq<char> {
    if v < 0 {
        "-"@ + digits((-v) as nat)
    } else {
        digits(v as nat)
    }
}

/// The parts separated by commas.
pub open spec fn join(parts: Seq<Seq<char>>) -> Seq<char>
    decreases parts.len(),
{
    if parts.len() == 0 {
        Seq::empty()
    } else if parts.len() == 1 {
        parts[0]
    } else {
        join(parts.drop_last()) + ","@ + parts.last()
    }
}

/// A JSON array whose elements have the given texts.
pub open spec fn json_array(parts: Seq<Seq<char>>) -> Seq<char> {
    "["@ + join(parts) + "]"@
}

/// The text of one object member.
pub open spec fn member_json(m: (Seq<char>, Seq<char>)) -> Seq<char> {
    json_quoted(m.0) + ":"@ + m.1
}

/// A JSON object whose members are the given keys and value texts, in order.
pub open spec fn json_object(members: Seq<(Seq<char>, Seq<char>)>) -> Seq<char> {
    "{"@ + join(members.map_values(|m: (Seq<char>, Seq<char>)| member_json(m))) + "}"@
}

pub open spec fn texts(v: Seq<String>) -> Seq<Seq<char>> {
    v.map_values(|s: String| s@)
}

pub open spec fn member_texts(v: Seq<(String, String)>) -> Seq<(Seq<char>, Seq<char>)> {
    v.map_values(|m: (String, String)| (m.0@, m.1@))
}

fn append_digits(out: &mut String, n: u64)
    ensures
        final(out)@ == old(out)@ + digits(n as nat),
    decreases n,
{
    if n >= 10 {
        append_digits(out, n / 10);
    }
    let d: usize = (n % 10) as usize;
    let table = "0123456789";
    proof {
        reveal_strlit("0123456789");
    }
    out.append(table.substring_ascii(d, d + 1));
    assert(table@.subrange(d as int, d + 1) =~= seq![digit_char((n % 10) as nat)]);
}

/// The JSON text of an integer.
pub fn int_text(v: i64) -> (r: String)
    ensures
        r@ == int_json(v as int),
{
    let mut out = String::new();
    if v < 0 {
        out.append("-");
        let m: u64 = (0i128 - v as i128) as u64;
        append_digits(&mut out, m);
    } else {
        append_digits(&mut out, v as u64);
    }
    assert(out@ =~= int_json(v as int));
    out
}

/// The texts joined by commas.
pub fn join_texts(parts: &Vec<String>) -> (r: String)
    ensures
        r@ == join(texts(parts@)),
{
    let mut out = String::new();
    let mut i: usize = 0;
    while i < parts.len()
        invariant
            0 <= i <= parts.len(),
            out@ == join(texts(parts@).take(i as int)),
        decreases parts.len() - i,
    {
        proof {
            let t = texts(parts@);
            assert(t.take(i + 1).drop_last() =~= t.take(i as int));
        }
        if i > 0 {
            out.append(",");
        }
        out.append(parts[i].as_str());
        proof {
            if i == 0 {
                assert(out@ =~= join(texts(parts@).take(1)));
            }
        }
        i += 1;
    }
    assert(texts(parts@).take(parts.len() as int) =~= texts(parts@));
    out
}

/// A JSON array of the given element texts.
pub fn array_text(parts: &Vec<String>) -> (r: String)
    ensures
        r@ == json_array(texts(parts@)),
{
    let mut out = String::from_str("[");
    let inner = join_texts(parts);
    out.append(inner.as_str());
    out.append("]");
    out
}

/// A JSON object of the given keys and value texts, in order.
pub fn object_text(members: &Vec<(String, String)>) -> (r: String)
    ensures
        r@ == json_object(member_texts(members@)),
{
    let mut parts: Vec<String> = Vec::new();
    let mut i: usize = 0;
    while i < members.len()
        invariant
            0 <= i <= members.len(),
            texts(parts@) =~= member_texts(members@).take(i as int).map_values(
                |m: (Seq<char>, Seq<char>)| member_json(m),
            ),
        decreases members.len() - i,
    {
        let mut part = quote(members[i].0.as_str());
        part.append(":");
        part.append(members[i].1.as_str());
        proof {
            let mt = member_texts(members@);
            assert(mt[i as int] == (members@[i as int].0@, members@[i as int].1@));
            assert(part@ =~= member_json(mt[i as int]));
        }
        let ghost before = parts@;
        parts.push(part);
        proof {
            let mt = member_texts(members@);
            assert(texts(parts@) =~= texts(before).push(member_json(mt[i as int])));
            assert(mt.take(i + 1) =~= mt.take(i as int).push(mt[i as int]));
            assert(texts(parts@) =~= mt.take(i + 1).map_values(
                |m: (Seq<char>, Seq<char>)| member_json(m),
            ));
        }
        i += 1;
    }
    assert(member_texts(members@).take(members.len() as int) =~= member_texts(members@));
    let mut out = String::from_str("{");
    let inner = join_texts(&parts);
    out.append(inner.as_str());
    out.append("}");
    out
}

/// A number written as JSON text. It holds what serde_json writes for a
/// finite number, so it can be placed in a document as it is.
#[derive(Clone, Debug, PartialEq, Eq)]
pub struct JsonNumber {
    text: String,
}

impl View for JsonNumber {
    type V = Seq<char>;

    closed spec fn view(&self) -> Seq<char> {
        self.text@
    }
}

impl JsonNumber {
    /// An integer.
    pub fn from_int(v: i64) -> (r: JsonNumber)
        ensures
            r@ == int_json(v as int),
    {
        JsonNumber { text: int_text(v) }
    }

    /// The number written in `s`, or `None` where `s` is not a finite JSON
    /// number.
    pub fn parse(s: &str) -> (r: Option<JsonNumber>)
        ensures
            r is None <==> json_number_form(s@) is None,
            r matches Some(n) ==> json_number_form(s@) == Some(n@),
    {
        match number_form(s) {
            Some(t) => Some(JsonNumber { text: t }),
            None => None,
        }
    }

    /// The JSON text of the number.
    pub fn as_str(&self) -> (r: &str)
        ensures
            r@ == self@,
    {
        self.text.as_str()
    }
}

} // verus!

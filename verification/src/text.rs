//! Names of map attributes written as text: how a name is read from and
//! written to the JSON string form used by the map files.

use vstd::prelude::*;

verus! {

#[verifier::external_type_specification]
#[verifier::external_body]
pub struct ExJsonError(serde_json::Error);

/// What the JSON text `json` decodes to when it is read as one string value:
/// the unescaped contents, or `None` when `json` is not exactly one string.
pub uninterp spec fn json_decoded_str(json: Seq<char>) -> Option<Seq<char>>;

/// The lower-case hexadecimal digit of `n`, for `n` in `0..16`.
pub open spec fn hex_digit(n: int) -> char {
    if n < 10 {
        ('0' as int + n) as char
    } else {
        ('a' as int + n - 10) as char
    }
}

/// How a JSON string writes the character `c`: a quote, a backslash and
/// the control characters are escaped (the usual short forms for
/// backspace, tab, line feed, form feed and carriage return, `\u00XX` with
/// lower-case hex digits for the others); every other character stands
/// as itself.
pub open spec fn json_char_escape(c: char) -> Seq<char> {
    if c == '"' {
        seq!['\\', '"']
    } else if c == '\\' {
        seq!['\\', '\\']
    } else if c == '\u{8}' {
        seq!['\\', 'b']
    } else if c == '\t' {
        seq!['\\', 't']
    } else if c == '\n' {
        seq!['\\', 'n']
    } else if c == '\u{c}' {
        seq!['\\', 'f']
    } else if c == '\r' {
        seq!['\\', 'r']
    } else if (c as int) < 32 {
        seq!['\\', 'u', '0', '0', hex_digit(c as int / 16), hex_digit(c as int % 16)]
    } else {
        seq![c]
    }
}

/// The characters of `s`, each written as a JSON string writes it.
pub open spec fn json_escaped(s: Seq<char>) -> Seq<char>
    decreases s.len(),
{
    if s.len() == 0 {
        Seq::empty()
    } else {
        json_escaped(s.drop_last()) + json_char_escape(s.last())
    }
}

/// The JSON text of the string `s`: its escaped characters between quotes.
pub open spec fn json_encoded_str(s: Seq<char>) -> Seq<char> {
    quote(json_escaped(s))
}

/// Plain characters stand as themselves in a JSON string.
pub proof fn lemma_escape_plain(s: Seq<char>)
    requires
        is_plain(s),
    ensures
        json_escaped(s) == s,
    decreases s.len(),
{
    if s.len() > 0 {
        assert(is_plain(s.drop_last()));
        lemma_escape_plain(s.drop_last());
        assert(is_plain_char(s.last()));
        assert(s.drop_last() + seq![s.last()] =~= s);
    }
}

/// A character that a JSON string holds verbatim: neither a quote, nor a
/// backslash, nor a control character.
pub open spec fn is_plain_char(c: char) -> bool {
    c != '"' && c != '\\' && (c as int) >= 32
}

/// `s` holds a control character (code below 32), which a JSON string may
/// not hold unescaped.
pub open spec fn has_control_char(s: Seq<char>) -> bool {
    exists|i: int| 0 <= i < s.len() && (#[trigger] s[i] as int) < 32
}

/// Every character of `s` is held verbatim in a JSON string.
pub open spec fn is_plain(s: Seq<char>) -> bool {
    forall|i: int| 0 <= i < s.len() ==> is_plain_char(#[trigger] s[i])
}

/// `s` between double quotes.
pub open spec fn quote(s: Seq<char>) -> Seq<char> {
    seq!['"'] + s + seq!['"']
}

/// `s` with every double quote taken out.
pub open spec fn without_quotes(s: Seq<char>) -> Seq<char>
    decreases s.len(),
{
    if s.len() == 0 {
        s
    } else if s.last() == '"' {
        without_quotes(s.drop_last())
    } else {
        without_quotes(s.drop_last()).push(s.last())
    }
}


/// The text held by an optional string slice.
pub open spec fn text_view(t: Option<&str>) -> Option<Seq<char>> {
    match t {
        Some(s) => Some(s@),
        None => None,
    }
}

/// Length, first and last character of `s`: enough to tell apart the names
/// of a small set.
pub open spec fn text_key(s: Seq<char>) -> (int, char, char) {
    (s.len() as int, s[0], s[s.len() - 1])
}

/// The first `n` characters of `s` are plain.
pub open spec fn plain_prefix(s: Seq<char>, n: nat) -> bool
    decreases n,
{
    n == 0 || (plain_prefix(s, (n - 1) as nat) && is_plain_char(s[n - 1]))
}

/// A string whose every prefix is plain is plain.
pub proof fn lemma_plain_from_prefix(s: Seq<char>)
    requires
        plain_prefix(s, s.len()),
    ensures
        is_plain(s),
{
    lemma_plain_prefix_upto(s, s.len());
}

proof fn lemma_plain_prefix_upto(s: Seq<char>, n: nat)
    requires
        n <= s.len(),
        plain_prefix(s, n),
    ensures
        forall|i: int| 0 <= i < n ==> is_plain_char(#[trigger] s[i]),
    decreases n,
{
    if n > 0 {
        lemma_plain_prefix_upto(s, (n - 1) as nat);
    }
}

/// Why a name could not be read from or written to text.
#[derive(Debug, Clone, Copy, PartialEq, Eq, Structural)]
pub enum TextError {
    /// The text is not the body of a valid JSON string.
    InvalidJson,
    /// The text decodes to a string that names no value of the type.
    UnknownName,
    /// Writing the name as JSON failed.
    Serialize,
}

/// `serde_json::to_string` on a string slice: the JSON string literal of `s`.
/// Claimed: it always succeeds (writing into memory cannot fail and a string
/// always serialises) and gives `s` between quotes, each character escaped
/// as serde_json's escape table writes it.
#[verifier::external_body]
fn json_string_literal(s: &str) -> (r: Result<String, serde_json::Error>)
    ensures
        r is Ok,
        r is Ok ==> r->Ok_0@ == json_encoded_str(s@),
{
    serde_json::to_string(s)
}

/// `serde_json::from_str::<String>`: reads `json` as one JSON string value.
/// Claimed: the outcome is a function of `json` alone, and a plain string
/// between two quotes reads back as itself.
#[verifier::external_body]
fn json_parse_string(json: &str) -> (r: Result<String, serde_json::Error>)
    ensures
        r is Ok ==> json_decoded_str(json@) == Some(r->Ok_0@),
        r is Err ==> json_decoded_str(json@) is None,
        forall|inner: Seq<char>|
            #![trigger quote(inner)]
            json@ == quote(inner) && is_plain(inner) ==> r is Ok && r->Ok_0@ == inner,
        forall|inner: Seq<char>|
            #![trigger quote(inner)]
            json@ == quote(inner) && has_control_char(inner) ==> r is Err,
{
    serde_json::from_str::<String>(json)
}

/// Returns `text` between double quotes.
pub fn quoted(text: &str) -> (r: String)
    ensures
        r@ == quote(text@),
{
    let q = "\"";
    proof {
        reveal_strlit("\"");
    }
    let r = String::from_str(q).concat(text).concat(q);
    assert(r@ =~= quote(text@));
    r
}

/// Returns `s` with every double quote taken out.
pub fn remove_quotes(s: &str) -> (r: String)
    ensures
        r@ == without_quotes(s@),
{
    let n = s.unicode_len();
    let mut out = String::new();
    let mut i: usize = 0;
    assert(s@.subrange(0, 0).len() == 0);
    while i < n
        invariant
            n == s@.len(),
            i <= n,
            out@ == without_quotes(s@.subrange(0, i as int)),
        decreases n - i,
    {
        let c = s.get_char(i);
        let ghost prev = s@.subrange(0, i as int);
        let ghost next = s@.subrange(0, i as int + 1);
        assert(next.drop_last() =~= prev);
        assert(next.last() == c);
        if c != '"' {
            let one = s.substring_char(i, i + 1);
            assert(one@ =~= seq![c]);
            out.append(one);
            assert(out@ =~= without_quotes(prev).push(c));
        }
        i = i + 1;
    }
    assert(s@.subrange(0, n as int) =~= s@);
    out
}

/// Taking the quotes out of a plain string between quotes gives it back.
pub proof fn lemma_unquote_plain(t: Seq<char>)
    requires
        is_plain(t),
    ensures
        without_quotes(quote(t)) == t,
    decreases t.len(),
{
    let q = quote(t);
    assert(q.drop_last() =~= seq!['"'] + t);
    lemma_without_quotes_after_quote(t);
}

proof fn lemma_without_quotes_after_quote(t: Seq<char>)
    requires
        is_plain(t),
    ensures
        without_quotes(seq!['"'] + t) == t,
    decreases t.len(),
{
    let s = seq!['"'] + t;
    if t.len() == 0 {
        assert(s =~= seq!['"']);
        assert(s.drop_last() =~= Seq::<char>::empty());
        assert(without_quotes(s.drop_last()) == Seq::<char>::empty());
        assert(without_quotes(s) == without_quotes(s.drop_last()));
    } else {
        let u = t.drop_last();
        assert forall|i: int| 0 <= i < u.len() implies is_plain_char(#[trigger] u[i]) by {
            assert(u[i] == t[i]);
        }
        lemma_without_quotes_after_quote(u);
        assert(s.drop_last() =~= seq!['"'] + u);
        assert(s.last() == t[t.len() - 1]);
        assert(is_plain_char(t[t.len() - 1]));
        assert(u.push(t.last()) =~= t);
        assert(t.last() != '"');
        assert(without_quotes(s) == without_quotes(s.drop_last()).push(s.last()));
    }
}

/// Reads `text` as the contents of a JSON string: the text between the
/// quotes, with escapes still in it. `None` when that is not valid JSON.
pub fn decode_quoted(text: &str) -> (r: Option<String>)
    ensures
        match r {
            Some(v) => json_decoded_str(quote(text@)) == Some(v@),
            None => json_decoded_str(quote(text@)) is None,
        },
        is_plain(text@) ==> (r matches Some(v) && v@ == text@),
        has_control_char(text@) ==> r is None,
{
    let q = quoted(text);
    match json_parse_string(q.as_str()) {
        Ok(v) => Some(v),
        Err(_) => None,
    }
}

/// Writes `name` as a JSON string and takes every double quote out of the
/// result; for a plain name that is the name itself.
pub fn encode_unquoted(name: &str) -> (r: Result<String, TextError>)
    ensures
        r matches Ok(v) && v@ == without_quotes(json_encoded_str(name@)),
        is_plain(name@) ==> (r matches Ok(v) && v@ == name@),
{
    match json_string_literal(name) {
        Ok(v) => {
            let r = remove_quotes(v.as_str());
            proof {
                if is_plain(name@) {
                    lemma_escape_plain(name@);
                    lemma_unquote_plain(name@);
                }
            }
            Ok(r)
        },
        Err(_) => Err(TextError::Serialize),
    }
}

/// The ten decimal digits in order.
pub open spec fn digits() -> Seq<char> {
    "0123456789"@
}

/// The decimal representation of `n`, without leading zeros.
pub open spec fn decimal_of(n: nat) -> Seq<char>
    decreases n,
{
    if n < 10 {
        seq![digits()[n as int]]
    } else {
        decimal_of(n / 10).push(digits()[(n % 10) as int])
    }
}

/// Returns `n` written in decimal.
pub fn decimal(n: u64) -> (r: String)
    ensures
        r@ == decimal_of(n as nat),
    decreases n,
{
    let lit = "0123456789";
    proof {
        reveal_strlit("0123456789");
    }
    let d: usize = (n % 10) as usize;
    let one = lit.substring_char(d, d + 1);
    assert(one@ =~= seq![digits()[d as int]]);
    if n < 10 {
        String::from_str(one)
    } else {
        let r = decimal(n / 10).concat(one);
        assert(r@ =~= decimal_of(n as nat));
        r
    }
}

/// `s` ends with `suffix`.
pub open spec fn ends_with(s: Seq<char>, suffix: Seq<char>) -> bool {
    s.len() >= suffix.len() && s.subrange(s.len() - suffix.len(), s.len() as int) == suffix
}

/// `s` with every occurrence of `pat` taken out, scanning from the left
/// and never letting two occurrences overlap; an empty `pat` takes nothing.
pub open spec fn without_all(s: Seq<char>, pat: Seq<char>) -> Seq<char>
    decreases s.len(),
{
    if s.len() == 0 {
        s
    } else if pat.len() > 0 && pat.len() <= s.len() && s.subrange(0, pat.len() as int) == pat {
        without_all(s.subrange(pat.len() as int, s.len() as int), pat)
    } else {
        seq![s[0]] + without_all(s.drop_first(), pat)
    }
}

/// Returns `s` with every occurrence of `pat` taken out, left to right.
pub fn remove_all(s: &str, pat: &str) -> (r: String)
    ensures
        r@ == without_all(s@, pat@),
{
    let n = s.unicode_len();
    let plen = pat.unicode_len();
    let mut out = String::new();
    let mut i: usize = 0;
    assert(s@.subrange(0, n as int) =~= s@);
    while i < n
        invariant
            n == s@.len(),
            plen == pat@.len(),
            i <= n,
            out@ + without_all(s@.subrange(i as int, n as int), pat@) == without_all(s@, pat@),
        decreases n - i,
    {
        let ghost t = s@.subrange(i as int, n as int);
        if plen > 0 && plen <= n - i && same_text(s.substring_char(i, i + plen), pat) {
            assert(t.subrange(0, plen as int) =~= s@.subrange(i as int, i + plen));
            assert(t.subrange(plen as int, t.len() as int) =~= s@.subrange(i + plen, n as int));
            i = i + plen;
        } else {
            let one = s.substring_char(i, i + 1);
            assert(one@ =~= seq![t[0]]);
            assert(t.drop_first() =~= s@.subrange(i + 1, n as int));
            proof {
                if plen > 0 && plen <= t.len() {
                    assert(t.subrange(0, plen as int) =~= s@.subrange(i as int, i + plen));
                }
            }
            let ghost before = out@;
            out.append(one);
            assert(out@ + without_all(t.drop_first(), pat@) =~= before + (seq![t[0]] + without_all(t.drop_first(), pat@)));
            i = i + 1;
        }
    }
    assert(s@.subrange(n as int, n as int) =~= Seq::<char>::empty());
    assert(out@ + Seq::<char>::empty() =~= out@);
    out
}

/// Whether two strings hold the same characters.
pub fn same_text(a: &str, b: &str) -> (r: bool)
    ensures
        r == (a@ == b@),
{
    String::from_str(a) == String::from_str(b)
}

} // verus!

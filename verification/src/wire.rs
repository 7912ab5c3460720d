//! The wire format of the client: JSON payload serialization and URL
//! construction, specified exactly at the character level.
//!
//! The outbound payloads are flat JSON objects of string members, so
//! the serializer is written here and proved against the spec-level
//! encoding: compact output (no whitespace), members in a fixed order,
//! strings escaped as JSON demands (`"`, `\`, and control characters).
//! Query text is placed into the search URL percent-encoded, byte by
//! byte over its UTF-8 encoding.

use vstd::prelude::*;
use vstd::utf8::encode_utf8;

use crate::models::user::User;

verus! {

// ---------------------------------------------------------------------
// JSON string escaping
// ---------------------------------------------------------------------

/// The hexadecimal digit for `d`, lowercase, for `0 <= d < 16`.
pub open spec fn hex_lower(d: int) -> char {
    if d == 0 { '0' } else if d == 1 { '1' } else if d == 2 { '2' } else if d == 3 { '3' }
    else if d == 4 { '4' } else if d == 5 { '5' } else if d == 6 { '6' } else if d == 7 { '7' }
    else if d == 8 { '8' } else if d == 9 { '9' } else if d == 10 { 'a' } else if d == 11 { 'b' }
    else if d == 12 { 'c' } else if d == 13 { 'd' } else if d == 14 { 'e' } else { 'f' }
}

/// The hexadecimal digit for `d`, uppercase, for `0 <= d < 16`.
pub open spec fn hex_upper(d: int) -> char {
    if d == 0 { '0' } else if d == 1 { '1' } else if d == 2 { '2' } else if d == 3 { '3' }
    else if d == 4 { '4' } else if d == 5 { '5' } else if d == 6 { '6' } else if d == 7 { '7' }
    else if d == 8 { '8' } else if d == 9 { '9' } else if d == 10 { 'A' } else if d == 11 { 'B' }
    else if d == 12 { 'C' } else if d == 13 { 'D' } else if d == 14 { 'E' } else { 'F' }
}

/// What one character contributes to a JSON string literal: itself,
/// a two-character short escape, or a `\u00XX` escape for the control
/// characters without a short form.
pub open spec fn escape_char(c: char) -> Seq<char> {
    if c == '"' { seq!['\\', '"'] }
    else if c == '\\' { seq!['\\', '\\'] }
    else if c == '\u{8}' { seq!['\\', 'b'] }
    else if c == '\u{c}' { seq!['\\', 'f'] }
    else if c == '\n' { seq!['\\', 'n'] }
    else if c == '\r' { seq!['\\', 'r'] }
    else if c == '\t' { seq!['\\', 't'] }
    else if (c as u32) < 0x20 {
        seq!['\\', 'u', '0', '0', hex_lower((c as u32) as int / 16), hex_lower((c as u32) as int % 16)]
    }
    else { seq![c] }
}

/// The JSON escaping of a whole string, character by character.
pub open spec fn json_escape(s: Seq<char>) -> Seq<char>
    decreases s.len(),
{
    if s.len() == 0 {
        Seq::empty()
    } else {
        escape_char(s[0]) + json_escape(s.drop_first())
    }
}

/// Escaping distributes over appending one character at the end.
proof fn lemma_json_escape_push(s: Seq<char>, c: char)
    ensures
        json_escape(s.push(c)) == json_escape(s) + escape_char(c),
    decreases s.len(),
{
    if s.len() == 0 {
        assert(s.push(c)[0] == c);
        assert(s.push(c).drop_first() =~= Seq::<char>::empty());
        assert(json_escape(Seq::<char>::empty()) == Seq::<char>::empty());
        assert(json_escape(s.push(c)) =~= json_escape(s) + escape_char(c));
    } else {
        assert(s.push(c)[0] == s[0]);
        assert(s.push(c).drop_first() =~= s.drop_first().push(c));
        lemma_json_escape_push(s.drop_first(), c);
        assert(json_escape(s.push(c)) =~= json_escape(s) + escape_char(c));
    }
}

// ---------------------------------------------------------------------
// JSON objects of string members
// ---------------------------------------------------------------------

/// A JSON string literal: the escaped text between double quotes.
pub open spec fn json_string(s: Seq<char>) -> Seq<char> {
    seq!['"'] + json_escape(s) + seq!['"']
}

/// One object member, `"key":"value"`, both sides escaped.
pub open spec fn json_member(key: Seq<char>, value: Seq<char>) -> Seq<char> {
    json_string(key) + seq![':'] + json_string(value)
}

/// The members of an object, comma-separated, without the braces.
pub open spec fn json_members(fields: Seq<(Seq<char>, Seq<char>)>) -> Seq<char>
    decreases fields.len(),
{
    if fields.len() == 0 {
        Seq::empty()
    } else if fields.len() == 1 {
        json_member(fields[0].0, fields[0].1)
    } else {
        json_member(fields[0].0, fields[0].1) + seq![','] + json_members(fields.drop_first())
    }
}

/// A compact JSON object with the given members, in the given order.
pub open spec fn json_object(fields: Seq<(Seq<char>, Seq<char>)>) -> Seq<char> {
    seq!['{'] + json_members(fields) + seq!['}']
}

// ---------------------------------------------------------------------
// Executable serialization
// ---------------------------------------------------------------------

/// Relies on `String::push`: appends exactly the one character.
#[verifier::external_body]
pub(crate) fn push_char(out: &mut String, c: char)
    ensures
        final(out)@ == old(out)@.push(c),
{
    out.push(c);
}

/// The lowercase hexadecimal digit of `d`.
fn hex_lower_digit(d: u32) -> (c: char)
    requires
        d < 16,
    ensures
        c == hex_lower(d as int),
{
    if d == 0 { '0' } else if d == 1 { '1' } else if d == 2 { '2' } else if d == 3 { '3' }
    else if d == 4 { '4' } else if d == 5 { '5' } else if d == 6 { '6' } else if d == 7 { '7' }
    else if d == 8 { '8' } else if d == 9 { '9' } else if d == 10 { 'a' } else if d == 11 { 'b' }
    else if d == 12 { 'c' } else if d == 13 { 'd' } else if d == 14 { 'e' } else { 'f' }
}

/// The uppercase hexadecimal digit of `d`.
fn hex_upper_digit(d: u32) -> (c: char)
    requires
        d < 16,
    ensures
        c == hex_upper(d as int),
{
    if d == 0 { '0' } else if d == 1 { '1' } else if d == 2 { '2' } else if d == 3 { '3' }
    else if d == 4 { '4' } else if d == 5 { '5' } else if d == 6 { '6' } else if d == 7 { '7' }
    else if d == 8 { '8' } else if d == 9 { '9' } else if d == 10 { 'A' } else if d == 11 { 'B' }
    else if d == 12 { 'C' } else if d == 13 { 'D' } else if d == 14 { 'E' } else { 'F' }
}

/// Appends the escape of one character.
fn push_escaped(out: &mut String, c: char)
    ensures
        final(out)@ == old(out)@ + escape_char(c),
{
    if c == '"' {
        push_char(out, '\\');
        push_char(out, '"');
    } else if c == '\\' {
        push_char(out, '\\');
        push_char(out, '\\');
    } else if c == '\u{8}' {
        push_char(out, '\\');
        push_char(out, 'b');
    } else if c == '\u{c}' {
        push_char(out, '\\');
        push_char(out, 'f');
    } else if c == '\n' {
        push_char(out, '\\');
        push_char(out, 'n');
    } else if c == '\r' {
        push_char(out, '\\');
        push_char(out, 'r');
    } else if c == '\t' {
        push_char(out, '\\');
        push_char(out, 't');
    } else if (c as u32) < 0x20 {
        let u = c as u32;
        push_char(out, '\\');
        push_char(out, 'u');
        push_char(out, '0');
        push_char(out, '0');
        push_char(out, hex_lower_digit(u / 16));
        push_char(out, hex_lower_digit(u % 16));
    } else {
        push_char(out, c);
    }
    proof {
        assert(out@ =~= old(out)@ + escape_char(c));
    }
}

/// Appends the JSON escaping of the whole of `s`.
pub fn append_json_escaped(out: &mut String, s: &str)
    ensures
        final(out)@ == old(out)@ + json_escape(s@),
{
    let n = s.unicode_len();
    proof {
        assert(s@.subrange(0, 0) =~= Seq::<char>::empty());
        assert(out@ =~= out@ + json_escape(s@.subrange(0, 0)));
    }
    let mut i: usize = 0;
    while i < n
        invariant
            n == s@.len(),
            i <= n,
            out@ == old(out)@ + json_escape(s@.subrange(0, i as int)),
        decreases n - i,
    {
        let c = s.get_char(i);
        proof {
            assert(s@.subrange(0, i + 1) =~= s@.subrange(0, i as int).push(c));
            lemma_json_escape_push(s@.subrange(0, i as int), c);
        }
        push_escaped(out, c);
        i = i + 1;
        proof {
            assert(out@ =~= old(out)@ + json_escape(s@.subrange(0, i as int)));
        }
    }
    proof {
        assert(s@.subrange(0, n as int) =~= s@);
    }
}

/// Appends one object member, `"key":"value"`.
fn append_member(out: &mut String, key: &str, value: &str)
    ensures
        final(out)@ == old(out)@ + json_member(key@, value@),
{
    push_char(out, '"');
    append_json_escaped(out, key);
    push_char(out, '"');
    push_char(out, ':');
    push_char(out, '"');
    append_json_escaped(out, value);
    push_char(out, '"');
    proof {
        assert(out@ =~= old(out)@ + json_member(key@, value@));
    }
}

/// Splitting off the first member: definitional, stated once so the
/// body builders can unfold `json_members` step by step.
proof fn lemma_json_members_cons(fields: Seq<(Seq<char>, Seq<char>)>)
    requires
        fields.len() >= 2,
    ensures
        json_members(fields) == json_member(fields[0].0, fields[0].1) + seq![','] + json_members(
            fields.drop_first(),
        ),
{
}

// ---------------------------------------------------------------------
// The outbound payloads
// ---------------------------------------------------------------------

/// The members of the login payload: the email and the password, in
/// this order, under their wire names.
pub open spec fn login_fields(email: Seq<char>, password: Seq<char>) -> Seq<(Seq<char>, Seq<char>)> {
    seq![("email"@, email), ("password"@, password)]
}

/// The compact JSON body of a login request.
pub fn login_body(email: &str, password: &str) -> (r: String)
    ensures
        r@ == json_object(login_fields(email@, password@)),
{
    let mut out = String::new();
    push_char(&mut out, '{');
    append_member(&mut out, "email", email);
    push_char(&mut out, ',');
    append_member(&mut out, "password", password);
    push_char(&mut out, '}');
    proof {
        let fs = login_fields(email@, password@);
        lemma_json_members_cons(fs);
        assert(fs.drop_first() =~= seq![("password"@, password@)]);
        assert(json_members(fs.drop_first()) == json_member("password"@, password@));
        assert(out@ =~= json_object(fs));
    }
    out
}

/// The members of the registration payload, in serialization order:
/// the four standard members, and the `secretKey` member last, only
/// when a secret key is present.
pub open spec fn register_fields(user: User) -> Seq<(Seq<char>, Seq<char>)> {
    let base = seq![
        ("username"@, user.username@),
        ("email"@, user.email@),
        ("password"@, user.password@),
        ("confirmPassword"@, user.confirm_password@),
    ];
    match user.secret_key {
        Some(k) => base.push(("secretKey"@, k@)),
        None => base,
    }
}

/// The compact JSON body of a registration request.  When the payload
/// carries no secret key the serialized object holds no `secretKey`
/// member at all (see [`lemma_register_omits_secret_key`]), rather
/// than a `null` one.
pub fn register_body(user: &User) -> (r: String)
    ensures
        r@ == json_object(register_fields(*user)),
{
    let mut out = String::new();
    push_char(&mut out, '{');
    append_member(&mut out, "username", user.username.as_str());
    push_char(&mut out, ',');
    append_member(&mut out, "email", user.email.as_str());
    push_char(&mut out, ',');
    append_member(&mut out, "password", user.password.as_str());
    push_char(&mut out, ',');
    append_member(&mut out, "confirmPassword", user.confirm_password.as_str());
    match &user.secret_key {
        Some(k) => {
            push_char(&mut out, ',');
            append_member(&mut out, "secretKey", k.as_str());
        },
        None => {},
    }
    push_char(&mut out, '}');
    proof {
        let fs = register_fields(*user);
        let f1 = fs.drop_first();
        let f2 = f1.drop_first();
        let f3 = f2.drop_first();
        lemma_json_members_cons(fs);
        lemma_json_members_cons(f1);
        lemma_json_members_cons(f2);
        if user.secret_key is Some {
            let k = user.secret_key->0;
            lemma_json_members_cons(f3);
            assert(f3.drop_first() =~= seq![("secretKey"@, k@)]);
            assert(json_members(f3.drop_first()) == json_member("secretKey"@, k@));
        } else {
            assert(f3 =~= seq![("confirmPassword"@, user.confirm_password@)]);
            assert(json_members(f3) == json_member("confirmPassword"@, user.confirm_password@));
        }
        assert(out@ =~= json_object(fs));
    }
    out
}

/// A payload without a secret key serializes to an object of exactly
/// the four standard members: no member of the object is named
/// `secretKey`, so the key is absent from the body, not `null`.
pub proof fn lemma_register_omits_secret_key(user: User)
    requires
        user.secret_key is None,
    ensures
        register_fields(user).len() == 4,
        forall|i: int|
            0 <= i < register_fields(user).len() ==> #[trigger] register_fields(user)[i].0
                != "secretKey"@,
{
    reveal_strlit("username");
    reveal_strlit("email");
    reveal_strlit("password");
    reveal_strlit("confirmPassword");
    reveal_strlit("secretKey");
    let fs = register_fields(user);
    assert(fs[0].0 == "username"@ && fs[1].0 == "email"@ && fs[2].0 == "password"@ && fs[3].0
        == "confirmPassword"@);
    assert("username"@.len() == 8 && "email"@.len() == 5 && "password"@.len() == 8
        && "confirmPassword"@.len() == 15 && "secretKey"@.len() == 9);
}

// ---------------------------------------------------------------------
// Percent-encoding of the query path segment
// ---------------------------------------------------------------------

/// The bytes a URL path segment may carry unencoded: the unreserved
/// set (letters, digits, `-`, `.`, `_`, `~`).
pub open spec fn is_url_unreserved(b: u8) -> bool {
    ||| 0x41 <= b <= 0x5a
    ||| 0x61 <= b <= 0x7a
    ||| 0x30 <= b <= 0x39
    ||| b == 0x2d
    ||| b == 0x2e
    ||| b == 0x5f
    ||| b == 0x7e
}

/// What one byte contributes to the encoded segment: itself, or a
/// `%XX` triple with uppercase hexadecimal digits.
pub open spec fn percent_encode_byte(b: u8) -> Seq<char> {
    if is_url_unreserved(b) {
        seq![b as char]
    } else {
        seq!['%', hex_upper(b as int / 16), hex_upper(b as int % 16)]
    }
}

/// The percent-encoding of a byte string.
pub open spec fn percent_encode(bytes: Seq<u8>) -> Seq<char>
    decreases bytes.len(),
{
    if bytes.len() == 0 {
        Seq::empty()
    } else {
        percent_encode_byte(bytes[0]) + percent_encode(bytes.drop_first())
    }
}

/// Percent-encoding distributes over appending one byte at the end.
proof fn lemma_percent_encode_push(bytes: Seq<u8>, b: u8)
    ensures
        percent_encode(bytes.push(b)) == percent_encode(bytes) + percent_encode_byte(b),
    decreases bytes.len(),
{
    if bytes.len() == 0 {
        assert(bytes.push(b)[0] == b);
        assert(bytes.push(b).drop_first() =~= Seq::<u8>::empty());
        assert(percent_encode(Seq::<u8>::empty()) == Seq::<char>::empty());
        assert(percent_encode(bytes.push(b)) =~= percent_encode(bytes) + percent_encode_byte(b));
    } else {
        assert(bytes.push(b)[0] == bytes[0]);
        assert(bytes.push(b).drop_first() =~= bytes.drop_first().push(b));
        lemma_percent_encode_push(bytes.drop_first(), b);
        assert(percent_encode(bytes.push(b)) =~= percent_encode(bytes) + percent_encode_byte(b));
    }
}

/// Appends the percent-encoding of the UTF-8 bytes of `s`.
pub fn append_percent_encoded(out: &mut String, s: &str)
    ensures
        final(out)@ == old(out)@ + percent_encode(encode_utf8(s@)),
{
    let bytes = s.as_bytes();
    let n = bytes.len();
    proof {
        assert(bytes@.subrange(0, 0) =~= Seq::<u8>::empty());
        assert(out@ =~= out@ + percent_encode(bytes@.subrange(0, 0)));
    }
    let mut i: usize = 0;
    while i < n
        invariant
            bytes@ == encode_utf8(s@),
            n == bytes@.len(),
            i <= n,
            out@ == old(out)@ + percent_encode(bytes@.subrange(0, i as int)),
        decreases n - i,
    {
        let b = bytes[i];
        proof {
            assert(bytes@.subrange(0, i + 1) =~= bytes@.subrange(0, i as int).push(b));
            lemma_percent_encode_push(bytes@.subrange(0, i as int), b);
        }
        if (0x41 <= b && b <= 0x5a) || (0x61 <= b && b <= 0x7a) || (0x30 <= b && b <= 0x39)
            || b == 0x2d || b == 0x2e || b == 0x5f || b == 0x7e {
            push_char(out, b as char);
        } else {
            let hi = (b / 16) as u32;
            let lo = (b % 16) as u32;
            push_char(out, '%');
            push_char(out, hex_upper_digit(hi));
            push_char(out, hex_upper_digit(lo));
        }
        i = i + 1;
        proof {
            assert(out@ =~= old(out)@ + percent_encode(bytes@.subrange(0, i as int)));
        }
    }
    proof {
        assert(bytes@.subrange(0, n as int) =~= bytes@);
    }
}

// ---------------------------------------------------------------------
// Endpoint URLs
// ---------------------------------------------------------------------

/// The search URL: the base, the fixed path, and the percent-encoded
/// query as the final path segment.
pub open spec fn search_url_spec(base: Seq<char>, query: Seq<char>) -> Seq<char> {
    base + "/api/film/search/"@ + percent_encode(encode_utf8(query))
}

/// Builds the search URL for a query against a base URL.
pub fn search_url(base: &str, query: &str) -> (r: String)
    ensures
        r@ == search_url_spec(base@, query@),
{
    let mut out = String::from_str(base);
    out.append("/api/film/search/");
    append_percent_encoded(&mut out, query);
    proof {
        assert(out@ =~= search_url_spec(base@, query@));
    }
    out
}

} // verus!

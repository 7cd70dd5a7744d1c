//! Percent-encoding of text placed in the shell page's URL hash, and the
//! URLs of the local shell page.
use vstd::prelude::*;
use vstd::string::*;

use crate::text::push_char;

verus! {

/// Bytes that stay as they are: ASCII letters and digits, `-`, `_`, `.`, `~`.
pub open spec fn unreserved(b: u8) -> bool {
    ||| (65 <= b && b <= 90)  // A-Z
    ||| (97 <= b && b <= 122)  // a-z
    ||| (48 <= b && b <= 57)  // 0-9
    ||| b == 45  // -
    ||| b == 95  // _
    ||| b == 46  // .
    ||| b == 126  // ~
}

/// The upper-case hexadecimal digit of `n < 16`.
pub open spec fn hex_char(n: nat) -> char {
    if n < 10 {
        ((n + 48) as u8) as char
    } else {
        ((n + 55) as u8) as char
    }
}

/// The value of a hexadecimal digit.
pub open spec fn hex_value(c: char) -> int {
    if '0' <= c && c <= '9' {
        c as int - 48
    } else if 'A' <= c && c <= 'F' {
        c as int - 55
    } else {
        c as int - 87
    }
}

/// The encoding of one byte: itself when unreserved, else `%` and two
/// upper-case hexadecimal digits.
pub open spec fn pct_byte(b: u8) -> Seq<char> {
    if unreserved(b) {
        seq![b as char]
    } else {
        seq!['%', hex_char((b / 16) as nat), hex_char((b % 16) as nat)]
    }
}

/// The percent-encoding of a byte string.
pub open spec fn pct_of(bytes: Seq<u8>) -> Seq<char>
    decreases bytes.len(),
{
    if bytes.len() == 0 {
        Seq::empty()
    } else {
        pct_byte(bytes[0]) + pct_of(bytes.drop_first())
    }
}

/// An upper- or lower-case hexadecimal digit.
pub open spec fn is_hex(c: char) -> bool {
    ('0' <= c && c <= '9') || ('A' <= c && c <= 'F') || ('a' <= c && c <= 'f')
}

/// Percent-decoding: `%` followed by two hexadecimal digits stands for the
/// byte they denote; any other character stands for its own byte.
pub open spec fn pct_decode(cs: Seq<char>) -> Seq<u8>
    decreases cs.len(),
{
    if cs.len() == 0 {
        Seq::empty()
    } else if cs[0] == '%' && cs.len() >= 3 && is_hex(cs[1]) && is_hex(cs[2]) {
        seq![(hex_value(cs[1]) * 16 + hex_value(cs[2])) as u8] + pct_decode(cs.skip(3))
    } else {
        seq![cs[0] as u8] + pct_decode(cs.drop_first())
    }
}

/// A character that may appear in percent-encoded text.
pub open spec fn encoded_char(c: char) -> bool {
    c == '%' || (c as int) < 128 && unreserved(c as u8)
}

/// The hash of the shell's error page for an error code and a message.
pub open spec fn error_hash_of(code: Seq<u8>, message: Seq<u8>) -> Seq<char> {
    seq!['e', 'r', 'r', 'o', 'r', '?', 'c', 'o', 'd', 'e', '='] + pct_of(code) + seq![
        '&',
        'm',
        'e',
        's',
        's',
        'a',
        'g',
        'e',
        '=',
    ] + pct_of(message)
}

// ---------------------------------------------------------------------------
// Lemmas and laws
// ---------------------------------------------------------------------------
proof fn lemma_pct_of_push(bytes: Seq<u8>, b: u8)
    ensures
        pct_of(bytes.push(b)) == pct_of(bytes) + pct_byte(b),
    decreases bytes.len(),
{
    if bytes.len() == 0 {
        assert(bytes.push(b).drop_first() =~= Seq::<u8>::empty());
        assert(pct_of(Seq::<u8>::empty()) =~= Seq::<char>::empty());
        assert(pct_byte(b) + Seq::<char>::empty() =~= pct_byte(b));
    } else {
        lemma_pct_of_push(bytes.drop_first(), b);
        assert(bytes.push(b).drop_first() =~= bytes.drop_first().push(b));
        assert(pct_byte(bytes[0]) + (pct_of(bytes.drop_first()) + pct_byte(b)) =~= (pct_byte(
            bytes[0],
        ) + pct_of(bytes.drop_first())) + pct_byte(b));
    }
}

proof fn lemma_hex_char(n: nat)
    requires
        n < 16,
    ensures
        hex_value(hex_char(n)) == n,
        is_hex(hex_char(n)),
        encoded_char(hex_char(n)),
        hex_char(n) != '%',
{
    if n < 10 {
        assert((((n + 48) as u8) as char) as int == n + 48);
    } else {
        assert((((n + 55) as u8) as char) as int == n + 55);
    }
}

proof fn lemma_pct_byte_decodes(b: u8, rest: Seq<char>)
    ensures
        pct_decode(pct_byte(b) + rest) == seq![b] + pct_decode(rest),
{
    let e = pct_byte(b) + rest;
    if unreserved(b) {
        assert((b as char) as int == b as int);
        assert(e[0] == b as char);
        assert(e.drop_first() =~= rest);
    } else {
        lemma_hex_char((b / 16) as nat);
        lemma_hex_char((b % 16) as nat);
        assert(e[0] == '%');
        assert(e.skip(3) =~= rest);
        assert(hex_value(e[1]) * 16 + hex_value(e[2]) == b);
    }
}

/// Percent-decoding undoes percent-encoding: the encoding of a byte string
/// determines the string.
pub proof fn law_pct_round_trip(bytes: Seq<u8>)
    ensures
        pct_decode(pct_of(bytes)) == bytes,
    decreases bytes.len(),
{
    if bytes.len() > 0 {
        law_pct_round_trip(bytes.drop_first());
        lemma_pct_byte_decodes(bytes[0], pct_of(bytes.drop_first()));
        assert(seq![bytes[0]] + bytes.drop_first() =~= bytes);
    }
}

/// Different texts have different percent-encodings.
pub proof fn law_pct_injective(a: Seq<u8>, b: Seq<u8>)
    requires
        pct_of(a) == pct_of(b),
    ensures
        a == b,
{
    law_pct_round_trip(a);
    law_pct_round_trip(b);
}

/// Percent-encoded text consists of unreserved ASCII characters and `%` only,
/// so it holds no `&`, `=`, `?` or `#` that could split a URL hash.
pub proof fn law_pct_alphabet(bytes: Seq<u8>)
    ensures
        forall|i: int| 0 <= i < pct_of(bytes).len() ==> encoded_char(#[trigger] pct_of(bytes)[i]),
    decreases bytes.len(),
{
    if bytes.len() > 0 {
        law_pct_alphabet(bytes.drop_first());
        let b = bytes[0];
        let head = pct_byte(b);
        let tail = pct_of(bytes.drop_first());
        if unreserved(b) {
            assert((b as char) as int == b as int);
            assert(encoded_char(head[0]));
        } else {
            lemma_hex_char((b / 16) as nat);
            lemma_hex_char((b % 16) as nat);
        }
        assert forall|i: int| 0 <= i < pct_of(bytes).len() implies encoded_char(
            #[trigger] pct_of(bytes)[i],
        ) by {
            if i < head.len() {
                assert(pct_of(bytes)[i] == head[i]);
            } else {
                assert(pct_of(bytes)[i] == tail[i - head.len()]);
            }
        }
    }
}

// ---------------------------------------------------------------------------
// Executable code
// ---------------------------------------------------------------------------
fn hex_digit(n: u8) -> (c: char)
    requires
        n < 16,
    ensures
        c == hex_char(n as nat),
{
    if n < 10 {
        (n + 48) as char
    } else {
        (n + 55) as char
    }
}

/// Percent-encodes the UTF-8 bytes of `s`, keeping ASCII letters, digits and
/// `-_.~` as they are.
pub fn pct(s: &str) -> (r: String)
    ensures
        r@ == pct_of(s.spec_bytes()),
{
    let bytes = s.as_bytes();
    let mut out = String::new();
    for i in 0..bytes.len()
        invariant
            bytes@ == s.spec_bytes(),
            out@ == pct_of(bytes@.take(i as int)),
    {
        let b = bytes[i];
        proof {
            lemma_pct_of_push(bytes@.take(i as int), b);
            assert(bytes@.take(i + 1) =~= bytes@.take(i as int).push(b));
        }
        if (65 <= b && b <= 90) || (97 <= b && b <= 122) || (48 <= b && b <= 57) || b == 45 || b
            == 95 || b == 46 || b == 126 {
            push_char(&mut out, b as char);
            assert(out@ =~= pct_of(bytes@.take(i as int)) + pct_byte(b));
        } else {
            push_char(&mut out, '%');
            push_char(&mut out, hex_digit(b / 16));
            push_char(&mut out, hex_digit(b % 16));
            assert(out@ =~= pct_of(bytes@.take(i as int)) + pct_byte(b));
        }
    }
    assert(bytes@.take(bytes@.len() as int) =~= bytes@);
    out
}

/// The hash of the shell's error page: `error?code=<code>&message=<message>`,
/// both percent-encoded.
pub fn error_hash(code: &str, message: &str) -> (r: String)
    ensures
        r@ == error_hash_of(code.spec_bytes(), message.spec_bytes()),
{
    let mut r = String::from_str("error?code=");
    let c = pct(code);
    r.append(c.as_str());
    r.append("&message=");
    let m = pct(message);
    r.append(m.as_str());
    proof {
        reveal_strlit("error?code=");
        reveal_strlit("&message=");
        assert(r@ =~= error_hash_of(code.spec_bytes(), message.spec_bytes()));
    }
    r
}

/// Where the local shell page with hash `hash` lives: in a debug build,
/// under the development server's URL (when one is configured); in a release
/// build, on the `tauri.localhost` origin.
pub open spec fn shell_url_of(debug: bool, dev_url: Option<Seq<char>>, hash: Seq<char>) -> Option<
    Seq<char>,
> {
    if debug {
        match dev_url {
            Some(d) => Some(d + seq!['/', '#'] + hash),
            None => None,
        }
    } else {
        Some(
            seq![
                'h',
                't',
                't',
                'p',
                ':',
                '/',
                '/',
                't',
                'a',
                'u',
                'r',
                'i',
                '.',
                'l',
                'o',
                'c',
                'a',
                'l',
                'h',
                'o',
                's',
                't',
                '/',
                '#',
            ] + hash,
        )
    }
}

/// The characters of an optional text.
pub open spec fn text_opt(t: Option<&str>) -> Option<Seq<char>> {
    match t {
        Some(d) => Some(d@),
        None => None,
    }
}

/// The shell URL carries the hash as it is: the release URL is
/// `http://tauri.localhost/#` followed by the hash, the debug URL is the
/// development server's URL, `/#` and the hash; so the URL ends with `#`
/// and the unchanged hash.
pub proof fn law_shell_url_keeps_hash(debug: bool, dev_url: Option<Seq<char>>, hash: Seq<char>)
    ensures
        !debug ==> shell_url_of(debug, dev_url, hash) == Some("http://tauri.localhost/#"@ + hash),
        debug && dev_url is Some ==> shell_url_of(debug, dev_url, hash) == Some(
            dev_url->0 + "/#"@ + hash,
        ),
        debug && dev_url is None ==> shell_url_of(debug, dev_url, hash) is None,
        shell_url_of(debug, dev_url, hash) matches Some(u) ==> (u.len() > hash.len() && u.skip(
            u.len() - hash.len(),
        ) == hash && u[u.len() - hash.len() - 1] == '#'),
{
    reveal_strlit("http://tauri.localhost/#");
    reveal_strlit("/#");
    if let Some(u) = shell_url_of(debug, dev_url, hash) {
        if debug {
            assert(u =~= (dev_url->0 + seq!['/', '#']) + hash);
        } else {
            assert(u =~= "http://tauri.localhost/#"@ + hash);
        }
        assert(u.skip(u.len() - hash.len()) =~= hash);
    }
}

/// The URL of the local shell page showing `hash`.
pub fn shell_url(debug: bool, dev_url: Option<&str>, hash: &str) -> (r: Option<String>)
    ensures
        r matches Some(u) ==> shell_url_of(debug, text_opt(dev_url), hash@) == Some(u@),
        r is None ==> shell_url_of(debug, text_opt(dev_url), hash@) is None,
        !debug ==> (r matches Some(u) && u@ == "http://tauri.localhost/#"@ + hash@),
        debug && dev_url is Some ==> (r matches Some(u) && u@ == dev_url->0@ + "/#"@ + hash@),
        debug && dev_url is None ==> r is None,
{
    if debug {
        match dev_url {
            Some(d) => {
                let mut u = String::from_str(d);
                u.append("/#");
                u.append(hash);
                proof {
                    reveal_strlit("/#");
                    assert(u@ =~= d@ + seq!['/', '#'] + hash@);
                }
                Some(u)
            },
            None => None,
        }
    } else {
        let mut u = String::from_str("http://tauri.localhost/#");
        u.append(hash);
        proof {
            reveal_strlit("http://tauri.localhost/#");
            assert(u@ =~= shell_url_of(debug, None, hash@)->0);
        }
        Some(u)
    }
}

} // verus!

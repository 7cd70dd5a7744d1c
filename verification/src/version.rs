//! Version strings of dsh, such as `0.1.0-rc.7`: parsing into a comparable
//! key and ordering two version strings.
use std::cmp::Ordering;
use vstd::prelude::*;
use vstd::utf8::encode_utf8;

use crate::text::{
    chars_of, decimal_of, digits_in, drop_back, drop_front, find, int_of, is_digit, is_space,
    keep_digits, lemma_decimal_of, lemma_decimal_round_trip, lemma_position_at,
    lemma_position_bound, parse_u64, position, slice, space_pred, string_of, strip_leading, trim,
    trimmed, u64_of,
};

verus! {

/// A parsed version: major, minor, patch, whether it is a release (as opposed
/// to a prerelease), and the prerelease number (0 for a release).
pub type VersionKey = (u64, u64, u64, bool, u64);

/// `s` without its leading `v` characters.
pub open spec fn strip_v(s: Seq<char>) -> Seq<char> {
    drop_front(s, |x: char| x == 'v')
}

/// The version that a string denotes, if any.
///
/// After trimming whitespace and dropping leading `v`s, the text is split at
/// its first `-` into a core and an optional prerelease part. The core must
/// have at least three `.`-separated components, the first three of which
/// must each read as a `u64`; components after the third are ignored. A
/// prerelease part is read as the number formed by its ASCII digits, which
/// must also read as a `u64` (so it needs at least one digit).
pub open spec fn version_of(raw: Seq<char>) -> Option<VersionKey> {
    let s = strip_v(trim(raw));
    let dash = position(s, '-');
    let core = s.take(dash as int);
    let i1 = position(core, '.');
    let rest1 = core.skip(i1 + 1int);
    let i2 = position(rest1, '.');
    let rest2 = rest1.skip(i2 + 1int);
    let i3 = position(rest2, '.');
    if i1 >= core.len() || i2 >= rest1.len() {
        None
    } else {
        match (
            u64_of(core.take(i1 as int)),
            u64_of(rest1.take(i2 as int)),
            u64_of(rest2.take(i3 as int)),
        ) {
            (Some(major), Some(minor), Some(patch)) => {
                if dash >= s.len() {
                    Some((major, minor, patch, true, 0u64))
                } else {
                    match u64_of(digits_in(s.skip(dash + 1int))) {
                        Some(n) => Some((major, minor, patch, false, n)),
                        None => None,
                    }
                }
            },
            _ => None,
        }
    }
}

/// Ordering of two `u64`s.
pub open spec fn order_num(x: u64, y: u64) -> Ordering {
    if x < y {
        Ordering::Less
    } else if x == y {
        Ordering::Equal
    } else {
        Ordering::Greater
    }
}

/// Ordering of two booleans, `false` first.
pub open spec fn order_bool(x: bool, y: bool) -> Ordering {
    if x == y {
        Ordering::Equal
    } else if !x {
        Ordering::Less
    } else {
        Ordering::Greater
    }
}

/// `first`, unless it is `Equal`, in which case `next`.
pub open spec fn tie_break(first: Ordering, next: Ordering) -> Ordering {
    if first == Ordering::Equal {
        next
    } else {
        first
    }
}

/// The opposite ordering.
pub open spec fn flip(o: Ordering) -> Ordering {
    match o {
        Ordering::Less => Ordering::Greater,
        Ordering::Equal => Ordering::Equal,
        Ordering::Greater => Ordering::Less,
    }
}

/// Lexicographic ordering of version keys, component by component.
pub open spec fn version_order(x: VersionKey, y: VersionKey) -> Ordering {
    tie_break(
        order_num(x.0, y.0),
        tie_break(
            order_num(x.1, y.1),
            tie_break(
                order_num(x.2, y.2),
                tie_break(order_bool(x.3, y.3), order_num(x.4, y.4)),
            ),
        ),
    )
}

/// Ordering of two bytes.
pub open spec fn order_byte(x: u8, y: u8) -> Ordering {
    if x < y {
        Ordering::Less
    } else if x == y {
        Ordering::Equal
    } else {
        Ordering::Greater
    }
}

/// Lexicographic ordering of byte strings, which is how `str` orders texts
/// (by the bytes of their UTF-8 encodings).
pub open spec fn text_order(a: Seq<u8>, b: Seq<u8>) -> Ordering
    decreases a.len(),
{
    if a.len() == 0 {
        if b.len() == 0 {
            Ordering::Equal
        } else {
            Ordering::Less
        }
    } else if b.len() == 0 {
        Ordering::Greater
    } else if a[0] != b[0] {
        order_byte(a[0], b[0])
    } else {
        text_order(a.drop_first(), b.drop_first())
    }
}

/// The UTF-8 encoding of a text with surrounding whitespace removed.
pub open spec fn trimmed_bytes(s: Seq<char>) -> Seq<u8> {
    encode_utf8(trim(s))
}

/// How two version strings compare: by their version keys when both parse,
/// otherwise as trimmed texts, byte by byte.
pub open spec fn version_text_order(a: Seq<char>, b: Seq<char>) -> Ordering {
    match (version_of(a), version_of(b)) {
        (Some(x), Some(y)) => version_order(x, y),
        _ => text_order(trimmed_bytes(a), trimmed_bytes(b)),
    }
}

// ---------------------------------------------------------------------------
// Laws of the version ordering
// ---------------------------------------------------------------------------
proof fn lemma_text_order_equal(a: Seq<u8>, b: Seq<u8>)
    ensures
        (text_order(a, b) == Ordering::Equal) == (a == b),
    decreases a.len(),
{
    if a.len() > 0 && b.len() > 0 && a[0] == b[0] {
        lemma_text_order_equal(a.drop_first(), b.drop_first());
        if a.drop_first() == b.drop_first() {
            assert forall|i: int| 0 <= i < a.len() implies a[i] == b[i] by {
                if i > 0 {
                    assert(a[i] == a.drop_first()[i - 1]);
                    assert(b[i] == b.drop_first()[i - 1]);
                }
            }
            assert(a =~= b);
        }
    } else if a.len() == 0 && b.len() == 0 {
        assert(a =~= b);
    }
}

proof fn lemma_text_order_flip(a: Seq<u8>, b: Seq<u8>)
    ensures
        text_order(b, a) == flip(text_order(a, b)),
    decreases a.len(),
{
    if a.len() > 0 && b.len() > 0 && a[0] == b[0] {
        lemma_text_order_flip(a.drop_first(), b.drop_first());
    }
}

proof fn lemma_text_order_less_trans(a: Seq<u8>, b: Seq<u8>, c: Seq<u8>)
    requires
        text_order(a, b) == Ordering::Less,
        text_order(b, c) == Ordering::Less,
    ensures
        text_order(a, c) == Ordering::Less,
    decreases a.len(),
{
    if a.len() > 0 && b.len() > 0 && c.len() > 0 && a[0] == b[0] && b[0] == c[0] {
        lemma_text_order_less_trans(a.drop_first(), b.drop_first(), c.drop_first());
    }
}

/// Every version string compares `Equal` to itself.
pub proof fn law_compare_reflexive(a: Seq<char>)
    ensures
        version_text_order(a, a) == Ordering::Equal,
{
    lemma_text_order_equal(trimmed_bytes(a), trimmed_bytes(a));
}

/// Swapping the arguments of `compare` flips the result.
pub proof fn law_compare_antisymmetric(a: Seq<char>, b: Seq<char>)
    ensures
        version_text_order(b, a) == flip(version_text_order(a, b)),
{
    lemma_text_order_flip(trimmed_bytes(a), trimmed_bytes(b));
}

/// `compare` is transitive over any three strings that either all parse as
/// versions or all fail to.
pub proof fn law_compare_transitive(a: Seq<char>, b: Seq<char>, c: Seq<char>)
    requires
        version_of(a) is Some == version_of(b) is Some,
        version_of(b) is Some == version_of(c) is Some,
    ensures
        version_text_order(a, b) == Ordering::Less && version_text_order(b, c) == Ordering::Less
            ==> version_text_order(a, c) == Ordering::Less,
        version_text_order(a, b) == Ordering::Equal ==> version_text_order(a, c)
            == version_text_order(b, c),
{
    if version_of(a) is None {
        lemma_text_order_equal(trimmed_bytes(a), trimmed_bytes(b));
        if version_text_order(a, b) == Ordering::Less && version_text_order(b, c) == Ordering::Less {
            lemma_text_order_less_trans(trimmed_bytes(a), trimmed_bytes(b), trimmed_bytes(c));
        }
    }
}

/// A release sorts after every prerelease of the same major, minor and patch
/// numbers.
pub proof fn law_release_after_prerelease(a: Seq<char>, b: Seq<char>)
    requires
        version_of(a) matches Some(x) && version_of(b) matches Some(y) && x.0 == y.0 && x.1 == y.1
            && x.2 == y.2 && x.3 && !y.3,
    ensures
        version_text_order(a, b) == Ordering::Greater,
{
}

/// All characters of `s` are whitespace.
pub open spec fn all_space(s: Seq<char>) -> bool {
    forall|i: int| 0 <= i < s.len() ==> is_space(#[trigger] s[i])
}

/// All characters of `s` are `v`.
pub open spec fn all_v(s: Seq<char>) -> bool {
    forall|i: int| 0 <= i < s.len() ==> #[trigger] s[i] == 'v'
}

proof fn lemma_drop_front_prefix(p: Seq<char>, x: Seq<char>, pred: spec_fn(char) -> bool)
    requires
        forall|i: int| 0 <= i < p.len() ==> pred(#[trigger] p[i]),
    ensures
        drop_front(p + x, pred) == drop_front(x, pred),
    decreases p.len(),
{
    if p.len() == 0 {
        assert(p + x =~= x);
    } else {
        let px = p + x;
        assert(px[0] == p[0]);
        assert(px.drop_first() =~= p.drop_first() + x);
        assert forall|i: int| 0 <= i < p.drop_first().len() implies pred(
            #[trigger] p.drop_first()[i],
        ) by {
            assert(p.drop_first()[i] == p[i + 1]);
        }
        lemma_drop_front_prefix(p.drop_first(), x, pred);
    }
}

proof fn lemma_drop_back_suffix(x: Seq<char>, w: Seq<char>)
    requires
        all_space(w),
    ensures
        drop_back(x + w, space_pred()) == drop_back(x, space_pred()),
    decreases w.len(),
{
    if w.len() == 0 {
        assert(x + w =~= x);
    } else {
        let xw = x + w;
        assert(xw.last() == w.last());
        assert(xw.drop_last() =~= x + w.drop_last());
        assert forall|i: int| 0 <= i < w.drop_last().len() implies is_space(
            #[trigger] w.drop_last()[i],
        ) by {
            assert(w.drop_last()[i] == w[i]);
        }
        lemma_drop_back_suffix(x, w.drop_last());
    }
}

proof fn lemma_trim_suffix(x: Seq<char>, w: Seq<char>)
    requires
        all_space(w),
    ensures
        drop_back(drop_front(x + w, space_pred()), space_pred()) == drop_back(
            drop_front(x, space_pred()),
            space_pred(),
        ),
    decreases x.len(),
{
    if x.len() == 0 {
        assert(x + w =~= w + x);
        lemma_drop_front_prefix(w, x, space_pred());
    } else {
        let xw = x + w;
        assert(xw[0] == x[0]);
        if is_space(x[0]) {
            assert(xw.drop_first() =~= x.drop_first() + w);
            lemma_trim_suffix(x.drop_first(), w);
        } else {
            lemma_drop_back_suffix(x, w);
        }
    }
}

/// Whitespace around a text does not change its trimmed form.
proof fn lemma_trim_padding(w1: Seq<char>, s: Seq<char>, w2: Seq<char>)
    requires
        all_space(w1),
        all_space(w2),
    ensures
        trim(w1 + s + w2) == trim(s),
{
    assert(w1 + s + w2 =~= w1 + (s + w2));
    lemma_drop_front_prefix(w1, s + w2, space_pred());
    lemma_trim_suffix(s, w2);
}

proof fn lemma_drop_back_after_vs(p: Seq<char>, s: Seq<char>)
    requires
        p.len() > 0,
        all_v(p),
    ensures
        drop_back(p + s, space_pred()) == p + drop_back(s, space_pred()),
    decreases s.len(),
{
    let ps = p + s;
    if s.len() == 0 {
        assert(ps =~= p);
        assert(p.last() == 'v');
        assert(p + s =~= p);
    } else {
        assert(ps.last() == s.last());
        if is_space(s.last()) {
            assert(ps.drop_last() =~= p + s.drop_last());
            lemma_drop_back_after_vs(p, s.drop_last());
        }
    }
}

/// Whitespace around a version string, and any run of `v`s before it, do
/// not change what it denotes (as long as no whitespace follows the `v`s).
pub proof fn law_parse_ignores_padding(w1: Seq<char>, vs: Seq<char>, s: Seq<char>, w2: Seq<char>)
    requires
        all_space(w1),
        all_space(w2),
        all_v(vs),
        s.len() == 0 || !is_space(s[0]),
    ensures
        version_of(w1 + vs + s + w2) == version_of(s),
{
    assert(w1 + vs + s + w2 =~= w1 + (vs + s) + w2);
    lemma_trim_padding(w1, vs + s, w2);
    if vs.len() == 0 {
        assert(vs + s =~= s);
    } else {
        let t = vs + s;
        assert(t[0] == 'v');
        assert(drop_front(t, space_pred()) == t);
        assert(drop_front(s, space_pred()) == s);
        lemma_drop_back_after_vs(vs, s);
        let d = drop_back(s, space_pred());
        lemma_drop_front_prefix(vs, d, |x: char| x == 'v');
    }
}

/// Whitespace around either argument does not change what `compare` gives.
pub proof fn law_compare_ignores_whitespace(
    w1: Seq<char>,
    a: Seq<char>,
    w2: Seq<char>,
    b: Seq<char>,
)
    requires
        all_space(w1),
        all_space(w2),
    ensures
        version_text_order(w1 + a + w2, b) == version_text_order(a, b),
        version_text_order(b, w1 + a + w2) == version_text_order(b, a),
{
    lemma_trim_padding(w1, a, w2);
}

/// The text `major.minor.patch`, in decimal.
pub open spec fn release_text(major: u64, minor: u64, patch: u64) -> Seq<char> {
    decimal_of(major as nat) + seq!['.'] + decimal_of(minor as nat) + seq!['.'] + decimal_of(
        patch as nat,
    )
}

/// The text `major.minor.patch-<label><n>`, for a label without digits
/// (such as `rc.`).
pub open spec fn prerelease_text(
    major: u64,
    minor: u64,
    patch: u64,
    label: Seq<char>,
    n: u64,
) -> Seq<char> {
    release_text(major, minor, patch) + seq!['-'] + label + decimal_of(n as nat)
}

proof fn lemma_decimal_chars(n: nat)
    ensures
        decimal_of(n).len() > 0,
        forall|i: int| 0 <= i < decimal_of(n).len() ==> is_digit(#[trigger] decimal_of(n)[i]),
{
    lemma_decimal_of(n);
}

proof fn lemma_position_concat(a: Seq<char>, b: Seq<char>, c: char)
    requires
        forall|i: int| 0 <= i < a.len() ==> #[trigger] a[i] != c,
    ensures
        position(a + b, c) == a.len() + position(b, c),
{
    lemma_position_bound(b, c);
    let k = (a.len() + position(b, c)) as int;
    let ab = a + b;
    assert forall|i: int| 0 <= i < k implies #[trigger] ab[i] != c by {
        if i >= a.len() {
            assert(ab[i] == b[i - a.len()]);
        }
    }
    if k < ab.len() {
        assert(ab[k] == b[k - a.len()]);
    }
    lemma_position_at(ab, c, k);
}

proof fn lemma_digits_no_char(d: Seq<char>, c: char)
    requires
        forall|i: int| 0 <= i < d.len() ==> is_digit(#[trigger] d[i]),
        !is_digit(c),
    ensures
        position(d, c) == d.len(),
{
    assert forall|i: int| 0 <= i < d.len() implies #[trigger] d[i] != c by {
        assert(is_digit(d[i]));
    }
    lemma_position_at(d, c, d.len() as int);
}

proof fn lemma_digits_in_suffix(x: Seq<char>, d: Seq<char>)
    requires
        forall|i: int| 0 <= i < x.len() ==> !is_digit(#[trigger] x[i]),
        forall|i: int| 0 <= i < d.len() ==> is_digit(#[trigger] d[i]),
    ensures
        digits_in(x + d) == d,
    decreases x.len() + d.len(),
{
    if d.len() == 0 {
        assert(x + d =~= x);
        if x.len() > 0 {
            assert(!is_digit(x.last()));
            lemma_digits_in_suffix(x.drop_last(), d);
            assert(x.drop_last() + d =~= x.drop_last());
        }
    } else {
        let xd = x + d;
        assert(xd.last() == d.last());
        assert(xd.drop_last() =~= x + d.drop_last());
        lemma_digits_in_suffix(x, d.drop_last());
        assert(d.drop_last().push(d.last()) =~= d);
    }
}

proof fn lemma_release_core(major: u64, minor: u64, patch: u64)
    ensures
        ({
            let core = release_text(major, minor, patch);
            let i1 = position(core, '.');
            let rest1 = core.skip(i1 + 1int);
            let i2 = position(rest1, '.');
            let rest2 = rest1.skip(i2 + 1int);
            let i3 = position(rest2, '.');
            &&& i1 < core.len()
            &&& i2 < rest1.len()
            &&& u64_of(core.take(i1 as int)) == Some(major)
            &&& u64_of(rest1.take(i2 as int)) == Some(minor)
            &&& u64_of(rest2.take(i3 as int)) == Some(patch)
        }),
{
    let d1 = decimal_of(major as nat);
    let d2 = decimal_of(minor as nat);
    let d3 = decimal_of(patch as nat);
    lemma_decimal_chars(major as nat);
    lemma_decimal_chars(minor as nat);
    lemma_decimal_chars(patch as nat);
    lemma_decimal_round_trip(major);
    lemma_decimal_round_trip(minor);
    lemma_decimal_round_trip(patch);
    let core = release_text(major, minor, patch);
    let tail1 = seq!['.'] + d2 + seq!['.'] + d3;
    assert(core =~= d1 + tail1);
    lemma_digits_no_char(d1, '.');
    lemma_position_concat(d1, tail1, '.');
    assert(tail1[0] == '.');
    let i1 = position(core, '.');
    assert(i1 == d1.len());
    assert(core.take(i1 as int) =~= d1);
    let rest1 = core.skip(i1 + 1int);
    let tail2 = seq!['.'] + d3;
    assert(rest1 =~= d2 + tail2);
    lemma_digits_no_char(d2, '.');
    lemma_position_concat(d2, tail2, '.');
    assert(tail2[0] == '.');
    let i2 = position(rest1, '.');
    assert(i2 == d2.len());
    assert(rest1.take(i2 as int) =~= d2);
    let rest2 = rest1.skip(i2 + 1int);
    assert(rest2 =~= d3);
    lemma_digits_no_char(d3, '.');
    assert(rest2.take(position(rest2, '.') as int) =~= d3);
}

proof fn lemma_plain_text(t: Seq<char>)
    requires
        t.len() > 0,
        is_digit(t[0]),
        is_digit(t.last()),
    ensures
        strip_v(trim(t)) == t,
{
    assert(drop_front(t, space_pred()) == t);
    assert(drop_back(t, space_pred()) == t);
    assert(drop_front(t, |x: char| x == 'v') == t);
}

/// Parsing a release written as `major.minor.patch` gives back its numbers,
/// marked as a release.
pub proof fn law_parse_release_text(major: u64, minor: u64, patch: u64)
    ensures
        version_of(release_text(major, minor, patch)) == Some((major, minor, patch, true, 0u64)),
{
    let t = release_text(major, minor, patch);
    let d1 = decimal_of(major as nat);
    let d3 = decimal_of(patch as nat);
    lemma_decimal_chars(major as nat);
    lemma_decimal_chars(minor as nat);
    lemma_decimal_chars(patch as nat);
    assert(t[0] == d1[0]);
    assert(t.last() == d3.last());
    lemma_plain_text(t);
    assert forall|i: int| 0 <= i < t.len() implies #[trigger] t[i] != '-' by {
        assert(t[i] == '.' || is_digit(t[i]));
    }
    lemma_position_at(t, '-', t.len() as int);
    assert(t.take(t.len() as int) =~= t);
    lemma_release_core(major, minor, patch);
}

/// Parsing a prerelease written as `major.minor.patch-<label><n>`, with a
/// label free of digits, gives back its numbers, marked as a prerelease
/// with number `n`.
pub proof fn law_parse_prerelease_text(major: u64, minor: u64, patch: u64, label: Seq<char>, n: u64)
    requires
        forall|i: int| 0 <= i < label.len() ==> !is_digit(#[trigger] label[i]),
    ensures
        version_of(prerelease_text(major, minor, patch, label, n)) == Some(
            (major, minor, patch, false, n),
        ),
{
    let r = release_text(major, minor, patch);
    let d1 = decimal_of(major as nat);
    let d4 = decimal_of(n as nat);
    lemma_decimal_chars(major as nat);
    lemma_decimal_chars(minor as nat);
    lemma_decimal_chars(patch as nat);
    lemma_decimal_chars(n as nat);
    let t = prerelease_text(major, minor, patch, label, n);
    let after = seq!['-'] + label + d4;
    assert(t =~= r + after);
    assert(t[0] == d1[0]);
    assert(t.last() == d4.last());
    lemma_plain_text(t);
    assert forall|i: int| 0 <= i < r.len() implies #[trigger] r[i] != '-' by {
        assert(r[i] == '.' || is_digit(r[i]));
    }
    lemma_position_concat(r, after, '-');
    assert(after[0] == '-');
    let dash = position(t, '-');
    assert(dash == r.len());
    assert(t.take(dash as int) =~= r);
    assert(t.skip(dash + 1int) =~= label + d4);
    lemma_digits_in_suffix(label, d4);
    lemma_decimal_round_trip(n);
    lemma_release_core(major, minor, patch);
}

/// Version keys are ordered lexicographically: by major, then minor, then
/// patch number, then prereleases before releases, then prerelease number;
/// two keys are equal only when all five parts are.
pub proof fn law_version_order_lexicographic(x: VersionKey, y: VersionKey)
    ensures
        (version_order(x, y) == Ordering::Less) <==> (x.0 < y.0 || (x.0 == y.0 && x.1 < y.1) || (
        x.0 == y.0 && x.1 == y.1 && x.2 < y.2) || (x.0 == y.0 && x.1 == y.1 && x.2 == y.2 && !x.3
            && y.3) || (x.0 == y.0 && x.1 == y.1 && x.2 == y.2 && x.3 == y.3 && x.4 < y.4)),
        (version_order(x, y) == Ordering::Equal) <==> x == y,
        (version_order(x, y) == Ordering::Greater) <==> (version_order(y, x) == Ordering::Less),
{
}

/// Of two releases that differ only in their major, minor or patch number,
/// the one with the smaller number compares as older.
pub proof fn law_smaller_number_is_older(
    major: u64,
    minor: u64,
    patch: u64,
    major2: u64,
    minor2: u64,
    patch2: u64,
)
    ensures
        major < major2 ==> version_text_order(
            release_text(major, minor, patch),
            release_text(major2, minor, patch),
        ) == Ordering::Less,
        minor < minor2 ==> version_text_order(
            release_text(major, minor, patch),
            release_text(major, minor2, patch),
        ) == Ordering::Less,
        patch < patch2 ==> version_text_order(
            release_text(major, minor, patch),
            release_text(major, minor, patch2),
        ) == Ordering::Less,
        version_text_order(release_text(major, minor, patch), release_text(major, minor, patch))
            == Ordering::Equal,
{
    law_parse_release_text(major, minor, patch);
    law_parse_release_text(major2, minor, patch);
    law_parse_release_text(major, minor2, patch);
    law_parse_release_text(major, minor, patch2);
}

/// Of two prereleases of the same version with the same label, the one
/// with the smaller number compares as older, and the release of that
/// version is newer than both.
pub proof fn law_prerelease_numbers_order(
    major: u64,
    minor: u64,
    patch: u64,
    label: Seq<char>,
    n: u64,
    m: u64,
)
    requires
        forall|i: int| 0 <= i < label.len() ==> !is_digit(#[trigger] label[i]),
    ensures
        n < m ==> version_text_order(
            prerelease_text(major, minor, patch, label, n),
            prerelease_text(major, minor, patch, label, m),
        ) == Ordering::Less,
        version_text_order(
            prerelease_text(major, minor, patch, label, n),
            release_text(major, minor, patch),
        ) == Ordering::Less,
{
    law_parse_prerelease_text(major, minor, patch, label, n);
    law_parse_prerelease_text(major, minor, patch, label, m);
    law_parse_release_text(major, minor, patch);
}

// ---------------------------------------------------------------------------
// Executable code
// ---------------------------------------------------------------------------
/// Parses a dsh version string like `0.1.0-rc.7` into a comparable key.
/// The fourth element is true for a release and false for a prerelease; a
/// release sorts after the prereleases of the same core version.
pub fn parse(s: &str) -> (r: Option<VersionKey>)
    ensures
        r == version_of(s@),
{
    let raw = chars_of(s);
    let t = trimmed(&raw);
    let v = strip_leading(&t, 'v');
    let dash = find(&v, '-');
    let core = slice(&v, 0, dash);
    assert(core@ =~= v@.take(dash as int));
    let i1 = find(&core, '.');
    if i1 >= core.len() {
        return None;
    }
    let rest1 = slice(&core, i1 + 1, core.len());
    assert(rest1@ =~= core@.skip(i1 + 1));
    let i2 = find(&rest1, '.');
    if i2 >= rest1.len() {
        return None;
    }
    let rest2 = slice(&rest1, i2 + 1, rest1.len());
    assert(rest2@ =~= rest1@.skip(i2 + 1));
    let i3 = find(&rest2, '.');
    let a = slice(&core, 0, i1);
    assert(a@ =~= core@.take(i1 as int));
    let b = slice(&rest1, 0, i2);
    assert(b@ =~= rest1@.take(i2 as int));
    let c = slice(&rest2, 0, i3);
    assert(c@ =~= rest2@.take(i3 as int));
    let major = match parse_u64(&a) {
        Some(x) => x,
        None => {
            return None;
        },
    };
    let minor = match parse_u64(&b) {
        Some(x) => x,
        None => {
            return None;
        },
    };
    let patch = match parse_u64(&c) {
        Some(x) => x,
        None => {
            return None;
        },
    };
    if dash >= v.len() {
        Some((major, minor, patch, true, 0))
    } else {
        let pre = slice(&v, dash + 1, v.len());
        assert(pre@ =~= v@.skip(dash + 1));
        let digits = keep_digits(&pre);
        match parse_u64(&digits) {
            Some(n) => Some((major, minor, patch, false, n)),
            None => None,
        }
    }
}

fn order_u64(x: u64, y: u64) -> (r: Ordering)
    ensures
        r == order_num(x, y),
{
    if x < y {
        Ordering::Less
    } else if x == y {
        Ordering::Equal
    } else {
        Ordering::Greater
    }
}

/// Orders two version keys component by component.
fn order_keys(x: VersionKey, y: VersionKey) -> (r: Ordering)
    ensures
        r == version_order(x, y),
{
    match order_u64(x.0, y.0) {
        Ordering::Equal => {},
        o => {
            return o;
        },
    }
    match order_u64(x.1, y.1) {
        Ordering::Equal => {},
        o => {
            return o;
        },
    }
    match order_u64(x.2, y.2) {
        Ordering::Equal => {},
        o => {
            return o;
        },
    }
    if x.3 != y.3 {
        return if !x.3 {
            Ordering::Less
        } else {
            Ordering::Greater
        };
    }
    order_u64(x.4, y.4)
}

/// Orders two byte strings lexicographically.
fn order_bytes(a: &[u8], b: &[u8]) -> (r: Ordering)
    ensures
        r == text_order(a@, b@),
{
    let mut i: usize = 0;
    assert(a@.skip(0) =~= a@ && b@.skip(0) =~= b@);
    while i < a.len() && i < b.len() && a[i] == b[i]
        invariant
            i <= a.len(),
            i <= b.len(),
            text_order(a@, b@) == text_order(a@.skip(int_of(i)), b@.skip(int_of(i))),
        decreases a.len() - i,
    {
        proof {
            let sa = a@.skip(int_of(i));
            let sb = b@.skip(int_of(i));
            assert(sa.drop_first() =~= a@.skip(i + 1));
            assert(sb.drop_first() =~= b@.skip(i + 1));
        }
        i = i + 1;
    }
    let ghost sa = a@.skip(int_of(i));
    let ghost sb = b@.skip(int_of(i));
    if i == a.len() {
        if i == b.len() {
            Ordering::Equal
        } else {
            Ordering::Less
        }
    } else if i == b.len() {
        Ordering::Greater
    } else {
        assert(sa[0] == a@[int_of(i)] && sb[0] == b@[int_of(i)]);
        if a[i] < b[i] {
            Ordering::Less
        } else {
            Ordering::Greater
        }
    }
}

/// Compares two dsh version strings. When both parse, they are ordered by
/// version (a release after its prereleases); otherwise the trimmed texts are
/// compared.
pub fn compare(a: &str, b: &str) -> (r: Ordering)
    ensures
        r == version_text_order(a@, b@),
{
    match (parse(a), parse(b)) {
        (Some(x), Some(y)) => order_keys(x, y),
        _ => {
            let ta = string_of(&trimmed(&chars_of(a)));
            let tb = string_of(&trimmed(&chars_of(b)));
            order_bytes(ta.as_str().as_bytes(), tb.as_str().as_bytes())
        },
    }
}

} // verus!

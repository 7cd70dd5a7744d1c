use std::cmp::Ordering;

use dsh_desktop::version::{compare, parse};

#[test]
fn compares_rc_versions() {
    assert_eq!(compare("0.1.0-rc.7", "0.1.0-rc.8"), Ordering::Less);
    assert_eq!(compare("0.1.0-rc.8", "0.1.0-rc.7"), Ordering::Greater);
    assert_eq!(compare("0.1.0-rc.7", "0.1.0-rc.7"), Ordering::Equal);
}

#[test]
fn release_beats_prerelease() {
    assert_eq!(compare("0.1.0-rc.8", "0.1.0"), Ordering::Less);
    assert_eq!(compare("0.1.0", "0.1.0-rc.8"), Ordering::Greater);
}

#[test]
fn handles_v_prefix() {
    assert_eq!(compare("v0.1.0-rc.7", "0.1.0-rc.8"), Ordering::Less);
}

#[test]
fn parses_release_and_prerelease() {
    assert_eq!(parse("0.1.0"), Some((0, 1, 0, true, 0)));
    assert_eq!(parse("  v1.22.333-rc.45 \n"), Some((1, 22, 333, false, 45)));
    assert_eq!(parse("vv2.0.1-beta"), None);
    assert_eq!(parse("1.2"), None);
    assert_eq!(parse("1.2.3.4"), Some((1, 2, 3, true, 0)));
    assert_eq!(parse("+1.2.3"), Some((1, 2, 3, true, 0)));
    assert_eq!(parse("1.-2.3"), None);
    assert_eq!(parse("18446744073709551615.0.0"), Some((u64::MAX, 0, 0, true, 0)));
    assert_eq!(parse("18446744073709551616.0.0"), None);
    assert_eq!(parse("1.2.3-rc.1.2"), Some((1, 2, 3, false, 12)));
    assert_eq!(parse("1.2.3-"), None);
    assert_eq!(parse(""), None);
}

#[test]
fn numeric_components_compare_as_numbers() {
    assert_eq!(compare("0.10.0", "0.9.0"), Ordering::Greater);
    assert_eq!(compare("1.0.0", "0.99.99"), Ordering::Greater);
    assert_eq!(compare(" 0.1.0 ", "0.1.0"), Ordering::Equal);
}

#[test]
fn unparsable_versions_compare_as_trimmed_text() {
    assert_eq!(compare("abc", "abd"), Ordering::Less);
    assert_eq!(compare("  abc", "abc  "), Ordering::Equal);
    assert_eq!(compare("0.2", "0.10.0"), Ordering::Greater);
    assert_eq!(compare("ab", "abc"), Ordering::Less);
    assert_eq!(compare("é", "z"), Ordering::Greater);
}

#[test]
fn transitivity_fails_across_mixed_inputs() {
    // "0.2" does not parse; the other two do.
    assert_eq!(compare("0.10.0", "0.2"), Ordering::Less);
    assert_eq!(compare("0.2", "0.9.0"), Ordering::Less);
    assert_eq!(compare("0.10.0", "0.9.0"), Ordering::Greater);
}

#[test]
fn reflexive_and_antisymmetric_on_examples() {
    for a in ["0.1.0", "x", "0.1.0-rc.3", ""] {
        assert_eq!(compare(a, a), Ordering::Equal);
        for b in ["0.1.0", "x", "0.1.0-rc.3", ""] {
            assert_eq!(compare(a, b), compare(b, a).reverse());
        }
    }
}

#[test]
fn padding_and_leading_vs_do_not_change_a_version() {
    for s in ["0.1.0", "0.1.0-rc.7", "x.y", "1.2"] {
        for pad in ["", " ", "\t\n", "\u{3000}"] {
            for vs in ["", "v", "vvv"] {
                let padded = format!("{pad}{vs}{s}{pad}");
                assert_eq!(parse(&padded), parse(s));
                assert_eq!(compare(&format!("{pad}{s}{pad}"), "0.1.0"), compare(s, "0.1.0"));
            }
        }
    }
}

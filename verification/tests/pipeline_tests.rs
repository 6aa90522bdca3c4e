use greeter::handlers::canonicalize;
use greeter::handlers::follow_redirect;
use greeter::handlers::CanonicalDecision;
use greeter::name::normalize;
use greeter::name::validate;
use greeter::name::RejectReason;
use greeter::name::ValidationOutcome;
use greeter::text::dashes_to_spaces;
use greeter::text::str_eq;
use greeter::text::trim_ends;

#[test]
fn trim_ends_strips_both_sides() {
    assert_eq!(trim_ends("  bob  "), "bob");
    assert_eq!(trim_ends("\t\n bob"), "bob");
    assert_eq!(trim_ends("bob"), "bob");
    assert_eq!(trim_ends("   "), "");
    assert_eq!(trim_ends(""), "");
    assert_eq!(trim_ends(" a b "), "a b");
}

#[test]
fn trim_ends_strips_unicode_whitespace() {
    assert_eq!(trim_ends("\u{a0}bob\u{3000}"), "bob");
    assert_eq!(trim_ends("\u{2009}\u{2028}\u{85}"), "");
    assert_eq!(trim_ends(" \u{a0} John Doe \u{1680}"), "John Doe");
}

#[test]
fn trim_ends_agrees_with_std_trim() {
    let samples = [
        "  bob  ",
        "\u{a0}bob\u{3000}",
        "\t\r\n x \u{2028}",
        "\u{205f}\u{202f}",
        "no-trim",
        "",
    ];
    for s in samples {
        assert_eq!(trim_ends(s), s.trim(), "on {:?}", s);
    }
}

#[test]
fn normalize_unicode_whitespace_gives_default() {
    assert_eq!(normalize("\u{a0}"), "Your Name");
    assert_eq!(normalize("\u{a0}\u{3000}\u{2003}"), "Your Name");
}

#[test]
fn normalize_empty_gives_default() {
    assert_eq!(normalize(""), "Your Name");
    assert_eq!(normalize("   "), "Your Name");
    assert_eq!(normalize("\t\n"), "Your Name");
}

#[test]
fn normalize_keeps_trimmed_name() {
    assert_eq!(normalize("  John Doe "), "John Doe");
    assert_eq!(normalize("john-doe"), "john-doe");
}

#[test]
fn validate_accepts_up_to_fifty_characters() {
    let fifty = "a".repeat(50);
    assert_eq!(validate(&fifty), ValidationOutcome::Valid);
    assert_eq!(validate("bob"), ValidationOutcome::Valid);
}

#[test]
fn validate_rejects_fifty_one_characters() {
    let fifty_one = "a".repeat(51);
    assert_eq!(
        validate(&fifty_one),
        ValidationOutcome::Rejected(RejectReason::TooLong)
    );
}

#[test]
fn dashes_to_spaces_replaces_every_hyphen() {
    assert_eq!(dashes_to_spaces("john-doe"), "john doe");
    assert_eq!(dashes_to_spaces("a-b-c"), "a b c");
    assert_eq!(dashes_to_spaces("plain"), "plain");
    assert_eq!(dashes_to_spaces(""), "");
}

#[test]
fn str_eq_compares_by_characters() {
    assert!(str_eq("abc", "abc"));
    assert!(!str_eq("abc", "abd"));
    assert!(!str_eq("abc", "ab"));
    assert!(str_eq("", ""));
}

#[test]
fn canonicalize_empty_redirects_to_default_slug() {
    match canonicalize("") {
        CanonicalDecision::Redirect { location } => {
            assert_eq!(location, "/wish?name=your-name");
        }
        other => panic!("expected a redirect, got {:?}", other),
    }
}

#[test]
fn canonicalize_slug_name_renders_directly() {
    match canonicalize("your-name") {
        CanonicalDecision::Render {
            display_name,
            slug,
            canonical_url,
        } => {
            assert_eq!(display_name, "your name");
            assert_eq!(slug, "your-name");
            assert_eq!(canonical_url, "/wish?name=your-name");
        }
        other => panic!("expected a direct render, got {:?}", other),
    }
}

#[test]
fn canonicalize_plain_name_redirects_to_slug() {
    match canonicalize("John Doe") {
        CanonicalDecision::Redirect { location } => {
            assert_eq!(location, "/wish?name=john-doe");
        }
        other => panic!("expected a redirect, got {:?}", other),
    }
}

#[test]
fn canonicalize_rejects_over_long_name() {
    let fifty_one = "a".repeat(51);
    assert_eq!(canonicalize(&fifty_one), CanonicalDecision::Invalid);
}

#[test]
fn follow_redirect_reaches_fixed_point() {
    match follow_redirect("John Doe") {
        Some(CanonicalDecision::Render {
            display_name,
            slug,
            canonical_url,
        }) => {
            assert_eq!(display_name, "john doe");
            assert_eq!(slug, "john-doe");
            assert_eq!(canonical_url, "/wish?name=john-doe");
        }
        other => panic!("expected a direct render, got {:?}", other),
    }
}

#[test]
fn follow_redirect_empty_slug_is_out() {
    assert_eq!(follow_redirect("!!!"), None);
}

#[test]
fn follow_redirect_over_long_slug_is_out() {
    let name = "Æ".repeat(26);
    assert_eq!(follow_redirect(&name), None);
}

#[test]
fn canonicalize_redirect_then_render_round_trip() {
    let location = match canonicalize("John Doe") {
        CanonicalDecision::Redirect { location } => location,
        other => panic!("expected a redirect, got {:?}", other),
    };
    let slug = location.strip_prefix("/wish?name=").unwrap();
    match canonicalize(slug) {
        CanonicalDecision::Render {
            display_name,
            slug,
            canonical_url,
        } => {
            assert_eq!(display_name, "john doe");
            assert_eq!(slug, "john-doe");
            assert_eq!(canonical_url, "/wish?name=john-doe");
        }
        other => panic!("expected a direct render, got {:?}", other),
    }
}

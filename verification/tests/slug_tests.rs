use greeter::slugger::slugify;
use greeter::slugger::slugify_twice;

fn assert_slug_shape(s: &str) {
    let chars: Vec<char> = s.chars().collect();
    for (i, c) in chars.iter().enumerate() {
        assert!(
            c.is_ascii_lowercase() || c.is_ascii_digit() || *c == '-',
            "bad slug char {:?} in {:?}",
            c,
            s
        );
        if *c == '-' && i > 0 {
            assert_ne!(chars[i - 1], '-', "double hyphen in {:?}", s);
        }
    }
    if !chars.is_empty() {
        assert_ne!(chars[0], '-', "leading hyphen in {:?}", s);
        assert_ne!(chars[chars.len() - 1], '-', "trailing hyphen in {:?}", s);
    }
}

#[test]
fn slugify_basic_values() {
    assert_eq!(slugify("John Doe"), "john-doe");
    assert_eq!(slugify("Your Name"), "your-name");
    assert_eq!(slugify("your-name"), "your-name");
    assert_eq!(slugify("My Test String!!!1!1"), "my-test-string-1-1");
    assert_eq!(slugify("  --test_-_cool"), "test-cool");
    assert_eq!(slugify(""), "");
}

#[test]
fn slugify_is_idempotent_on_samples() {
    let samples = [
        "John Doe",
        "Your Name",
        "your-name",
        "  spaced   out  ",
        "ALL CAPS",
        "punct!!!",
        "Æúű--cool?",
        "user@example.com",
        "",
        "-",
        "a",
    ];
    for s in samples {
        let once = slugify(s);
        let twice = slugify(&once);
        assert_eq!(twice, once, "not idempotent on {:?}", s);
    }
}

#[test]
fn slugify_twice_returns_equal_pair() {
    let (once, twice) = slugify_twice("Some  Odd -- Input!");
    assert_eq!(once, twice);
    assert_eq!(once, "some-odd-input");
}

#[test]
fn slugify_output_shape_on_samples() {
    let samples = [
        "John Doe",
        "Your Name",
        "---",
        "  ",
        "x_y_z",
        "Tab\tand\nnewline",
        "Æúű--cool?",
        "123 456",
        "ends with punct!",
        "!starts with punct",
    ];
    for s in samples {
        let slug = slugify(s);
        assert_slug_shape(&slug);
    }
}

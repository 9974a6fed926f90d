use text_ops::slugs::slugify;
use text_ops::text::{is_whitespace, lowercase, novowels, reverse, trim, trimspaces, uppercase};

#[test]
fn lowercase_converts_ascii_and_unicode() {
    assert_eq!(lowercase("Hello WORLD").unwrap(), "hello world");
    assert_eq!(lowercase("ÀÉÎ Grüße").unwrap(), "àéî grüße");
    assert_eq!(lowercase("").unwrap(), "");
}

#[test]
fn lowercase_handles_final_sigma() {
    assert_eq!(lowercase("ὈΔΥΣΣΕΎΣ").unwrap(), "ὀδυσσεύς");
}

#[test]
fn lowercase_twice_is_lowercase_once() {
    for s in ["Hello WORLD", "ÀÉÎ Grüße", "İstanbul", "ὈΔΥΣΣΕΎΣ", "", "123 abc"] {
        let once = lowercase(s).unwrap();
        let twice = lowercase(&once).unwrap();
        assert_eq!(twice, once);
    }
}

#[test]
fn uppercase_converts_ascii_and_unicode() {
    assert_eq!(uppercase("Hello world").unwrap(), "HELLO WORLD");
    assert_eq!(uppercase("straße").unwrap(), "STRASSE");
    assert_eq!(uppercase("").unwrap(), "");
}

#[test]
fn uppercase_of_lowercase_may_differ_from_uppercase() {
    let s = "İ";
    let direct = uppercase(s).unwrap();
    let through = uppercase(&lowercase(s).unwrap()).unwrap();
    assert_eq!(direct, "İ");
    assert_eq!(through, "I\u{307}");
    assert_ne!(direct, through);
}

#[test]
fn trimspaces_removes_only_ascii_spaces() {
    assert_eq!(trimspaces("a b  c").unwrap(), "abc");
    assert_eq!(trimspaces(" a\tb \n c ").unwrap(), "a\tb\nc");
    assert_eq!(trimspaces("a\u{a0}b").unwrap(), "a\u{a0}b");
    assert_eq!(trimspaces("   ").unwrap(), "");
    assert_eq!(trimspaces("").unwrap(), "");
}

#[test]
fn trimspaces_length_is_input_minus_spaces() {
    let input = " the quick  brown fox ";
    let spaces = input.chars().filter(|c| *c == ' ').count();
    let out = trimspaces(input).unwrap();
    assert_eq!(spaces, 6);
    assert_eq!(out.chars().count(), input.chars().count() - spaces);
    assert!(!out.contains(' '));
}

#[test]
fn reverse_reverses_by_character() {
    assert_eq!(reverse("abc").unwrap(), "cba");
    assert_eq!(reverse("héllo").unwrap(), "olléh");
    assert_eq!(reverse("a😀b").unwrap(), "b😀a");
    assert_eq!(reverse("").unwrap(), "");
    assert_eq!(reverse("x").unwrap(), "x");
}

#[test]
fn reverse_twice_gives_the_input() {
    for s in ["abc", "héllo wörld", "a😀b", "", "  x "] {
        assert_eq!(reverse(&reverse(s).unwrap()).unwrap(), s);
    }
}

#[test]
fn novowels_removes_vowels_of_both_cases() {
    assert_eq!(novowels("Hello World").unwrap(), "Hll Wrld");
    assert_eq!(novowels("AEIOUaeiou").unwrap(), "");
    assert_eq!(novowels("rhythm").unwrap(), "rhythm");
    assert_eq!(novowels("éa").unwrap(), "é");
    assert_eq!(novowels("").unwrap(), "");
}

#[test]
fn novowels_twice_is_novowels_once() {
    for s in ["Hello World", "AEIOUaeiou", "Queueing up", ""] {
        let once = novowels(s).unwrap();
        assert!(!once.chars().any(|c| "aeiouAEIOU".contains(c)));
        assert_eq!(novowels(&once).unwrap(), once);
    }
}

#[test]
fn slugify_makes_slugs() {
    assert_eq!(slugify("My Test String!!!1!1").unwrap(), "my-test-string-1-1");
    assert_eq!(slugify("test\nit   now!").unwrap(), "test-it-now");
    assert_eq!(slugify("  --test_-_cool").unwrap(), "test-cool");
    assert_eq!(slugify("Æúű--cool?").unwrap(), "aeuu-cool");
    assert_eq!(slugify("You & Me").unwrap(), "you-me");
    assert_eq!(slugify("Hello World").unwrap(), "hello-world");
    assert_eq!(slugify("").unwrap(), "");
    assert_eq!(slugify("!!!").unwrap(), "");
}

#[test]
fn slugify_leaves_a_slug_unchanged() {
    assert_eq!(slugify("hello-world-42").unwrap(), "hello-world-42");
    assert_eq!(slugify("a").unwrap(), "a");
}

#[test]
fn slugify_twice_is_slugify_once() {
    for s in ["My Test String!!!1!1", "  --test_-_cool", "Æúű--cool?", "", "a--b", "-x-"] {
        let once = slugify(s).unwrap();
        assert!(once.chars().all(|c| c.is_ascii_lowercase() || c.is_ascii_digit() || c == '-'));
        assert!(!once.starts_with('-') && !once.ends_with('-'));
        assert!(!once.contains("--"));
        assert_eq!(slugify(&once).unwrap(), once);
    }
}

#[test]
fn trim_removes_surrounding_whitespace_only() {
    assert_eq!(trim("  hello world \n"), "hello world");
    assert_eq!(trim("\t\r\n a  b \u{3000}"), "a  b");
    assert_eq!(trim("abc"), "abc");
    assert_eq!(trim(" \n\t "), "");
    assert_eq!(trim(""), "");
    assert_eq!(trim("name,age\nAlice,30\n"), "name,age\nAlice,30");
}

#[test]
fn whitespace_is_the_unicode_white_space_property() {
    let white = [
        '\u{9}', '\u{a}', '\u{b}', '\u{c}', '\u{d}', ' ', '\u{85}', '\u{a0}', '\u{1680}',
        '\u{2000}', '\u{2005}', '\u{200a}', '\u{2028}', '\u{2029}', '\u{202f}', '\u{205f}',
        '\u{3000}',
    ];
    for c in white {
        assert!(is_whitespace(c), "{:?}", c);
    }
    let other = [
        '\u{8}', '\u{e}', '\u{1f}', '!', 'a', '\u{84}', '\u{86}', '\u{9f}', '\u{a1}', '\u{180e}',
        '\u{1fff}', '\u{200b}', '\u{2027}', '\u{202a}', '\u{2060}', '\u{3001}', '\u{feff}',
    ];
    for c in other {
        assert!(!is_whitespace(c), "{:?}", c);
    }
}

#[test]
fn whitespace_agrees_with_the_standard_library_on_every_character() {
    let mut code: u32 = 0;
    while code <= 0x10ffff {
        if let Some(c) = char::from_u32(code) {
            assert_eq!(is_whitespace(c), c.is_whitespace(), "U+{:04X}", code);
        }
        code += 1;
    }
}

#[test]
fn trim_removes_every_kind_of_whitespace_and_nothing_else() {
    assert_eq!(trim("\u{85}\u{a0}\u{1680}x y\u{2028}\u{2029}\u{205f}"), "x y");
    assert_eq!(trim("\u{200b}x\u{200b}"), "\u{200b}x\u{200b}");
    assert_eq!(trim("\u{b}\u{c}x"), "x");
}

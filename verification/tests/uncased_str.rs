use uncased::{AsUncased, UncasedStr};

#[test]
fn new_compares_without_case() {
    let uncased_str = UncasedStr::new("Hello!");
    assert_eq!(uncased_str, "hello!");
    assert_eq!(uncased_str, "Hello!");
    assert_eq!(uncased_str, "HeLLo!");
    assert_ne!(uncased_str, "hello");
    assert_ne!(uncased_str, "hello?");
}

#[test]
fn equal_uncased_strs_keep_their_own_case() {
    let x: UncasedStr = "hello!".into();
    let y: UncasedStr = "HelLo!".into();
    assert_eq!(x, y);
    assert_eq!(x.as_str(), "hello!");
    assert_eq!(y.as_str(), "HelLo!");
}

#[test]
fn as_str_is_the_text_as_given() {
    let uncased_str = UncasedStr::new("Hello!");
    assert_eq!(uncased_str.as_str(), "Hello!");
    assert_ne!(uncased_str.as_str(), "hELLo!");
}

#[test]
fn as_str_keeps_every_byte() {
    for text in ["", "a", "MiXeD cAsE", "ÀÉÎõü", "tab\there", "日本語 and ASCII", "\u{10FFFF}"] {
        assert_eq!(UncasedStr::new(text).as_str(), text);
        assert_eq!(UncasedStr::new(text).as_str().as_bytes(), text.as_bytes());
    }
}

#[test]
fn as_str_outlives_the_uncased_str() {
    let text = String::from("Borrowed");
    let back = {
        let uncased_str = UncasedStr::new(&text);
        uncased_str.as_str()
    };
    assert_eq!(back, "Borrowed");
}

#[test]
fn len_counts_bytes() {
    assert_eq!(UncasedStr::new("Hello!").len(), 6);
    assert_eq!(UncasedStr::new("").len(), 0);
    assert_eq!(UncasedStr::new("é").len(), 2);
    assert_eq!(UncasedStr::new("日本語").len(), 9);
    assert_eq!(UncasedStr::new("a\u{10FFFF}").len(), 5);
}

#[test]
fn starts_with_any_casing() {
    let uncased_str = UncasedStr::new("MoOO");
    assert!(uncased_str.starts_with("moo"));
    assert!(uncased_str.starts_with("MOO"));
    assert!(uncased_str.starts_with("MOOO"));
    assert!(!uncased_str.starts_with("boo"));
}

#[test]
fn starts_with_needs_the_whole_prefix() {
    assert!(!UncasedStr::new("Mo").starts_with("moo"));
    assert!(!UncasedStr::new("").starts_with("a"));
    assert!(!UncasedStr::new("MoOO").starts_with("moooo"));
}

#[test]
fn starts_with_the_empty_prefix() {
    assert!(UncasedStr::new("MoOO").starts_with(""));
    assert!(UncasedStr::new("").starts_with(""));
}

#[test]
fn starts_with_does_not_fold_beyond_ascii() {
    assert!(UncasedStr::new("Émile").starts_with("Ém"));
    assert!(UncasedStr::new("Émile").starts_with("ÉM"));
    assert!(!UncasedStr::new("Émile").starts_with("ém"));
}

#[test]
fn starts_with_a_prefix_that_ends_inside_a_character() {
    assert!(!UncasedStr::new("é").starts_with("a"));
    assert!(!UncasedStr::new("aé").starts_with("a\u{c3}"));
    assert!(!UncasedStr::new("日本").starts_with("日a"));
}

#[test]
fn slice_keeps_case_and_compares_without() {
    let uncased_str = UncasedStr::new("Hello, World!");
    let world = uncased_str.slice(7, 12);
    assert_eq!(world.as_str(), "World");
    assert_eq!(world, "wORLD");
    assert_eq!(uncased_str.slice(0, 5).as_str(), "Hello");
    assert_eq!(uncased_str.slice(0, 13).as_str(), "Hello, World!");
}

#[test]
fn slice_may_be_empty() {
    let uncased_str = UncasedStr::new("Hello");
    assert_eq!(uncased_str.slice(0, 0).as_str(), "");
    assert_eq!(uncased_str.slice(2, 2).as_str(), "");
    assert_eq!(uncased_str.slice(5, 5).as_str(), "");
    assert_eq!(UncasedStr::new("").slice(0, 0).len(), 0);
}

#[test]
fn slice_on_character_boundaries() {
    let uncased_str = UncasedStr::new("aé日z");
    assert_eq!(uncased_str.slice(1, 3).as_str(), "é");
    assert_eq!(uncased_str.slice(3, 6).as_str(), "日");
    assert_eq!(uncased_str.slice(1, 7).as_str(), "é日z");
}

#[test]
fn eq_is_symmetric_between_uncased_and_plain_text() {
    let uncased_str = UncasedStr::new("Content-Type");
    assert!(uncased_str == "content-type");
    assert!("content-type" == uncased_str);
    assert!(uncased_str == *"CONTENT-TYPE");
    assert!(*"CONTENT-TYPE" == uncased_str);
    assert!(uncased_str != "content-length");
    assert!("content-length" != uncased_str);
}

#[test]
fn eq_needs_equal_lengths() {
    assert_ne!(UncasedStr::new("abc"), UncasedStr::new("abcd"));
    assert_ne!(UncasedStr::new("abcd"), UncasedStr::new("abc"));
    assert_ne!(UncasedStr::new(""), UncasedStr::new("a"));
    assert_eq!(UncasedStr::new(""), UncasedStr::new(""));
}

#[test]
fn eq_folds_letters_only() {
    assert_ne!(UncasedStr::new("@"), UncasedStr::new("`"));
    assert_ne!(UncasedStr::new("["), UncasedStr::new("{"));
    assert_ne!(UncasedStr::new("0"), UncasedStr::new("\u{10}"));
    assert_eq!(UncasedStr::new("A"), UncasedStr::new("a"));
    assert_eq!(UncasedStr::new("Z"), UncasedStr::new("z"));
}

#[test]
fn eq_holds_under_any_toggling_of_case() {
    let text = "The Quick Brown Fox, 42 times!";
    let lower = text.to_ascii_lowercase();
    let upper = text.to_ascii_uppercase();
    let mut mixed = String::new();
    for (i, c) in text.chars().enumerate() {
        if i % 3 == 0 {
            mixed.push(if c.is_ascii_uppercase() {
                c.to_ascii_lowercase()
            } else {
                c.to_ascii_uppercase()
            });
        } else {
            mixed.push(c);
        }
    }
    assert_eq!(UncasedStr::new(text), UncasedStr::new(&lower));
    assert_eq!(UncasedStr::new(text), UncasedStr::new(&upper));
    assert_eq!(UncasedStr::new(text), UncasedStr::new(&mixed));
    assert_eq!(UncasedStr::new(&lower), UncasedStr::new(&upper));
}

#[test]
fn eq_does_not_fold_beyond_ascii() {
    assert_ne!(UncasedStr::new("é"), UncasedStr::new("É"));
    assert_ne!(UncasedStr::new("straße"), UncasedStr::new("STRASSE"));
    assert_ne!(UncasedStr::new("naïve"), UncasedStr::new("naive"));
    assert_eq!(UncasedStr::new("naïve"), UncasedStr::new("NAïVE"));
    assert_ne!(UncasedStr::new("naïve"), UncasedStr::new("NAÏVE"));
}

#[test]
fn eq_tells_apart_texts_that_differ_in_one_character_beyond_ascii() {
    assert_ne!(UncasedStr::new("caf\u{e9}"), UncasedStr::new("caf\u{e8}"));
    assert_ne!(UncasedStr::new("CAF\u{e9}"), UncasedStr::new("caf\u{e8}"));
    assert_ne!(UncasedStr::new("日本"), UncasedStr::new("日木"));
    assert_eq!(UncasedStr::new("CAF\u{e9}"), UncasedStr::new("caf\u{e9}"));
}

#[test]
fn free_eq_ignores_case() {
    assert!(uncased::eq("ENV", "env"));
    assert!(uncased::eq("bRoWN", "BROWN"));
    assert!(uncased::eq("hi", "HI"));
    assert!(uncased::eq("dogs are COOL!", "DOGS are cool!"));
    assert!(!uncased::eq("dogs", "cats"));
    assert!(!uncased::eq("dogs", "dog"));
    assert!(uncased::eq("", ""));
}

#[test]
fn free_eq_is_eq_of_uncased_strs() {
    for (a, b) in [("ENV", "env"), ("a", "b"), ("É", "é"), ("", "x"), ("Ab-9", "aB-9")] {
        assert_eq!(uncased::eq(a, b), UncasedStr::new(a) == UncasedStr::new(b));
        assert_eq!(uncased::eq(a, b), a.to_ascii_lowercase() == b.to_ascii_lowercase());
    }
}

#[test]
fn from_str_is_new() {
    let from: UncasedStr = UncasedStr::from("Hello");
    assert_eq!(from.as_str(), "Hello");
    let into: UncasedStr = "Hello".into();
    assert_eq!(into.as_str(), "Hello");
}

#[test]
fn as_uncased_of_text() {
    assert_eq!("Hello".as_uncased(), "hello");
    assert_eq!("Hello".as_uncased().as_str(), "Hello");
    let owned = String::from("World");
    assert_eq!(owned.as_uncased(), "WORLD");
    assert_eq!(owned.as_uncased().as_str(), "World");
    let cow = std::borrow::Cow::Borrowed("Borrowed");
    assert_eq!(cow.as_uncased().as_str(), "Borrowed");
    let cow: std::borrow::Cow<str> = std::borrow::Cow::Owned(String::from("Owned"));
    assert_eq!(cow.as_uncased().as_str(), "Owned");
    assert_eq!(cow.as_uncased(), "oWNED");
}

#[test]
fn to_string_is_the_text_as_given() {
    assert_eq!(UncasedStr::new("Content-Type").to_string(), "Content-Type".to_string());
    assert_eq!(UncasedStr::new("").to_string(), String::new());
    assert_eq!(UncasedStr::new("É!").to_string(), "É!");
}

#[test]
fn uncased_str_is_copied_freely() {
    let a = UncasedStr::new("Hello");
    let b = a;
    let c = a.clone();
    assert_eq!(a.as_str(), "Hello");
    assert_eq!(b.as_str(), "Hello");
    assert_eq!(c.as_str(), "Hello");
}

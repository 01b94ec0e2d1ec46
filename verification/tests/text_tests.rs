use scb::text::{chars_of, eq_ignoring_case, to_lower};

#[test]
fn to_lower_maps_capitals_only() {
    assert_eq!(to_lower('A'), 'a');
    assert_eq!(to_lower('Z'), 'z');
    assert_eq!(to_lower('J'), 'j');
    assert_eq!(to_lower('a'), 'a');
    assert_eq!(to_lower('z'), 'z');
    assert_eq!(to_lower('@'), '@');
    assert_eq!(to_lower('['), '[');
    assert_eq!(to_lower('0'), '0');
    assert_eq!(to_lower('.'), '.');
}

#[test]
fn to_lower_leaves_letters_outside_ascii() {
    assert_eq!(to_lower('É'), 'É');
    assert_eq!(to_lower('Ω'), 'Ω');
    assert_eq!(to_lower('日'), '日');
}

#[test]
fn to_lower_agrees_with_std_on_every_ascii_character() {
    let mut code: u8 = 0;
    while code < 128 {
        let c = code as char;
        assert_eq!(to_lower(c), c.to_ascii_lowercase());
        code += 1;
    }
}

#[test]
fn chars_of_gives_each_character_in_order() {
    assert_eq!(chars_of(""), Vec::<char>::new());
    assert_eq!(chars_of("a.b"), vec!['a', '.', 'b']);
    assert_eq!(chars_of("é/日"), vec!['é', '/', '日']);
}

#[test]
fn eq_ignoring_case_sets_ascii_case_aside() {
    assert!(eq_ignoring_case("", ""));
    assert!(eq_ignoring_case("png", "png"));
    assert!(eq_ignoring_case("PNG", "png"));
    assert!(eq_ignoring_case("pNg", "PnG"));
    assert!(eq_ignoring_case("JPEG", "jpeg"));
}

#[test]
fn eq_ignoring_case_tells_different_strings_apart() {
    assert!(!eq_ignoring_case("png", "pn"));
    assert!(!eq_ignoring_case("pn", "png"));
    assert!(!eq_ignoring_case("png", "jpg"));
    assert!(!eq_ignoring_case("jpg", "jpeg"));
    assert!(!eq_ignoring_case("", "a"));
    assert!(!eq_ignoring_case("a@", "a`"));
    assert!(!eq_ignoring_case("[", "{"));
}

#[test]
fn eq_ignoring_case_does_not_fold_beyond_ascii() {
    assert!(!eq_ignoring_case("é", "É"));
    assert!(eq_ignoring_case("éA", "éa"));
}

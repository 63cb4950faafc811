use fasttext_serving::label::{strip_label, LABEL_PREFIX};

#[test]
fn sports_label_loses_its_prefix() {
    assert_eq!(strip_label("__label__sports"), "sports");
}

#[test]
fn label_without_prefix_stays() {
    assert_eq!(strip_label("sports"), "sports");
    assert_eq!(strip_label(""), "");
}

#[test]
fn only_the_first_prefix_is_stripped() {
    assert_eq!(strip_label("__label____label__x"), "__label__x");
    assert_eq!(strip_label("__label____label__sports"), "__label__sports");
    assert_eq!(strip_label("__label____label____label__"), "__label____label__");
}

#[test]
fn prefix_alone_gives_the_empty_label() {
    assert_eq!(strip_label("__label__"), "");
}

#[test]
fn partial_prefix_stays() {
    assert_eq!(strip_label("__label_sports"), "__label_sports");
    assert_eq!(strip_label("_label__sports"), "_label__sports");
    assert_eq!(strip_label("__label"), "__label");
    assert_eq!(strip_label("__LABEL__sports"), "__LABEL__sports");
}

#[test]
fn prefix_inside_the_label_stays() {
    assert_eq!(strip_label("a__label__b"), "a__label__b");
    assert_eq!(strip_label("__label__a__label__b"), "a__label__b");
}

#[test]
fn label_of_wide_characters() {
    assert_eq!(strip_label("__label__日本語"), "日本語");
    assert_eq!(strip_label("日本語__label__"), "日本語__label__");
}

#[test]
fn stripping_takes_off_one_prefix_as_the_standard_library_does() {
    for label in [
        "__label__baking",
        "__label____label__x",
        "__label",
        "x__label__",
        "",
        "__label__",
        "___label__",
        "__label___",
    ] {
        assert_eq!(strip_label(label), label.strip_prefix(LABEL_PREFIX).unwrap_or(label));
    }
}

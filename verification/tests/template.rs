use pickme::template::{fill, find_slot, has_one_slot};

#[test]
fn fill_puts_the_value_in_the_slot() {
    assert_eq!(fill("> {hex} <", "#0a0a0a"), "> #0a0a0a <");
    assert_eq!(fill("{hex}", "#ffffff"), "#ffffff");
    assert_eq!(fill("color: {hex}", "#000000"), "color: #000000");
    assert_eq!(fill("{hex} picked", "#123456"), "#123456 picked");
}

#[test]
fn fill_without_a_slot_keeps_the_template() {
    assert_eq!(fill("> {} <", "#0a0a0a"), "> {} <");
    assert_eq!(fill("", "#0a0a0a"), "");
    assert_eq!(fill("{hex", "#0a0a0a"), "{hex");
    assert_eq!(fill("{HEX}", "#0a0a0a"), "{HEX}");
    assert_eq!(fill("{ hex }", "#0a0a0a"), "{ hex }");
}

#[test]
fn fill_takes_the_leftmost_slot_only() {
    assert_eq!(fill("{hex} {hex}", "#a"), "#a {hex}");
    assert_eq!(fill("{{hex}}", "#a"), "{#a}");
}

#[test]
fn fill_does_not_fill_the_value_again() {
    assert_eq!(fill("a{hex}b", "{hex}"), "a{hex}b");
    assert_eq!(fill("a{hex}b{hex}", "{hex}"), "a{hex}b{hex}");
}

#[test]
fn fill_counts_characters_not_bytes() {
    assert_eq!(fill("\u{e9}t\u{e9} \u{2192} {hex} \u{2190}", "#0a0a0a"), "\u{e9}t\u{e9} \u{2192} #0a0a0a \u{2190}");
    assert_eq!(fill("{hex}\u{1f3a8}", "#1"), "#1\u{1f3a8}");
}

#[test]
fn find_slot_gives_the_character_index() {
    assert_eq!(find_slot("> {hex} <", 0), Some(2));
    assert_eq!(find_slot("{hex}", 0), Some(0));
    assert_eq!(find_slot("\u{e9}\u{e9}{hex}", 0), Some(2));
    assert_eq!(find_slot("> {} <", 0), None);
    assert_eq!(find_slot("", 0), None);
    assert_eq!(find_slot("{hex", 0), None);
}

#[test]
fn find_slot_starts_where_it_is_told() {
    assert_eq!(find_slot("{hex} {hex}", 0), Some(0));
    assert_eq!(find_slot("{hex} {hex}", 1), Some(6));
    assert_eq!(find_slot("{hex} {hex}", 6), Some(6));
    assert_eq!(find_slot("{hex} {hex}", 7), None);
    assert_eq!(find_slot("{hex}", 100), None);
    assert_eq!(find_slot("{hex}", usize::MAX), None);
}

#[test]
fn one_slot_means_exactly_one() {
    assert!(has_one_slot("> {hex} <"));
    assert!(has_one_slot("{hex}"));
    assert!(!has_one_slot("> {} <"));
    assert!(!has_one_slot(""));
    assert!(!has_one_slot("{hex}{hex}"));
    assert!(!has_one_slot("{hex} and {hex}"));
}

use story_generator::text::{refine_genres, remove_char};

#[test]
fn refine_genres_lowercases_and_drops_full_stops() {
    assert_eq!(refine_genres("Fantasy, Adventure, Drama."), "fantasy, adventure, drama");
    assert_eq!(refine_genres("Sci.Fi."), "scifi");
}

#[test]
fn refine_genres_of_empty_and_plain_text() {
    assert_eq!(refine_genres(""), "");
    assert_eq!(refine_genres("..."), "");
    assert_eq!(refine_genres("horror"), "horror");
}

#[test]
fn refine_genres_lowercases_non_ascii() {
    assert_eq!(refine_genres("ÉPOPÉE."), "épopée");
}

#[test]
fn refine_genres_has_no_full_stop_left() {
    let out = refine_genres("A.B..C. D");
    assert!(!out.contains('.'));
    assert_eq!(out, "abc d");
}

#[test]
fn remove_char_keeps_order_and_other_characters() {
    assert_eq!(remove_char("a,b,,c", ','), "abc");
    assert_eq!(remove_char("no commas", ','), "no commas");
    assert_eq!(remove_char("", 'x'), "");
    assert_eq!(remove_char("xxxx", 'x'), "");
    assert_eq!(remove_char("über.ü", 'ü'), "ber.");
}

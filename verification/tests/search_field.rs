use mcmd::search_field::SearchField;

#[test]
fn fitting_length() {
    let mut text = SearchField::new();
    text.push_char('C');
    text.push_char('C');

    assert_eq!(text.get_display(10), "Search: CC");
}

#[test]
fn too_small_to_fit() {
    let mut text = SearchField::new();
    text.push_char('C');
    text.push_char('C');

    assert_eq!(text.get_display(4), "Sear");
}

#[test]
fn longer_than_text() {
    let mut text = SearchField::new();
    text.push_char('C');
    text.push_char('C');

    assert_eq!(text.get_display(12), "Search: CC  ");
}

#[test]
fn after_deletion() {
    let mut text = SearchField::new();
    text.push_char('C');
    assert_eq!(text.get_display(10), "Search: C ");
    text.delete_last();
    assert_eq!(text.get_display(10), "Search:   ");
}

#[test]
fn clear_discards_text() {
    let mut text = SearchField::new();
    text.push_char('a');
    text.push_char('b');
    text.clear();
    assert_eq!(text.get_text(), "");
}

#[test]
fn get_text_returns_typed_query() {
    let mut text = SearchField::new();
    text.push_char('f');
    text.push_char('o');
    text.push_char('o');
    assert_eq!(text.get_text(), "foo");
}

#[test]
fn delete_last_on_empty_is_noop() {
    let mut text = SearchField::new();
    text.delete_last();
    assert_eq!(text.get_text(), "");
}

use oxybot::quotes::{fool_quote_at, get_fool_quote, random_quote_index, FOOL_QUOTE_COUNT};

#[test]
fn quotes_by_index() {
    assert_eq!(FOOL_QUOTE_COUNT, 2);
    assert_eq!(
        fool_quote_at(0),
        "A fool thinks himself to be wise, but a wise man knows himself to be a fool."
    );
    assert_eq!(
        fool_quote_at(1),
        "The first principle is that you must not fool yourself and you are the easiest person to fool."
    );
}

#[test]
fn random_index_is_below_the_count() {
    for _ in 0..200 {
        assert!(random_quote_index() < FOOL_QUOTE_COUNT);
    }
}

#[test]
fn random_quote_is_one_of_the_two() {
    let mut seen = [false, false];
    for _ in 0..200 {
        let quote = get_fool_quote();
        if quote == fool_quote_at(0) {
            seen[0] = true;
        } else {
            assert_eq!(quote, fool_quote_at(1));
            seen[1] = true;
        }
    }
    assert!(seen[0] && seen[1]);
}

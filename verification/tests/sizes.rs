use extern_trait::imp::{size_error_message, size_fits};

#[test]
fn exactly_two_words_is_accepted() {
    let word = std::mem::size_of::<usize>();
    assert!(size_fits(2 * word, word));
    assert!(size_fits(0, word));
    assert!(size_fits(word, word));
}

#[test]
fn one_byte_over_the_budget_is_rejected() {
    let word = std::mem::size_of::<usize>();
    assert!(!size_fits(2 * word + 1, word));
    assert!(!size_fits(3 * word, word));
}

#[test]
fn size_diagnostic_names_the_type() {
    let msg = size_error_message(&String::from("OversizedGadget"));
    assert_eq!(msg, "OversizedGadget is too large to be used with #[extern_trait]");
}

use procdir::casefold::str_eq_fold;

#[test]
fn fold_equal_up_to_case() {
    assert!(str_eq_fold("ABC", "abc"));
    assert!(str_eq_fold("abc", "ABC"));
    assert!(str_eq_fold("aBc", "Abc"));
}

#[test]
fn fold_equal_verbatim() {
    assert!(str_eq_fold("abc", "abc"));
    assert!(str_eq_fold("42", "42"));
}

#[test]
fn fold_empty() {
    assert!(str_eq_fold("", ""));
}

#[test]
fn fold_non_letters_kept() {
    assert!(str_eq_fold("a1!", "A1!"));
    assert!(!str_eq_fold("a1!", "a2!"));
}

#[test]
fn fold_unequal_letters() {
    assert!(!str_eq_fold("abc", "abd"));
}

#[test]
fn fold_unequal_lengths() {
    assert!(!str_eq_fold("ab", "abc"));
    assert!(!str_eq_fold("abc", ""));
}

#[test]
fn fold_digits_are_not_letters() {
    assert!(!str_eq_fold("42", "4z"));
}

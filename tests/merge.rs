use leadrscribe::merge::{merge_folded, merge_overlapping};

#[test]
fn merge_disjoint() {
    assert_eq!(merge_overlapping("hello world", "foo bar"), "hello world foo bar");
}

#[test]
fn merge_three_word_overlap() {
    assert_eq!(
        merge_overlapping("the quick brown fox jumps", "brown fox jumps over the lazy dog"),
        "the quick brown fox jumps over the lazy dog"
    );
}

#[test]
fn merge_full_overlap() {
    assert_eq!(merge_overlapping("hello world foo", "hello world foo"), "hello world foo");
}

#[test]
fn merge_case_insensitive() {
    assert_eq!(
        merge_overlapping("Hello World Foo", "hello world foo bar baz"),
        "Hello World Foo bar baz"
    );
}

#[test]
fn merge_single_word_overlap_rejected() {
    assert_eq!(merge_overlapping("I saw the", "the cat"), "I saw the the cat");
}

#[test]
fn merge_empty_is_identity() {
    assert_eq!(merge_overlapping("", "some words here"), "some words here");
    assert_eq!(merge_overlapping("some words here", ""), "some words here");
    assert_eq!(merge_overlapping("", ""), "");
}

#[test]
fn merge_prefers_longest_overlap() {
    assert_eq!(merge_overlapping("a b a b", "a b a b c"), "a b a b c");
}

#[test]
fn merge_twice_changes_nothing() {
    let a = "the quick brown fox jumps";
    let b = "brown fox jumps over the lazy dog";
    let once = merge_overlapping(a, b);
    assert_eq!(merge_overlapping(&once, b), once);
    let c = merge_overlapping("hello world", "foo bar");
    assert_eq!(merge_overlapping(&c, "foo bar"), c);
}

#[test]
fn merge_result_extends_committed() {
    let a = "alpha beta gamma";
    for b in ["delta", "beta gamma delta", "", "x y"] {
        assert!(merge_overlapping(a, b).starts_with(a));
    }
}

#[test]
fn merge_collapses_spacing_of_appended_words() {
    assert_eq!(merge_overlapping("one two", "one  two   three\tfour"), "one two three four");
}

#[test]
fn merge_folds_case_beyond_ascii() {
    assert_eq!(merge_overlapping("Éa b", "éa b x"), "Éa b x");
    assert_eq!(
        merge_overlapping("Straße ÜBER Brücke", "straße über brücke fertig"),
        "Straße ÜBER Brücke fertig"
    );
}

#[test]
fn merge_folded_uses_given_keys() {
    let keys = |s: &str| -> Vec<String> { s.split_whitespace().map(|w| w.to_lowercase()).collect() };
    assert_eq!(
        merge_folded("Éa b", "éa b x", &keys("Éa b"), &keys("éa b x")),
        "Éa b x"
    );
    // keys decide the overlap, whatever the words are
    let ck = vec!["k1".to_string(), "k2".to_string()];
    let nk = vec!["k1".to_string(), "k2".to_string(), "k3".to_string()];
    assert_eq!(merge_folded("a b", "c d e", &ck, &nk), "a b e");
    let other = vec!["z1".to_string(), "z2".to_string(), "z3".to_string()];
    assert_eq!(merge_folded("a b", "c d e", &ck, &other), "a b c d e");
}

use ducksheets::sheet::Sheet;

fn name(n: usize) -> String {
    Sheet::idx_to_column_letter(n)
}

#[test]
fn col_letter() {
    let res = Sheet::idx_to_column_letter(702);

    assert_eq!(res, "AAA");
}

#[test]
fn literal_names() {
    assert_eq!(name(0), "A");
    assert_eq!(name(1), "B");
    assert_eq!(name(25), "Z");
    assert_eq!(name(26), "AA");
    assert_eq!(name(27), "AB");
    assert_eq!(name(51), "AZ");
    assert_eq!(name(52), "BA");
    assert_eq!(name(701), "ZZ");
    assert_eq!(name(702), "AAA");
    assert_eq!(name(18277), "ZZZ");
    assert_eq!(name(18278), "AAAA");
}

#[test]
fn names_are_uppercase_words() {
    for n in 0..2000usize {
        let s = name(n);
        assert!(!s.is_empty());
        assert!(s.chars().all(|c| c.is_ascii_uppercase()));
        assert_eq!(s.trim(), s);
    }
}

#[test]
fn names_follow_index_order() {
    let mut prev = name(0);
    for n in 1..20000usize {
        let cur = name(n);
        assert!(prev.len() < cur.len() || (prev.len() == cur.len() && prev < cur));
        prev = cur;
    }
}

#[test]
fn names_are_distinct() {
    let mut seen = std::collections::HashSet::new();
    for n in 0..20000usize {
        assert!(seen.insert(name(n)));
    }
}

#[test]
fn name_length_boundaries() {
    assert_eq!(name(0).len(), 1);
    assert_eq!(name(25).len(), 1);
    assert_eq!(name(26).len(), 2);
    assert_eq!(name(701).len(), 2);
    assert_eq!(name(702).len(), 3);
}

#[test]
fn largest_index_has_a_name() {
    let s = name(usize::MAX);
    assert!(!s.is_empty());
    assert!(s.chars().all(|c| c.is_ascii_uppercase()));
    assert!(s.len() > name(usize::MAX - 1).len() || s > name(usize::MAX - 1));
}

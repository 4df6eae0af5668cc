use photo_archive::listing::{sort_entries, DirectoryEntry};

fn e(name: &str, is_dir: bool) -> DirectoryEntry {
    DirectoryEntry { name: name.to_string(), is_dir }
}

fn names(v: &[DirectoryEntry]) -> Vec<(String, bool)> {
    v.iter().map(|x| (x.name.clone(), x.is_dir)).collect()
}

fn std_sorted(v: &[DirectoryEntry]) -> Vec<(String, bool)> {
    let mut w = names(v);
    w.sort_by_key(|x| (!x.1, x.0.clone()));
    w
}

#[test]
fn directories_come_first_then_names() {
    let v = vec![e("b.jpg", false), e("zoo", true), e("a.jpg", false), e("cats", true)];
    let r = sort_entries(&v);
    assert_eq!(
        names(&r),
        vec![
            ("cats".to_string(), true),
            ("zoo".to_string(), true),
            ("a.jpg".to_string(), false),
            ("b.jpg".to_string(), false)
        ]
    );
}

#[test]
fn order_matches_string_order() {
    let v = vec![
        e("a", false), e("Z", false), e("ab", false), e("é", false), e("e", false), e("", false),
        e("a", true), e("B", true), e("ä", true), e("aa", true),
    ];
    assert_eq!(names(&sort_entries(&v)), std_sorted(&v));
}

#[test]
fn empty_listing_stays_empty() {
    assert!(sort_entries(&Vec::new()).is_empty());
}

#[test]
fn sorting_twice_changes_nothing() {
    let v = vec![e("q", false), e("p", true), e("a", false), e("m", true)];
    let once = sort_entries(&v);
    let twice = sort_entries(&once);
    assert_eq!(names(&once), names(&twice));
}

use cw_xrpl::query::{page_limit, take_page};

#[test]
fn page_limits() {
    assert_eq!(page_limit(None), 250);
    assert_eq!(page_limit(Some(10)), 10);
    assert_eq!(page_limit(Some(250)), 250);
    assert_eq!(page_limit(Some(1000)), 250);
    assert_eq!(page_limit(Some(0)), 0);
}

#[test]
fn pages() {
    let entries = vec![
        ("a".to_string(), 1u64),
        ("b".to_string(), 2),
        ("c".to_string(), 3),
    ];
    assert_eq!(
        take_page(entries.clone(), 2),
        (vec![1, 2], Some("b".to_string()))
    );
    assert_eq!(take_page(entries.clone(), 10), (vec![1, 2, 3], Some("c".to_string())));
    assert_eq!(take_page(entries, 0), (vec![], None));
    assert_eq!(take_page(Vec::<(u64, u64)>::new(), 5), (vec![], None));
}

use deltachat_core::imap::build_sequence_sets;

#[test]
fn sequence_sets_of_runs() {
    assert_eq!(build_sequence_sets(&[]), vec![]);
    assert_eq!(
        build_sequence_sets(&[1]),
        vec![(vec![1], "1".to_string())]
    );
    assert_eq!(
        build_sequence_sets(&[3, 4, 5, 7, 9, 10]),
        vec![(vec![3, 4, 5, 7, 9, 10], "3:5,7,9:10".to_string())]
    );
    assert_eq!(
        build_sequence_sets(&[5, 4, 3]),
        vec![(vec![5, 4, 3], "5,4,3".to_string())]
    );
    assert_eq!(
        build_sequence_sets(&[1, 2, u32::MAX]),
        vec![(vec![1, 2, u32::MAX], "1:2,4294967295".to_string())]
    );
}

#[test]
fn sequence_sets_are_split_and_cover_all_uids() {
    let uids: Vec<u32> = (0..1000).map(|i| i * 2).collect();
    let sets = build_sequence_sets(&uids);
    assert!(sets.len() > 1);
    let mut all = Vec::new();
    for (i, (set_uids, text)) in sets.iter().enumerate() {
        assert!(!text.is_empty());
        if i + 1 < sets.len() {
            assert!(text.len() > 990);
        }
        assert!(text.len() <= 990 + 1 + 21);
        let listed: Vec<u32> = text.split(',').map(|s| s.parse().unwrap()).collect();
        assert_eq!(&listed, set_uids);
        all.extend_from_slice(set_uids);
    }
    assert_eq!(all, uids);
}

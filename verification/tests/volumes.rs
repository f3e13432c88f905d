use fyc::volumes::VolumeSet;

#[test]
fn volume_set_keeps_each_name_once() {
    let mut s = VolumeSet::new();
    assert_eq!(s.len(), 0);
    assert!(s.insert("a".to_string()));
    assert!(s.insert("b".to_string()));
    assert!(!s.insert("a".to_string()));
    assert!(s.contains(&"a".to_string()));
    assert!(!s.contains(&"c".to_string()));
    assert_eq!(s.len(), 2);
    assert_eq!(s.into_names(), vec!["a".to_string(), "b".to_string()]);
}

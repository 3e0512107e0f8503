use fs_browser::stamp::new_uuid_v4;

#[test]
fn uuid_v4_has_the_version_four_shape() {
    let id = new_uuid_v4().expect("the system offers random bytes");
    let cs: Vec<char> = id.chars().collect();
    assert_eq!(cs.len(), 36);
    for (i, c) in cs.iter().enumerate() {
        if [8, 13, 18, 23].contains(&i) {
            assert_eq!(*c, '-');
        } else {
            assert!(c.is_ascii_hexdigit() && !c.is_ascii_uppercase());
        }
    }
    assert_eq!(cs[14], '4');
    assert!(['8', '9', 'a', 'b'].contains(&cs[19]));
}

#[test]
fn uuid_v4_values_differ() {
    let a = new_uuid_v4().unwrap();
    let b = new_uuid_v4().unwrap();
    assert_ne!(a, b);
}

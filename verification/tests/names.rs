use yacari::smol_str::SmolStr;

#[test]
fn names_are_equal_exactly_when_their_bytes_are() {
    let texts = [
        "",
        "a",
        "main",
        "exactly_twenty_two_chr",
        "more_than_twenty_two_chars",
        "\n\n    ",
        "\n\n\n\n\n\n\n\n\n\n\n\n\n\n\n\n\n\n\n\n\n\n\n\n\n\n\n\n\n\n\n\n        ",
        "                                ",
        "\n\n\n\n\n\n\n\n\n\n\n\n\n\n\n\n\n\n\n\n\n\n\n\n\n\n\n\n\n\n\n\n\n",
        "                        x",
    ];
    for s in texts.iter() {
        for t in texts.iter() {
            assert_eq!(SmolStr::new(s) == SmolStr::new(t), s == t, "{:?} {:?}", s, t);
            assert_eq!(SmolStr::new(s).same(&SmolStr::new(t)), s == t);
        }
    }
}

#[test]
fn a_name_keeps_its_text_in_every_representation() {
    let twenty_two = "exactly_twenty_two_chr";
    assert_eq!(twenty_two.len(), 22);
    assert_eq!(SmolStr::new(twenty_two).as_str(), twenty_two);
    assert_eq!(SmolStr::new_inline(twenty_two).as_str(), twenty_two);
    let long = "a name that is much longer than what fits inline";
    assert_eq!(SmolStr::new(long).as_str(), long);
    assert_eq!(SmolStr::new(long).len(), long.len());
    let blank = "\n\n\n                              ";
    assert_eq!(blank.len(), 33);
    assert_eq!(SmolStr::new(blank).as_str(), blank);
    assert_eq!(SmolStr::new(blank).len(), 33);
    assert_eq!(SmolStr::new(blank).byte_at(2), 10);
    assert_eq!(SmolStr::new(blank).byte_at(3), 32);
    let mixed = "\n\n\n                          \n   ";
    assert_eq!(SmolStr::new(mixed).as_str(), mixed);
}

#[test]
fn length_and_emptiness() {
    assert_eq!(SmolStr::new("").len(), 0);
    assert!(SmolStr::new("").is_empty());
    assert!(!SmolStr::new("x").is_empty());
    assert_eq!(SmolStr::new("héllo").len(), 6);
    assert!(SmolStr::default().is_empty());
    assert_eq!(SmolStr::default().as_str(), "");
}

#[test]
fn bytes_come_out_as_they_went_in() {
    let name = SmolStr::from_bytes(&[104, 105]);
    assert_eq!(name.as_bytes(), vec![104u8, 105]);
    assert_eq!(name.as_str(), "hi");
    assert!(name.eq_bytes(&[104, 105]));
    assert!(!name.eq_bytes(&[104]));
    assert!(!name.eq_bytes(&[104, 106]));
    assert_eq!(name.byte_at(1), 105);
    let copy = name.clone();
    assert!(copy == name);
}

#[test]
fn bytes_that_are_no_text_are_replaced() {
    let name = SmolStr::from_bytes(&[0x61, 0xFF, 0x62]);
    assert_eq!(name.len(), 3);
    assert_eq!(name.as_str(), "a\u{FFFD}b");
}

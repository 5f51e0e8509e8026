use multi_platform_screen_grabbing_utility::choice::Choice;

#[test]
fn choices_number_from_one() {
    assert_eq!(Choice::A.to_numeric(), 1);
    assert_eq!(Choice::C.to_numeric(), 3);
    assert_eq!(Choice::F.to_numeric(), 6);
}

#[test]
fn format_choices_give_suffixes() {
    assert_eq!(Choice::A.to_format(), ".jpg");
    assert_eq!(Choice::B.to_format(), ".png");
    assert_eq!(Choice::C.to_format(), ".gif");
    assert_eq!(Choice::D.to_format(), "");
    assert_eq!(Choice::F.to_format(), "");
}

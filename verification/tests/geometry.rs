use menyoki::geometry::{Geometry, Padding};

#[test]
fn test_padding() {
    let padding = Padding::parse("10:30:20:40");
    assert!(!padding.is_zero());
    assert_eq!(10, padding.top);
    assert_eq!(30, padding.right);
    assert_eq!(20, padding.bottom);
    assert_eq!(40, padding.left);
}

#[test]
fn test_padding_defaults() {
    let padding = Padding::parse("7");
    assert_eq!(7, padding.top);
    assert_eq!(0, padding.right);
    assert_eq!(0, padding.bottom);
    assert_eq!(0, padding.left);
    assert!(Padding::parse("").is_zero());
    assert!(Padding::parse("x:y:z:w").is_zero());
    let plus = Padding::parse("+5:10:0:0");
    assert_eq!(5, plus.top);
    assert_eq!(10, plus.right);
    // out-of-range and malformed segments read as zero
    let over = Padding::parse("99999999999:3:4:5");
    assert_eq!(0, over.top);
    assert_eq!(3, over.right);
}

#[test]
fn test_with_padding() {
    let g = Geometry::new(0, 0, 100, 50);
    let cropped = g.with_padding(Padding::new(5, 10, 15, 20));
    assert_eq!(20, cropped.x);
    assert_eq!(5, cropped.y);
    assert_eq!(70, cropped.width);
    assert_eq!(30, cropped.height);
}

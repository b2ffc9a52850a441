use polaroid::units::{Mm, Size};

#[test]
fn to_px_template_constants_at_300dpi() {
    // px = round(mm * dpi / 25.4), ties away from zero
    assert_eq!(Mm::from_tenths(790).to_px(300), 933);
    assert_eq!(Mm::from_tenths(920).to_px(300), 1087);
    assert_eq!(Mm::from_tenths(730).to_px(300), 862);
    assert_eq!(Mm::from_tenths(880).to_px(300), 1039);
    assert_eq!(Mm::from_tenths(1070).to_px(300), 1264);
    assert_eq!(Mm::from_tenths(1020).to_px(300), 1205);
    assert_eq!(Mm::from_tenths(1485).to_px(300), 1754);
    assert_eq!(Mm::from_tenths(610).to_px(300), 720);
    assert_eq!(Mm::from_tenths(820).to_px(300), 969);
    assert_eq!(Mm::from_tenths(700).to_px(300), 827);
    assert_eq!(Mm::from_tenths(1050).to_px(300), 1240);
    assert_eq!(Mm::from_tenths(2).to_px(300), 2);
}

#[test]
fn to_px_rounds_half_away_from_zero() {
    // 82 mm at 300 dpi is exactly 968.503... px; 25.4 mm at 300 dpi is 300 px
    assert_eq!(Mm::from_tenths(820).to_px(300), 969);
    assert_eq!(Mm::from_tenths(254).to_px(300), 300);
    // 0.2 mm at 60 dpi is 0.47 px, rounds to 0
    assert_eq!(Mm::from_tenths(2).to_px(60), 0);
    // 0.2 mm at 64 dpi is 0.503 px, rounds to 1
    assert_eq!(Mm::from_tenths(2).to_px(64), 1);
}

#[test]
fn to_px_negative_length_saturates_to_zero() {
    assert_eq!(Mm::from_tenths(-790).to_px(300), 0);
}

#[test]
fn from_px_is_exact_rational() {
    let back = Mm::from_px(933, 300);
    assert_eq!(back.num, 933 * 254);
    assert_eq!(back.den, 3000);
}

#[test]
fn round_trip_within_one_pixel() {
    // 79 mm -> 933 px at 300 dpi -> 236982/3000 mm = 78.994 mm;
    // the difference is under one pixel's physical size, 25.4/300 mm.
    let l = Mm::from_tenths(790);
    let px = l.to_px(300);
    let back = Mm::from_px(px, 300);
    // |back - l| < 254/(10*300), scaled by the common denominator 10*300*l.den
    let diff: i64 = back.num * l.den as i64 - l.num * 10 * 300;
    assert_eq!(back.den, 3000);
    assert!(diff.abs() < 254 * l.den as i64);
    assert_eq!(diff, -180);
}

#[test]
fn round_trip_various_lengths_and_resolutions() {
    for &(tenths, dpi) in &[(790i64, 300usize), (2, 600), (1485, 72), (1, 10000), (333, 97)] {
        let l = Mm::from_tenths(tenths);
        let px = l.to_px(dpi);
        let back = Mm::from_px(px, dpi);
        let diff: i128 =
            back.num as i128 * l.den as i128 - l.num as i128 * 10 * dpi as i128;
        assert!(diff.abs() < 254 * l.den as i128, "failed for {tenths} at {dpi}");
    }
}

#[test]
fn plus_and_minus_are_exact() {
    let a = Mm::from_tenths(790);
    let b = Mm::from_tenths(2);
    let s = a.plus(b);
    assert_eq!((s.num, s.den), (7920, 100));
    let d = a.minus(b);
    assert_eq!((d.num, d.den), (7880, 100));
    // subtracting a larger length yields a negative offset
    let n = b.minus(a);
    assert_eq!((n.num, n.den), (-7880, 100));
}

#[test]
fn size_new_and_to_px() {
    let s = Size::new(Mm::from_tenths(920), Mm::from_tenths(730));
    assert_eq!(s.width, Mm::from_tenths(920));
    assert_eq!(s.height, Mm::from_tenths(730));
    let px = s.to_px(300);
    assert_eq!(px, Size::new(1087, 862));
}

#[test]
fn size_to_mm_and_arithmetic() {
    let px = Size::new(933usize, 862usize);
    let mm = px.to_mm(300);
    assert_eq!((mm.width.num, mm.width.den), (933 * 254, 3000));
    assert_eq!((mm.height.num, mm.height.den), (862 * 254, 3000));
    let a = Size::new(Mm::from_tenths(880), Mm::from_tenths(1070));
    let b = Size::new(Mm::from_tenths(790), Mm::from_tenths(790));
    let d = a.minus(b);
    assert_eq!((d.width.num, d.width.den), (900, 100));
    assert_eq!((d.height.num, d.height.den), (2800, 100));
    let s = a.plus(b);
    assert_eq!((s.width.num, s.width.den), (16700, 100));
}

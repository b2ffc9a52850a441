use polaroid::layout::{classify, Color, Polaroid, Template};
use polaroid::units::{Mm, Size};

#[test]
fn ratio_square() {
    assert_eq!(classify(100, 100), Template::Square);
}

#[test]
fn ratio_horizontal() {
    assert_eq!(classify(200, 100), Template::Horizontal);
}

#[test]
fn ratio_vertical() {
    assert_eq!(classify(50, 100), Template::Vertical);
}

#[test]
fn ratio_tolerance_band() {
    // 1.09 rounds to 1.1, inside the dead zone
    assert_eq!(classify(109, 100), Template::Square);
    // 1.11 also rounds to 1.1 one decimal place, so it stays square;
    // 1.15 rounds to 1.2 and leaves the band
    assert_eq!(classify(111, 100), Template::Square);
    assert_eq!(classify(115, 100), Template::Horizontal);
    // 0.91 rounds to 0.9 < 10/11 and is vertical; 0.95 rounds back to 1.0
    assert_eq!(classify(91, 100), Template::Vertical);
    assert_eq!(classify(95, 100), Template::Square);
}

#[test]
fn predict_picks_matching_preset() {
    let h = Polaroid::new_predict(3000, 2000);
    assert_eq!(h.image_size, Size::new(Mm::from_tenths(920), Mm::from_tenths(730)));
    let v = Polaroid::new_predict(2000, 3000);
    assert_eq!(v.image_size, Size::new(Mm::from_tenths(610), Mm::from_tenths(820)));
    let s = Polaroid::new_predict(2000, 2000);
    assert_eq!(s.image_size, Size::new(Mm::from_tenths(790), Mm::from_tenths(790)));
}

#[test]
fn square_preset_constants() {
    let p = Polaroid::new_square();
    assert_eq!(p.dpi, 600);
    assert_eq!(p.image_size, Size::new(Mm::from_tenths(790), Mm::from_tenths(790)));
    assert_eq!(p.border_thickness, Mm::from_tenths(2));
    assert_eq!(p.border_color, Color::Snow4);
    assert_eq!(p.frame_size, Size::new(Mm::from_tenths(880), Mm::from_tenths(1070)));
    assert_eq!(p.frame_color, Color::White);
    assert_eq!(p.frame_top_offset, None);
    assert_eq!(p.output_size, Size::new(Mm::from_tenths(1020), Mm::from_tenths(1485)));
    assert_eq!(p.output_color, Color::Blue);
    assert!(p.current.is_none());
}

#[test]
fn horisontal_preset_constants() {
    let p = Polaroid::new_horisontal();
    assert_eq!(p.image_size, Size::new(Mm::from_tenths(920), Mm::from_tenths(730)));
    assert_eq!(p.frame_size, Size::new(Mm::from_tenths(1020), Mm::from_tenths(1020)));
    // the horizontal page is the square/vertical page, swapped to landscape
    assert_eq!(p.output_size, Size::new(Mm::from_tenths(1485), Mm::from_tenths(1020)));
}

#[test]
fn vertical_preset_constants() {
    let p = Polaroid::new_vertical();
    assert_eq!(p.image_size, Size::new(Mm::from_tenths(610), Mm::from_tenths(820)));
    assert_eq!(p.frame_size, Size::new(Mm::from_tenths(700), Mm::from_tenths(1050)));
    assert_eq!(p.output_size, Size::new(Mm::from_tenths(1020), Mm::from_tenths(1485)));
}

#[test]
fn set_dpi_and_load_size() {
    let mut p = Polaroid::new_square();
    p.set_dpi(300);
    assert_eq!(p.dpi, 300);
    p.load_size(Size::new(800usize, 600usize));
    assert_eq!(p.current, Some(Size::new(800, 600)));
    assert_eq!(p.current_size(), Ok(Size::new(800, 600)));
}

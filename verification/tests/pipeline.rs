use polaroid::layout::{plan_pipeline, LayoutError, Polaroid, Template};
use polaroid::units::Size;

fn engine_300(width: usize, height: usize) -> Polaroid {
    let mut p = Polaroid::new_predict(width, height);
    p.set_dpi(300);
    p.load_size(Size::new(width, height));
    p
}

#[test]
fn resize_crop_is_exact_target_wide() {
    // much wider than the 92x73 mm area: height binds
    let mut p = engine_300(10000, 1000);
    let plan = p.resize().unwrap();
    assert_eq!(plan.crop_to, Size::new(1087, 862));
    assert_eq!(plan.resize_to, Size::new(8620, 862));
    assert_eq!((plan.crop_x, plan.crop_y), (3766, 0));
    assert_eq!(p.current, Some(Size::new(1087, 862)));
}

#[test]
fn resize_crop_is_exact_target_tall() {
    // much taller: vertical template, width binds
    let mut p = engine_300(1000, 10000);
    let plan = p.resize().unwrap();
    assert_eq!(plan.crop_to, Size::new(720, 969));
    assert_eq!(plan.resize_to, Size::new(720, 7200));
    assert_eq!((plan.crop_x, plan.crop_y), (0, 3115));
    assert_eq!(p.current, Some(Size::new(720, 969)));
}

#[test]
fn resize_crop_is_exact_target_near_equal() {
    let mut p = engine_300(1000, 1000);
    let plan = p.resize().unwrap();
    assert_eq!(plan.crop_to, Size::new(933, 933));
    assert_eq!(plan.resize_to, Size::new(933, 933));
    assert_eq!((plan.crop_x, plan.crop_y), (0, 0));
}

#[test]
fn centering_offset_is_symmetric_floor() {
    // resize (1293, 862) against target (1087, 862):
    // offsets are ((Rw-Tw)/2, (Rh-Th)/2) with floor division
    let mut p = engine_300(3000, 2000);
    let plan = p.resize().unwrap();
    assert_eq!(plan.resize_to, Size::new(1293, 862));
    assert_eq!(plan.crop_to, Size::new(1087, 862));
    assert_eq!(plan.crop_x, (1293 - 1087) / 2);
    assert_eq!(plan.crop_x, 103);
    assert_eq!(plan.crop_y, 0);
}

#[test]
fn border_grows_both_axes() {
    let mut p = engine_300(3000, 2000);
    p.resize().unwrap();
    let plan = p.add_border().unwrap();
    assert_eq!(plan.thickness, 2);
    assert_eq!(p.current, Some(Size::new(1091, 866)));
}

#[test]
fn frame_add_centers_content() {
    let mut p = engine_300(3000, 2000);
    p.resize().unwrap();
    p.add_border().unwrap();
    let plan = p.add_frame().unwrap();
    // canvas becomes exactly the frame's pixel size
    assert_eq!(plan.size, Size::new(1205, 1205));
    assert_eq!(p.current, Some(Size::new(1205, 1205)));
    // content offset is the negative of the centering offsets:
    // left = (1205 - 1091) / 2 = 57; top = 57 px as mm, less the 0.2 mm
    // border, re-quantized = 55
    assert_eq!(plan.x_offset, -57);
    assert_eq!(plan.y_offset, -55);
}

#[test]
fn page_composite_centers_frame() {
    let mut p = engine_300(3000, 2000);
    p.resize().unwrap();
    p.add_border().unwrap();
    p.add_frame().unwrap();
    let plan = p.add_output_filler().unwrap();
    assert_eq!(plan.size, Size::new(1754, 1205));
    assert_eq!(plan.x_offset, 1754 / 2 - 1205 / 2);
    assert_eq!((plan.x_offset, plan.y_offset), (275, 0));
    assert_eq!(p.current, Some(Size::new(1754, 1205)));
}

#[test]
fn end_to_end_horizontal_3000x2000_at_300dpi() {
    // a 3000x2000 input (ratio 1.5) picks the horizontal template and
    // ends as the horizontal output page, 148.5x102 mm = 1754x1205 px
    let plan = plan_pipeline(3000, 2000, 300).unwrap();
    assert_eq!(plan.template, Template::Horizontal);
    assert_eq!(plan.final_size, Size::new(1754, 1205));
    assert_eq!(plan.resize.resize_to, Size::new(1293, 862));
    assert_eq!(plan.resize.crop_to, Size::new(1087, 862));
    assert_eq!((plan.resize.crop_x, plan.resize.crop_y), (103, 0));
    assert_eq!(plan.border.thickness, 2);
    assert_eq!(plan.frame.size, Size::new(1205, 1205));
    assert_eq!((plan.frame.x_offset, plan.frame.y_offset), (-57, -55));
    assert_eq!(plan.page.size, Size::new(1754, 1205));
    assert_eq!((plan.page.x_offset, plan.page.y_offset), (275, 0));
}

#[test]
fn pipeline_is_deterministic() {
    // the pipeline is lossy, not idempotent; but two runs on identical
    // input and configuration agree at every stage
    let a = plan_pipeline(3000, 2000, 300).unwrap();
    let b = plan_pipeline(3000, 2000, 300).unwrap();
    assert_eq!(a, b);
    let c = plan_pipeline(1234, 977, 600).unwrap();
    let d = plan_pipeline(1234, 977, 600).unwrap();
    assert_eq!(c, d);
}

#[test]
fn operations_before_load_fail_with_not_loaded() {
    let mut p = Polaroid::new_square();
    assert_eq!(p.current_size(), Err(LayoutError::NotLoaded));
    assert_eq!(p.resize(), Err(LayoutError::NotLoaded));
    assert_eq!(p.add_border(), Err(LayoutError::NotLoaded));
    assert_eq!(p.add_frame(), Err(LayoutError::NotLoaded));
    assert_eq!(p.add_output_filler(), Err(LayoutError::NotLoaded));
}

#[test]
fn degenerate_small_resolution_still_exact() {
    // at 1 dpi everything collapses to a few pixels but the crop is
    // still exactly the converted image area and offsets do not underflow
    let plan = plan_pipeline(3000, 2000, 1).unwrap();
    assert_eq!(plan.template, Template::Horizontal);
    assert_eq!(plan.resize.crop_to, Size::new(4, 3));
    let plan2 = plan_pipeline(7, 9999, 1).unwrap();
    assert_eq!(plan2.template, Template::Vertical);
}

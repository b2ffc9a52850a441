//! Template selection and the layout engine: three fixed physical print
//! templates (square, horizontal, vertical) chosen from an image's pixel
//! aspect ratio, and the ordered pixel-space transforms that fit a photo
//! onto a print page: resize-to-fill, center crop, border, frame
//! extension, and a centered composite onto the output page. Each
//! operation returns the exact instruction for a raster backend to carry
//! out, while the engine tracks the raster's pixel dimensions.

use crate::units::{
    clamp_px, lemma_rounded_div_bounds, lemma_rounded_div_le, rat_from_px, rat_sub, rat_to_px,
    rounded_div, Mm, Size,
};
use vstd::arithmetic::mul::{lemma_mul_nonnegative, lemma_mul_upper_bound};
use vstd::prelude::*;

verus! {

/// One of the three fixed physical layout presets.
#[derive(Clone, Copy, Debug, PartialEq, Eq, Structural)]
pub enum Template {
    Square,
    Horizontal,
    Vertical,
}

/// A named color handed to the raster backend.
#[derive(Clone, Copy, Debug, PartialEq, Eq, Structural)]
pub enum Color {
    Snow4,
    White,
    Blue,
}

/// Failures of the layout engine itself.
#[derive(Clone, Copy, Debug, PartialEq, Eq, Structural)]
pub enum LayoutError {
    /// An operation needing a raster was invoked before one was loaded.
    NotLoaded,
    /// The bordered image is wider than the frame it should fit in.
    FrameExceeded,
}

/// Template choice for a `width x height` pixel image: the ratio
/// `width / height` is rounded to one decimal place
/// (`r10 = round(width * 10 / height)`, ties away from zero), then
/// compared against the dead zone `[1/1.1, 1.1]`: above it the image is
/// horizontal, below it vertical, within it square.
pub open spec fn spec_classify(width: int, height: int) -> Template
    recommends
        height >= 1,
{
    let r10 = rounded_div(width * 10, height);
    if r10 > 11 {
        Template::Horizontal
    } else if 11 * r10 < 100 {
        Template::Vertical
    } else {
        Template::Square
    }
}

/// Choose the template for an image of the given pixel dimensions.
pub fn classify(width: usize, height: usize) -> (t: Template)
    requires
        height >= 1,
    ensures
        t == spec_classify(width as int, height as int),
{
    let a: u128 = (width as u128) * 10;
    let b: u128 = height as u128;
    let r10: u128 = (2 * a + b) / (2 * b);
    if r10 > 11 {
        Template::Horizontal
    } else if 11 * r10 < 100 {
        Template::Vertical
    } else {
        Template::Square
    }
}

/// A configured physical length: positive, no finer than thousandths of a
/// millimeter, and at most 20 meters. All template constants satisfy this,
/// and it keeps every pixel quantity of a configuration under
/// `0x3000_0000`.
pub open spec fn cfg_mm(m: Mm) -> bool {
    1 <= m.num <= 200_000 && 1 <= m.den <= 1_000
}

/// A configured length converts to a bounded, unsaturated pixel count.
pub proof fn lemma_cfg_px_bound(m: Mm, dpi: int)
    requires
        cfg_mm(m),
        1 <= dpi <= 100_000,
    ensures
        0 <= m.spec_to_px(dpi) <= 0x3000_0000,
        clamp_px(m.spec_to_px(dpi)) == m.spec_to_px(dpi),
{
    let a = m.num * dpi * 10;
    let b = m.den * 254;
    assert(10 <= a <= 200_000_000_000 && 254 <= b <= 254_000 && a <= 787_401_575 * b)
        by (nonlinear_arith)
        requires
            1 <= m.num <= 200_000,
            1 <= m.den <= 1_000,
            1 <= dpi <= 100_000,
            a == m.num * dpi * 10,
            b == m.den * 254,
    ;
    lemma_rounded_div_bounds(a, b);
    lemma_rounded_div_le(a, b, 787_401_575);
    assert(usize::MAX >= 0xFFFF_FFFF);
}

/// Whether the pixel ratio `inw / inh` strictly exceeds the physical
/// ratio `mm.width / mm.height`, by cross-multiplication (all quantities
/// positive).
pub open spec fn px_ratio_exceeds(inw: int, inh: int, mm: Size<Mm>) -> bool {
    inw * mm.width.den * mm.height.num > inh * mm.width.num * mm.height.den
}

/// Exact ratio comparison between a pixel size and a configured physical
/// size.
fn ratio_exceeds(inw: usize, inh: usize, mm: &Size<Mm>) -> (r: bool)
    requires
        cfg_mm(mm.width),
        cfg_mm(mm.height),
    ensures
        r == px_ratio_exceeds(inw as int, inh as int, *mm),
{
    let wd: u128 = mm.width.den as u128;
    let wn: u128 = mm.width.num as u128;
    let hd: u128 = mm.height.den as u128;
    let hn: u128 = mm.height.num as u128;
    let iw: u128 = inw as u128;
    let ih: u128 = inh as u128;
    proof {
        lemma_mul_nonnegative(iw as int, wd as int);
        lemma_mul_upper_bound(iw as int, 0x1_0000_0000_0000_0000, wd as int, 0x10_0000);
        assert(0x1_0000_0000_0000_0000 * 0x10_0000 == 0x10_0000_0000_0000_0000_0000int)
            by (nonlinear_arith);
        lemma_mul_nonnegative(iw * wd, hn as int);
        lemma_mul_upper_bound(iw * wd, 0x10_0000_0000_0000_0000_0000, hn as int, 0x10_0000);
        assert(0x10_0000_0000_0000_0000_0000 * 0x10_0000
            == 0x100_0000_0000_0000_0000_0000_0000int) by (nonlinear_arith);
        lemma_mul_nonnegative(ih as int, wn as int);
        lemma_mul_upper_bound(ih as int, 0x1_0000_0000_0000_0000, wn as int, 0x10_0000);
        lemma_mul_nonnegative(ih * wn, hd as int);
        lemma_mul_upper_bound(ih * wn, 0x10_0000_0000_0000_0000_0000, hd as int, 0x10_0000);
    }
    let lhs: u128 = iw * wd * hn;
    let rhs: u128 = ih * wn * hd;
    lhs > rhs
}

/// Saturate a computed pixel quantity into the `usize` range.
fn clamp_to_usize(v: u128) -> (r: usize)
    ensures
        r == clamp_px(v as int),
{
    if v > usize::MAX as u128 {
        usize::MAX
    } else {
        v as usize
    }
}

/// The symmetric centering offset of a `target`-sized crop within a
/// `resized`-sized raster: `(resized - target) / 2`, floor division, and 0
/// in the degenerate case where the raster is smaller than the target.
pub open spec fn spec_center_offset(resized: int, target: int) -> int {
    if target > resized {
        0
    } else {
        (resized - target) / 2
    }
}

/// The instruction computed by the resize-to-fill-and-crop step: resize
/// the raster to `resize_to` with an area-preserving filter, then crop
/// the `crop_to` rectangle at offset `(crop_x, crop_y)`.
#[derive(Clone, Copy, Debug, PartialEq, Eq, Structural)]
pub struct ResizePlan {
    pub resize_to: Size<usize>,
    pub crop_to: Size<usize>,
    pub crop_x: usize,
    pub crop_y: usize,
}

/// The instruction computed by the border step: paint a border of
/// `thickness` pixels on each side, in `color`, with source-over
/// compositing.
#[derive(Clone, Copy, Debug, PartialEq, Eq, Structural)]
pub struct BorderPlan {
    pub color: Color,
    pub thickness: usize,
}

/// The instruction computed by the frame step: extend the canvas to
/// `size`, filled with `color`, placing the existing content at the
/// (negative) offsets.
#[derive(Clone, Copy, Debug, PartialEq, Eq, Structural)]
pub struct FramePlan {
    pub size: Size<usize>,
    pub x_offset: i64,
    pub y_offset: i64,
    pub color: Color,
}

/// The instruction computed by the output-page step: create a new canvas
/// of `size` filled with `color` and composite the current raster over it
/// at the given offsets.
#[derive(Clone, Copy, Debug, PartialEq, Eq, Structural)]
pub struct PagePlan {
    pub size: Size<usize>,
    pub x_offset: i64,
    pub y_offset: i64,
    pub color: Color,
}

/// The layout engine: one template's physical configuration, a
/// resolution, and the pixel dimensions of the raster currently worked
/// on (absent before an image is loaded).
#[derive(Clone, Copy, Debug)]
pub struct Polaroid {
    pub current: Option<Size<usize>>,
    pub dpi: usize,
    pub image_size: Size<Mm>,
    pub border_thickness: Mm,
    pub border_color: Color,
    pub frame_size: Size<Mm>,
    pub frame_color: Color,
    pub frame_top_offset: Option<Mm>,
    pub output_size: Size<Mm>,
    pub output_color: Color,
}

/// The square preset: 79x79 mm image area in an 88x107 mm frame.
pub open spec fn square_template() -> Polaroid {
    Polaroid {
        current: Option::None,
        dpi: 600,
        image_size: Size { width: Mm { num: 790, den: 10 }, height: Mm { num: 790, den: 10 } },
        border_thickness: Mm { num: 2, den: 10 },
        border_color: Color::Snow4,
        frame_size: Size { width: Mm { num: 880, den: 10 }, height: Mm { num: 1070, den: 10 } },
        frame_color: Color::White,
        frame_top_offset: Option::None,
        output_size: Size { width: Mm { num: 1020, den: 10 }, height: Mm { num: 1485, den: 10 } },
        output_color: Color::Blue,
    }
}

/// The horizontal preset: 92x73 mm image area in a 102x102 mm frame on a
/// landscape page.
pub open spec fn horisontal_template() -> Polaroid {
    Polaroid {
        current: Option::None,
        dpi: 600,
        image_size: Size { width: Mm { num: 920, den: 10 }, height: Mm { num: 730, den: 10 } },
        border_thickness: Mm { num: 2, den: 10 },
        border_color: Color::Snow4,
        frame_size: Size { width: Mm { num: 1020, den: 10 }, height: Mm { num: 1020, den: 10 } },
        frame_color: Color::White,
        frame_top_offset: Option::None,
        output_size: Size { width: Mm { num: 1485, den: 10 }, height: Mm { num: 1020, den: 10 } },
        output_color: Color::Blue,
    }
}

/// The vertical preset: 61x82 mm image area in a 70x105 mm frame.
pub open spec fn vertical_template() -> Polaroid {
    Polaroid {
        current: Option::None,
        dpi: 600,
        image_size: Size { width: Mm { num: 610, den: 10 }, height: Mm { num: 820, den: 10 } },
        border_thickness: Mm { num: 2, den: 10 },
        border_color: Color::Snow4,
        frame_size: Size { width: Mm { num: 700, den: 10 }, height: Mm { num: 1050, den: 10 } },
        frame_color: Color::White,
        frame_top_offset: Option::None,
        output_size: Size { width: Mm { num: 1020, den: 10 }, height: Mm { num: 1485, den: 10 } },
        output_color: Color::Blue,
    }
}

/// The preset for a template choice.
pub open spec fn template_config(t: Template) -> Polaroid {
    match t {
        Template::Square => square_template(),
        Template::Horizontal => horisontal_template(),
        Template::Vertical => vertical_template(),
    }
}

impl Polaroid {
    /// A well-formed engine: resolution in a printable range and every
    /// configured physical length positive and bounded.
    pub open spec fn wf(self) -> bool {
        &&& 1 <= self.dpi <= 100_000
        &&& cfg_mm(self.image_size.width)
        &&& cfg_mm(self.image_size.height)
        &&& cfg_mm(self.border_thickness)
        &&& cfg_mm(self.frame_size.width)
        &&& cfg_mm(self.frame_size.height)
        &&& cfg_mm(self.output_size.width)
        &&& cfg_mm(self.output_size.height)
        &&& match self.frame_top_offset {
            Option::Some(m) => cfg_mm(m),
            Option::None => true,
        }
    }

    /// Whether a raster is loaded.
    pub open spec fn loaded(self) -> bool {
        self.current is Some
    }

    /// Target image area width, in pixels.
    pub open spec fn image_px_w(self) -> int {
        clamp_px(self.image_size.width.spec_to_px(self.dpi as int))
    }

    /// Target image area height, in pixels.
    pub open spec fn image_px_h(self) -> int {
        clamp_px(self.image_size.height.spec_to_px(self.dpi as int))
    }

    /// Border thickness, in pixels.
    pub open spec fn border_px(self) -> int {
        clamp_px(self.border_thickness.spec_to_px(self.dpi as int))
    }

    /// Frame width, in pixels.
    pub open spec fn frame_px_w(self) -> int {
        clamp_px(self.frame_size.width.spec_to_px(self.dpi as int))
    }

    /// Frame height, in pixels.
    pub open spec fn frame_px_h(self) -> int {
        clamp_px(self.frame_size.height.spec_to_px(self.dpi as int))
    }

    /// Output page width, in pixels.
    pub open spec fn page_px_w(self) -> int {
        clamp_px(self.output_size.width.spec_to_px(self.dpi as int))
    }

    /// Output page height, in pixels.
    pub open spec fn page_px_h(self) -> int {
        clamp_px(self.output_size.height.spec_to_px(self.dpi as int))
    }

    /// Width the raster is resized to before cropping: when the source is
    /// proportionally wider than the image area, height is the binding
    /// constraint and the width follows the source ratio (truncated);
    /// otherwise it is the target width itself.
    pub open spec fn spec_resize_w(self, inw: int, inh: int) -> int {
        if px_ratio_exceeds(inw, inh, self.image_size) {
            clamp_px((self.image_px_h() * inw) / inh)
        } else {
            self.image_px_w()
        }
    }

    /// Height the raster is resized to before cropping: the target height
    /// when the source is proportionally wider, else the target width
    /// divided by the source ratio, rounded to nearest.
    pub open spec fn spec_resize_h(self, inw: int, inh: int) -> int {
        if px_ratio_exceeds(inw, inh, self.image_size) {
            self.image_px_h()
        } else {
            clamp_px(rounded_div(self.image_px_w() * inh, inw))
        }
    }

    /// The square template.
    pub fn new_square() -> (p: Polaroid)
        ensures
            p == square_template(),
            p.wf(),
            !p.loaded(),
    {
        Polaroid {
            current: Option::None,
            dpi: 600,
            image_size: Size { width: Mm { num: 790, den: 10 }, height: Mm { num: 790, den: 10 } },
            border_thickness: Mm { num: 2, den: 10 },
            border_color: Color::Snow4,
            frame_size: Size {
                width: Mm { num: 880, den: 10 },
                height: Mm { num: 1070, den: 10 },
            },
            frame_color: Color::White,
            frame_top_offset: Option::None,
            output_size: Size {
                width: Mm { num: 1020, den: 10 },
                height: Mm { num: 1485, den: 10 },
            },
            output_color: Color::Blue,
        }
    }

    /// The horizontal template.
    pub fn new_horisontal() -> (p: Polaroid)
        ensures
            p == horisontal_template(),
            p.wf(),
            !p.loaded(),
    {
        Polaroid {
            current: Option::None,
            dpi: 600,
            image_size: Size { width: Mm { num: 920, den: 10 }, height: Mm { num: 730, den: 10 } },
            border_thickness: Mm { num: 2, den: 10 },
            border_color: Color::Snow4,
            frame_size: Size {
                width: Mm { num: 1020, den: 10 },
                height: Mm { num: 1020, den: 10 },
            },
            frame_color: Color::White,
            frame_top_offset: Option::None,
            output_size: Size {
                width: Mm { num: 1485, den: 10 },
                height: Mm { num: 1020, den: 10 },
            },
            output_color: Color::Blue,
        }
    }

    /// The vertical template.
    pub fn new_vertical() -> (p: Polaroid)
        ensures
            p == vertical_template(),
            p.wf(),
            !p.loaded(),
    {
        Polaroid {
            current: Option::None,
            dpi: 600,
            image_size: Size { width: Mm { num: 610, den: 10 }, height: Mm { num: 820, den: 10 } },
            border_thickness: Mm { num: 2, den: 10 },
            border_color: Color::Snow4,
            frame_size: Size {
                width: Mm { num: 700, den: 10 },
                height: Mm { num: 1050, den: 10 },
            },
            frame_color: Color::White,
            frame_top_offset: Option::None,
            output_size: Size {
                width: Mm { num: 1020, den: 10 },
                height: Mm { num: 1485, den: 10 },
            },
            output_color: Color::Blue,
        }
    }

    /// The engine for an image of the given pixel dimensions: the
    /// template predicted from the aspect ratio, with no raster loaded
    /// yet.
    pub fn new_predict(width: usize, height: usize) -> (p: Polaroid)
        requires
            height >= 1,
        ensures
            p == template_config(spec_classify(width as int, height as int)),
            p.wf(),
            !p.loaded(),
    {
        match classify(width, height) {
            Template::Horizontal => Self::new_horisontal(),
            Template::Vertical => Self::new_vertical(),
            Template::Square => Self::new_square(),
        }
    }

    /// Record the pixel dimensions of a freshly loaded raster, replacing
    /// any previous one.
    pub fn load_size(&mut self, size: Size<usize>)
        ensures
            *final(self) == (Polaroid { current: Option::Some(size), ..*old(self) }),
    {
        self.current = Option::Some(size);
    }

    /// Set the working resolution, in dots per inch.
    pub fn set_dpi(&mut self, dpi: usize)
        requires
            1 <= dpi <= 100_000,
        ensures
            *final(self) == (Polaroid { dpi, ..*old(self) }),
    {
        self.dpi = dpi;
    }

    /// The pixel dimensions of the raster currently loaded, or
    /// `NotLoaded`.
    pub fn current_size(&self) -> (r: Result<Size<usize>, LayoutError>)
        ensures
            self.loaded() ==> r == Ok::<Size<usize>, LayoutError>(self.current->0),
            !self.loaded() ==> r == Err::<Size<usize>, LayoutError>(LayoutError::NotLoaded),
    {
        match self.current {
            Option::Some(s) => Ok(s),
            Option::None => Err(LayoutError::NotLoaded),
        }
    }

    /// Resize the raster to fill the template's image area and center-crop
    /// it to exactly that area. The returned plan resizes to
    /// `resize_to` (the binding axis equals the target, the other follows
    /// the source ratio), then crops `crop_to` — always exactly the image
    /// area in pixels — at the symmetric offset
    /// `max(0, (resized - target) / 2)` per axis.
    pub fn resize(&mut self) -> (r: Result<ResizePlan, LayoutError>)
        requires
            old(self).wf(),
            old(self).loaded() ==> old(self).current->0.width >= 1 && old(self).current->0.height
                >= 1,
        ensures
            r is Ok <==> old(self).loaded(),
            !old(self).loaded() ==> r == Err::<ResizePlan, LayoutError>(LayoutError::NotLoaded)
                && *final(self) == *old(self),
            old(self).loaded() ==> ({
                let inw = old(self).current->0.width as int;
                let inh = old(self).current->0.height as int;
                let plan = r->Ok_0;
                &&& plan.resize_to.width == old(self).spec_resize_w(inw, inh)
                &&& plan.resize_to.height == old(self).spec_resize_h(inw, inh)
                &&& plan.crop_to.width == old(self).image_px_w()
                &&& plan.crop_to.height == old(self).image_px_h()
                &&& plan.crop_x == spec_center_offset(
                    old(self).spec_resize_w(inw, inh),
                    old(self).image_px_w(),
                )
                &&& plan.crop_y == spec_center_offset(
                    old(self).spec_resize_h(inw, inh),
                    old(self).image_px_h(),
                )
                &&& (plan.resize_to.width >= plan.crop_to.width ==> plan.crop_x == (
                plan.resize_to.width - plan.crop_to.width) / 2)
                &&& (plan.resize_to.height >= plan.crop_to.height ==> plan.crop_y == (
                plan.resize_to.height - plan.crop_to.height) / 2)
                &&& *final(self) == (Polaroid {
                    current: Option::Some(plan.crop_to),
                    ..*old(self)
                })
            }),
    {
        let cur: Size<usize> = match self.current {
            Option::Some(s) => s,
            Option::None => {
                return Err(LayoutError::NotLoaded);
            },
        };
        proof {
            lemma_cfg_px_bound(self.image_size.width, self.dpi as int);
            lemma_cfg_px_bound(self.image_size.height, self.dpi as int);
        }
        let out_w: usize = self.image_size.width.to_px(self.dpi);
        let out_h: usize = self.image_size.height.to_px(self.dpi);
        let exceeds: bool = ratio_exceeds(cur.width, cur.height, &self.image_size);
        let (rw, rh): (usize, usize) = if exceeds {
            let oh: u128 = out_h as u128;
            let cw: u128 = cur.width as u128;
            proof {
                lemma_mul_nonnegative(oh as int, cw as int);
                lemma_mul_upper_bound(oh as int, 0x4000_0000, cw as int, 0x1_0000_0000_0000_0000);
                assert(0x4000_0000 * 0x1_0000_0000_0000_0000
                    == 0x4000_0000_0000_0000_0000_0000int) by (nonlinear_arith);
            }
            let w128: u128 = oh * cw / (cur.height as u128);
            (clamp_to_usize(w128), out_h)
        } else {
            let ow: u128 = out_w as u128;
            let ch: u128 = cur.height as u128;
            proof {
                lemma_mul_nonnegative(ow as int, ch as int);
                lemma_mul_upper_bound(ow as int, 0x4000_0000, ch as int, 0x1_0000_0000_0000_0000);
                assert(0x4000_0000 * 0x1_0000_0000_0000_0000
                    == 0x4000_0000_0000_0000_0000_0000int) by (nonlinear_arith);
            }
            let p: u128 = ow * ch;
            let h128: u128 = (2 * p + cur.width as u128) / (2 * (cur.width as u128));
            (out_w, clamp_to_usize(h128))
        };
        let crop_x: usize = if out_w > rw {
            0
        } else {
            (rw - out_w) / 2
        };
        let crop_y: usize = if out_h > rh {
            0
        } else {
            (rh - out_h) / 2
        };
        let crop_to = Size { width: out_w, height: out_h };
        self.current = Option::Some(crop_to);
        Ok(ResizePlan { resize_to: Size { width: rw, height: rh }, crop_to, crop_x, crop_y })
    }

    /// Paint a border of the configured thickness around the raster. The
    /// raster grows by twice the border thickness on each axis.
    pub fn add_border(&mut self) -> (r: Result<BorderPlan, LayoutError>)
        requires
            old(self).wf(),
            old(self).loaded() ==> old(self).current->0.width + 2 * old(self).border_px()
                <= usize::MAX && old(self).current->0.height + 2 * old(self).border_px()
                <= usize::MAX,
        ensures
            r is Ok <==> old(self).loaded(),
            !old(self).loaded() ==> r == Err::<BorderPlan, LayoutError>(LayoutError::NotLoaded)
                && *final(self) == *old(self),
            old(self).loaded() ==> ({
                let plan = r->Ok_0;
                let cur = old(self).current->0;
                let grown = Size {
                    width: (cur.width + 2 * old(self).border_px()) as usize,
                    height: (cur.height + 2 * old(self).border_px()) as usize,
                };
                &&& plan.thickness == old(self).border_px()
                &&& plan.color == old(self).border_color
                &&& *final(self) == (Polaroid { current: Option::Some(grown), ..*old(self) })
            }),
    {
        let cur: Size<usize> = match self.current {
            Option::Some(s) => s,
            Option::None => {
                return Err(LayoutError::NotLoaded);
            },
        };
        proof {
            lemma_cfg_px_bound(self.border_thickness, self.dpi as int);
        }
        let b: usize = self.border_thickness.to_px(self.dpi);
        let grown = Size { width: cur.width + 2 * b, height: cur.height + 2 * b };
        self.current = Option::Some(grown);
        Ok(BorderPlan { color: self.border_color, thickness: b })
    }

    /// Extend the canvas to the template's frame size, keeping the
    /// existing content centered: the left offset is half the spare
    /// width; the top offset is the configured one, or the left offset's
    /// physical length when none is configured, in both cases less the
    /// border thickness (the border paint already used part of the
    /// margin). The plan's offsets are the negated pixel offsets for the
    /// backend's canvas-extend call.
    pub fn add_frame(&mut self) -> (r: Result<FramePlan, LayoutError>)
        requires
            old(self).wf(),
            old(self).loaded() ==> old(self).current->0.width <= old(self).frame_px_w(),
        ensures
            r is Ok <==> old(self).loaded(),
            !old(self).loaded() ==> r == Err::<FramePlan, LayoutError>(LayoutError::NotLoaded)
                && *final(self) == *old(self),
            old(self).loaded() ==> ({
                let plan = r->Ok_0;
                let cur = old(self).current->0;
                let off_l = (old(self).frame_px_w() - cur.width) / 2;
                let top = rat_sub(
                    match old(self).frame_top_offset {
                        Option::Some(m) => m.value(),
                        Option::None => rat_from_px(off_l, old(self).dpi as int),
                    },
                    old(self).border_thickness.value(),
                );
                let off_t = clamp_px(rat_to_px(top, old(self).dpi as int));
                &&& plan.size.width == old(self).frame_px_w()
                &&& plan.size.height == old(self).frame_px_h()
                &&& plan.x_offset == -off_l
                &&& plan.y_offset == -off_t
                &&& plan.color == old(self).frame_color
                &&& *final(self) == (Polaroid { current: Option::Some(plan.size), ..*old(self) })
            }),
    {
        let cur: Size<usize> = match self.current {
            Option::Some(s) => s,
            Option::None => {
                return Err(LayoutError::NotLoaded);
            },
        };
        proof {
            lemma_cfg_px_bound(self.frame_size.width, self.dpi as int);
            lemma_cfg_px_bound(self.frame_size.height, self.dpi as int);
        }
        let fw: usize = self.frame_size.width.to_px(self.dpi);
        let fh: usize = self.frame_size.height.to_px(self.dpi);
        let off_l: usize = (fw - cur.width) / 2;
        let bn: i128 = self.border_thickness.num as i128;
        let bd: i128 = self.border_thickness.den as i128;
        let (tn, td): (i128, i128) = match self.frame_top_offset {
            Option::Some(m) => {
                proof {
                    assert((m.num as i128) * bd <= 200_000_000 && (m.den as i128) * bd
                        <= 1_000_000 && bn * (m.den as i128) <= 200_000_000 && (m.den as i128) * bd
                        >= 1) by (nonlinear_arith)
                        requires
                            1 <= m.num <= 200_000,
                            1 <= m.den <= 1_000,
                            1 <= bn <= 200_000,
                            1 <= bd <= 1_000,
                    ;
                    let t = (m.num as i128) * bd - bn * (m.den as i128);
                    let d = (m.den as i128) * bd;
                    assert(t * (self.dpi as int) * 10 <= 0x1_0000_0000_0000 * (d * 254) && d * 254
                        >= 254) by (nonlinear_arith)
                        requires
                            t <= 200_000_000,
                            d >= 1,
                            1 <= self.dpi as int <= 100_000,
                    ;
                }
                ((m.num as i128) * bd - bn * (m.den as i128), (m.den as i128) * bd)
            },
            Option::None => {
                let ol: i128 = off_l as i128;
                let dp: i128 = self.dpi as i128;
                proof {
                    assert(ol * 254 * bd <= 0x8_0000_0000_0000 && bn * 10 * dp
                        <= 200_000_000_000 && 10 * dp * bd >= 10 && 10 * dp * bd
                        <= 1_000_000_000) by (nonlinear_arith)
                        requires
                            0 <= ol <= 0x1800_0000,
                            1 <= bn <= 200_000,
                            1 <= bd <= 1_000,
                            1 <= dp <= 100_000,
                    ;
                }
                proof {
                    let t = ol * 254 * bd - bn * 10 * dp;
                    let d = 10 * dp * bd;
                    assert(t * dp * 10 <= 0x1_0000_0000_0000 * (d * 254) && d * 254 >= 254 && t
                        == (ol * 254) * bd - bn * (dp * 10) && d == (dp * 10) * bd)
                        by (nonlinear_arith)
                        requires
                            0 <= ol <= 0x1800_0000,
                            1 <= bn,
                            1 <= bd <= 1_000,
                            1 <= dp <= 100_000,
                            t == ol * 254 * bd - bn * 10 * dp,
                            d == 10 * dp * bd,
                    ;
                }
                (ol * 254 * bd - bn * 10 * dp, 10 * dp * bd)
            },
        };
        let off_t: usize = crate::units::exec_rat_to_px(tn, td, self.dpi);
        proof {
            lemma_rounded_div_le(tn * (self.dpi as int) * 10, td * 254, 0x1_0000_0000_0000);
        }
        self.current = Option::Some(Size { width: fw, height: fh });
        Ok(
            FramePlan {
                size: Size { width: fw, height: fh },
                x_offset: -(off_l as i64),
                y_offset: -(off_t as i64),
                color: self.frame_color,
            },
        )
    }

    /// Composite the raster centered onto a fresh output page of the
    /// template's page size, filled with the page color. The page becomes
    /// the engine's current raster.
    pub fn add_output_filler(&mut self) -> (r: Result<PagePlan, LayoutError>)
        requires
            old(self).wf(),
        ensures
            r is Ok <==> old(self).loaded(),
            !old(self).loaded() ==> r == Err::<PagePlan, LayoutError>(LayoutError::NotLoaded)
                && *final(self) == *old(self),
            old(self).loaded() ==> ({
                let plan = r->Ok_0;
                let cur = old(self).current->0;
                &&& plan.size.width == old(self).page_px_w()
                &&& plan.size.height == old(self).page_px_h()
                &&& plan.x_offset == old(self).page_px_w() / 2 - (cur.width as int) / 2
                &&& plan.y_offset == old(self).page_px_h() / 2 - (cur.height as int) / 2
                &&& plan.color == old(self).output_color
                &&& *final(self) == (Polaroid { current: Option::Some(plan.size), ..*old(self) })
            }),
    {
        let cur: Size<usize> = match self.current {
            Option::Some(s) => s,
            Option::None => {
                return Err(LayoutError::NotLoaded);
            },
        };
        proof {
            lemma_cfg_px_bound(self.output_size.width, self.dpi as int);
            lemma_cfg_px_bound(self.output_size.height, self.dpi as int);
            assert(usize::MAX <= 0xFFFF_FFFF_FFFF_FFFF);
        }
        let pw: usize = self.output_size.width.to_px(self.dpi);
        let ph: usize = self.output_size.height.to_px(self.dpi);
        let x_off: i64 = ((pw / 2) as i64) - ((cur.width / 2) as i64);
        let y_off: i64 = ((ph / 2) as i64) - ((cur.height / 2) as i64);
        let size = Size { width: pw, height: ph };
        self.current = Option::Some(size);
        Ok(PagePlan { size, x_offset: x_off, y_offset: y_off, color: self.output_color })
    }
}

/// Every pixel-space instruction of one full run: the chosen template and
/// the plans of the four geometric steps, in order, plus the final page
/// size the run ends with.
#[derive(Clone, Copy, Debug, PartialEq, Eq, Structural)]
pub struct PipelinePlan {
    pub template: Template,
    pub resize: ResizePlan,
    pub border: BorderPlan,
    pub frame: FramePlan,
    pub page: PagePlan,
    pub final_size: Size<usize>,
}

/// The complete pipeline for a `width x height` source at resolution
/// `dpi`, as a function of those three values alone: template selection,
/// resize-and-crop, border, frame, page composite. Fails only when the
/// bordered image does not fit the frame's width.
pub open spec fn spec_plan_pipeline(width: int, height: int, dpi: int) -> Result<
    PipelinePlan,
    LayoutError,
>
    recommends
        1 <= width,
        1 <= height,
        1 <= dpi <= 100_000,
{
    let p = Polaroid {
        dpi: dpi as usize,
        current: Option::Some(Size { width: width as usize, height: height as usize }),
        ..template_config(spec_classify(width, height))
    };
    let rw = p.spec_resize_w(width, height);
    let rh = p.spec_resize_h(width, height);
    let resize = ResizePlan {
        resize_to: Size { width: rw as usize, height: rh as usize },
        crop_to: Size { width: p.image_px_w() as usize, height: p.image_px_h() as usize },
        crop_x: spec_center_offset(rw, p.image_px_w()) as usize,
        crop_y: spec_center_offset(rh, p.image_px_h()) as usize,
    };
    let border = BorderPlan { color: p.border_color, thickness: p.border_px() as usize };
    let bw = p.image_px_w() + 2 * p.border_px();
    let bh = p.image_px_h() + 2 * p.border_px();
    if bw > p.frame_px_w() {
        Err(LayoutError::FrameExceeded)
    } else {
        let off_l = (p.frame_px_w() - bw) / 2;
        let top = rat_sub(
            match p.frame_top_offset {
                Option::Some(m) => m.value(),
                Option::None => rat_from_px(off_l, dpi),
            },
            p.border_thickness.value(),
        );
        let off_t = clamp_px(rat_to_px(top, dpi));
        let frame = FramePlan {
            size: Size { width: p.frame_px_w() as usize, height: p.frame_px_h() as usize },
            x_offset: (-off_l) as i64,
            y_offset: (-off_t) as i64,
            color: p.frame_color,
        };
        let page = PagePlan {
            size: Size { width: p.page_px_w() as usize, height: p.page_px_h() as usize },
            x_offset: (p.page_px_w() / 2 - p.frame_px_w() / 2) as i64,
            y_offset: (p.page_px_h() / 2 - p.frame_px_h() / 2) as i64,
            color: p.output_color,
        };
        Ok(
            PipelinePlan {
                template: spec_classify(width, height),
                resize,
                border,
                frame,
                page,
                final_size: page.size,
            },
        )
    }
}

/// Run the whole layout pipeline for one source image: choose the
/// template from the pixel aspect ratio, then compute the resize-and-crop,
/// border, frame and page-composite instructions in order.
pub fn plan_pipeline(width: usize, height: usize, dpi: usize) -> (r: Result<
    PipelinePlan,
    LayoutError,
>)
    requires
        1 <= width,
        1 <= height,
        1 <= dpi <= 100_000,
    ensures
        r == spec_plan_pipeline(width as int, height as int, dpi as int),
{
    let template: Template = classify(width, height);
    let mut p: Polaroid = Polaroid::new_predict(width, height);
    p.set_dpi(dpi);
    p.load_size(Size { width, height });
    proof {
        lemma_cfg_px_bound(p.image_size.width, dpi as int);
        lemma_cfg_px_bound(p.image_size.height, dpi as int);
        lemma_cfg_px_bound(p.border_thickness, dpi as int);
        lemma_cfg_px_bound(p.frame_size.width, dpi as int);
        lemma_cfg_px_bound(p.frame_size.height, dpi as int);
        assert(usize::MAX >= 0xFFFF_FFFF);
    }
    let resize: ResizePlan = match p.resize() {
        Ok(plan) => plan,
        Err(_) => unreached(),
    };
    let border: BorderPlan = match p.add_border() {
        Ok(plan) => plan,
        Err(_) => unreached(),
    };
    let cur: Size<usize> = match p.current {
        Option::Some(s) => s,
        Option::None => unreached(),
    };
    let fw: usize = p.frame_size.width.to_px(p.dpi);
    if cur.width > fw {
        return Err(LayoutError::FrameExceeded);
    }
    let frame: FramePlan = match p.add_frame() {
        Ok(plan) => plan,
        Err(_) => unreached(),
    };
    let page: PagePlan = match p.add_output_filler() {
        Ok(plan) => plan,
        Err(_) => unreached(),
    };
    Ok(PipelinePlan { template, resize, border, frame, page, final_size: page.size })
}

/// Determinism of the pipeline: it has no hidden inputs, so two runs on
/// the same source dimensions and resolution yield identical instructions
/// and dimensions at every stage.
pub proof fn lemma_pipeline_deterministic(
    width: usize,
    height: usize,
    dpi: usize,
    r1: Result<PipelinePlan, LayoutError>,
    r2: Result<PipelinePlan, LayoutError>,
)
    requires
        r1 == spec_plan_pipeline(width as int, height as int, dpi as int),
        r2 == spec_plan_pipeline(width as int, height as int, dpi as int),
    ensures
        r1 == r2,
{
}

} // verus!

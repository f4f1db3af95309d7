//! How a component wants to be drawn.

use vstd::prelude::*;
use crate::color::Color;
use crate::rect::{Edges, Rect};

verus! {

/// The outline of a component's background.
#[derive(Clone, Copy, Debug, PartialEq, Eq, Structural)]
pub enum BorderStyle {
    Square,
    Rounded { radius: i32 },
}

impl Default for BorderStyle {
    fn default() -> (r: BorderStyle)
        ensures
            r == BorderStyle::Square,
    {
        BorderStyle::Square
    }
}

/// The styles of one component. A colour, font or size that is absent falls
/// back to the default of the strip.
#[derive(Clone, Debug)]
pub struct StyleOptions {
    pub bg_color: Option<Color>,
    pub fg_color: Option<Color>,
    pub border_style: BorderStyle,
    pub font: Option<String>,
    pub font_size: Option<i32>,
    pub padding_x: i32,
}

impl Default for StyleOptions {
    fn default() -> (r: StyleOptions)
        ensures
            r.bg_color is None,
            r.fg_color is None,
            r.border_style == BorderStyle::Square,
            r.font is None,
            r.font_size is None,
            r.padding_x == 0,
    {
        StyleOptions {
            bg_color: None,
            fg_color: None,
            border_style: BorderStyle::Square,
            font: None,
            font_size: None,
            padding_x: 0,
        }
    }
}

impl StyleOptions {
    /// The width of a component whose content is `extent` wide: the content
    /// with the horizontal padding on both sides. `None` when an `i32`
    /// cannot hold it.
    pub fn padded_width(&self, extent: i32) -> (r: Option<i32>)
        ensures
            r is Some <==> i32::MIN <= extent + self.padding_x * 2 <= i32::MAX,
            r matches Some(w) ==> w == extent + self.padding_x * 2,
    {
        let w: i64 = extent as i64 + self.padding_x as i64 * 2;
        if w < -2147483648 || w > 2147483647 {
            None
        } else {
            Some(w as i32)
        }
    }
}

/// A rounded rectangle as drawing code takes it: the four edges and the
/// width and height of the ellipse that rounds the corners.
#[derive(Clone, Copy, Debug, PartialEq, Eq, Structural)]
pub struct Outline {
    pub edges: Edges,
    pub corner_width: i32,
    pub corner_height: i32,
}

/// Helpers that turn styles into what drawing code takes.
pub struct Styles {}

impl Styles {
    /// The radius with which the corners of a border are rounded: none for a
    /// square border.
    pub open spec fn corner(border: BorderStyle) -> i32 {
        match border {
            BorderStyle::Square => 0,
            BorderStyle::Rounded { radius } => radius,
        }
    }

    /// The outline to draw for a component at `rect` with the given border.
    pub fn outline(rect: &Rect, border: &BorderStyle) -> (r: Outline)
        requires
            rect.edges_fit(),
        ensures
            r.edges.left == rect.x,
            r.edges.top == rect.y,
            r.edges.right == rect.spec_x2(),
            r.edges.bottom == rect.spec_y2(),
            r.corner_width == Styles::corner(*border),
            r.corner_height == Styles::corner(*border),
    {
        let corner: i32 = match border {
            BorderStyle::Square => 0,
            BorderStyle::Rounded { radius } => *radius,
        };
        Outline { edges: rect.to_edges(), corner_width: corner, corner_height: corner }
    }
}

} // verus!

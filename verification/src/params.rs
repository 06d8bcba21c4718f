use vstd::prelude::*;
use crate::math::{Region, Vector};
use crate::vertex::Color;

verus! {

/// One color per corner of a quad, in the corner order top-left,
/// top-right, bottom-left, bottom-right.
#[derive(Debug, Clone, Copy, PartialEq, Eq, Structural, Hash)]
pub struct CornerColors {
    pub top_left: Color,
    pub top_right: Color,
    pub bottom_left: Color,
    pub bottom_right: Color,
}

impl CornerColors {
    pub fn uniform(color: Color) -> (r: Self)
        ensures
            r == (CornerColors {
                top_left: color,
                top_right: color,
                bottom_left: color,
                bottom_right: color,
            }),
    {
        Self { top_left: color, top_right: color, bottom_left: color, bottom_right: color }
    }
}

/// How a sprite quad is built: an optional texel region (defaulting to the
/// unit region), an origin inside the sprite, a placement offset, and one
/// color per corner.
#[derive(Debug, Clone, Copy, PartialEq, Eq, Structural)]
pub struct SpriteDrawParams {
    pub region: Option<Region>,
    pub origin: Option<Vector>,
    pub position: Option<Vector>,
    pub colors: Option<CornerColors>,
}

impl SpriteDrawParams {
    /// Every coordinate the quad is assembled from is bounded, so the
    /// corner arithmetic stays within the point bound.
    pub open spec fn wf(&self) -> bool {
        &&& (self.region matches Some(r) ==> r.wf())
        &&& (self.origin matches Some(o) ==> o.bounded())
        &&& (self.position matches Some(p) ==> p.bounded())
    }

    pub fn new() -> (r: Self)
        ensures
            r == (SpriteDrawParams { region: None, origin: None, position: None, colors: None }),
    {
        Self { region: None, origin: None, position: None, colors: None }
    }

    pub fn region(self, region: Region) -> (r: Self)
        ensures
            r == (SpriteDrawParams { region: Some(region), ..self }),
    {
        Self { region: Some(region), ..self }
    }

    pub fn origin(self, origin: Vector) -> (r: Self)
        ensures
            r == (SpriteDrawParams { origin: Some(origin), ..self }),
    {
        Self { origin: Some(origin), ..self }
    }

    pub fn position(self, position: Vector) -> (r: Self)
        ensures
            r == (SpriteDrawParams { position: Some(position), ..self }),
    {
        Self { position: Some(position), ..self }
    }

    pub fn colors(self, colors: CornerColors) -> (r: Self)
        ensures
            r == (SpriteDrawParams { colors: Some(colors), ..self }),
    {
        Self { colors: Some(colors), ..self }
    }

    pub fn color(self, color: Color) -> (r: Self)
        ensures
            r matches (SpriteDrawParams { colors: Some(c), .. }) && c == (CornerColors {
                top_left: color,
                top_right: color,
                bottom_left: color,
                bottom_right: color,
            }),
            r.region == self.region,
            r.origin == self.origin,
            r.position == self.position,
    {
        Self { colors: Some(CornerColors::uniform(color)), ..self }
    }
}

/// Horizontal placement of laid-out text inside its wrap box.
#[derive(Debug, Clone, Copy, PartialEq, Eq, Structural, Hash)]
pub enum TextHorizontalGravity {
    Start,
    Center,
    End,
}

impl Default for TextHorizontalGravity {
    fn default() -> (r: Self)
        ensures
            r == TextHorizontalGravity::Start,
    {
        Self::Start
    }
}

/// Vertical placement of laid-out text inside its wrap box.
#[derive(Debug, Clone, Copy, PartialEq, Eq, Structural, Hash)]
pub enum TextVerticalGravity {
    Top,
    Middle,
    Bottom,
}

impl Default for TextVerticalGravity {
    fn default() -> (r: Self)
        ensures
            r == TextVerticalGravity::Top,
    {
        Self::Top
    }
}

/// How a glyph run is laid out and tinted. Sizes and spacings are carried
/// in thousandths of a logical pixel; the text-layout collaborator consumes
/// them and hands back positioned glyph quads.
#[derive(Debug, Clone, Copy, PartialEq, Eq, Structural)]
pub struct TextDrawParams {
    pub text_size: Option<i64>,
    pub char_spacing: Option<i64>,
    pub line_height: Option<i64>,
    pub line_spacing: Option<i64>,
    pub wrap_width: Option<i64>,
    pub wrap_height: Option<i64>,
    pub horizontal_gravity: Option<TextHorizontalGravity>,
    pub vertical_gravity: Option<TextVerticalGravity>,
    pub color: Option<Color>,
}

impl TextDrawParams {
    pub fn new() -> (r: Self)
        ensures
            r == (TextDrawParams {
                text_size: None,
                char_spacing: None,
                line_height: None,
                line_spacing: None,
                wrap_width: None,
                wrap_height: None,
                horizontal_gravity: None,
                vertical_gravity: None,
                color: None,
            }),
    {
        Self {
            text_size: None,
            char_spacing: None,
            line_height: None,
            line_spacing: None,
            wrap_width: None,
            wrap_height: None,
            horizontal_gravity: None,
            vertical_gravity: None,
            color: None,
        }
    }

    pub fn text_size(self, size: i64) -> (r: Self)
        ensures
            r == (TextDrawParams { text_size: Some(size), ..self }),
    {
        Self { text_size: Some(size), ..self }
    }

    pub fn char_spacing(self, spacing: i64) -> (r: Self)
        ensures
            r == (TextDrawParams { char_spacing: Some(spacing), ..self }),
    {
        Self { char_spacing: Some(spacing), ..self }
    }

    pub fn line_height(self, height: i64) -> (r: Self)
        ensures
            r == (TextDrawParams { line_height: Some(height), ..self }),
    {
        Self { line_height: Some(height), ..self }
    }

    pub fn line_spacing(self, spacing: i64) -> (r: Self)
        ensures
            r == (TextDrawParams { line_spacing: Some(spacing), ..self }),
    {
        Self { line_spacing: Some(spacing), ..self }
    }

    pub fn wrap_width(self, width: i64) -> (r: Self)
        ensures
            r == (TextDrawParams { wrap_width: Some(width), ..self }),
    {
        Self { wrap_width: Some(width), ..self }
    }

    pub fn wrap_height(self, height: i64) -> (r: Self)
        ensures
            r == (TextDrawParams { wrap_height: Some(height), ..self }),
    {
        Self { wrap_height: Some(height), ..self }
    }

    pub fn horizontal_gravity(self, gravity: TextHorizontalGravity) -> (r: Self)
        ensures
            r == (TextDrawParams { horizontal_gravity: Some(gravity), ..self }),
    {
        Self { horizontal_gravity: Some(gravity), ..self }
    }

    pub fn vertical_gravity(self, gravity: TextVerticalGravity) -> (r: Self)
        ensures
            r == (TextDrawParams { vertical_gravity: Some(gravity), ..self }),
    {
        Self { vertical_gravity: Some(gravity), ..self }
    }

    pub fn color(self, color: Color) -> (r: Self)
        ensures
            r == (TextDrawParams { color: Some(color), ..self }),
    {
        Self { color: Some(color), ..self }
    }
}

/// One positioned glyph quad, as the text-layout collaborator emits it:
/// the texel region of the glyph in the font atlas and the pen offset the
/// quad is placed at. The quad takes the region's extent.
#[derive(Debug, Clone, Copy, PartialEq, Eq, Structural)]
pub struct GlyphQuad {
    pub region: Region,
    pub position: Vector,
}

impl GlyphQuad {
    pub open spec fn wf(&self) -> bool {
        self.region.wf() && self.position.bounded()
    }

    pub fn new(region: Region, position: Vector) -> (r: Self)
        ensures
            r == (GlyphQuad { region, position }),
    {
        Self { region, position }
    }
}

} // verus!

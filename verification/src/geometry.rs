use vstd::prelude::*;

verus! {

/// The surface dimensions of the backend in pixels.
///
/// Both sides are strictly positive: a zero value is refused at the
/// boundary by [`Dimensions::new`], never produced internally.
#[derive(Clone, Copy, Debug, PartialEq, Eq, Structural)]
pub struct Dimensions {
    pub width: u32,
    pub height: u32,
}

impl Dimensions {
    /// Both sides are strictly positive.
    pub open spec fn wf(self) -> bool {
        self.width > 0 && self.height > 0
    }

    /// Builds dimensions from raw pixel counts, refusing zero on either side.
    pub fn new(width: u32, height: u32) -> (r: Option<Dimensions>)
        ensures
            r is Some <==> (width > 0 && height > 0),
            r matches Some(d) ==> d.width == width && d.height == height && d.wf(),
    {
        if width > 0 && height > 0 {
            Some(Dimensions { width, height })
        } else {
            None
        }
    }
}

/// A sub-rectangle of the presentation surface, in pixels.
///
/// `x`/`y` are the top-left corner; a region is empty when either side is
/// zero.
#[derive(Clone, Copy, Debug, PartialEq, Eq, Structural)]
pub struct DrawRegion {
    pub x: u32,
    pub y: u32,
    pub width: u32,
    pub height: u32,
}

impl DrawRegion {
    /// A region draws nothing when either side is zero.
    pub open spec fn is_empty(self) -> bool {
        self.width == 0 || self.height == 0
    }

    /// The region as a scissor rectangle, in the order a render pass's
    /// scissor call takes: x, y, width, height.
    pub fn scissor_rect(&self) -> (r: (u32, u32, u32, u32))
        ensures
            r == (self.x, self.y, self.width, self.height),
    {
        (self.x, self.y, self.width, self.height)
    }
}

/// Controls the area the text is rendered to relative to the presentation
/// surface.
#[derive(Clone, Copy, Debug, PartialEq, Eq, Structural)]
#[non_exhaustive]
pub enum Viewport {
    /// Render to the entire surface.
    Full,
    /// Render to a reduced area anchored at the top right, leaving a
    /// `width x height` margin toward the bottom left.
    Shrink { width: u32, height: u32 },
}

impl Default for Viewport {
    /// The default viewport covers the entire surface.
    fn default() -> (r: Self)
        ensures
            r == Viewport::Full,
    {
        Viewport::Full
    }
}

impl Viewport {
    /// The region text occupies on a surface of the given size: the whole
    /// surface for `Full`; for `Shrink` the rectangle anchored at the top
    /// right that leaves the requested margin toward the bottom left, clamped
    /// to empty when a margin meets or exceeds the surface.
    pub open spec fn spec_region(self, surface_width: u32, surface_height: u32) -> DrawRegion {
        match self {
            Viewport::Full => (DrawRegion {
                x: 0,
                y: 0,
                width: surface_width,
                height: surface_height,
            }),
            Viewport::Shrink { width, height } => (DrawRegion {
                x: if width <= surface_width { width } else { surface_width },
                y: 0,
                width: if width <= surface_width {
                    (surface_width - width) as u32
                } else {
                    0
                },
                height: if height <= surface_height {
                    (surface_height - height) as u32
                } else {
                    0
                },
            }),
        }
    }

    /// Computes the effective drawing region for a surface of the given size.
    ///
    /// Oversized shrink margins clamp to an empty region rather than failing.
    pub fn region(&self, surface_width: u32, surface_height: u32) -> (r: DrawRegion)
        ensures
            r == self.spec_region(surface_width, surface_height),
    {
        match self {
            Viewport::Full => DrawRegion {
                x: 0,
                y: 0,
                width: surface_width,
                height: surface_height,
            },
            Viewport::Shrink { width, height } => {
                let w: u32 = *width;
                let h: u32 = *height;
                DrawRegion {
                    x: if w <= surface_width { w } else { surface_width },
                    y: 0,
                    width: if w <= surface_width { surface_width - w } else { 0 },
                    height: if h <= surface_height { surface_height - h } else { 0 },
                }
            },
        }
    }
}

/// A shrink margin of zero on both sides is the same as rendering to the
/// full surface.
pub proof fn lemma_zero_shrink_is_full(surface_width: u32, surface_height: u32)
    ensures
        (Viewport::Shrink { width: 0, height: 0 }).spec_region(surface_width, surface_height)
            == Viewport::Full.spec_region(surface_width, surface_height),
{
}

/// Shrink margins exceeding the surface size leave an empty drawing region,
/// never an error.
pub proof fn lemma_oversized_shrink_is_empty(
    margin_width: u32,
    margin_height: u32,
    surface_width: u32,
    surface_height: u32,
)
    requires
        margin_width > surface_width || margin_height > surface_height,
    ensures
        (Viewport::Shrink { width: margin_width, height: margin_height }).spec_region(
            surface_width,
            surface_height,
        ).is_empty(),
{
}

} // verus!

use vstd::prelude::*;

pub mod geometry;
pub mod state;
pub mod render;
pub mod decimal;
pub mod component;
pub mod engine;

pub use engine::Engine;
pub use render::Color;

verus! {

/// A size preset for a button: three named presets plus an explicit
/// width/height pair, all in pixels.
pub enum Size {
    Small,
    Medium,
    Large,
    Custom(u32, u32),
}

/// The pixel dimensions that each size preset stands for.
pub open spec fn spec_size_dims(size: Size) -> (u32, u32) {
    match size {
        Size::Small => (40u32, 40u32),
        Size::Medium => (80u32, 40u32),
        Size::Large => (120u32, 40u32),
        Size::Custom(w, h) => (w, h),
    }
}

/// Resolve a size preset to its width and height in pixels.
pub fn size_to_width_height(size: Size) -> (r: (u32, u32))
    ensures
        r == spec_size_dims(size),
{
    match size {
        Size::Small => (40, 40),
        Size::Medium => (80, 40),
        Size::Large => (120, 40),
        Size::Custom(w, h) => (w, h),
    }
}

impl From<(u32, u32)> for Size {
    fn from(dims: (u32, u32)) -> (r: Size)
        ensures
            r == Size::Custom(dims.0, dims.1),
    {
        Size::Custom(dims.0, dims.1)
    }
}

impl vstd::std_specs::convert::FromSpecImpl<(u32, u32)> for Size {
    open spec fn obeys_from_spec() -> bool {
        true
    }

    open spec fn from_spec(dims: (u32, u32)) -> Size {
        Size::Custom(dims.0, dims.1)
    }
}

} // verus!

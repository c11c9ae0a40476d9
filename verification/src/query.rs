//! The size a caller asks for.

use vstd::prelude::*;

verus! {

/// The width and the height used where the caller names none.
pub const DEFAULT_DIMENSION: u32 = 512;

/// The optional target size of a request.
#[derive(Debug)]
pub struct ImageQuery {
    pub width: Option<u32>,
    pub height: Option<u32>,
}

/// The size that `query` stands for: each dimension as given, or the default.
pub open spec fn target_dimensions(query: ImageQuery) -> (u32, u32) {
    (
        match query.width {
            Some(w) => w,
            None => DEFAULT_DIMENSION,
        },
        match query.height {
            Some(h) => h,
            None => DEFAULT_DIMENSION,
        },
    )
}

impl ImageQuery {
    /// The target width and height, each defaulting on its own.
    pub fn width_height(&self) -> (dims: (u32, u32))
        ensures
            dims == target_dimensions(*self),
    {
        (self.width.unwrap_or(DEFAULT_DIMENSION), self.height.unwrap_or(DEFAULT_DIMENSION))
    }
}

} // verus!

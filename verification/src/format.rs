use vstd::prelude::*;

verus! {

/// Channel layouts a raw texture payload can declare. Only the four
/// 8-bit-per-channel layouts can be transcoded; the others are named so that
/// rejecting them is an explicit, typed decision rather than a catch-all.
#[derive(Clone, Copy, PartialEq, Eq, Structural, Debug)]
pub enum PixelFormat {
    L8,
    La8,
    Rgb8,
    Rgba8,
    L16,
    La16,
    Rgb16,
    Rgba16,
    Rgb32F,
    Rgba32F,
}

impl PixelFormat {
    /// Bytes per pixel for the supported 8-bit layouts; `None` marks a layout
    /// outside the supported set.
    pub open spec fn spec_channel_count(self) -> Option<u32> {
        match self {
            PixelFormat::L8 => Some(1u32),
            PixelFormat::La8 => Some(2u32),
            PixelFormat::Rgb8 => Some(3u32),
            PixelFormat::Rgba8 => Some(4u32),
            _ => None,
        }
    }

    pub fn channel_count(self) -> (r: Option<u32>)
        ensures
            r == self.spec_channel_count(),
    {
        match self {
            PixelFormat::L8 => Some(1u32),
            PixelFormat::La8 => Some(2u32),
            PixelFormat::Rgb8 => Some(3u32),
            PixelFormat::Rgba8 => Some(4u32),
            _ => None,
        }
    }

    pub open spec fn is_supported(self) -> bool {
        self.spec_channel_count() is Some
    }
}

/// One raw decoded texture: pixel bytes, their channel layout, and the
/// declared dimensions.
pub struct ImagePayload {
    pub pixels: Vec<u8>,
    pub format: PixelFormat,
    pub width: u32,
    pub height: u32,
}

impl ImagePayload {
    /// A payload in a supported layout is well formed when both dimensions
    /// are positive and the raw byte count matches the declared dimensions
    /// times the bytes per pixel.
    pub open spec fn well_formed(self) -> bool {
        match self.format.spec_channel_count() {
            Some(c) => 1 <= self.width && 1 <= self.height && self.pixels@.len() == self.width
                * self.height * c,
            None => false,
        }
    }
}

/// Metadata of one image entry in the scene graph: the optional name and the
/// optional raw extras text are carried through the pipeline unchanged.
pub struct ImageRef {
    pub name: Option<String>,
    pub extras: Option<String>,
}

} // verus!

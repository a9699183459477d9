use vstd::prelude::*;
use crate::hresult::FAILURE;

verus! {

/// The largest edge, in pixels, of a thumbnail that is ever rendered.
pub const MAX_THUMBNAIL_EDGE: u32 = 96;

/// libvips' `VIPS_INTERPRETATION_sRGB`.
pub const INTERPRETATION_SRGB: i32 = 22;

/// libvips' `VIPS_SIZE_DOWN` (of `VipsSize`: both 0, up 1, down 2, force 3):
/// only ever shrink the image, so it fits the requested box.
pub const SIZE_DOWN: i32 = 2;

/// Bytes per pixel of a four-band 8-bit image.
pub const BYTES_PER_PIXEL: i32 = 4;

/// libvips' `VIPS_KERNEL_NEAREST`: the fastest resampling kernel.
pub const KERNEL_NEAREST: i32 = 0;

/// The band count of an image with red, green, blue and alpha.
pub const RGBA_BANDS: i32 = 4;

/// Planes of the bitmap handed to the shell.
pub const BITMAP_PLANES: u32 = 1;

/// Bits per pixel of the bitmap handed to the shell.
pub const BITMAP_BITS: u32 = 32;

/// `WTSAT_ARGB`: the bitmap carries an alpha channel.
pub const ALPHA_ARGB: i32 = 2;

/// Where a thumbnail request stands. Image and bitmap handles are the
/// caller's names for libvips and GDI objects; the pipeline only passes them
/// back in its commands.
#[derive(Clone, Copy, Debug, PartialEq, Eq)]
pub enum Stage {
    /// The libvips libraries are being loaded; `edge` is the thumbnail edge.
    AwaitLibraries { edge: u32 },
    /// The thumbnail is being loaded from the file.
    AwaitThumbnail,
    /// The colour interpretation of `image` is being read.
    AwaitInterpretation { image: u64 },
    /// `source` is being converted to sRGB.
    AwaitColourspace { source: u64 },
    /// The image that was converted from is being released; `image` comes next.
    ReleaseBeforeBands { image: u64 },
    /// The band count of `image` is being read.
    AwaitBands { image: u64 },
    /// An alpha band is being added to `source`.
    AwaitAlpha { source: u64 },
    /// The image without alpha is being released; `image` comes next.
    ReleaseBeforeGeometry { image: u64 },
    /// Width and height of `image` are being read.
    AwaitGeometry { image: u64 },
    /// A bitmap is being created from the pixels of `image`.
    AwaitBitmap { image: u64 },
    /// The last image is being released; `bitmap` is the result if `valid`.
    ReleaseBeforeFinish { bitmap: u64, valid: bool },
    /// An image is being released after a failed conversion.
    ReleaseBeforeFailure,
    /// The bitmap has been handed over.
    Succeeded,
    /// The request has failed.
    Failed,
}

/// What the caller reports back after carrying out a command.
#[derive(Clone, Copy, Debug, PartialEq, Eq)]
pub enum Event {
    /// The libvips libraries are (or are not) available.
    LibrariesLoaded { loaded: bool },
    /// `vips_thumbnail` returned `status`, and `image` when it is 0.
    ThumbnailLoaded { status: i32, image: u64 },
    /// `vips_image_get_interpretation` returned this value.
    Interpretation { interpretation: i32 },
    /// `vips_colourspace` returned `status`, and `image` when it is 0.
    ColourspaceConverted { status: i32, image: u64 },
    /// `vips_image_get_bands` returned this value.
    Bands { bands: i32 },
    /// `vips_addalpha` returned `status`, and `image` when it is 0.
    AlphaAdded { status: i32, image: u64 },
    /// The image is `width` by `height` pixels.
    Geometry { width: i32, height: i32 },
    /// `CreateBitmap` returned `bitmap`; `valid` is false for an invalid handle.
    BitmapCreated { bitmap: u64, valid: bool },
    /// The image named by the last `Release` command was released.
    Released,
}

/// What the caller is to do next.
#[derive(Clone, Copy, Debug, PartialEq, Eq)]
pub enum Command {
    /// Load the libvips libraries.
    LoadLibraries,
    /// Call `vips_thumbnail` on the hinted source name with these options.
    LoadThumbnail { width: i32, height: i32, size: i32, kernel: i32, auto_rotate: i32 },
    /// Read the colour interpretation of `image`.
    QueryInterpretation { image: u64 },
    /// Convert `image` to the colour space `space`.
    ConvertColourspace { image: u64, space: i32 },
    /// Read the band count of `image`.
    QueryBands { image: u64 },
    /// Add an alpha band to `image`.
    AddAlpha { image: u64 },
    /// Read the width and height of `image`.
    QueryGeometry { image: u64 },
    /// Create a bitmap from the first `byte_len` bytes of the pixel data of
    /// `image`, with red and blue swapped by `pixels::rgba_to_bgra`; with
    /// `byte_len` 0 the bitmap is created without pixel data.
    CreateBitmap {
        image: u64,
        width: i32,
        height: i32,
        planes: u32,
        bit_count: u32,
        byte_len: usize,
    },
    /// Drop the caller's reference to `image`.
    Release { image: u64 },
    /// Hand `bitmap` to the shell with the alpha type `alpha`.
    Finish { bitmap: u64, alpha: i32 },
    /// Report failure with `hresult`.
    Fail { hresult: i32 },
}

/// The thumbnail edge asked for by the shell, capped at `MAX_THUMBNAIL_EDGE`.
pub open spec fn thumbnail_edge(cx: u32) -> u32 {
    if cx < MAX_THUMBNAIL_EDGE {
        cx
    } else {
        MAX_THUMBNAIL_EDGE
    }
}

/// The first stage and command of a request for a file whose path is empty
/// or not, at the edge `cx`.
pub open spec fn start(path_is_empty: bool, cx: u32) -> (Stage, Command) {
    if path_is_empty {
        (Stage::Failed, Command::Fail { hresult: FAILURE })
    } else {
        (Stage::AwaitLibraries { edge: thumbnail_edge(cx) }, Command::LoadLibraries)
    }
}

/// The request has ended.
pub open spec fn is_terminal(stage: Stage) -> bool {
    stage is Succeeded || stage is Failed
}

/// `event` is the report that `stage` waits for.
pub open spec fn expects(stage: Stage, event: Event) -> bool {
    match stage {
        Stage::AwaitLibraries { .. } => event is LibrariesLoaded,
        Stage::AwaitThumbnail => event is ThumbnailLoaded,
        Stage::AwaitInterpretation { .. } => event is Interpretation,
        Stage::AwaitColourspace { .. } => event is ColourspaceConverted,
        Stage::AwaitBands { .. } => event is Bands,
        Stage::AwaitAlpha { .. } => event is AlphaAdded,
        Stage::AwaitGeometry { .. } => event is Geometry,
        Stage::AwaitBitmap { .. } => event is BitmapCreated,
        Stage::ReleaseBeforeBands { .. } => event is Released,
        Stage::ReleaseBeforeGeometry { .. } => event is Released,
        Stage::ReleaseBeforeFinish { .. } => event is Released,
        Stage::ReleaseBeforeFailure => event is Released,
        Stage::Succeeded => false,
        Stage::Failed => false,
    }
}

/// The number of bytes of pixel data that a bitmap of `width` by `height`
/// pixels of four 8-bit bands is made from; none where a side is not positive.
pub open spec fn pixel_bytes(width: i32, height: i32) -> int {
    if 0 < width && 0 < height {
        width * height * BYTES_PER_PIXEL
    } else {
        0
    }
}

/// The pixel data can be addressed in memory: its length fits in a `usize`.
/// Only on a 32-bit target can an image fail this.
pub open spec fn fits_in_memory(width: i32, height: i32) -> bool {
    pixel_bytes(width, height) <= usize::MAX
}

/// The byte length of the pixel data of a `width` by `height` image of four
/// 8-bit bands (0 where a side is not positive), or `None` where the length
/// does not fit in a `usize`.
pub fn bitmap_byte_len(width: i32, height: i32) -> (res: Option<usize>)
    ensures
        fits_in_memory(width, height) ==> res == Some(pixel_bytes(width, height) as usize),
        !fits_in_memory(width, height) ==> res is None,
        0 < width && 0 < height && width * height * 4 <= usize::MAX ==> res == Some(
            (width * height * 4) as usize,
        ),
        0 < width && 0 < height && width * height * 4 > usize::MAX ==> res is None,
        width <= 0 || height <= 0 ==> res == Some(0usize),
{
    if width <= 0 || height <= 0 {
        return Some(0);
    }
    let w = width as u128;
    let h = height as u128;
    assert(w * h <= 0x4000_0000_0000_0000) by (nonlinear_arith)
        requires
            0 < w <= 0x8000_0000,
            0 < h <= 0x8000_0000,
    ;
    let bytes = w * h * 4;
    if bytes <= usize::MAX as u128 {
        Some(bytes as usize)
    } else {
        None
    }
}

/// The failed outcome.
pub open spec fn failure() -> (Stage, Command) {
    (Stage::Failed, Command::Fail { hresult: FAILURE })
}

/// The next stage and command once `event` has been reported in `stage`.
pub open spec fn transition(stage: Stage, event: Event) -> (Stage, Command) {
    match (stage, event) {
        (Stage::AwaitLibraries { edge }, Event::LibrariesLoaded { loaded }) => if loaded {
            (
                Stage::AwaitThumbnail,
                Command::LoadThumbnail {
                    width: edge as i32,
                    height: edge as i32,
                    size: SIZE_DOWN,
                    kernel: KERNEL_NEAREST,
                    auto_rotate: 1,
                },
            )
        } else {
            failure()
        },
        (Stage::AwaitThumbnail, Event::ThumbnailLoaded { status, image }) => if status == 0 {
            (Stage::AwaitInterpretation { image }, Command::QueryInterpretation { image })
        } else {
            failure()
        },
        (
            Stage::AwaitInterpretation { image },
            Event::Interpretation { interpretation },
        ) => if interpretation == INTERPRETATION_SRGB {
            (Stage::AwaitBands { image }, Command::QueryBands { image })
        } else {
            (
                Stage::AwaitColourspace { source: image },
                Command::ConvertColourspace { image, space: INTERPRETATION_SRGB },
            )
        },
        (Stage::AwaitColourspace { source }, Event::ColourspaceConverted { status, image }) => {
            if status == 0 {
                (Stage::ReleaseBeforeBands { image }, Command::Release { image: source })
            } else {
                (Stage::ReleaseBeforeFailure, Command::Release { image: source })
            }
        },
        (Stage::ReleaseBeforeBands { image }, Event::Released) => (
            Stage::AwaitBands { image },
            Command::QueryBands { image },
        ),
        (Stage::AwaitBands { image }, Event::Bands { bands }) => if bands == RGBA_BANDS {
            (Stage::AwaitGeometry { image }, Command::QueryGeometry { image })
        } else {
            (Stage::AwaitAlpha { source: image }, Command::AddAlpha { image })
        },
        (Stage::AwaitAlpha { source }, Event::AlphaAdded { status, image }) => if status == 0 {
            (Stage::ReleaseBeforeGeometry { image }, Command::Release { image: source })
        } else {
            (Stage::ReleaseBeforeFailure, Command::Release { image: source })
        },
        (Stage::ReleaseBeforeGeometry { image }, Event::Released) => (
            Stage::AwaitGeometry { image },
            Command::QueryGeometry { image },
        ),
        (Stage::AwaitGeometry { image }, Event::Geometry { width, height }) => {
            if fits_in_memory(width, height) {
                (
                    Stage::AwaitBitmap { image },
                    Command::CreateBitmap {
                        image,
                        width,
                        height,
                        planes: BITMAP_PLANES,
                        bit_count: BITMAP_BITS,
                        byte_len: pixel_bytes(width, height) as usize,
                    },
                )
            } else {
                (Stage::ReleaseBeforeFailure, Command::Release { image })
            }
        },
        (Stage::AwaitBitmap { image }, Event::BitmapCreated { bitmap, valid }) => (
            Stage::ReleaseBeforeFinish { bitmap, valid },
            Command::Release { image },
        ),
        (Stage::ReleaseBeforeFinish { bitmap, valid }, Event::Released) => if valid {
            (Stage::Succeeded, Command::Finish { bitmap, alpha: ALPHA_ARGB })
        } else {
            failure()
        },
        (Stage::ReleaseBeforeFailure, Event::Released) => failure(),
        _ => failure(),
    }
}

/// The first stage and command of a thumbnail request for `path` at the
/// edge `cx`: an empty path fails at once, any other asks for the libraries.
pub fn begin(path: &str, cx: u32) -> (res: (Stage, Command))
    ensures
        res == start(path@.len() == 0, cx),
{
    if path.is_empty() {
        (Stage::Failed, Command::Fail { hresult: FAILURE })
    } else {
        let edge = if cx < MAX_THUMBNAIL_EDGE {
            cx
        } else {
            MAX_THUMBNAIL_EDGE
        };
        (Stage::AwaitLibraries { edge }, Command::LoadLibraries)
    }
}

/// Whether `stage` waits for `event`.
pub fn accepts(stage: &Stage, event: &Event) -> (res: bool)
    ensures
        res == expects(*stage, *event),
{
    match (stage, event) {
        (Stage::AwaitLibraries { .. }, Event::LibrariesLoaded { .. }) => true,
        (Stage::AwaitThumbnail, Event::ThumbnailLoaded { .. }) => true,
        (Stage::AwaitInterpretation { .. }, Event::Interpretation { .. }) => true,
        (Stage::AwaitColourspace { .. }, Event::ColourspaceConverted { .. }) => true,
        (Stage::AwaitBands { .. }, Event::Bands { .. }) => true,
        (Stage::AwaitAlpha { .. }, Event::AlphaAdded { .. }) => true,
        (Stage::AwaitGeometry { .. }, Event::Geometry { .. }) => true,
        (Stage::AwaitBitmap { .. }, Event::BitmapCreated { .. }) => true,
        (Stage::ReleaseBeforeBands { .. }, Event::Released) => true,
        (Stage::ReleaseBeforeGeometry { .. }, Event::Released) => true,
        (Stage::ReleaseBeforeFinish { .. }, Event::Released) => true,
        (Stage::ReleaseBeforeFailure, Event::Released) => true,
        _ => false,
    }
}

/// Whether the request has ended.
pub fn is_finished(stage: &Stage) -> (res: bool)
    ensures
        res == is_terminal(*stage),
{
    match stage {
        Stage::Succeeded => true,
        Stage::Failed => true,
        _ => false,
    }
}

/// Advances the request by the report `event`.
pub fn step(stage: Stage, event: Event) -> (res: (Stage, Command))
    requires
        expects(stage, event),
    ensures
        res == transition(stage, event),
{
    match (stage, event) {
        (Stage::AwaitLibraries { edge }, Event::LibrariesLoaded { loaded }) => {
            if loaded {
                let side = edge as i32;
                (
                    Stage::AwaitThumbnail,
                    Command::LoadThumbnail {
                        width: side,
                        height: side,
                        size: SIZE_DOWN,
                        kernel: KERNEL_NEAREST,
                        auto_rotate: 1,
                    },
                )
            } else {
                (Stage::Failed, Command::Fail { hresult: FAILURE })
            }
        },
        (Stage::AwaitThumbnail, Event::ThumbnailLoaded { status, image }) => {
            if status == 0 {
                (Stage::AwaitInterpretation { image }, Command::QueryInterpretation { image })
            } else {
                (Stage::Failed, Command::Fail { hresult: FAILURE })
            }
        },
        (Stage::AwaitInterpretation { image }, Event::Interpretation { interpretation }) => {
            if interpretation == INTERPRETATION_SRGB {
                (Stage::AwaitBands { image }, Command::QueryBands { image })
            } else {
                (
                    Stage::AwaitColourspace { source: image },
                    Command::ConvertColourspace { image, space: INTERPRETATION_SRGB },
                )
            }
        },
        (Stage::AwaitColourspace { source }, Event::ColourspaceConverted { status, image }) => {
            if status == 0 {
                (Stage::ReleaseBeforeBands { image }, Command::Release { image: source })
            } else {
                (Stage::ReleaseBeforeFailure, Command::Release { image: source })
            }
        },
        (Stage::ReleaseBeforeBands { image }, Event::Released) => {
            (Stage::AwaitBands { image }, Command::QueryBands { image })
        },
        (Stage::AwaitBands { image }, Event::Bands { bands }) => {
            if bands == RGBA_BANDS {
                (Stage::AwaitGeometry { image }, Command::QueryGeometry { image })
            } else {
                (Stage::AwaitAlpha { source: image }, Command::AddAlpha { image })
            }
        },
        (Stage::AwaitAlpha { source }, Event::AlphaAdded { status, image }) => {
            if status == 0 {
                (Stage::ReleaseBeforeGeometry { image }, Command::Release { image: source })
            } else {
                (Stage::ReleaseBeforeFailure, Command::Release { image: source })
            }
        },
        (Stage::ReleaseBeforeGeometry { image }, Event::Released) => {
            (Stage::AwaitGeometry { image }, Command::QueryGeometry { image })
        },
        (Stage::AwaitGeometry { image }, Event::Geometry { width, height }) => {
            match bitmap_byte_len(width, height) {
                Some(byte_len) => (
                    Stage::AwaitBitmap { image },
                    Command::CreateBitmap {
                        image,
                        width,
                        height,
                        planes: BITMAP_PLANES,
                        bit_count: BITMAP_BITS,
                        byte_len,
                    },
                ),
                None => (Stage::ReleaseBeforeFailure, Command::Release { image }),
            }
        },
        (Stage::AwaitBitmap { image }, Event::BitmapCreated { bitmap, valid }) => {
            (Stage::ReleaseBeforeFinish { bitmap, valid }, Command::Release { image })
        },
        (Stage::ReleaseBeforeFinish { bitmap, valid }, Event::Released) => {
            if valid {
                (Stage::Succeeded, Command::Finish { bitmap, alpha: ALPHA_ARGB })
            } else {
                (Stage::Failed, Command::Fail { hresult: FAILURE })
            }
        },
        _ => (Stage::Failed, Command::Fail { hresult: FAILURE }),
    }
}

} // verus!

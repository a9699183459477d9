use vstd::prelude::*;

verus! {

/// The folder that holds the libvips DLLs and their dependencies; it is added
/// to the DLL search path before they are loaded.
pub const VIPS_DIRECTORY: &'static str = "C:\\vips\\bin";

/// The libvips DLL.
pub const VIPS_LIBRARY: &'static str = "C:\\vips\\bin\\libvips-42.dll";

/// The GObject DLL that releases libvips images.
pub const GOBJECT_LIBRARY: &'static str = "C:\\vips\\bin\\libgobject-2.0-0.dll";

/// The program name handed to `vips_init`.
pub const VIPS_PROGRAM_NAME: &'static str = "VipsThumbExt";

/// The number of worker threads libvips is allowed.
pub const VIPS_CONCURRENCY: i32 = 4;

} // verus!

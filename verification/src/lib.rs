//! Decision logic of a Windows shell thumbnail provider that renders
//! thumbnails with libvips: the wide-string handling of file paths, the
//! libvips request that is made for a path, the step-by-step pipeline that
//! turns a loaded image into a 32-bit BGRA bitmap while releasing every image
//! it acquires, and the answer given to COM class-object requests.
pub mod hresult;
pub mod wide;
pub mod source_path;
pub mod pipeline;
pub mod pipeline_laws;
pub mod provider;
pub mod pixels;
pub mod class_object;
pub mod debug_log;
pub mod samples;
pub mod loader;

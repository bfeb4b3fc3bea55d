//! Shrinks a 3D scene asset: every embedded texture is decoded, scaled down to
//! fit a caller-chosen bounding box, re-encoded as lossy JPEG, and the whole
//! asset is reassembled with all binary payloads inlined as base64 data URIs.
//!
//! The transform is deliberately lossy and one-way on images (re-running it on
//! its own output degrades them further); buffer bytes are never recompressed,
//! so on buffers it is idempotent.

pub mod assemble;
pub mod codec;
pub mod format;
pub mod transcode;

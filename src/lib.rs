//! Downsamples a raster image to fit a 400 by 400 box and re-encodes it as
//! JPEG, PNG or WebP, reporting how many bytes were saved.
pub mod format;
pub mod naming;
pub mod codec;
pub mod compress;

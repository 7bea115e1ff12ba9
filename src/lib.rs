//! Builds an image that shows a user's profile picture laid over a fixed
//! template: the profile page is fetched, its preview-image URL extracted,
//! the picture fetched and decoded, shrunk to a thumbnail and composited.
pub mod bitmap;
pub mod compose;
pub mod decode;
pub mod error;
pub mod extract;
pub mod resolve;

//! Source verification engine: decides whether a lossless release is eligible
//! for transcoding, and explains every reason it is not.
pub mod rules;
pub mod source;
pub mod files;
pub mod verify;
pub mod report;

//! Moderation-and-publish core for a photo submission service: the action
//! codec, the work queue's consumer decisions, the media pipeline, the reaction
//! reconciler and the moderator dialogue.
pub mod text;
pub mod exif;
pub mod reconcile;
pub mod ids;
pub mod submission;
pub mod pipeline;
pub mod codec;
pub mod queue;
pub mod dialogue;
pub mod intake;
pub mod raster;

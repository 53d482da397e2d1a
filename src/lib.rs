//! Change detection, download and apply logic of a game-client patcher.
pub mod changeset;
pub mod digest;
pub mod failure;
pub mod manifest;
pub mod payload;
pub mod request;
pub mod session;

//! A gesture-armed backup agent, as a verified library.
//!
//! The pointer is watched for a deliberate trace along the screen's corners.
//! A first trace arms the agent; a second, anchored swipe confirms, cancels
//! or redirects a backup. The hosting program owns every device and file; the
//! library owns every decision and states each of them as a contract.
//!
//! The gesture side:
//! - `geometry`: points, corners, nearness and the direction of a move;
//! - `recognizer`: from a buffer of samples to an action;
//! - `session`: the buffer and the arming flag, sample by sample;
//! - `notify`: what is made known after an action, and how;
//! - `gesture_laws`: what holds of the recognizer on every buffer.
//!
//! The backup side:
//! - `backup`: the stages of a run and the fate of each entry of the tree;
//! - `paths`: destinations, names and extensions as text;
//! - `backup_log`: the record of a completed run;
//! - `backup_laws`: what holds of the engine on every entry and path.
//!
//! Around them:
//! - `display_window`: the configuration form and the popup's flag;
//! - `cpu_evaluation`: when the usage monitor writes to its log;
//! - `supervision`: what the supervising service decides;
//! - `text`: strings as sequences of characters.

pub mod geometry;
pub mod recognizer;
pub mod session;
pub mod notify;
pub mod gesture_laws;
pub mod backup;
pub mod paths;
pub mod backup_log;
pub mod backup_laws;
pub mod display_window;
pub mod cpu_evaluation;
pub mod supervision;
pub mod text;

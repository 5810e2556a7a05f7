//! Decision engine of a screen-driven time tracker: it follows what the user
//! works on and keeps one billing session of a time-tracking backend in step.

pub mod ai;
pub mod ai_matcher;
pub mod codec;
pub mod events;
pub mod freelo;
pub mod ocr;
pub mod poll_loop;
pub mod screenshot;
pub mod stabilization;
pub mod text;
pub mod text_matcher;
pub mod tracker;

use vstd::prelude::*;

pub mod text;
pub mod helpers;
pub mod devices;
pub mod audio;
pub mod config;
pub mod locale;
pub mod whisper;
pub mod transcriber;
pub mod hotkeys;
pub mod ai;
pub mod session;
pub mod vosk;

verus! {

} // verus!

//! Verified core of an fltk-embedded webview: the native calls that each
//! operation of a webview issues, with their arguments checked and encoded.
use vstd::prelude::*;

pub mod c_text;
pub mod event_pump;
pub mod laws;
pub mod size_hint;
pub mod webview;

pub use c_text::{binding_args, BindArgError, CText};
pub use event_pump::{pump_step, MAX_EVENTS_PER_TICK};
pub use size_hint::SizeHint;
pub use webview::{Call, CallView, RawHandle, Webview};

verus! {

} // verus!

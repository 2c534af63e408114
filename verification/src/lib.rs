//! The event-dispatch core of a graphical front end for a headless editor.
//!
//! The editor sends redraw calls, each a method name with untyped arguments. The
//! dispatcher coerces the arguments to the typed parameters of the method, has the
//! redraw sink perform the one operation that the method stands for, and folds the
//! repaints that the calls of a batch ask for into one instruction.

pub mod attrs;
pub mod batch;
pub mod coerce;
pub mod decode;
pub mod dispatch;
pub mod encode;
pub mod events;
pub mod font;
pub mod gui;
pub mod method;
pub mod repaint;
pub mod text;
pub mod value;

//! Gesture recognition and action dispatch for an on-screen keyboard.
//!
//! A pointer interaction on a key is classified by [`gesture::Recognizer`]
//! into taps, holds and directional swipes; [`dispatch::KeyHandler`] turns
//! those events into ordered keyboard, pointer and UI messages according to
//! the key's definition in the [`layout::Layout`]; [`keyboard::Keyboard`]
//! keeps the emulated layer, modifier and lock state and says what must be
//! forwarded to the virtual-keyboard protocol.

pub mod layout;
pub mod gesture;
pub mod pointer;
pub mod keyboard;
pub mod dispatch;
pub mod control;

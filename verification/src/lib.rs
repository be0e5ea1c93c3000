//! A system-wide keyboard macro and remapping engine: a native filter records
//! recent keystrokes into a bounded buffer, a fixed shortcut replays them, a
//! reentrancy guard keeps the replay's own synthetic events from being
//! recorded again, and an embedded scripting host lets user plugins observe
//! every keystroke and veto or forward it.
pub mod handler;
pub mod host;
pub mod hotkey;
pub mod jsoncfg;
pub mod jsrt;
pub mod keycode;
pub mod keys;
pub mod monitor;
pub mod plugin;
pub mod replay;
pub mod signals;
pub mod strutil;

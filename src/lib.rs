//! The event-interception core of a scriptable keyboard remapper: key tables, hotkey
//! notation, event normalisation, the tap's pass-through rule for injected events, the
//! monitoring log, the dynamic macro engine, plugin bookkeeping, and the scripting host
//! that applies control operations and dispatches events to the script entry points.

pub mod flags;
pub mod keycode;
pub mod hotkey;
pub mod event;
pub mod tap;
pub mod monitor;
pub mod dynamic_macro;
pub mod plugin;
pub mod config;
pub mod host;
pub mod js;

//! Night light scheduling for the COSMIC desktop: the rules behind a panel applet,
//! a settings window and a background daemon that share one screen, one config
//! store and one privileged helper.
//!
//! Nothing in here touches the disk, the display or another process. Whatever
//! has to be looked up comes in as a plain value, and whatever has to be done
//! goes out as one.
//!
//! - [`config`], [`deferral`] and [`tick`] decide what the screen should show;
//!   [`clock`] and [`solar`] say when.
//! - [`host`] and [`helper`] decide what runs with privilege; [`engine`] is the
//!   helper's own side of that.
//! - [`apply`], [`backoff`], [`record`] and [`reconcile`] keep several processes
//!   from applying the same thing twice, or asking for a password twice.
//! - [`applet`], [`settings_window`], [`window_view`], [`screen`], [`daemon`] and
//!   [`autostart`] are the run modes.
//! - [`laws`] says what all of these promise, over what goes in and what comes out.
//! - [`text`], [`scan`], [`time`] and [`brightness`] are what the rest is built
//!   from.

pub mod applet;
pub mod apply;
pub mod autostart;
pub mod backoff;
pub mod brightness;
pub mod clock;
pub mod config;
pub mod daemon;
pub mod deferral;
pub mod engine;
pub mod helper;
pub mod host;
pub mod laws;
pub mod reconcile;
pub mod record;
pub mod scan;
pub mod screen;
pub mod settings_window;
pub mod solar;
pub mod text;
pub mod tick;
pub mod time;
pub mod window_view;

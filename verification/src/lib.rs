//! Supervisor for the tabs of a shared browser that renders pages on request.
//!
//! A request opens a tab, renders a page in it as a document or an image and
//! closes the tab again; [`session::RenderSession`] decides each step of that
//! and guarantees the close. [`counter::ActivityCounter`] records how long no
//! request has arrived, and [`watchdog::Watchdog`] has every open tab closed
//! once that has lasted a full idle window. The library decides and keeps the
//! state; sleeping, locking and talking to the browser are left to a driver.

pub mod counter;
pub mod handlers;
pub mod params;
pub mod response;
pub mod session;
pub mod watchdog;

pub use crate::handlers::{img, pdf};
pub use crate::params::ImgParams;

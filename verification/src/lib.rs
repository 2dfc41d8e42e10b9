//! A minimal desktop application shell, modelled as a verified state machine.
//!
//! The shell opens one native window, binds a GPU presentation surface to it,
//! and redraws a single immediate-mode panel on demand.  The windowing and GPU
//! layers are outside collaborators; everything the shell *decides* — how a
//! reported window size becomes a surface configuration, how each delivered
//! event moves the driver between its states, and what the panel declares each
//! frame — lives here, with contracts.

pub mod driver;
pub mod surface;
pub mod ui;

pub use driver::Action;
pub use driver::Driver;
pub use driver::DriverState;
pub use driver::LoopEvent;
pub use surface::SurfaceConfig;

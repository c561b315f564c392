//! Display-output enumeration and video-mode discovery for a kernel
//! mode-setting (KMS) backend.
//!
//! The library models what the display-control device reports: connectors,
//! their connection state, and the video modes each connected output
//! supports. It turns raw connector snapshots into monitor and video-mode
//! descriptors with stable identity and ordering. Opening the device node
//! and issuing the kernel queries themselves is left to the surrounding
//! (unverified) shell, which hands the raw snapshots in as plain values.

pub mod connector;
pub mod enumerate;
pub mod geometry;
pub mod ids;
pub mod monitor;

pub use connector::ConnectionState;
pub use connector::ConnectorInfo;
pub use connector::ConnectorView;
pub use connector::ModeInfo;
pub use connector::QueryError;
pub use enumerate::complete_snapshot;
pub use enumerate::connected_outputs;
pub use enumerate::enumerate_outputs;
pub use enumerate::sort_by_identifier;
pub use geometry::PhysicalPosition;
pub use geometry::PhysicalSize;
pub use ids::DeviceId;
pub use ids::WindowId;
pub use monitor::MonitorHandle;
pub use monitor::VideoMode;
pub use monitor::VideoModeView;

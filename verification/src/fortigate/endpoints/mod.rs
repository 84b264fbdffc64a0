//! The FortiOS 8.0 monitor API endpoints in use, relative to
//! `/api/v2/monitor`.

pub mod firewall;
pub mod router;
pub mod sdwan;
pub mod system;
pub mod vpn;

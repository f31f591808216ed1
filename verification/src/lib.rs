//! Readloop desktop shell: configuration, service plans, remote-access and
//! device-transfer decisions for the tray app that supervises the delivery
//! (news2reader) and archive (crosspoint-sync) services.

pub mod text;
pub mod http;
pub mod paths;
pub mod config;
pub mod services;
pub mod tailscale;
pub mod webdav;
pub mod net;
pub mod autolink;
pub mod supervisor;
pub mod popover;
pub mod laws;

//! Verified core of a WARP client: device registration, key enrolment, the
//! set-up of the tunnel's TLS configuration and of the TUN interface.

pub mod account;
pub mod base64;
pub mod certificate;
pub mod clock;
pub mod failure;
pub mod headers;
pub mod identity;
pub mod keypair;
pub mod keys;
pub mod linux_link;
mod outside;
pub mod register;
pub mod report;
pub mod status;
pub mod text;
pub mod tls;
pub mod tun_device;
pub mod windows_link;

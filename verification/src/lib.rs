//! The fixed header of a DNS message, and what a receiver does with a
//! datagram before it reads one.
//!
//! A header is six 16-bit words. The first is the message identifier, the
//! second packs the control flags; [`dns_header::DnsHeader`] reads both.
//! [`datagram`] cuts a received datagram out of its buffer and renders it as
//! a hex dump.

pub mod datagram;
pub mod dns_header;

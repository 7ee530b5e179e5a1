//! Discovery of live hosts on an IPv4 segment by ARP, and TCP port probing.
//!
//! The library holds the logic: the Ethernet/ARP frame codec, subnet
//! enumeration, the reply listener's decisions, the port-probe scheduler,
//! interface resolution and input validation. Sockets, raw channels,
//! threads and clocks belong to the program that drives it.
pub mod frame;
pub mod subnet;
pub mod input;
pub mod interfaces;
pub mod listener;
pub mod ports;

//! Keeps an Amazon Route 53 DNS record pointed at the network's current
//! external IP address. This crate holds the decisions: which names and
//! records are looked up and written, when a record is updated, how the
//! command line is interpreted. The program around it performs the network
//! calls.
pub mod address;
pub mod alert;
pub mod check;
pub mod hostname;
pub mod options;
pub mod route53;
pub mod snap;
pub mod text;

//! Client library for the Alexandria library-catalog service.
//!
//! A caller builds a [`Server`] handle from a base address, may promote it
//! once through [`Server::authenticate`], and reaches every endpoint
//! through a single request executor.  Privileged operations (checkout,
//! checkin, add, update, delete, register) exist only on an authenticated
//! handle.
//!
//! The library itself performs no I/O: each endpoint method describes the
//! request to make as a [`RequestDescriptor`], and classifies and decodes
//! the transport's reply, handed in as a [`WireOutcome`].  A thin shell
//! around the library carries the descriptors over the network.

pub mod address;
pub mod catalog;
pub mod client;
pub mod digits;
pub mod error;
pub mod executor;
pub mod text;
pub mod wire;

pub use catalog::Action;
pub use catalog::ActionRequest;
pub use catalog::Book;
pub use client::Auth;
pub use client::Proto;
pub use client::Server;
pub use client::Unauth;
pub use error::APIResult;
pub use error::Error;
pub use executor::BodyRead;
pub use executor::Method;
pub use executor::RequestDescriptor;
pub use executor::WireOutcome;
pub use wire::Decoded;
pub use wire::Wire;

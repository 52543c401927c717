//! Native side of a greeting bridge between a managed host virtual machine
//! and compiled code.
//!
//! The host calls in with one managed string; the bridge decodes it, locates
//! the already-running host VM so it can log a diagnostic line back through
//! it, and answers with a greeting built from the decoded text.  All the
//! decisions — how undecodable input degrades, how each way the VM locator
//! can fail is classified and absorbed, and exactly what text is answered and
//! logged — live here, verified.  The thin unsafe shell that performs the
//! foreign calls lives outside the library and only hands plain values in
//! and out.

pub mod bridge;
pub mod locator;

pub use bridge::greeting_for;
pub use bridge::handle_call;
pub use bridge::recipient_of;
pub use bridge::rust_greeting;
pub use bridge::Response;
pub use locator::classify_enumeration;
pub use locator::LocateError;
pub use locator::ENUM_STATUS_OK;

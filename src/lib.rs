//! A fixed-route HTTP responder: request parsing, route dispatch and
//! response framing over raw bytes. The caller reads at most
//! [`response::CAPACITY`] bytes from a connection, hands them to
//! [`response::handle_request`], and carries out the returned action.
pub mod laws;
pub mod request;
pub mod response;
pub mod route;
pub mod text;

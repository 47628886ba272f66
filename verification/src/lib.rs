//! A small HTTP/1.1 message engine: wire-format parsing and serialization for
//! requests and responses, together with the decision logic of a
//! keep-alive connection handler.

pub mod error;
pub mod framing;
pub mod header_map;
pub mod headers;
pub mod request;
pub mod response;
pub mod server;
pub mod std_bridge;
pub mod text;

pub use error::Error;
pub use request::Method;
pub use request::Request;
pub use response::Response;
pub use response::Status;
pub use server::request::RequestParseError;
pub use server::HandleClientError;
pub use server::ReadError;
pub use server::Server;

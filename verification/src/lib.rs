//! Name resolution requests and the socket addresses they resolve to.

pub mod addr;
pub mod bridge;
pub mod error;
pub mod laws;
pub mod port;
pub mod request;
pub mod sequence;
pub mod text;

pub use addr::{IpAddress, SocketAddress};
pub use bridge::{Attachment, Scheduler};
pub use error::{ParseError, ResolveError};
pub use request::HickoryToSocketAddrs;
pub use sequence::HickorySocketAddrs;

//! Registration, configuration and request/reply types for Matrix
//! application services.
pub mod builder;
pub mod config;
pub mod errors;
pub mod keys;
pub mod registration;
pub mod requests;
pub mod wire;

pub use errors::Error;
pub use config::{AppServiceConfig, BindConfig, ConfigNamespace, IpAddress, SocketAddress};
pub use builder::{AppServiceRegistrationBuilder, Unset};
pub use registration::{AppServiceRegistration, Namespace, NamespaceKind, Namespaces};
pub use requests::{Request, RequestMessage, RequestReply};

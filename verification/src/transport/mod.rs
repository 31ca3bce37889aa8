//! Transport addressing: the endpoint wire type, socket path derivation, the BTSP
//! environment rules and the per-platform transport choice.

pub mod endpoint;
pub mod paths;
pub mod platform;

pub use endpoint::{EndpointView, TransportEndpoint};
pub use paths::{
    BtspConfigError, PlatformKind, SocketEnv, TransportHint, btsp_env_guard,
    family_scoped_socket_path, family_scoped_tarpc_socket_path, is_biomeos_insecure,
    preferred_transport_with_platform, read_family_id, socket_dir, socket_path_for_primal,
    unix_socket_dir_fallback, unix_transport_from_socket_path,
};
pub use platform::PlatformAccess;

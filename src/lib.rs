//! Bearer-credential core of a small web backend: signed access and refresh
//! tokens, the request gates built on them, and the one-time activation and
//! password-reset flows over an account store.

pub mod config;
pub mod error;
pub mod flows;
pub mod jwt;
pub mod middleware;
pub mod models;
pub mod text;
pub mod users;

pub use config::Config;
pub use error::AuthError;
pub use flows::{ActivationFlow, PasswordResetFlow};
pub use jwt::{Claims, JwtService, TokenType};
pub use middleware::{admin_middleware, auth_middleware, optional_auth_middleware};
pub use models::User;
pub use users::UserRepository;

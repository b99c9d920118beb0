pub mod jwt;
pub mod password;
pub mod validation;

pub use jwt::{Claims, JwtError, JwtService};
pub use password::{PasswordError, PasswordService};
pub use validation::ProtoValidator;

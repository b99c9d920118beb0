pub mod credential;
pub mod request;
pub mod response;

pub use credential::{CredentialRecord, CredentialView, Identity, IdentityView};
pub use request::{AuthPayload, LogoutPayload, SignupPayload, TokenRequest};
pub use response::{ApiResponse, ErrorBody};

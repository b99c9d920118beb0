pub mod admin;
pub mod auth;
pub mod token;
pub mod user;

pub use admin::{
    GetUsersQuery, RevokeSessionsRequest, SecurityLogsQuery, UnlockAccountRequest,
    UpdateUserStatusRequest, UserAdminView, UserListResponse,
};
pub use auth::{logout, open_session, signin, signup, Session, SigninOutcome};
pub use token::{token_info, token_refresh, token_verify, RefreshedToken, TokenInfo};
pub use user::UserUpdateRequest;

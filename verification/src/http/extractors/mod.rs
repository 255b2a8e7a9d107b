//! The bodies and header values that handlers take from a request.
pub mod byte_body;
pub mod client_info;
pub mod de_json_body;
pub mod json_body;
pub mod jwt_auth_token;
pub mod string_body;

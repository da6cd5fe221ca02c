//! Packets of the login state.

pub mod login_compression_s2c;
pub mod login_disconnect_s2c;
pub mod login_hello_c2s;
pub mod login_hello_s2c;
pub mod login_key_c2s;
pub mod login_query_request_s2c;
pub mod login_query_response_c2s;
pub mod login_success_s2c;

pub use login_compression_s2c::LoginCompressionS2c;
pub use login_disconnect_s2c::LoginDisconnectS2c;
pub use login_hello_c2s::LoginHelloC2s;
pub use login_hello_s2c::LoginHelloS2c;
pub use login_key_c2s::LoginKeyC2s;
pub use login_query_request_s2c::LoginQueryRequestS2c;
pub use login_query_response_c2s::LoginQueryResponseC2s;
pub use login_success_s2c::LoginSuccessS2c;

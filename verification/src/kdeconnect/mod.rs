pub mod framing;
pub mod packet;
pub mod pairing;
pub mod server;
pub mod tls;
pub mod tls_server;

pub mod connection_pool;
pub mod mock_redis;
pub mod keyed_list;
pub mod json;
pub mod user;
pub mod user_functions;
pub mod routes;
pub mod tls;

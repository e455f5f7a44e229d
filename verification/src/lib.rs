pub mod auth;
pub mod middleware;
pub mod models;
pub mod password;
pub mod routes;
pub mod store;

pub mod auth;
pub mod catchers;
pub mod diesel;
pub mod entity;
pub mod error;
pub mod repository;
pub mod routes;
pub mod service;
pub mod structs;

//! A verified saga coordinator: the library decides which calls to the
//! marketplace's microservices a request needs, in which order, what each of
//! them carries, and what is undone when one of them fails.

pub mod config;
pub mod controller;
pub mod errors;
pub mod http;
pub mod ids;
pub mod microservice;
pub mod models;
pub mod routes;
pub mod services;
pub mod text;
pub mod validation;

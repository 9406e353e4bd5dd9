pub mod domain;
pub mod draws;
pub mod routes;
pub mod startup;
mod text;

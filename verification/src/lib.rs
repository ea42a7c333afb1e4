pub mod dates;
pub mod encode;
pub mod endpoints;
pub mod errors;
pub mod helpers;
pub mod json;
pub mod models;
pub mod persist;
pub mod urls;

//! Search, metadata and path logic of an image-library web server, verified with Verus.

pub mod case;
pub mod database;
pub mod filesystem;
pub mod io_error;
pub mod metrics;
pub mod models;
pub mod str_map;
pub mod text;
pub mod url;

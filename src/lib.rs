//! Hardiness-zone lookup by ZIP code: the decisions of the request path,
//! the temperature conversion and the rendered pages.
pub mod handler;
pub mod page;
pub mod paths;
pub mod temperature;

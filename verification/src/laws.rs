//! What holds of the library as a whole, said once more from the outside: how results relate to
//! what went in, how two calls relate to each other, and what is left of a value when it is
//! taken apart again.
pub mod building;
pub mod caching;
pub mod command_line;
pub mod configuring;
pub mod errors;
pub mod fetching;
pub mod finding;
pub mod loading;
pub mod making;
pub mod networking;
pub mod resolving;
pub mod running;
pub mod templates;
pub mod texts;

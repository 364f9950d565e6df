//! A dashboard of Docker applications grouped in categories, with a
//! configured set of users who sign in with a JSON Web Token.
//!
//! The library holds the board's model (configuration, users, categories,
//! applications built from container labels) and the decisions of its HTTP
//! layer (who is signed in, what a login answers, what the chat and event
//! streams send).  Every function here carries a contract checked by Verus.

pub mod bindings;
pub mod clock;
pub mod events;
pub mod http;
pub mod lookup;
pub mod models;

pub use models::{
    get_default_apps, get_default_docker_uri, get_default_expires, get_default_log_level,
    get_default_maxage, get_default_port, App, Category, Configuration, ContainerInfo, CustomError,
    LabelFilter, TokenClaims, User, UserSchema,
};

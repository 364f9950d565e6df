pub mod app;
pub mod category;
pub mod config;
pub mod error;
pub mod user;

pub use app::{App, ContainerInfo};
pub use category::{get_default_apps, Category, LabelFilter};
pub use config::{
    get_default_docker_uri, get_default_expires, get_default_log_level, get_default_maxage,
    get_default_port, Configuration,
};
pub use error::CustomError;
pub use user::{TokenClaims, User, UserSchema};

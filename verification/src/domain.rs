//! Domain entities: users, sessions and the session store.

pub mod app_instance;
pub mod csv;
pub mod history;
pub mod model;
pub mod session;
pub mod user;

pub use app_instance::{AppId, AppInstance, AppModule};
pub use session::{Session, SessionId, SessionStore};
pub use user::{User, UserId};

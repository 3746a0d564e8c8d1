//! The state that all requests share.

use vstd::prelude::*;
use vstd::string::StringExecFns;
use crate::apps::collection::{collection_app, CollectionApp};
use crate::config::Config;
use crate::domain::app_instance::AppModule;
use crate::domain::session::SessionStore;
use crate::services::auth::AuthService;

verus! {

/// The application: its name and version, its settings, and its services.
pub struct App {
    pub name: String,
    pub version: String,
    pub config: Config,
    pub auth: AuthService,
    pub collection: CollectionApp,
}

impl App {
    /// The application with the settings `cfg` and the sessions `sessions`.
    pub fn new(cfg: Config, sessions: SessionStore) -> (app: Self)
        ensures
            app.name@ == "LAPP"@,
            app.version@ == "0.1.0"@,
            app.config == cfg,
            app.auth.store() == sessions,
            app.auth.provider().base() == cfg.sp_url@,
            app.auth.provider().key() == cfg.sp_anon@,
            app.collection.instance() == collection_app(),
    {
        let auth = AuthService::new(&cfg, sessions);
        let collection = CollectionApp::new();
        Self {
            name: String::from_str("LAPP"),
            version: String::from_str("0.1.0"),
            config: cfg,
            auth,
            collection,
        }
    }
}

} // verus!

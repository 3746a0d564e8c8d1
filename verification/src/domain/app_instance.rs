//! What the platform knows of each of its apps.

use vstd::prelude::*;

verus! {

/// The identifier of an app.
pub type AppId = &'static str;

/// The description of an app.
#[derive(Debug, Clone, Copy, PartialEq, Eq)]
pub struct AppInstance {
    pub id: AppId,
    pub name: &'static str,
    pub description: &'static str,
}

impl AppInstance {
    /// The description made of the three given texts.
    pub fn new(id: AppId, name: &'static str, description: &'static str) -> (instance: Self)
        ensures
            instance == (AppInstance { id, name, description }),
    {
        Self { id, name, description }
    }
}

/// What each app implements.
pub trait AppModule: Send + Sync {
    /// The description that the app holds.
    spec fn instance(&self) -> AppInstance;

    /// The description of the app.
    fn info(&self) -> (info: &AppInstance)
        ensures
            *info == self.instance(),
    ;

    /// The identifier of the app.
    fn id(&self) -> (id: AppId)
        ensures
            id == self.instance().id,
    {
        self.info().id
    }

    /// The name of the app.
    fn name(&self) -> (name: &'static str)
        ensures
            name == self.instance().name,
    {
        self.info().name
    }
}

} // verus!

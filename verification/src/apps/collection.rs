//! The app that manages collections.

use vstd::prelude::*;
use crate::domain::app_instance::{AppInstance, AppModule};

verus! {

/// The description of the collection app.
pub open spec fn collection_app() -> AppInstance {
    AppInstance {
        id: "collection",
        name: "Collection",
        description: "Create and manage collections of items, bookmarks, and resources",
    }
}

/// The app that manages the collections of a user.
#[derive(Debug)]
pub struct CollectionApp {
    info: AppInstance,
}

impl Clone for CollectionApp {
    fn clone(&self) -> (copy: Self)
        ensures
            copy == *self,
    {
        CollectionApp { info: self.info }
    }
}

impl CollectionApp {
    /// The collection app, with its description.
    pub fn new() -> (app: Self)
        ensures
            app.instance() == collection_app(),
    {
        Self {
            info: AppInstance::new(
                "collection",
                "Collection",
                "Create and manage collections of items, bookmarks, and resources",
            ),
        }
    }
}

impl Default for CollectionApp {
    fn default() -> (app: Self)
        ensures
            app.instance() == collection_app(),
    {
        Self::new()
    }
}

impl AppModule for CollectionApp {
    closed spec fn instance(&self) -> AppInstance {
        self.info
    }

    fn info(&self) -> (info: &AppInstance) {
        &self.info
    }
}

} // verus!

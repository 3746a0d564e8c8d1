//! What the application needs of outside services.

pub mod supabase;

pub use supabase::SupabaseClient;

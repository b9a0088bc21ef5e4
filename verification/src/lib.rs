pub mod catalog_publication;
pub mod hashing;
pub mod json;
pub mod text;
pub mod filesystem_path;
pub mod filesystem_index;
pub mod announcement;
pub mod ai;
pub mod ai_usage;
pub mod cache_invalidation;
pub mod catalog_query;
pub mod catalog_storage_scope;
pub mod auth;
pub mod api_key;
pub mod asset;
pub mod dashboard;
pub mod demo_catalog;
pub mod device;
pub mod identity;
pub mod discover;
pub mod display_preferences;
pub mod catalog_visibility;
pub mod hybrid_candidate;
pub mod full_scan;
pub mod direct_metadata;
pub mod asset_storage;

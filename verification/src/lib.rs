//! The decisions behind Glass's runtime dialog, embedded browser and service hub.

pub mod appearance;
pub mod asc_apps;
pub mod asc_auth;
pub mod asc_builds;
pub mod asc_laws;
pub mod asc_page;
pub mod asc_provider;
pub mod asc_sections;
pub mod browser_laws;
pub mod cef_instance;
pub mod cef_runtime;
pub mod cef_settings;
pub mod file_path;
pub mod form_laws;
pub mod hub;
pub mod input;
pub mod listing_laws;
pub mod load_state;
pub mod lookup;
pub mod page_laws;
pub mod path_laws;
pub mod provider_laws;
pub mod render_handler;
pub mod runtime_actions;
pub mod runtime_laws;
pub mod service_auth;
pub mod service_workflow;
pub mod services_laws;
pub mod services_page;
pub mod services_provider;
pub mod services_surface;
pub mod step_laws;
pub mod surface_laws;
pub mod text;
pub mod text_laws;

//! Decides how the Elixir language server is launched for an editor plugin:
//! from the user's `serverPath` / `serverArgs` settings, or from the
//! launcher script shipped inside the plugin for supported platforms.
pub mod dispatch;
pub mod locator;
pub mod platform;
pub mod resolver;
pub mod settings;

pub use dispatch::{is_initialize, INITIALIZE_METHOD};
pub use platform::{default_filename, is_supported_architecture, is_supported_os};
pub use resolver::{
    initialize, DocumentFilter, Environment, LaunchDirective, Resolution, ResolveError,
    SkipReason, LANGUAGE,
};
pub use settings::{explicit_server_path, server_args, LspSettings};

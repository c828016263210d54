//! Locates a package installed by vcpkg: the install root, the triplet, and
//! the library, binary and header directories beneath them.
//!
//! The resolution is a pure function of a configuration, a snapshot of the
//! environment and the list of directories known to exist, so every decision
//! it makes is stated and proved here; reading the process environment,
//! probing the disk and printing the build directives are left to the caller.

mod config;
mod error;
mod laws;
mod path;
mod resolve;

pub use config::{opt_view, Config, ConfigModel};
pub use error::{kind_message, strings_view, Error, ErrorKind, ErrorModel};
pub use laws::{
    law_explicit_tree_root_wins, law_layout_paths, law_nothing_found_fails, law_root_priority,
    law_triplet_priority, selects,
};
pub use path::{is_absolute, join_path, separator, spec_join};
pub use resolve::{
    first_existing, first_listed, is_listed, join_opt, layout, option_seq, root_candidates,
    spec_directives, spec_layout, spec_locate, spec_root, spec_triplet, triplet_sources, Environment,
    EnvironmentModel, Location, LocationModel,
};

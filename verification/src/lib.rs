//! Resolves user-scoped base directories following the XDG Base Directory
//! convention.
//!
//! The crate performs no filesystem access: it is a pure mapping from an
//! environment snapshot to either a validated set of directories or a
//! descriptive error. Environment access is an injected capability (the
//! [`Context`] trait), so resolution can be exercised deterministically
//! against an in-memory table ([`FixedContext`]) as well as against an
//! adapter over the process environment.
//!
//! The entry points are [`BaseDir::global`], which resolves the raw base
//! directories, and [`BaseDir::new`], which additionally appends an
//! application-name segment to the per-application fields.

mod base_dir;
mod context;
mod error;

pub use base_dir::is_absolute;
pub use base_dir::lemma_for_app_preserves_absolute;
pub use base_dir::lemma_home_relative_fails;
pub use base_dir::lemma_home_unset_fails;
pub use base_dir::lemma_resolve_absolute;
pub use base_dir::lemma_resolve_deterministic;
pub use base_dir::spec_all_absolute;
pub use base_dir::spec_checked_path;
pub use base_dir::spec_field;
pub use base_dir::spec_for_app;
pub use base_dir::spec_home;
pub use base_dir::spec_resolve;
pub use base_dir::spec_runtime;
pub use base_dir::spec_with_segment;
pub use base_dir::BaseDir;
pub use base_dir::BaseDirView;
pub use context::Context;
pub use context::FixedContext;
pub use error::spec_render;
pub use error::Error;
pub use error::ErrorView;

use vstd::prelude::*;

use vstd::std_specs::cmp::PartialEqSpec;

use crate::context::Context;
use crate::error::Error;
use crate::error::ErrorView;

verus! {

/// A path is absolute when it is anchored at the filesystem root.
pub open spec fn is_absolute(path: Seq<char>) -> bool {
    path.len() > 0 && path[0] == '/'
}

/// What validating the path held by the variable named `key` yields: the
/// path itself when it is absolute, otherwise the error naming the variable
/// and the offending path.
pub open spec fn spec_checked_path(key: Seq<char>, path: Seq<char>) -> Result<
    Seq<char>,
    ErrorView,
> {
    if is_absolute(path) {
        Ok(path)
    } else {
        Err(ErrorView::NotAbsolutePath { key, path })
    }
}

/// What resolving the home directory from `context` yields: the value of
/// `HOME` when it is set, non-empty and absolute; `HomeNotSet` when it is
/// unset or empty; `NotAbsolutePath` when it is relative.
pub open spec fn spec_home<C: Context>(context: &C) -> Result<Seq<char>, ErrorView> {
    match context.env("HOME"@) {
        Some(path) => if path.len() == 0 {
            Err(ErrorView::HomeNotSet)
        } else {
            spec_checked_path("HOME"@, path)
        },
        None => Err(ErrorView::HomeNotSet),
    }
}

/// What resolving an override-capable directory from `context` yields: the
/// value of the variable named `key` when it is set, non-empty and
/// absolute; `fallback` when it is unset or empty; `NotAbsolutePath` when
/// it is set, non-empty and relative.
pub open spec fn spec_field<C: Context>(
    context: &C,
    key: Seq<char>,
    fallback: Seq<char>,
) -> Result<Seq<char>, ErrorView> {
    match context.env(key) {
        Some(path) => if path.len() == 0 {
            Ok(fallback)
        } else {
            spec_checked_path(key, path)
        },
        None => Ok(fallback),
    }
}

/// What resolving the runtime directory from `context` yields: there is no
/// fallback, so an unset or empty `XDG_RUNTIME_DIR` resolves to `None`
/// rather than to an error.
pub open spec fn spec_runtime<C: Context>(context: &C) -> Result<Option<Seq<char>>, ErrorView> {
    match context.env("XDG_RUNTIME_DIR"@) {
        Some(path) => if path.len() == 0 {
            Ok(None)
        } else if is_absolute(path) {
            Ok(Some(path))
        } else {
            Err(ErrorView::NotAbsolutePath { key: "XDG_RUNTIME_DIR"@, path })
        },
        None => Ok(None),
    }
}

/// The mathematical value of a [`BaseDir`]: each directory as a character
/// sequence.
#[verifier::ext_equal]
pub struct BaseDirView {
    pub home: Seq<char>,
    pub config: Seq<char>,
    pub data: Seq<char>,
    pub state: Seq<char>,
    pub cache: Seq<char>,
    pub runtime: Option<Seq<char>>,
    pub bin: Seq<char>,
}

/// The full resolution of the directory set from `context`.
///
/// Validation happens in a fixed order — `HOME`, then `XDG_CONFIG_HOME`,
/// `XDG_DATA_HOME`, `XDG_STATE_HOME`, `XDG_CACHE_HOME`, `XDG_RUNTIME_DIR` —
/// and resolution stops at the first failure in that order, so which error
/// surfaces when several variables are invalid is part of the contract.
pub open spec fn spec_resolve<C: Context>(context: &C) -> Result<BaseDirView, ErrorView> {
    match spec_home(context) {
        Err(e) => Err(e),
        Ok(home) => match spec_field(context, "XDG_CONFIG_HOME"@, home + "/.config"@) {
            Err(e) => Err(e),
            Ok(config) => match spec_field(context, "XDG_DATA_HOME"@, home + "/.local/share"@) {
                Err(e) => Err(e),
                Ok(data) => match spec_field(context, "XDG_STATE_HOME"@, home + "/.local/state"@) {
                    Err(e) => Err(e),
                    Ok(state) => match spec_field(context, "XDG_CACHE_HOME"@, home + "/.cache"@) {
                        Err(e) => Err(e),
                        Ok(cache) => match spec_runtime(context) {
                            Err(e) => Err(e),
                            Ok(runtime) => Ok(BaseDirView {
                                home,
                                config,
                                data,
                                state,
                                cache,
                                runtime,
                                bin: home + "/.local/bin"@,
                            }),
                        },
                    },
                },
            },
        },
    }
}

/// Appending one path segment: a separator followed by the segment.
pub open spec fn spec_with_segment(base: Seq<char>, segment: Seq<char>) -> Seq<char> {
    base + "/"@ + segment
}

/// The per-application variant of a resolved directory set: the application
/// name is appended as a final segment to `config`, `data`, `state`,
/// `cache` and, when present, `runtime`, while `home` and `bin` stay
/// unchanged.
pub open spec fn spec_for_app(dirs: BaseDirView, app: Seq<char>) -> BaseDirView {
    BaseDirView {
        home: dirs.home,
        config: spec_with_segment(dirs.config, app),
        data: spec_with_segment(dirs.data, app),
        state: spec_with_segment(dirs.state, app),
        cache: spec_with_segment(dirs.cache, app),
        runtime: match dirs.runtime {
            Some(path) => Some(spec_with_segment(path, app)),
            None => None,
        },
        bin: dirs.bin,
    }
}

/// A resolved set of base directories, either global or specific to one
/// application.
///
/// Every populated field holds an absolute path; `runtime` is either
/// absent or absolute. The value is built once per resolution and never
/// mutated afterwards.
#[derive(Debug, Clone)]
pub struct BaseDir {
    /// The user's home directory (`HOME`).
    pub home: String,
    /// The user-specific configuration directory.
    /// Default: `$HOME/.config` (or `XDG_CONFIG_HOME`).
    pub config: String,
    /// The user-specific data directory.
    /// Default: `$HOME/.local/share` (or `XDG_DATA_HOME`).
    pub data: String,
    /// The user-specific state directory.
    /// Default: `$HOME/.local/state` (or `XDG_STATE_HOME`).
    pub state: String,
    /// The user-specific cache directory.
    /// Default: `$HOME/.cache` (or `XDG_CACHE_HOME`).
    pub cache: String,
    /// The user-specific runtime directory (`XDG_RUNTIME_DIR`); absent when
    /// the variable is unset or empty, since it has no default.
    pub runtime: Option<String>,
    /// The directory for user-specific executables, always
    /// `$HOME/.local/bin`, never read from the environment.
    pub bin: String,
}

impl View for BaseDir {
    type V = BaseDirView;

    open spec fn view(&self) -> BaseDirView {
        BaseDirView {
            home: self.home@,
            config: self.config@,
            data: self.data@,
            state: self.state@,
            cache: self.cache@,
            runtime: match self.runtime {
                Some(path) => Some(path@),
                None => None,
            },
            bin: self.bin@,
        }
    }
}

impl PartialEq for BaseDir {
    fn eq(&self, other: &BaseDir) -> (r: bool) {
        let runtime_equal = match (&self.runtime, &other.runtime) {
            (Some(path), Some(other_path)) => *path == *other_path,
            (None, None) => true,
            _ => false,
        };
        runtime_equal && self.home == other.home && self.config == other.config
            && self.data == other.data && self.state == other.state && self.cache == other.cache
            && self.bin == other.bin
    }
}

impl vstd::std_specs::cmp::PartialEqSpecImpl for BaseDir {
    open spec fn obeys_eq_spec() -> bool {
        true
    }

    open spec fn eq_spec(&self, other: &BaseDir) -> bool {
        self@ == other@
    }
}

/// Appends `segment` to the path `base`, separated by one separator.
fn push_segment(base: String, segment: &str) -> (r: String)
    ensures
        r@ == spec_with_segment(base@, segment@),
{
    base.concat("/").concat(segment)
}

impl BaseDir {
    /// Validates that `path`, held by the variable named `key`, is
    /// absolute; a relative path is rejected with `NotAbsolutePath`.
    pub fn ensure_path(key: &str, path: String) -> (r: Result<String, Error>)
        ensures
            match r {
                Ok(p) => spec_checked_path(key@, path@) == Ok::<Seq<char>, ErrorView>(p@),
                Err(e) => spec_checked_path(key@, path@) == Err::<Seq<char>, ErrorView>(e@),
            },
    {
        let slice: &str = path.as_str();
        if slice.unicode_len() > 0 && slice.get_char(0) == '/' {
            Ok(path)
        } else {
            Err(Error::NotAbsolutePath(key.to_owned(), path))
        }
    }

    /// Resolves the home directory: the value of `HOME`, which must be set,
    /// non-empty and absolute.
    pub fn get_home<C: Context>(context: &C) -> (r: Result<String, Error>)
        ensures
            match r {
                Ok(p) => spec_home(context) == Ok::<Seq<char>, ErrorView>(p@),
                Err(e) => spec_home(context) == Err::<Seq<char>, ErrorView>(e@),
            },
    {
        match context.get("HOME") {
            None => Err(Error::HomeNotSet),
            Some(path) => {
                if path.as_str().is_empty() {
                    Err(Error::HomeNotSet)
                } else {
                    Self::ensure_path("HOME", path)
                }
            },
        }
    }

    /// Resolves one override-capable directory: the value of the variable
    /// named `key` when set and non-empty (which must then be absolute),
    /// and `fallback` otherwise.
    pub fn get_path<C: Context>(context: &C, key: &str, fallback: String) -> (r: Result<
        String,
        Error,
    >)
        ensures
            match r {
                Ok(p) => spec_field(context, key@, fallback@) == Ok::<Seq<char>, ErrorView>(p@),
                Err(e) => spec_field(context, key@, fallback@) == Err::<Seq<char>, ErrorView>(e@),
            },
    {
        match context.get(key) {
            None => Ok(fallback),
            Some(path) => {
                if path.as_str().is_empty() {
                    Ok(fallback)
                } else {
                    Self::ensure_path(key, path)
                }
            },
        }
    }

    /// Resolves the full directory set from `context`, validating the
    /// variables in the fixed order of [`spec_resolve`] and stopping at the
    /// first failure.
    pub fn from_context<C: Context>(context: &C) -> (r: Result<BaseDir, Error>)
        ensures
            match r {
                Ok(dirs) => spec_resolve(context) == Ok::<BaseDirView, ErrorView>(dirs@),
                Err(e) => spec_resolve(context) == Err::<BaseDirView, ErrorView>(e@),
            },
    {
        let home = match Self::get_home(context) {
            Ok(path) => path,
            Err(e) => return Err(e),
        };
        let bin = home.clone().concat("/.local/bin");
        let config = match Self::get_path(context, "XDG_CONFIG_HOME", home.clone().concat(
            "/.config",
        )) {
            Ok(path) => path,
            Err(e) => return Err(e),
        };
        let data = match Self::get_path(context, "XDG_DATA_HOME", home.clone().concat(
            "/.local/share",
        )) {
            Ok(path) => path,
            Err(e) => return Err(e),
        };
        let state = match Self::get_path(context, "XDG_STATE_HOME", home.clone().concat(
            "/.local/state",
        )) {
            Ok(path) => path,
            Err(e) => return Err(e),
        };
        let cache = match Self::get_path(context, "XDG_CACHE_HOME", home.clone().concat(
            "/.cache",
        )) {
            Ok(path) => path,
            Err(e) => return Err(e),
        };
        let runtime = match context.get("XDG_RUNTIME_DIR") {
            None => None,
            Some(path) => {
                if path.as_str().is_empty() {
                    None
                } else {
                    match Self::ensure_path("XDG_RUNTIME_DIR", path) {
                        Ok(p) => Some(p),
                        Err(e) => return Err(e),
                    }
                }
            },
        };
        Ok(BaseDir { home, config, data, state, cache, runtime, bin })
    }

    /// Resolves the global, non-application-specific base directories from
    /// `context`.
    pub fn global<C: Context>(context: &C) -> (r: Result<BaseDir, Error>)
        ensures
            match r {
                Ok(dirs) => spec_resolve(context) == Ok::<BaseDirView, ErrorView>(dirs@),
                Err(e) => spec_resolve(context) == Err::<BaseDirView, ErrorView>(e@),
            },
    {
        Self::from_context(context)
    }

    /// Resolves the base directories for the application named `app_name`:
    /// the global set with the application name appended to `config`,
    /// `data`, `state`, `cache` and, when present, `runtime`.
    pub fn new<C: Context>(context: &C, app_name: &str) -> (r: Result<BaseDir, Error>)
        ensures
            match r {
                Ok(dirs) => spec_resolve(context) matches Ok(global_dirs) && dirs@
                    == spec_for_app(global_dirs, app_name@),
                Err(e) => spec_resolve(context) == Err::<BaseDirView, ErrorView>(e@),
            },
    {
        let global_dirs = match Self::global(context) {
            Ok(dirs) => dirs,
            Err(e) => return Err(e),
        };
        let BaseDir { home, config, data, state, cache, runtime, bin } = global_dirs;
        Ok(
            BaseDir {
                home,
                config: push_segment(config, app_name),
                data: push_segment(data, app_name),
                state: push_segment(state, app_name),
                cache: push_segment(cache, app_name),
                runtime: match runtime {
                    Some(path) => Some(push_segment(path, app_name)),
                    None => None,
                },
                bin,
            },
        )
    }
}

/// Well-formedness of a resolved directory set: every populated field is
/// absolute, and `runtime` is either absent or absolute.
pub open spec fn spec_all_absolute(dirs: BaseDirView) -> bool {
    &&& is_absolute(dirs.home)
    &&& is_absolute(dirs.config)
    &&& is_absolute(dirs.data)
    &&& is_absolute(dirs.state)
    &&& is_absolute(dirs.cache)
    &&& (dirs.runtime matches Some(path) ==> is_absolute(path))
    &&& is_absolute(dirs.bin)
}

/// Extending an absolute path keeps it absolute.
proof fn lemma_extend_absolute(base: Seq<char>, rest: Seq<char>)
    requires
        is_absolute(base),
    ensures
        is_absolute(base + rest),
{
    assert((base + rest)[0] == base[0]);
}

/// An override-capable field that resolved successfully from an absolute
/// fallback is absolute.
proof fn lemma_field_absolute<C: Context>(context: &C, key: Seq<char>, fallback: Seq<char>)
    requires
        is_absolute(fallback),
        spec_field(context, key, fallback) is Ok,
    ensures
        is_absolute(spec_field(context, key, fallback)->Ok_0),
{
}

/// Every successfully resolved directory set is well-formed: each populated
/// field holds an absolute path.
pub proof fn lemma_resolve_absolute<C: Context>(context: &C, dirs: BaseDirView)
    requires
        spec_resolve(context) == Ok::<BaseDirView, ErrorView>(dirs),
    ensures
        spec_all_absolute(dirs),
{
    let home = spec_home(context)->Ok_0;
    lemma_extend_absolute(home, "/.config"@);
    lemma_extend_absolute(home, "/.local/share"@);
    lemma_extend_absolute(home, "/.local/state"@);
    lemma_extend_absolute(home, "/.cache"@);
    lemma_extend_absolute(home, "/.local/bin"@);
    lemma_field_absolute(context, "XDG_CONFIG_HOME"@, home + "/.config"@);
    lemma_field_absolute(context, "XDG_DATA_HOME"@, home + "/.local/share"@);
    lemma_field_absolute(context, "XDG_STATE_HOME"@, home + "/.local/state"@);
    lemma_field_absolute(context, "XDG_CACHE_HOME"@, home + "/.cache"@);
}

/// Appending an application segment preserves well-formedness: the derived
/// set of a well-formed set is well-formed.
pub proof fn lemma_for_app_preserves_absolute(dirs: BaseDirView, app: Seq<char>)
    requires
        spec_all_absolute(dirs),
    ensures
        spec_all_absolute(spec_for_app(dirs, app)),
{
    lemma_extend_absolute(dirs.config + "/"@, app);
    lemma_extend_absolute(dirs.data + "/"@, app);
    lemma_extend_absolute(dirs.state + "/"@, app);
    lemma_extend_absolute(dirs.cache + "/"@, app);
    lemma_extend_absolute(dirs.config, "/"@);
    lemma_extend_absolute(dirs.data, "/"@);
    lemma_extend_absolute(dirs.state, "/"@);
    lemma_extend_absolute(dirs.cache, "/"@);
    if dirs.runtime is Some {
        lemma_extend_absolute(dirs.runtime->0, "/"@);
        lemma_extend_absolute(dirs.runtime->0 + "/"@, app);
    }
}

/// The home directory is required: where `HOME` is unset or holds the
/// empty string, resolution fails with `HomeNotSet`, whatever the other
/// variables hold.
pub proof fn lemma_home_unset_fails<C: Context>(context: &C)
    requires
        match context.env("HOME"@) {
            Some(path) => path.len() == 0,
            None => true,
        },
    ensures
        spec_resolve(context) == Err::<BaseDirView, ErrorView>(ErrorView::HomeNotSet),
{
}

/// A relative home directory is rejected: where `HOME` holds a non-empty
/// relative path, resolution fails with `NotAbsolutePath` naming `HOME`
/// and that path, whatever the other variables hold.
pub proof fn lemma_home_relative_fails<C: Context>(context: &C, home: Seq<char>)
    requires
        context.env("HOME"@) == Some(home),
        home.len() > 0,
        !is_absolute(home),
    ensures
        spec_resolve(context) == Err::<BaseDirView, ErrorView>(
            ErrorView::NotAbsolutePath { key: "HOME"@, path: home },
        ),
{
}

/// Resolution is a function of the context alone: two successful
/// resolutions from the same context yield `BaseDir` values that compare
/// equal (value equality, as `==` means it).
pub proof fn lemma_resolve_deterministic<C: Context>(context: &C, first: &BaseDir, second: &BaseDir)
    requires
        spec_resolve(context) == Ok::<BaseDirView, ErrorView>(first@),
        spec_resolve(context) == Ok::<BaseDirView, ErrorView>(second@),
    ensures
        first@ == second@,
        first.eq_spec(second),
{
}

} // verus!

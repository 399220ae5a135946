use xdgdir::BaseDir;
use xdgdir::Error;
use xdgdir::FixedContext;

#[test]
fn defaults_complete() {
    let mut context = FixedContext::new();
    context.insert("HOME", "/home/user");
    let result = BaseDir::from_context(&context).unwrap();
    assert_eq!(result.home, "/home/user");
    assert_eq!(result.config, "/home/user/.config");
    assert_eq!(result.data, "/home/user/.local/share");
    assert_eq!(result.state, "/home/user/.local/state");
    assert_eq!(result.cache, "/home/user/.cache");
    assert_eq!(result.bin, "/home/user/.local/bin");
    assert_eq!(result.runtime, None);
}

#[test]
fn data_override_leaves_other_defaults() {
    let mut context = FixedContext::new();
    context.insert("HOME", "/home/user");
    context.insert("XDG_DATA_HOME", "/some/dir");
    let result = BaseDir::from_context(&context).unwrap();
    assert_eq!(result.data, "/some/dir");
    assert_eq!(result.home, "/home/user");
    assert_eq!(result.config, "/home/user/.config");
    assert_eq!(result.state, "/home/user/.local/state");
    assert_eq!(result.cache, "/home/user/.cache");
    assert_eq!(result.bin, "/home/user/.local/bin");
    assert_eq!(result.runtime, None);
}

#[test]
fn per_app_appends_segment() {
    let mut context = FixedContext::new();
    context.insert("HOME", "/home/user");
    let result = BaseDir::new(&context, "my-app").unwrap();
    assert_eq!(result.config, "/home/user/.config/my-app");
    assert_eq!(result.data, "/home/user/.local/share/my-app");
    assert_eq!(result.state, "/home/user/.local/state/my-app");
    assert_eq!(result.cache, "/home/user/.cache/my-app");
    assert_eq!(result.home, "/home/user");
    assert_eq!(result.bin, "/home/user/.local/bin");
    assert_eq!(result.runtime, None);
}

#[test]
fn per_app_extends_runtime_when_present() {
    let mut context = FixedContext::new();
    context.insert("HOME", "/home/user");
    context.insert("XDG_RUNTIME_DIR", "/run/user/1000");
    let result = BaseDir::new(&context, "my-app").unwrap();
    assert_eq!(result.runtime, Some(String::from("/run/user/1000/my-app")));
}

#[test]
fn per_app_with_overrides() {
    let mut context = FixedContext::new();
    context.insert("HOME", "/home/fake_user");
    context.insert("XDG_CONFIG_HOME", "/custom/conf");
    context.insert("XDG_DATA_HOME", "/custom/data");
    let result = BaseDir::new(&context, "my-app").unwrap();
    assert_eq!(result.config, "/custom/conf/my-app");
    assert_eq!(result.data, "/custom/data/my-app");
    assert_eq!(result.cache, "/home/fake_user/.cache/my-app");
    assert_eq!(result.home, "/home/fake_user");
}

#[test]
fn per_app_propagates_error() {
    let context = FixedContext::new();
    let error = BaseDir::new(&context, "my-app").unwrap_err();
    assert_eq!(error, Error::HomeNotSet);
}

#[test]
fn global_matches_from_context() {
    let mut context = FixedContext::new();
    context.insert("HOME", "/home/user");
    let via_global = BaseDir::global(&context).unwrap();
    let via_from_context = BaseDir::from_context(&context).unwrap();
    assert_eq!(via_global, via_from_context);
}

#[test]
fn resolution_is_idempotent() {
    let mut context = FixedContext::new();
    context.insert("HOME", "/home/user");
    context.insert("XDG_CONFIG_HOME", "/custom/conf");
    context.insert("XDG_RUNTIME_DIR", "/run/user/1000");
    let first = BaseDir::from_context(&context).unwrap();
    let second = BaseDir::from_context(&context).unwrap();
    assert_eq!(first, second);
}

#[test]
fn config_error_takes_precedence_over_data() {
    let mut context = FixedContext::new();
    context.insert("HOME", "/home/user");
    context.insert("XDG_CONFIG_HOME", "conf/dir");
    context.insert("XDG_DATA_HOME", "data/dir");
    let error = BaseDir::from_context(&context).unwrap_err();
    assert_eq!(
        error,
        Error::NotAbsolutePath("XDG_CONFIG_HOME".into(), "conf/dir".into())
    );
}

#[test]
fn home_error_takes_precedence_over_overrides() {
    let mut context = FixedContext::new();
    context.insert("HOME", "");
    context.insert("XDG_CACHE_HOME", "cache/dir");
    let error = BaseDir::from_context(&context).unwrap_err();
    assert_eq!(error, Error::HomeNotSet);
}

#[test]
fn whitespace_value_is_not_empty() {
    let mut context = FixedContext::new();
    context.insert("HOME", " ");
    let error = BaseDir::from_context(&context).unwrap_err();
    assert_eq!(error, Error::NotAbsolutePath("HOME".into(), " ".into()));
}

#[test]
fn later_binding_wins() {
    let mut context = FixedContext::new();
    context.insert("HOME", "/old/home");
    context.insert("HOME", "/home/user");
    let result = BaseDir::from_context(&context).unwrap();
    assert_eq!(result.home, "/home/user");
}

#[test]
fn render_home_not_set() {
    let error = Error::HomeNotSet;
    assert_eq!(error.render(), "$HOME is not set or empty");
}

#[test]
fn render_not_absolute_path() {
    let error = Error::NotAbsolutePath("XDG_CONFIG_HOME".into(), "some/dir".into());
    assert_eq!(
        error.render(),
        "XDG_CONFIG_HOME=\"some/dir\" is not absolute path"
    );
}

#[test]
fn errors_with_different_fields_differ() {
    let first = Error::NotAbsolutePath("HOME".into(), "some/dir".into());
    let second = Error::NotAbsolutePath("HOME".into(), "other/dir".into());
    let third = Error::HomeNotSet;
    assert_ne!(first, second);
    assert_ne!(first, third);
    assert_eq!(
        first,
        Error::NotAbsolutePath("HOME".into(), "some/dir".into())
    );
}

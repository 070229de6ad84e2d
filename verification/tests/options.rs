//! Command-line options and configuration defaults.

use fastkey::Args;
use fastkey::Config;
use fastkey::Key;

#[test]
fn args_keep_their_fields() {
    let args = Args::new(true, Some(String::from("fastkey.toml")));
    assert!(args.ansi());
    assert_eq!(args.config().as_deref(), Some("fastkey.toml"));
}

#[test]
fn args_without_config_path() {
    let args = Args::new(false, None);
    assert!(!args.ansi());
    assert_eq!(args.config(), &None);
}

#[test]
fn default_exit_is_escape() {
    assert_eq!(Config::default_exit(), Key::Escape);
}

#[test]
fn config_carries_its_fields() {
    let config = Config { exit: Key::Escape, fast: vec![Key::A, Key::MouseLeft] };
    assert_eq!(config.exit, Key::Escape);
    assert_eq!(config.fast.len(), 2);
}

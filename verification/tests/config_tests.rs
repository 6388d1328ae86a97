use solanum::config::{about_version, default_env, is_devel, DEFAULT_APP_ID, DEFAULT_VERSION};

#[test]
fn default_env_prefers_build_value() {
    assert_eq!(default_env(Some("org.gnome.Solanum"), DEFAULT_APP_ID), "org.gnome.Solanum");
}

#[test]
fn default_env_falls_back() {
    assert_eq!(default_env(None, DEFAULT_APP_ID), "org.gnome.Solanum.Devel");
    assert_eq!(default_env(None, DEFAULT_VERSION), "unknown");
}

#[test]
fn devel_ids_are_recognised() {
    assert!(is_devel("org.gnome.Solanum.Devel"));
    assert!(is_devel("Devel"));
    assert!(!is_devel("org.gnome.Solanum"));
    assert!(!is_devel("evel"));
    assert!(!is_devel(""));
    assert!(!is_devel("org.gnome.Solanum.devel"));
}

#[test]
fn about_shows_version_only_for_releases() {
    assert_eq!(about_version("org.gnome.Solanum", "5.0"), Some("5.0"));
    assert_eq!(about_version("org.gnome.Solanum.Devel", "5.0"), None);
}

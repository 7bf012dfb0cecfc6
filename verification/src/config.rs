//! Per-user directories that the tool may use for caching and
//! configuration. Their discovery depends on the operating system and the
//! environment, so nothing more than the shape of the result is promised.

use vstd::prelude::*;

verus! {

/// The three kinds of per-user directories the tool cares about, mirroring
/// the cache / config / data split of the XDG base-directory convention and
/// its equivalents on other operating systems.
#[derive(Clone, Copy, PartialEq, Eq, Structural, Debug)]
pub enum DirKind {
    Cache,
    Config,
    Data,
}

/// Relies on app_dirs2::get_app_root: it computes the per-user directory of
/// the given kind for this application from the environment, without
/// touching the file system. The result depends on the environment, so
/// nothing is promised of it.
#[verifier::external_body]
fn app_root_dir(kind: DirKind) -> Option<String> {
    let data_type = match kind {
        DirKind::Cache => app_dirs2::AppDataType::UserCache,
        DirKind::Config => app_dirs2::AppDataType::UserConfig,
        DirKind::Data => app_dirs2::AppDataType::UserData,
    };
    let info = app_dirs2::AppInfo { name: "cdda-manager", author: "cataclysm-mods" };
    match app_dirs2::get_app_root(data_type, &info) {
        Ok(p) => Some(p.to_string_lossy().into_owned()),
        Err(_) => None,
    }
}

/// The per-user directories resolved for this invocation. A field is
/// `None` when the operating system gave no directory of that kind; that
/// is never an error.
#[derive(Debug)]
pub struct Config {
    pub user_cache: Option<String>,
    pub user_config: Option<String>,
    pub user_data: Option<String>,
}

impl Config {
    /// Builds a configuration from the three lookup results: each kind's
    /// result lands in its own field, untouched by the others.
    pub fn from_dirs(
        user_cache: Option<String>,
        user_config: Option<String>,
        user_data: Option<String>,
    ) -> (c: Config)
        ensures
            c.user_cache == user_cache,
            c.user_config == user_config,
            c.user_data == user_data,
    {
        Config { user_cache, user_config, user_data }
    }

    /// Resolves the three per-user directories from the environment and
    /// assembles them through [`Config::from_dirs`]. Any of them may be
    /// absent; absence is not a failure.
    pub fn detect() -> Config {
        let user_cache = app_root_dir(DirKind::Cache);
        let user_config = app_root_dir(DirKind::Config);
        let user_data = app_root_dir(DirKind::Data);
        Config::from_dirs(user_cache, user_config, user_data)
    }
}

impl Default for Config {
    /// The neutral configuration: no directory resolved yet.
    fn default() -> (c: Config)
        ensures
            c.user_cache is None,
            c.user_config is None,
            c.user_data is None,
    {
        Config { user_cache: None, user_config: None, user_data: None }
    }
}

} // verus!

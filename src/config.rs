use vstd::prelude::*;
use crate::paths::{join_path, joined};

verus! {

/// Where the devkit is installed, which release it runs, and where its
/// dependent services keep their data.
#[derive(Debug)]
pub struct YaciDevkit {
    pub path: String,
    pub version: String,
    pub services_path: String,
}

/// The persisted configuration.
#[derive(Debug)]
pub struct Config {
    pub yaci_devkit: YaciDevkit,
}

/// The devkit release installed by default.
pub open spec fn default_version() -> Seq<char> {
    "0.9.3-beta"@
}

/// The configuration computed for a root directory.
pub open spec fn default_config_of(root: Seq<char>) -> (Seq<char>, Seq<char>, Seq<char>) {
    (joined(root, "yaci-devkit"@), default_version(), joined(root, "services"@))
}

/// Where the configuration file lies under a root directory.
pub open spec fn config_file_of(root: Seq<char>) -> Seq<char> {
    joined(root, "config.json"@)
}

impl Config {
    /// The configuration as (install path, version, services path).
    pub open spec fn view(&self) -> (Seq<char>, Seq<char>, Seq<char>) {
        (self.yaci_devkit.path@, self.yaci_devkit.version@, self.yaci_devkit.services_path@)
    }

    /// The install path and the services path differ.
    pub open spec fn wf(&self) -> bool {
        self.yaci_devkit.path@ != self.yaci_devkit.services_path@
    }

    /// The configuration rooted at `path`: the devkit under `yaci-devkit`,
    /// the services under `services`, and the default release.
    pub fn default(path: &str) -> (r: Config)
        ensures
            r@ == default_config_of(path@),
            r.wf(),
    {
        let c = Config {
            yaci_devkit: YaciDevkit {
                path: join_path(path, "yaci-devkit"),
                services_path: join_path(path, "services"),
                version: String::from_str("0.9.3-beta"),
            },
        };
        proof {
            reveal_strlit("yaci-devkit");
            reveal_strlit("services");
            assert(c.yaci_devkit.path@.len() != c.yaci_devkit.services_path@.len());
        }
        c
    }

    /// A copy of the configuration.
    pub fn snapshot(&self) -> (r: Config)
        ensures
            r@ == self@,
    {
        Config {
            yaci_devkit: YaciDevkit {
                path: self.yaci_devkit.path.clone(),
                version: self.yaci_devkit.version.clone(),
                services_path: self.yaci_devkit.services_path.clone(),
            },
        }
    }

    /// What to do on start-up, given what was found at the configuration file
    /// location under `root`. A readable file is used as it is; a malformed one
    /// gives way to the default (the file is left untouched); a missing one
    /// means the default is written there and the process stops so that the
    /// user can review it. The default is rooted at `path` when one is given,
    /// else at `root`.
    pub fn load(path: Option<String>, root: &str, file: ConfigFile) -> (r: LoadStep)
        ensures
            load_step_matches(r, path, root@, file),
    {
        match file {
            ConfigFile::Parsed(c) => LoadStep::Use(c),
            ConfigFile::Malformed => {
                let base = match path {
                    Some(p) => p,
                    None => String::from_str(root),
                };
                LoadStep::FallBack(Config::default(base.as_str()))
            },
            ConfigFile::Missing => {
                let base = match path {
                    Some(p) => p,
                    None => String::from_str(root),
                };
                LoadStep::Create {
                    config: Config::default(base.as_str()),
                    config_path: join_path(root, "config.json"),
                }
            },
        }
    }
}

/// What was found at the configuration file location.
#[derive(Debug)]
pub enum ConfigFile {
    /// No file is there.
    Missing,
    /// The file holds a configuration.
    Parsed(Config),
    /// The file is there but does not parse.
    Malformed,
}

/// The decision taken on start-up about the configuration.
#[derive(Debug)]
pub enum LoadStep {
    /// Use this configuration.
    Use(Config),
    /// The file did not parse: warn and use this default instead.
    FallBack(Config),
    /// First run: write `config` to `config_path`, tell the user, and stop
    /// with a success status.
    Create { config: Config, config_path: String },
}

pub open spec fn root_for(path: Option<String>, root: Seq<char>) -> Seq<char> {
    match path {
        Some(p) => p@,
        None => root,
    }
}

pub open spec fn load_step_matches(
    r: LoadStep,
    path: Option<String>,
    root: Seq<char>,
    file: ConfigFile,
) -> bool {
    match file {
        ConfigFile::Parsed(c) => r matches LoadStep::Use(u) && u@ == c@,
        ConfigFile::Malformed => r matches LoadStep::FallBack(d) && d@ == default_config_of(
            root_for(path, root),
        ),
        ConfigFile::Missing => r matches LoadStep::Create { config, config_path } && config@
            == default_config_of(root_for(path, root)) && config_path@ == config_file_of(root),
    }
}

/// The configuration file location under a root directory.
pub fn config_file_path(root: &str) -> (r: String)
    ensures
        r@ == config_file_of(root@),
{
    join_path(root, "config.json")
}

/// Decides how to obtain the configuration (see `Config::load`).
pub fn init(path: Option<String>, root: &str, file: ConfigFile) -> (r: LoadStep)
    ensures
        load_step_matches(r, path, root@, file),
{
    Config::load(path, root, file)
}

/// A copy of the current configuration.
pub fn get_config(current: &Config) -> (r: Config)
    ensures
        r@ == current@,
{
    current.snapshot()
}

} // verus!

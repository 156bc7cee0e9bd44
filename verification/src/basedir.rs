//! Where the configuration is kept by default.
//!
//! The directory depends on the platform and on its environment. The caller
//! reads the environment; what follows from it is decided here.

use vstd::prelude::*;
use crate::platform::Platform;

verus! {

/// What the environment says of the user's directories.
pub struct Environment<'a> {
    /// The configuration directory that the XDG convention gives for this
    /// application.
    pub xdg_config_home: Option<&'a str>,
    /// The user's home directory.
    pub home: Option<&'a str>,
    /// The directory for application data.
    pub appdata: Option<&'a str>,
}

/// A directory, named by a directory that exists and the names of the
/// directories that lead from there to it.
#[derive(Debug, PartialEq, Eq)]
pub struct ConfigDir<'a> {
    pub base: &'a str,
    pub below: Vec<&'static str>,
}

/// Whether the environment names what the platform's default needs.
pub open spec fn names_config_dir(platform: Platform, environment: Environment) -> bool {
    match platform {
        Platform::Unix => environment.xdg_config_home is Some,
        Platform::Android => true,
        Platform::MacOs => environment.home is Some,
        Platform::Windows => environment.appdata is Some || environment.home is Some,
    }
}

/// The directory that the default starts from.
pub open spec fn config_base(platform: Platform, environment: Environment) -> Option<Seq<char>> {
    match platform {
        Platform::Unix => Some(environment.xdg_config_home->0@),
        Platform::Android => None,
        Platform::MacOs => Some(environment.home->0@),
        Platform::Windows => match environment.appdata {
            Some(appdata) => Some(appdata@),
            None => Some(environment.home->0@),
        },
    }
}

/// The names of the directories that lead from the base to the default.
pub open spec fn config_below(platform: Platform, environment: Environment) -> Seq<Seq<char>> {
    match platform {
        Platform::Unix => Seq::empty(),
        Platform::Android => Seq::empty(),
        Platform::MacOs => seq!["Library"@, "Application Support"@, "Servo"@],
        Platform::Windows => match environment.appdata {
            Some(_) => seq!["Servo"@],
            None => seq!["Appdata"@, "Roaming"@, "Servo"@],
        },
    }
}

/// The names in a list of directory names.
pub open spec fn names(below: Seq<&'static str>) -> Seq<Seq<char>> {
    Seq::new(below.len(), |i: int| below[i]@)
}

/// The directory in which the configuration is kept by default, or none on
/// a platform that has no such directory.
pub fn default_config_dir<'a>(platform: Platform, environment: Environment<'a>) -> (dir: Option<
    ConfigDir<'a>,
>)
    requires
        names_config_dir(platform, environment),
    ensures
        match dir {
            Some(dir) => config_base(platform, environment) == Some(dir.base@) && names(
                dir.below@,
            ) == config_below(platform, environment),
            None => config_base(platform, environment) is None,
        },
{
    match platform {
        Platform::Unix => {
            let dir = ConfigDir { base: environment.xdg_config_home.unwrap(), below: Vec::new() };
            proof {
                assert(names(dir.below@) =~= config_below(platform, environment));
            }
            Some(dir)
        },
        Platform::Android => None,
        Platform::MacOs => {
            let mut below: Vec<&'static str> = Vec::new();
            below.push("Library");
            below.push("Application Support");
            below.push("Servo");
            proof {
                assert(names(below@) =~= config_below(platform, environment));
            }
            Some(ConfigDir { base: environment.home.unwrap(), below })
        },
        Platform::Windows => {
            let mut below: Vec<&'static str> = Vec::new();
            let base = match environment.appdata {
                Some(appdata_path) => appdata_path,
                None => {
                    below.push("Appdata");
                    below.push("Roaming");
                    environment.home.unwrap()
                },
            };
            below.push("Servo");
            proof {
                assert(names(below@) =~= config_below(platform, environment));
            }
            Some(ConfigDir { base, below })
        },
    }
}

} // verus!

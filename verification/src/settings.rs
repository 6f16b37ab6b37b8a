//! Settings the pipeline starts from, and the rules that produce them: a
//! configuration file may supply values, command-line arguments override them,
//! and whatever is still missing is filled from choices made interactively.
//! Reading files, parsing arguments and showing menus happen outside the
//! library; the merge logic here decides what wins.

use vstd::prelude::*;

verus! {

/// Settings the pipeline runs with, immutable for its lifetime.
#[derive(Clone, Debug)]
pub struct Settings {
    pub port: String,
    pub baud_rate: u32,
    pub timestamps: bool,
    pub log_folder: Option<String>,
}

/// The command-line arguments, already parsed into plain values.
#[derive(Clone, Debug)]
pub struct Args {
    pub port: Option<String>,
    pub baud_rate: Option<u32>,
    pub timestamps: bool,
    pub log_on_start: bool,
    pub log_folder: Option<String>,
    pub list: bool,
}

/// A configuration as a file (or nothing) supplies it: every value optional.
#[derive(Clone, Debug)]
pub struct Config {
    pub port: Option<String>,
    pub baud_rate: Option<u32>,
    pub timestamps: Option<bool>,
    pub log_folder: Option<String>,
    pub log_on_start: Option<bool>,
    pub disable_welcome: Option<bool>,
}

/// The configuration with every choice left open.
pub open spec fn empty_config() -> Config {
    Config {
        port: None,
        baud_rate: None,
        timestamps: None,
        log_folder: None,
        log_on_start: None,
        disable_welcome: None,
    }
}

/// A configuration with the command-line arguments folded in: an argument that
/// was given wins over the file's value, and the two plain flags are always
/// taken from the command line.
pub open spec fn merged_config(base: Config, args: Args) -> Config {
    Config {
        port: if args.port is Some {
            args.port
        } else {
            base.port
        },
        baud_rate: if args.baud_rate is Some {
            args.baud_rate
        } else {
            base.baud_rate
        },
        log_folder: if args.log_folder is Some {
            args.log_folder
        } else {
            base.log_folder
        },
        timestamps: Some(args.timestamps),
        log_on_start: Some(args.log_on_start),
        disable_welcome: base.disable_welcome,
    }
}

impl Default for Config {
    /// An empty configuration: nothing chosen yet.
    fn default() -> (c: Config)
        ensures
            c == empty_config(),
    {
        Config {
            port: None,
            baud_rate: None,
            timestamps: None,
            log_folder: None,
            log_on_start: None,
            disable_welcome: None,
        }
    }
}

impl Config {
    /// Fold the command-line arguments in: explicit arguments win.
    pub fn use_args(&mut self, args: Args)
        ensures
            *final(self) == merged_config(*old(self), args),
    {
        if let Some(value) = args.port {
            self.port = Some(value);
        }
        if let Some(value) = args.baud_rate {
            self.baud_rate = Some(value);
        }
        if let Some(value) = args.log_folder {
            self.log_folder = Some(value);
        }
        self.timestamps = Some(args.timestamps);
        self.log_on_start = Some(args.log_on_start);
    }

    /// Fill the port and baud rate that are still missing with the choices
    /// made outside (the interactive menus); configured values are kept.
    pub fn select_missing(&mut self, port_choice: String, baud_choice: u32)
        ensures
            final(self).port == (if old(self).port is Some {
                old(self).port
            } else {
                Some(port_choice)
            }),
            final(self).baud_rate == (if old(self).baud_rate is Some {
                old(self).baud_rate
            } else {
                Some(baud_choice)
            }),
            final(self).timestamps == old(self).timestamps,
            final(self).log_folder == old(self).log_folder,
            final(self).log_on_start == old(self).log_on_start,
            final(self).disable_welcome == old(self).disable_welcome,
    {
        if self.port.is_none() {
            self.port = Some(port_choice);
        }
        if self.baud_rate.is_none() {
            self.baud_rate = Some(baud_choice);
        }
    }
}

/// Merge the configuration sources the way startup does: the configuration
/// file found first wins over the fallback file, an empty configuration stands
/// in when neither was found, and the command-line arguments override all.
pub fn get_config(primary: Option<Config>, fallback: Option<Config>, args: Args) -> (c: Config)
    ensures
        ({
            let base = match primary {
                Some(p) => p,
                None => match fallback {
                    Some(f) => f,
                    None => empty_config(),
                },
            };
            c == merged_config(base, args)
        }),
{
    let mut config = match primary {
        Some(p) => p,
        None => match fallback {
            Some(f) => f,
            None => Config::default(),
        },
    };
    config.use_args(args);
    config
}

/// Turn a complete configuration into the pipeline's settings. The port and
/// baud rate must have been chosen by now; timestamps default to off.
pub fn get_settings(config: &Config) -> (s: Settings)
    requires
        config.port is Some,
        config.baud_rate is Some,
    ensures
        s.port == config.port->0,
        s.baud_rate == config.baud_rate->0,
        s.timestamps == (if config.timestamps is Some {
            config.timestamps->0
        } else {
            false
        }),
        s.log_folder == config.log_folder,
{
    let port = match &config.port {
        Some(p) => p.clone(),
        None => String::new(),
    };
    let baud_rate = match &config.baud_rate {
        Some(b) => *b,
        None => 0,
    };
    let log_folder = match &config.log_folder {
        Some(f) => Some(f.clone()),
        None => None,
    };
    let timestamps = match &config.timestamps {
        Some(t) => *t,
        None => false,
    };
    Settings { port, baud_rate, timestamps, log_folder }
}

} // verus!

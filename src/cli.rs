//! The command line, as plain data.
use vstd::prelude::*;

use crate::login;

verus! {

#[derive(Debug)]
pub struct Cli {
    pub subcommand: Subcommands,
}

#[derive(Debug)]
pub enum Subcommands {
    /// Start following the listening.
    Start(Arguments),
    /// Help with the settings.
    Config(login::Subcommands),
}

/// The arguments of `start`.
#[derive(Debug)]
pub struct Arguments {
    /// The settings file, where another than `config.yaml` is wanted.
    pub config: Option<String>,
}

impl Arguments {
    /// The settings file to read.
    pub fn config_path(&self) -> (r: &str)
        ensures
            r@ == match self.config {
                Some(path) => path@,
                None => "config.yaml"@,
            },
    {
        match &self.config {
            Some(path) => path.as_str(),
            None => "config.yaml",
        }
    }
}

} // verus!

//! The command line.
use vstd::prelude::*;

verus! {

/// The command line's arguments, as the usage text below describes them.
#[derive(Debug)]
pub struct Args {
    pub arg_servers: Vec<String>,
    pub flag_config: String,
}

/// The usage text, which also describes the command line's grammar.
pub const USAGE: &'static str = "
A tokio-based IRC bounder
Usage:
    bounce [--config=<cfg.toml>] [<servers>...]
Options:
    -h, --help              Display this message
    --config=<cfg.toml>     Specify config file to use [default: ./config.toml]
    [servers]...            Specify which servers to connect to (default is all)
";

} // verus!

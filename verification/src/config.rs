use vstd::prelude::*;

verus! {

/// Process options for the horn components, as bare values: the path of the
/// transport configuration file to load. The process boundary parses the
/// command line and environment and hands one of these over.
#[derive(Clone, PartialEq, Eq, Debug)]
pub struct Args {
    /// A transport configuration file.
    pub config: String,
}

/// The configuration file consulted when the caller names none.
pub fn default_config_path() -> (r: &'static str)
    ensures
        r@ == "/zenoh-config.json5"@,
{
    "/zenoh-config.json5"
}

impl Args {
    pub fn new(config: String) -> (a: Args)
        ensures
            a.config == config,
    {
        Args { config }
    }
}

impl Default for Args {
    /// An `Args` pointing at the default configuration file.
    fn default() -> (a: Args)
        ensures
            a.config@ == "/zenoh-config.json5"@,
    {
        Args { config: default_config_path().to_owned() }
    }
}

} // verus!

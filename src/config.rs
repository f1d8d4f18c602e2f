//! The choice of serializer that message types use, read once at startup.

use vstd::prelude::*;

verus! {

/// The serializer chosen when nothing else is configured.
pub const DEFAULT_SERIALIZER: &'static str = "DefaultSerialization";

/// Startup configuration: the name of the serializer message types use.
#[derive(Debug)]
pub struct Config {
    pub custom_serializer: String,
}

impl Default for Config {
    fn default() -> (r: Config)
        ensures
            r.custom_serializer@ == DEFAULT_SERIALIZER@,
    {
        Config { custom_serializer: String::from_str(DEFAULT_SERIALIZER) }
    }
}

impl Config {
    /// The configuration to run with: what was loaded, or the default where
    /// nothing could be loaded or read.
    pub fn or_default(loaded: Option<Config>) -> (r: Config)
        ensures
            loaded is Some ==> r.custom_serializer@ == loaded->Some_0.custom_serializer@,
            loaded is None ==> r.custom_serializer@ == DEFAULT_SERIALIZER@,
    {
        match loaded {
            Some(c) => c,
            None => Config::default(),
        }
    }
}

} // verus!

//! What a fresh installation lacks: the configuration file and the
//! directory of worlds.

use vstd::prelude::*;

verus! {

/// One thing to create before the server can start.
#[derive(Clone, Copy, Debug, PartialEq, Eq, Structural)]
pub enum Provision {
    /// Write the default configuration, with its comments, to the
    /// configuration file.
    WriteConfig,
    /// Create the directory that holds the worlds.
    CreateWorlds,
}

/// The steps that `set_up_defaults` asks for.
pub open spec fn provisions(has_config: bool, has_worlds: bool) -> Seq<Provision> {
    if has_config {
        if has_worlds {
            Seq::empty()
        } else {
            seq![Provision::CreateWorlds]
        }
    } else {
        if has_worlds {
            seq![Provision::WriteConfig]
        } else {
            seq![Provision::WriteConfig, Provision::CreateWorlds]
        }
    }
}

/// Says what has to be created, and in which order: the configuration file
/// first, where there is none, then the directory of worlds, where there is
/// none. What exists is left alone.
pub fn set_up_defaults(has_config: bool, has_worlds: bool) -> (steps: Vec<Provision>)
    ensures
        steps@ == provisions(has_config, has_worlds),
{
    let mut steps: Vec<Provision> = Vec::new();
    if !has_config {
        steps.push(Provision::WriteConfig);
    }
    if !has_worlds {
        steps.push(Provision::CreateWorlds);
    }
    assert(steps@ =~= provisions(has_config, has_worlds));
    steps
}

} // verus!

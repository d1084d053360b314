//! Fleet composition: a machine's configuration is the base, then its
//! profile templates, then its own file.
use crate::pm::config::{composed, layer_models, Config, ConfigComposer};
use crate::pm::constants::{NEXIS_MACHINES_DIR, NEXIS_PROFILES_DIR};
use crate::text::{join, owned, path_join, push_str};
use vstd::prelude::*;

verus! {

/// `<dir>/<name>.toml`.
pub open spec fn toml_path(dir: Seq<char>, name: Seq<char>) -> Seq<char> {
    path_join(dir, name + ".toml"@)
}

fn toml_file(dir: &str, name: &str) -> (r: String)
    ensures
        r@ == toml_path(dir@, name@),
{
    let mut leaf = owned(name);
    push_str(&mut leaf, ".toml");
    join(dir, leaf.as_str())
}

/// Composes configurations for the machines of a fleet.
pub struct FleetComposer;

impl FleetComposer {
    /// File of the profile template `name`.
    pub fn profile_path(name: &str) -> (r: String)
        ensures
            r@ == toml_path(NEXIS_PROFILES_DIR@, name@),
    {
        toml_file(NEXIS_PROFILES_DIR, name)
    }

    /// File of machine `machine_id`'s own configuration.
    pub fn machine_config_path(machine_id: &str) -> (r: String)
        ensures
            r@ == toml_path(NEXIS_MACHINES_DIR@, machine_id@),
    {
        toml_file(NEXIS_MACHINES_DIR, machine_id)
    }

    /// The configuration of a machine: the base, then its profiles as read
    /// from their files in order, then its own configuration.
    pub fn compose_for_machine(base: Config, profiles: Vec<Config>, machine: Config) -> (r: Config)
        ensures
            r.model() == composed(base.model(), layer_models(profiles@, Some(machine))),
    {
        ConfigComposer::compose(base, profiles, Some(machine))
    }
}

} // verus!

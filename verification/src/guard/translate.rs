//! Which backends get generated configuration: each enabled section of
//! `guard.toml` has its translator.
use crate::guard::config::GuardConfig;
use vstd::prelude::*;

verus! {

/// A backend configuration translator.
#[derive(Debug, Clone, Copy, PartialEq, Eq, Structural)]
pub enum Translator {
    /// ClamAV (`[antivirus]`).
    Clamav,
    /// Suricata (`[network]`).
    Suricata,
    /// Tetragon (`[processes]`).
    Tetragon,
}

/// The translators of the enabled sections, in the order antivirus,
/// network, processes.
pub open spec fn enabled_translators(c: GuardConfig) -> Seq<Translator> {
    (if c.antivirus.enabled {
        seq![Translator::Clamav]
    } else {
        seq![]
    }) + (if c.network.enabled {
        seq![Translator::Suricata]
    } else {
        seq![]
    }) + (if c.processes.enabled {
        seq![Translator::Tetragon]
    } else {
        seq![]
    })
}

/// The translators `generate_all` runs for a configuration.
pub fn translators(config: &GuardConfig) -> (r: Vec<Translator>)
    ensures
        r@ == enabled_translators(*config),
{
    let mut r: Vec<Translator> = Vec::new();
    if config.antivirus.enabled {
        r.push(Translator::Clamav);
    }
    if config.network.enabled {
        r.push(Translator::Suricata);
    }
    if config.processes.enabled {
        r.push(Translator::Tetragon);
    }
    assert(r@ =~= enabled_translators(*config));
    r
}

} // verus!

//! The declarative system configuration and how layers of it compose:
//! base, then profiles, then the machine's own file.
use vstd::prelude::*;

verus! {

/// System-wide settings.
pub struct SystemConfig {
    pub hostname: String,
    pub timezone: String,
    pub version: Option<String>,
}

/// A package to install.
pub struct Package {
    pub name: String,
    pub version: String,
    pub source: Option<String>,
    pub prebuilt: Option<String>,
}

/// A file to place on the system.
pub struct FileDeclaration {
    pub path: String,
    pub content: Option<String>,
    pub source: Option<String>,
    pub mode: String,
    pub owner: String,
    pub group: String,
}

/// A user account.
pub struct User {
    pub name: String,
    pub shell: String,
    pub groups: Vec<String>,
    pub profiles: Option<Vec<String>>,
    pub files: Vec<FileDeclaration>,
}

/// A whole configuration.
pub struct Config {
    pub system: SystemConfig,
    pub packages: Vec<Package>,
    pub files: Vec<FileDeclaration>,
    pub users: Vec<User>,
}

/// A configuration as a value: its settings and its lists.
pub struct ConfigModel {
    pub hostname: Seq<char>,
    pub timezone: Seq<char>,
    pub version: Option<Seq<char>>,
    pub packages: Seq<Package>,
    pub files: Seq<FileDeclaration>,
    pub users: Seq<User>,
}

/// The view of an optional string.
pub open spec fn opt_view(o: Option<String>) -> Option<Seq<char>> {
    match o {
        Some(s) => Some(s@),
        None => None,
    }
}

impl Config {
    /// The configuration as a value.
    pub open spec fn model(&self) -> ConfigModel {
        ConfigModel {
            hostname: self.system.hostname@,
            timezone: self.system.timezone@,
            version: opt_view(self.system.version),
            packages: self.packages@,
            files: self.files@,
            users: self.users@,
        }
    }
}

/// `layer` laid over `base`: its hostname and timezone replace the base's,
/// its version replaces the base's when it names one, and its packages,
/// files and users follow the base's.
pub open spec fn merged(base: ConfigModel, layer: ConfigModel) -> ConfigModel {
    ConfigModel {
        hostname: layer.hostname,
        timezone: layer.timezone,
        version: if layer.version is Some {
            layer.version
        } else {
            base.version
        },
        packages: base.packages + layer.packages,
        files: base.files + layer.files,
        users: base.users + layer.users,
    }
}

/// Each layer laid over the result of the ones before it, first to last.
pub open spec fn composed(base: ConfigModel, layers: Seq<ConfigModel>) -> ConfigModel
    decreases layers.len(),
{
    if layers.len() == 0 {
        base
    } else {
        merged(composed(base, layers.drop_last()), layers.last())
    }
}

/// The models of a list of configurations.
pub open spec fn models(cs: Seq<Config>) -> Seq<ConfigModel> {
    cs.map_values(|c: Config| c.model())
}

/// The layers of a composition: the profiles, then the machine's own.
pub open spec fn layer_models(profiles: Seq<Config>, machine: Option<Config>) -> Seq<ConfigModel> {
    match machine {
        Some(m) => models(profiles).push(m.model()),
        None => models(profiles),
    }
}

/// The packages of every layer, first layer first.
pub open spec fn layer_packages(layers: Seq<ConfigModel>) -> Seq<Package>
    decreases layers.len(),
{
    if layers.len() == 0 {
        seq![]
    } else {
        layer_packages(layers.drop_last()) + layers.last().packages
    }
}

/// Composing with no layer gives the base unchanged.
pub proof fn law_compose_without_layers(base: ConfigModel)
    ensures
        composed(base, Seq::<ConfigModel>::empty()) == base,
{
}

/// The last layer's hostname and timezone win.
pub proof fn law_last_layer_wins(base: ConfigModel, layers: Seq<ConfigModel>)
    requires
        layers.len() > 0,
    ensures
        composed(base, layers).hostname == layers.last().hostname,
        composed(base, layers).timezone == layers.last().timezone,
{
}

/// Composition keeps every package: the base's, then each layer's in order.
pub proof fn law_compose_keeps_packages(base: ConfigModel, layers: Seq<ConfigModel>)
    ensures
        composed(base, layers).packages == base.packages + layer_packages(layers),
    decreases layers.len(),
{
    if layers.len() > 0 {
        law_compose_keeps_packages(base, layers.drop_last());
        assert(base.packages + layer_packages(layers) =~= base.packages + layer_packages(
            layers.drop_last(),
        ) + layers.last().packages);
    } else {
        assert(base.packages + layer_packages(layers) =~= base.packages);
    }
}

/// Laying `a` then `b` over a base is laying `b` over the result of `a`:
/// profiles and the machine's own file can be applied in one pass or two.
pub proof fn law_compose_in_stages(base: ConfigModel, a: Seq<ConfigModel>, b: Seq<ConfigModel>)
    ensures
        composed(base, a + b) == composed(composed(base, a), b),
    decreases b.len(),
{
    if b.len() == 0 {
        assert(a + b =~= a);
    } else {
        law_compose_in_stages(base, a, b.drop_last());
        assert((a + b).drop_last() =~= a + b.drop_last());
        assert((a + b).last() == b.last());
    }
}

fn append_all<T>(base: &mut Vec<T>, more: Vec<T>)
    ensures
        final(base)@ == old(base)@ + more@,
{
    let mut more = more;
    base.append(&mut more);
}

impl Config {
    /// Lays `other` over this configuration (see `merged`).
    pub fn merge(&mut self, other: Config)
        ensures
            final(self).model() == merged(old(self).model(), other.model()),
    {
        let Config { system, packages, files, users } = other;
        let SystemConfig { hostname, timezone, version } = system;
        self.system.hostname = hostname;
        self.system.timezone = timezone;
        if version.is_some() {
            self.system.version = version;
        }
        append_all(&mut self.packages, packages);
        append_all(&mut self.files, files);
        append_all(&mut self.users, users);
        assert(self.model().packages == old(self).model().packages + other.packages@);
    }
}

/// Composes layered configurations.
pub struct ConfigComposer;

impl ConfigComposer {
    /// Base, then each profile in order, then the machine's own
    /// configuration, each laid over the result so far.
    pub fn compose(base: Config, profiles: Vec<Config>, machine: Option<Config>) -> (r: Config)
        ensures
            r.model() == composed(base.model(), layer_models(profiles@, machine)),
    {
        let mut result = base;
        let mut profiles = profiles;
        let ghost all = profiles@;
        let ghost base_model = base.model();
        let mut done: usize = 0;
        let total = profiles.len();
        while profiles.len() > 0
            invariant
                total == all.len(),
                done + profiles.len() == total,
                profiles@ == all.subrange(done as int, total as int),
                result.model() == composed(base_model, models(all.take(done as int))),
            decreases profiles.len(),
        {
            let profile = profiles.remove(0);
            proof {
                assert(profile == all[done as int]);
                assert(profiles@ =~= all.subrange(done + 1, total as int));
                assert(models(all.take(done + 1)).drop_last() =~= models(all.take(done as int)));
                assert(models(all.take(done + 1)).last() == profile.model());
            }
            result.merge(profile);
            done = done + 1;
        }
        assert(all.take(total as int) =~= all);
        match machine {
            Some(m) => {
                proof {
                    assert(layer_models(all, Some(m)).drop_last() =~= models(all));
                }
                result.merge(m);
            },
            None => {},
        }
        result
    }
}

} // verus!

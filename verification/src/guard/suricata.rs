//! Suricata configuration generated from the `[network]` section.
use crate::guard::config::{GuardConfig, NetworkSection};
use crate::text::{join, owned, path_join, push_str, str_eq};
use vstd::prelude::*;

verus! {

/// Text of suricata.yaml up to the home network.
pub const YAML_HEAD: &'static str = "%YAML 1.1\n---\n\nvars:\n  address-groups:\n    HOME_NET: \"[";

/// Text of suricata.yaml between the home network and the log directory.
pub const YAML_VARS: &'static str = "]\"\n    EXTERNAL_NET: \"!$HOME_NET\"\n  port-groups:\n    HTTP_PORTS: \"80\"\n    SHELLCODE_PORTS: \"!80\"\n    SSH_PORTS: \"22\"\n\ndefault-log-dir: ";

/// Text of suricata.yaml between the log directory and the capture section.
pub const YAML_OUTPUTS: &'static str = "\n\noutputs:\n  - eve-log:\n      enabled: yes\n      filetype: regular\n      filename: eve.json\n      types:\n        - alert:\n            tagged-packets: yes\n        - dns\n        - tls\n        - http\n        - flow\n        - stats:\n            totals: yes\n            threads: no\n\n";

/// Text of suricata.yaml after the capture section.
pub const YAML_TAIL: &'static str = "\n\napp-layer:\n  protocols:\n    dns:\n      tcp:\n        enabled: yes\n      udp:\n        enabled: yes\n    tls:\n      enabled: yes\n    http:\n      enabled: yes\n\ndefault-rule-path: /var/lib/suricata/rules\nrule-files:\n  - suricata.rules\n";

/// Capture section when no interface is configured.
pub const AF_PACKET_DEFAULT: &'static str = "af-packet:\n    - interface: default\n      cluster-id: 99";

/// Per-interface capture settings following the interface name.
pub const IFACE_SETTINGS: &'static str = "\n      cluster-id: 99\n      cluster-type: cluster_flow\n      defrag: yes";

/// Extra per-interface settings in IPS mode.
pub const IFACE_IPS: &'static str = "\n      copy-mode: ips\n      copy-iface: default";

/// Text of update.yaml before the sources.
pub const UPDATE_HEAD: &'static str = "# suricata-update configuration\nenable-sources:\n";

/// Text of update.yaml after the sources.
pub const UPDATE_TAIL: &'static str = "\n\n# Reload suricata after update\nreload-command: suricatasc -c reload-rules\n";

/// Items joined with a separator between consecutive ones.
pub open spec fn join_with(items: Seq<Seq<char>>, sep: Seq<char>) -> Seq<char>
    decreases items.len(),
{
    if items.len() == 0 {
        seq![]
    } else if items.len() == 1 {
        items[0]
    } else {
        join_with(items.drop_last(), sep) + sep + items.last()
    }
}

/// The capture entry of one interface.
pub open spec fn iface_entry(iface: Seq<char>, ips: bool) -> Seq<char> {
    "    - interface: "@ + iface + IFACE_SETTINGS@ + if ips {
        IFACE_IPS@
    } else {
        seq![]
    }
}

/// The capture entries of a list of interfaces.
pub open spec fn iface_entries(ifaces: Seq<String>, ips: bool) -> Seq<Seq<char>>
    decreases ifaces.len(),
{
    if ifaces.len() == 0 {
        seq![]
    } else {
        iface_entries(ifaces.drop_last(), ips).push(iface_entry(ifaces.last()@, ips))
    }
}

/// The af-packet capture section.
pub open spec fn af_packet(net: NetworkSection) -> Seq<char> {
    if net.interfaces@.len() == 0 {
        AF_PACKET_DEFAULT@
    } else {
        "af-packet:\n"@ + join_with(iface_entries(net.interfaces@, net.mode@ == "ips"@), "\n"@)
    }
}

/// The capture entry of interface `iface`, written out: the copy settings
/// come last and only in IPS mode.
pub open spec fn entry_text(iface: Seq<char>, ips: bool) -> Seq<char> {
    "    - interface: "@ + iface + "\n      cluster-id: 99\n      cluster-type: cluster_flow\n      defrag: yes"@
        + if ips {
        "\n      copy-mode: ips\n      copy-iface: default"@
    } else {
        ""@
    }
}

proof fn lemma_entries_text(ifaces: Seq<String>, ips: bool)
    ensures
        iface_entries(ifaces, ips) == Seq::new(ifaces.len(), |k: int| entry_text(ifaces[k]@, ips)),
    decreases ifaces.len(),
{
    reveal_strlit("");
    if ifaces.len() > 0 {
        lemma_entries_text(ifaces.drop_last(), ips);
        assert(iface_entry(ifaces.last()@, ips) =~= entry_text(ifaces.last()@, ips));
    }
    assert(iface_entries(ifaces, ips) =~= Seq::new(
        ifaces.len(),
        |k: int| entry_text(ifaces[k]@, ips),
    ));
}

/// The capture section lists one entry per configured interface, in order,
/// one per line; each entry carries the inline copy settings
/// (`copy-mode: ips`) exactly when the network mode is "ips". With no
/// interface it has the one default entry.
pub proof fn law_af_packet_entries(net: NetworkSection)
    ensures
        net.interfaces@.len() == 0 ==> af_packet(net)
            == "af-packet:\n    - interface: default\n      cluster-id: 99"@,
        net.interfaces@.len() > 0 ==> af_packet(net) == "af-packet:\n"@ + join_with(
            Seq::new(
                net.interfaces@.len(),
                |k: int| entry_text(net.interfaces@[k]@, net.mode@ == "ips"@),
            ),
            "\n"@,
        ),
{
    lemma_entries_text(net.interfaces@, net.mode@ == "ips"@);
}

/// The log directory suricata writes to.
pub open spec fn suricata_log_dir(run_dir: Seq<char>) -> Seq<char> {
    path_join(path_join(run_dir, "suricata"@), "log"@)
}

/// The whole suricata.yaml.
pub open spec fn suricata_yaml(c: GuardConfig) -> Seq<char> {
    YAML_HEAD@ + c.network.home_net@ + YAML_VARS@ + suricata_log_dir(c.guard.run_dir@)
        + YAML_OUTPUTS@ + af_packet(c.network) + YAML_TAIL@
}

/// The update source a ruleset name stands for.
pub open spec fn source_line(rs: Seq<char>) -> Seq<char> {
    if rs == "emerging-threats"@ {
        "  - et/open"@
    } else if rs == "abuse-ch"@ {
        "  - abuse-ch/urlhaus"@
    } else {
        "  - "@ + rs
    }
}

/// The source lines of a list of rulesets.
pub open spec fn source_lines(rs: Seq<String>) -> Seq<Seq<char>>
    decreases rs.len(),
{
    if rs.len() == 0 {
        seq![]
    } else {
        source_lines(rs.drop_last()).push(source_line(rs.last()@))
    }
}

/// The update sources: emerging-threats is the `et/open` source, abuse-ch
/// the `abuse-ch/urlhaus` source, and any other ruleset is listed by its
/// own name.
pub proof fn law_update_sources(rs: Seq<char>)
    ensures
        rs == "emerging-threats"@ ==> source_line(rs) == "  - et/open"@,
        rs == "abuse-ch"@ ==> source_line(rs) == "  - abuse-ch/urlhaus"@,
        rs != "emerging-threats"@ && rs != "abuse-ch"@ ==> source_line(rs) == "  - "@ + rs,
{
    reveal_strlit("emerging-threats");
    reveal_strlit("abuse-ch");
    assert("abuse-ch"@.len() != "emerging-threats"@.len());
}

/// The whole update.yaml.
pub open spec fn update_yaml(net: NetworkSection) -> Seq<char> {
    UPDATE_HEAD@ + join_with(source_lines(net.rulesets@), "\n"@) + UPDATE_TAIL@
}

fn push_joined(out: &mut String, items: &Vec<String>, sep: &str)
    ensures
        final(out)@ == old(out)@ + join_with(items@.map_values(|s: String| s@), sep@),
{
    let ghost views = items@.map_values(|s: String| s@);
    let ghost start = out@;
    let mut i: usize = 0;
    while i < items.len()
        invariant
            i <= items@.len(),
            views == items@.map_values(|s: String| s@),
            out@ == start + join_with(views.take(i as int), sep@),
        decreases items@.len() - i,
    {
        proof {
            assert(views.take(i + 1).drop_last() =~= views.take(i as int));
        }
        if i > 0 {
            push_str(out, sep);
        } else {
            proof {
                assert(views.take(0) =~= Seq::<Seq<char>>::empty());
            }
        }
        push_str(out, items[i].as_str());
        proof {
            assert(out@ =~= start + join_with(views.take(i + 1), sep@));
        }
        i = i + 1;
    }
    proof {
        assert(views.take(items@.len() as int) =~= views);
    }
}

proof fn lemma_entries_views(ifaces: Seq<String>, ips: bool, out: Seq<String>)
    requires
        out.len() == ifaces.len(),
        forall|i: int| 0 <= i < out.len() ==> #[trigger] out[i]@ == iface_entry(ifaces[i]@, ips),
    ensures
        out.map_values(|s: String| s@) == iface_entries(ifaces, ips),
    decreases ifaces.len(),
{
    if ifaces.len() > 0 {
        lemma_entries_views(ifaces.drop_last(), ips, out.drop_last());
        assert(out.map_values(|s: String| s@) =~= out.drop_last().map_values(|s: String| s@).push(
            out.last()@,
        ));
    } else {
        assert(out.map_values(|s: String| s@) =~= Seq::<Seq<char>>::empty());
    }
}

proof fn lemma_sources_views(rs: Seq<String>, out: Seq<String>)
    requires
        out.len() == rs.len(),
        forall|i: int| 0 <= i < out.len() ==> #[trigger] out[i]@ == source_line(rs[i]@),
    ensures
        out.map_values(|s: String| s@) == source_lines(rs),
    decreases rs.len(),
{
    if rs.len() > 0 {
        lemma_sources_views(rs.drop_last(), out.drop_last());
        assert(out.map_values(|s: String| s@) =~= out.drop_last().map_values(|s: String| s@).push(
            out.last()@,
        ));
    } else {
        assert(out.map_values(|s: String| s@) =~= Seq::<Seq<char>>::empty());
    }
}

/// Builds suricata.yaml: home network, log directory under the run
/// directory, and one af-packet entry per interface (with copy settings in
/// IPS mode), or a default entry when no interface is given.
pub fn build_suricata_yaml(config: &GuardConfig) -> (r: String)
    ensures
        r@ == suricata_yaml(*config),
{
    let net = &config.network;
    let is_ips = str_eq(net.mode.as_str(), "ips");
    let mut entries: Vec<String> = Vec::new();
    let mut i: usize = 0;
    while i < net.interfaces.len()
        invariant
            i <= net.interfaces@.len(),
            entries@.len() == i,
            forall|j: int|
                0 <= j < i ==> #[trigger] entries@[j]@ == iface_entry(net.interfaces@[j]@, is_ips),
        decreases net.interfaces@.len() - i,
    {
        let mut e = owned("    - interface: ");
        push_str(&mut e, net.interfaces[i].as_str());
        push_str(&mut e, IFACE_SETTINGS);
        if is_ips {
            push_str(&mut e, IFACE_IPS);
        } else {
            assert(e@ + Seq::<char>::empty() =~= e@);
        }
        entries.push(e);
        i = i + 1;
    }
    proof {
        lemma_entries_views(net.interfaces@, is_ips, entries@);
    }
    let mut af = String::new();
    if net.interfaces.len() == 0 {
        push_str(&mut af, AF_PACKET_DEFAULT);
    } else {
        push_str(&mut af, "af-packet:\n");
        push_joined(&mut af, &entries, "\n");
    }
    let s1 = join(config.guard.run_dir.as_str(), "suricata");
    let log_dir = join(s1.as_str(), "log");
    let mut y = owned(YAML_HEAD);
    push_str(&mut y, net.home_net.as_str());
    push_str(&mut y, YAML_VARS);
    push_str(&mut y, log_dir.as_str());
    push_str(&mut y, YAML_OUTPUTS);
    push_str(&mut y, af.as_str());
    push_str(&mut y, YAML_TAIL);
    proof {
        assert(af@ =~= af_packet(config.network));
        assert(y@ =~= suricata_yaml(*config));
    }
    y
}

/// Builds update.yaml: one source line per ruleset ("emerging-threats" is
/// et/open, "abuse-ch" is abuse-ch/urlhaus, others are taken as named).
pub fn build_update_yaml(net: &NetworkSection) -> (r: String)
    ensures
        r@ == update_yaml(*net),
{
    let mut lines: Vec<String> = Vec::new();
    let mut i: usize = 0;
    while i < net.rulesets.len()
        invariant
            i <= net.rulesets@.len(),
            lines@.len() == i,
            forall|j: int| 0 <= j < i ==> #[trigger] lines@[j]@ == source_line(net.rulesets@[j]@),
        decreases net.rulesets@.len() - i,
    {
        let rs = net.rulesets[i].as_str();
        let line = if str_eq(rs, "emerging-threats") {
            owned("  - et/open")
        } else if str_eq(rs, "abuse-ch") {
            owned("  - abuse-ch/urlhaus")
        } else {
            let mut l = owned("  - ");
            push_str(&mut l, rs);
            l
        };
        lines.push(line);
        i = i + 1;
    }
    proof {
        lemma_sources_views(net.rulesets@, lines@);
    }
    let mut y = owned(UPDATE_HEAD);
    push_joined(&mut y, &lines, "\n");
    push_str(&mut y, UPDATE_TAIL);
    proof {
        assert(y@ =~= update_yaml(*net));
    }
    y
}

/// A generated configuration file.
pub struct GeneratedFile {
    /// Where to write it.
    pub path: String,
    /// Its contents.
    pub contents: String,
}

/// The Suricata files to write: `<run_dir>/suricata/suricata.yaml` and
/// `<run_dir>/suricata/update.yaml`; the directory is returned first so it
/// can be created.
pub fn generate(config: &GuardConfig, run_dir: &str) -> (r: (String, Vec<GeneratedFile>))
    ensures
        r.0@ == path_join(run_dir@, "suricata"@),
        r.1@.len() == 2,
        r.1@[0].path@ == path_join(path_join(run_dir@, "suricata"@), "suricata.yaml"@),
        r.1@[0].contents@ == suricata_yaml(*config),
        r.1@[1].path@ == path_join(path_join(run_dir@, "suricata"@), "update.yaml"@),
        r.1@[1].contents@ == update_yaml(config.network),
{
    let dir = join(run_dir, "suricata");
    let mut files: Vec<GeneratedFile> = Vec::new();
    files.push(
        GeneratedFile {
            path: join(dir.as_str(), "suricata.yaml"),
            contents: build_suricata_yaml(config),
        },
    );
    files.push(
        GeneratedFile {
            path: join(dir.as_str(), "update.yaml"),
            contents: build_update_yaml(&config.network),
        },
    );
    (dir, files)
}

} // verus!

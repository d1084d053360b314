//! cgroups v2 service isolation.
//!
//! Each supervised service gets its own scope under `nexis.slice`:
//!
//! ```text
//! /sys/fs/cgroup/nexis.slice/<name>.scope/
//!   cgroup.procs  memory.max  cpu.weight  cpu.max  io.weight  pids.max
//! ```
//!
//! This module decides the scope's path and which knob files receive which
//! values; creating directories and writing files is the caller's work.
use crate::init::config::CgroupConfig;
use crate::text::{
    chars_of,
    decimal,
    i32_to_string,
    is_digit,
    is_ws,
    join,
    lemma_decimal_digits,
    lemma_parse_decimal,
    owned,
    parse_u64,
    parse_unsigned,
    path_join,
    push_str,
    signed_decimal,
    slice_chars,
    trim,
    trim_chars,
    trim_end,
    trim_start,
    u64_to_string,
};
use vstd::prelude::*;

verus! {

/// Base path of the cgroup v2 unified hierarchy.
pub const CGROUP_ROOT: &'static str = "/sys/fs/cgroup";

/// PID limit of a service that declares none.
pub const DEFAULT_PIDS_MAX: u64 = 4096;

/// Controllers enabled in the parent slice.
pub const SUBTREE_CONTROLLERS: &'static str = "+memory +cpu +io +pids";

/// Why a size text cannot be read as a byte count.
#[derive(Debug, Clone, Copy, PartialEq, Eq, Structural)]
pub enum SizeError {
    /// The number part is not a valid `u64`.
    InvalidNumber,
    /// The byte count the text stands for does not fit in a `u64`.
    TooLarge,
}

/// The number part of a size text and the multiplier of its unit suffix.
pub open spec fn size_parts(s: Seq<char>) -> (Seq<char>, nat) {
    let t = trim(s);
    if t.len() > 0 && t.last() == 'G' {
        (t.drop_last(), 1073741824nat)
    } else if t.len() > 0 && t.last() == 'M' {
        (t.drop_last(), 1048576nat)
    } else if t.len() > 0 && t.last() == 'K' {
        (t.drop_last(), 1024nat)
    } else {
        (t, 1nat)
    }
}

/// The number of a size text, if it has one, and the multiplier.
pub open spec fn size_number(s: Seq<char>) -> Option<nat> {
    parse_unsigned(trim(size_parts(s).0), u64::MAX as nat)
}

/// The byte count a size text stands for: "512M", "2G", "1024K" or plain
/// bytes, surrounding whitespace ignored.
pub open spec fn size_value(s: Seq<char>) -> Option<nat> {
    match size_number(s) {
        Some(n) => Some(n * size_parts(s).1),
        None => None,
    }
}

/// The size fits in a `u64` (or is not a valid size at all).
pub open spec fn size_fits(s: Seq<char>) -> bool {
    match size_value(s) {
        Some(v) => v <= u64::MAX,
        None => true,
    }
}

/// Text that neither starts nor ends with whitespace is its own trim.
proof fn lemma_trim_unpadded(t: Seq<char>)
    requires
        t.len() > 0,
        !is_ws(t[0]),
        !is_ws(t.last()),
    ensures
        trim(t) == t,
{
    assert(trim_start(t) == t);
    assert(trim_end(t) == t);
}

/// A size written as a number with a `G`, `M` or `K` unit, or none, stands
/// for the number times 2^30, 2^20, 2^10 or 1 bytes.
pub proof fn law_size_with_unit(n: u64)
    ensures
        size_value(decimal(n as nat) + seq!['G']) == Some(n as nat * 1073741824),
        size_value(decimal(n as nat) + seq!['M']) == Some(n as nat * 1048576),
        size_value(decimal(n as nat) + seq!['K']) == Some(n as nat * 1024),
        size_value(decimal(n as nat)) == Some(n as nat),
{
    let d = decimal(n as nat);
    lemma_parse_decimal(n as nat, u64::MAX as nat);
    lemma_decimal_digits(n as nat);
    assert(is_digit(d[0]));
    assert(is_digit(d.last()));
    lemma_trim_unpadded(d);
    assert(d.last() != 'G' && d.last() != 'M' && d.last() != 'K');
    assert(size_parts(d) == (d, 1nat));
    assert(n as nat * 1 == n as nat);
    let units = seq!['G', 'M', 'K'];
    assert forall|i: int| 0 <= i < 3 implies {
        let t = d + seq![#[trigger] units[i]];
        &&& trim(t) == t
        &&& t.last() == units[i]
        &&& t.drop_last() == d
    } by {
        let t = d + seq![units[i]];
        assert(t[0] == d[0]);
        lemma_trim_unpadded(t);
        assert(t.drop_last() =~= d);
    }
    assert(units[0] == 'G');
    assert(units[1] == 'M');
    assert(units[2] == 'K');
}

/// Decides whether a size text can be converted without exceeding `u64`.
pub fn size_in_range(s: &str) -> (r: bool)
    ensures
        r == size_fits(s@),
{
    let (num, mult) = split_size(s);
    match parse_u64(num.as_slice()) {
        Some(n) => {
            proof {
                assert((n <= u64::MAX / mult) == (n * mult <= u64::MAX)) by (nonlinear_arith)
                    requires
                        mult >= 1,
                {
                }
            }
            n <= u64::MAX / mult
        },
        None => true,
    }
}

fn split_size(s: &str) -> (r: (Vec<char>, u64))
    ensures
        r.0@ == trim(size_parts(s@).0),
        r.1 as nat == size_parts(s@).1,
        r.1 >= 1,
        size_number(s@) == parse_unsigned(r.0@, u64::MAX as nat),
{
    let v = chars_of(s);
    let t = trim_chars(v.as_slice());
    let n = t.len();
    let (body, mult): (Vec<char>, u64) = if n > 0 && t[n - 1] == 'G' {
        (slice_chars(t.as_slice(), 0, n - 1), 1073741824u64)
    } else if n > 0 && t[n - 1] == 'M' {
        (slice_chars(t.as_slice(), 0, n - 1), 1048576u64)
    } else if n > 0 && t[n - 1] == 'K' {
        (slice_chars(t.as_slice(), 0, n - 1), 1024u64)
    } else {
        (slice_chars(t.as_slice(), 0, n), 1u64)
    };
    proof {
        assert(t@.subrange(0, n - 1) =~= t@.drop_last()) by {
        }
        assert(t@.subrange(0, n as int) =~= t@);
    }
    (trim_chars(body.as_slice()), mult)
}

/// Parses a human-readable size ("512M", "2G", "1024K", plain bytes) into
/// a byte count.
pub fn parse_size(s: &str) -> (r: Result<u64, SizeError>)
    ensures
        r matches Ok(x) ==> size_value(s@) == Some(x as nat),
        r == Err::<u64, SizeError>(SizeError::InvalidNumber) <==> size_value(s@) is None,
        r == Err::<u64, SizeError>(SizeError::TooLarge) <==> !size_fits(s@),
{
    let (num, mult) = split_size(s);
    match parse_u64(num.as_slice()) {
        Some(n) => {
            proof {
                assert((n <= u64::MAX / mult) == (n * mult <= u64::MAX)) by (nonlinear_arith)
                    requires
                        mult >= 1,
                {
                }
            }
            if n <= u64::MAX / mult {
                Ok(n * mult)
            } else {
                Err(SizeError::TooLarge)
            }
        },
        None => Err(SizeError::InvalidNumber),
    }
}

/// Path of a service's cgroup scope.
pub open spec fn scope_path_spec(service: Seq<char>) -> Seq<char> {
    path_join(path_join("/sys/fs/cgroup"@, "nexis.slice"@), service + ".scope"@)
}

/// The cgroup scope directory of a service.
pub fn scope_path(service_name: &str) -> (r: String)
    ensures
        r@ == scope_path_spec(service_name@),
{
    let slice = join(CGROUP_ROOT, "nexis.slice");
    let mut leaf = owned(service_name);
    push_str(&mut leaf, ".scope");
    join(slice.as_str(), leaf.as_str())
}

/// The parent slice directory, where controllers are enabled.
pub fn slice_path() -> (r: String)
    ensures
        r@ == path_join("/sys/fs/cgroup"@, "nexis.slice"@),
{
    join(CGROUP_ROOT, "nexis.slice")
}

/// Joining different relative components onto one base gives different
/// paths.
proof fn lemma_join_distinct(base: Seq<char>, a: Seq<char>, b: Seq<char>)
    requires
        a.len() > 0,
        b.len() > 0,
        a[0] != '/',
        b[0] != '/',
        a != b,
    ensures
        path_join(base, a) != path_join(base, b),
{
    let pre = if base.len() == 0 || base.last() == '/' {
        base
    } else {
        base + seq!['/']
    };
    assert(path_join(base, a) == pre + a);
    assert(path_join(base, b) == pre + b);
    if pre + a == pre + b {
        assert((pre + a).skip(pre.len() as int) =~= a);
        assert((pre + b).skip(pre.len() as int) =~= b);
    }
}

/// A value to write into a knob file.
pub struct KnobWrite {
    /// Path of the knob file.
    pub path: String,
    /// Text to write.
    pub value: String,
}

/// The knob writes that apply a service's limits to its scope, in order:
/// memory.max, cpu.weight, cpu.max, io.weight (each only when configured),
/// then pids.max (the configured limit or 4096).
pub open spec fn knob_writes(scope: Seq<char>, c: CgroupConfig, mem: Option<nat>) -> Seq<(Seq<char>, Seq<char>)> {
    let m = match c.memory_max {
        Some(_) => seq![(path_join(scope, "memory.max"@), decimal(mem.unwrap()))],
        None => seq![],
    };
    let w = match c.cpu_weight {
        Some(x) => seq![(path_join(scope, "cpu.weight"@), decimal(x as nat))],
        None => seq![],
    };
    let q = match c.cpu_quota {
        Some(x) => seq![(path_join(scope, "cpu.max"@), x@)],
        None => seq![],
    };
    let io = match c.io_weight {
        Some(x) => seq![(path_join(scope, "io.weight"@), decimal(x as nat))],
        None => seq![],
    };
    let p = match c.pids_max {
        Some(x) => x,
        None => 4096u64,
    };
    m + w + q + io + seq![(path_join(scope, "pids.max"@), decimal(p as nat))]
}

/// The plan writes the IO weight to `io.weight` when one is configured, and
/// writes `cpu.weight` only when a CPU weight is configured, with that
/// weight: the two weights never trade places.
pub proof fn law_weights_go_to_their_knobs(scope: Seq<char>, c: CgroupConfig, mem: Option<nat>)
    ensures
        c.io_weight matches Some(w) ==> knob_writes(scope, c, mem).contains(
            (path_join(scope, "io.weight"@), decimal(w as nat)),
        ),
        c.cpu_weight matches Some(w) ==> knob_writes(scope, c, mem).contains(
            (path_join(scope, "cpu.weight"@), decimal(w as nat)),
        ),
        forall|i: int|
            0 <= i < knob_writes(scope, c, mem).len() && (#[trigger] knob_writes(scope, c, mem)[i]).0
                == path_join(scope, "cpu.weight"@) ==> (c.cpu_weight matches Some(w)
                && knob_writes(scope, c, mem)[i].1 == decimal(w as nat)),
        forall|i: int|
            0 <= i < knob_writes(scope, c, mem).len() && (#[trigger] knob_writes(scope, c, mem)[i]).0
                == path_join(scope, "io.weight"@) ==> (c.io_weight matches Some(w)
                && knob_writes(scope, c, mem)[i].1 == decimal(w as nat)),
{
    reveal_strlit("io.weight");
    reveal_strlit("cpu.weight");
    reveal_strlit("memory.max");
    reveal_strlit("cpu.max");
    reveal_strlit("pids.max");
    let names = seq!["memory.max"@, "cpu.weight"@, "cpu.max"@, "io.weight"@, "pids.max"@];
    assert forall|x: int, y: int| 0 <= x < 5 && 0 <= y < 5 && x != y implies path_join(
        scope,
        #[trigger] names[x],
    ) != path_join(scope, #[trigger] names[y]) by {
        assert(names[x].len() > 0 && names[x][0] != '/');
        assert(names[y].len() > 0 && names[y][0] != '/');
        lemma_join_distinct(scope, names[x], names[y]);
    }
    let mem_p = path_join(scope, names[0]);
    let cpu_p = path_join(scope, names[1]);
    let quota_p = path_join(scope, names[2]);
    let io_p = path_join(scope, names[3]);
    let pids_p = path_join(scope, names[4]);
    assert(cpu_p != mem_p && cpu_p != quota_p && cpu_p != io_p && cpu_p != pids_p);
    assert(io_p != mem_p && io_p != quota_p && io_p != pids_p);
    let k = knob_writes(scope, c, mem);
    let m = match c.memory_max {
        Some(_) => seq![(mem_p, decimal(mem.unwrap()))],
        None => seq![],
    };
    let w = match c.cpu_weight {
        Some(x) => seq![(cpu_p, decimal(x as nat))],
        None => seq![],
    };
    let q = match c.cpu_quota {
        Some(x) => seq![(quota_p, x@)],
        None => seq![],
    };
    let io = match c.io_weight {
        Some(x) => seq![(io_p, decimal(x as nat))],
        None => seq![],
    };
    let pids = match c.pids_max {
        Some(x) => x,
        None => 4096u64,
    };
    let p = seq![(pids_p, decimal(pids as nat))];
    assert(k =~= m + w + q + io + p);
    match c.io_weight {
        Some(x) => {
            assert(k[(m.len() + w.len() + q.len()) as int] == (io_p, decimal(x as nat)));
        },
        None => {},
    }
    match c.cpu_weight {
        Some(x) => {
            assert(k[m.len() as int] == (cpu_p, decimal(x as nat)));
        },
        None => {},
    }
    assert forall|i: int| 0 <= i < k.len() && (#[trigger] k[i]).0 == cpu_p implies (c.cpu_weight
        matches Some(x) && k[i].1 == decimal(x as nat)) by {
        if i < m.len() {
            assert(k[i] == m[i]);
        } else if i < m.len() + w.len() {
            assert(k[i] == w[i - m.len()]);
        } else if i < m.len() + w.len() + q.len() {
            assert(k[i] == q[i - m.len() - w.len()]);
        } else if i < m.len() + w.len() + q.len() + io.len() {
            assert(k[i] == io[i - m.len() - w.len() - q.len()]);
        } else {
            assert(k[i] == p[i - m.len() - w.len() - q.len() - io.len()]);
        }
    }
    assert forall|i: int| 0 <= i < k.len() && (#[trigger] k[i]).0 == io_p implies (c.io_weight
        matches Some(x) && k[i].1 == decimal(x as nat)) by {
        if i < m.len() {
            assert(k[i] == m[i]);
        } else if i < m.len() + w.len() {
            assert(k[i] == w[i - m.len()]);
        } else if i < m.len() + w.len() + q.len() {
            assert(k[i] == q[i - m.len() - w.len()]);
        } else if i < m.len() + w.len() + q.len() + io.len() {
            assert(k[i] == io[i - m.len() - w.len() - q.len()]);
        } else {
            assert(k[i] == p[i - m.len() - w.len() - q.len() - io.len()]);
        }
    }
}

/// The plan always ends by writing the PID limit: the configured one, or
/// 4096 when none is configured; a memory limit, when configured, is written
/// to `memory.max` first, and a CPU quota goes to `cpu.max` as written.
pub proof fn law_pids_and_memory_knobs(scope: Seq<char>, c: CgroupConfig, mem: Option<nat>)
    ensures
        knob_writes(scope, c, mem).last() == (path_join(scope, "pids.max"@), decimal(
            match c.pids_max {
                Some(p) => p as nat,
                None => 4096nat,
            },
        )),
        c.memory_max is Some ==> knob_writes(scope, c, mem)[0] == (path_join(scope, "memory.max"@), decimal(mem.unwrap())),
        c.cpu_quota matches Some(q) ==> knob_writes(scope, c, mem).contains(
            (path_join(scope, "cpu.max"@), q@),
        ),
{
    let k = knob_writes(scope, c, mem);
    match c.cpu_quota {
        Some(q) => {
            let i = (if c.memory_max is Some { 1int } else { 0 }) + (if c.cpu_weight is Some {
                1int
            } else {
                0
            });
            assert(k[i] == (path_join(scope, "cpu.max"@), q@));
        },
        None => {},
    }
}

/// The byte count of a configuration's memory limit, if it declares one.
pub open spec fn memory_value(c: CgroupConfig) -> Option<nat> {
    match c.memory_max {
        Some(s) => size_value(s@),
        None => None,
    }
}

/// The memory limit of a configuration can be applied (no limit, or a size
/// that fits).
pub open spec fn memory_ok(c: CgroupConfig) -> bool {
    match c.memory_max {
        Some(s) => size_fits(s@),
        None => true,
    }
}

fn push_knob(w: &mut Vec<KnobWrite>, scope: &str, knob: &str, value: String)
    ensures
        final(w)@.len() == old(w)@.len() + 1,
        forall|i: int| 0 <= i < old(w)@.len() ==> #[trigger] final(w)@[i] == old(w)@[i],
        final(w)@.last().path@ == path_join(scope@, knob@),
        final(w)@.last().value@ == value@,
{
    let path = join(scope, knob);
    w.push(KnobWrite { path, value });
}

/// Plans the knob writes for a service scope. Fails when the memory limit
/// is not a valid size, or too large for a `u64`.
pub fn scope_knobs(scope: &str, config: &CgroupConfig) -> (r: Result<Vec<KnobWrite>, SizeError>)
    ensures
        r == Err::<Vec<KnobWrite>, SizeError>(SizeError::InvalidNumber) <==> (
        config.memory_max matches Some(s) && size_value(s@) is None),
        r == Err::<Vec<KnobWrite>, SizeError>(SizeError::TooLarge) <==> !memory_ok(*config),
        r matches Ok(w) ==> ({
            let spec_w = knob_writes(scope@, *config, memory_value(*config));
            &&& w@.len() == spec_w.len()
            &&& forall|i: int|
                0 <= i < w@.len() ==> (#[trigger] w@[i]).path@ == spec_w[i].0 && w@[i].value@
                    == spec_w[i].1
        }),
{
    let mut w: Vec<KnobWrite> = Vec::new();
    let ghost mut expected: Seq<(Seq<char>, Seq<char>)> = seq![];
    match &config.memory_max {
        Some(limit) => {
            match parse_size(limit.as_str()) {
                Ok(bytes) => {
                    push_knob(&mut w, scope, "memory.max", u64_to_string(bytes));
                    proof {
                        expected = expected.push((path_join(scope@, "memory.max"@), decimal(bytes as nat)));
                    }
                },
                Err(e) => {
                    return Err(e);
                },
            }
        },
        None => {},
    }
    match config.cpu_weight {
        Some(x) => {
            push_knob(&mut w, scope, "cpu.weight", u64_to_string(x as u64));
            proof {
                expected = expected.push((path_join(scope@, "cpu.weight"@), decimal(x as nat)));
            }
        },
        None => {},
    }
    match &config.cpu_quota {
        Some(q) => {
            push_knob(&mut w, scope, "cpu.max", q.clone());
            proof {
                expected = expected.push((path_join(scope@, "cpu.max"@), q@));
            }
        },
        None => {},
    }
    match config.io_weight {
        Some(x) => {
            push_knob(&mut w, scope, "io.weight", u64_to_string(x as u64));
            proof {
                expected = expected.push((path_join(scope@, "io.weight"@), decimal(x as nat)));
            }
        },
        None => {},
    }
    let pids = match config.pids_max {
        Some(x) => x,
        None => DEFAULT_PIDS_MAX,
    };
    push_knob(&mut w, scope, "pids.max", u64_to_string(pids));
    proof {
        expected = expected.push((path_join(scope@, "pids.max"@), decimal(pids as nat)));
        assert(expected =~= knob_writes(scope@, *config, memory_value(*config)));
    }
    Ok(w)
}

/// Moving a process into a cgroup: write its PID to `cgroup.procs`.
pub fn place_pid(cgroup_path: &str, pid: i32) -> (r: KnobWrite)
    ensures
        r.path@ == path_join(cgroup_path@, "cgroup.procs"@),
        r.value@ == signed_decimal(pid as int),
{
    KnobWrite { path: join(cgroup_path, "cgroup.procs"), value: i32_to_string(pid) }
}

} // verus!

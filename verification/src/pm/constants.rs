//! Paths, limits and settings of the package manager.
use crate::text::owned;
use vstd::prelude::*;

verus! {

/// Root directory of the package store.
pub const NEXIS_STORE_ROOT: &'static str = "/nexis-store";

/// Package storage directory.
pub const NEXIS_STORE_PACKAGES: &'static str = "/nexis-store/packages";

/// File storage directory (content-addressed).
pub const NEXIS_STORE_FILES: &'static str = "/nexis-store/files";

/// Store metadata database.
pub const NEXIS_STORE_METADATA: &'static str = "/nexis-store/metadata.redb";

/// Generations directory.
pub const NEXIS_GENERATIONS: &'static str = "/nexis-store/generations";

/// Temporary build directory.
pub const NEXIS_BUILD_TMP: &'static str = "/nexis-store/.tmp";

/// Garbage collection trash directory.
pub const NEXIS_GC_TRASH: &'static str = "/nexis-store/.trash";

/// Main configuration directory.
pub const NEXIS_CONFIG_DIR: &'static str = "/etc/nexis";

/// System configuration file.
pub const NEXIS_SYSTEM_CONFIG: &'static str = "/etc/nexis/system.toml";

/// Profile templates directory.
pub const NEXIS_PROFILES_DIR: &'static str = "/etc/nexis/profiles";

/// Machine-specific configurations directory.
pub const NEXIS_MACHINES_DIR: &'static str = "/etc/nexis/machines";

/// Lock file path.
pub const NEXIS_LOCK_FILE: &'static str = "/etc/nexis/nexis.lock";

/// System binary directory.
pub const SYSTEM_BIN_DIR: &'static str = "/usr/bin";

/// System library directory.
pub const SYSTEM_LIB_DIR: &'static str = "/usr/lib";

/// System configuration directory.
pub const SYSTEM_ETC_DIR: &'static str = "/etc";

/// Boot directory.
pub const SYSTEM_BOOT_DIR: &'static str = "/boot";

/// Default number of parallel build workers.
pub const DEFAULT_PARALLEL_BUILDS: usize = 4;

/// Maximum number of parallel downloads.
pub const MAX_PARALLEL_DOWNLOADS: usize = 8;

/// Maximum number of generations to keep (0 = unlimited).
pub const MAX_GENERATIONS_KEEP: usize = 10;

/// Store object hash prefix length (for bucketing: ab/cd/abcd...).
pub const HASH_PREFIX_LENGTH: usize = 2;

/// Download timeout in seconds.
pub const DOWNLOAD_TIMEOUT_SECS: u64 = 300;

/// Build timeout in seconds (0 = no timeout).
pub const BUILD_TIMEOUT_SECS: u64 = 3600;

/// Hash algorithm identifier.
pub const HASH_ALGORITHM: &'static str = "blake3";

/// Compression algorithm for store objects.
pub const COMPRESSION_ALGORITHM: &'static str = "zstd";

/// Compression level (1-22 for zstd).
pub const COMPRESSION_LEVEL: i32 = 3;

/// SELinux context for store objects.
pub const SELINUX_STORE_CONTEXT: &'static str = "system_u:object_r:immutable_dir_t:s0";

/// SELinux context for the package manager's binary.
pub const SELINUX_NEXISPM_CONTEXT: &'static str = "system_u:system_r:nexispm_t:s0";

/// Log directory.
pub const NEXIS_LOG_DIR: &'static str = "/var/log/nexis";

/// Main log file.
pub const NEXIS_LOG_FILE: &'static str = "/var/log/nexis/nexispm.log";

/// Build log directory.
pub const NEXIS_BUILD_LOG_DIR: &'static str = "/var/log/nexis/builds";

/// User operation log directory.
pub const NEXIS_USER_LOG_DIR: &'static str = "/var/log/nexis/users";

/// Version cache duration in hours.
pub const VERSION_CACHE_DURATION_HOURS: u64 = 24;

/// Default file mode (0644).
pub const DEFAULT_FILE_MODE: u32 = 0o644;

/// Default directory mode (0755).
pub const DEFAULT_DIR_MODE: u32 = 0o755;

/// Default executable mode (0755).
pub const DEFAULT_EXEC_MODE: u32 = 0o755;

/// The store root.
pub fn store_root() -> (r: String)
    ensures
        r@ == NEXIS_STORE_ROOT@,
{
    owned(NEXIS_STORE_ROOT)
}

/// The packages directory.
pub fn packages_dir() -> (r: String)
    ensures
        r@ == NEXIS_STORE_PACKAGES@,
{
    owned(NEXIS_STORE_PACKAGES)
}

/// The files directory.
pub fn files_dir() -> (r: String)
    ensures
        r@ == NEXIS_STORE_FILES@,
{
    owned(NEXIS_STORE_FILES)
}

/// The generations directory.
pub fn generations_dir() -> (r: String)
    ensures
        r@ == NEXIS_GENERATIONS@,
{
    owned(NEXIS_GENERATIONS)
}

/// The configuration directory.
pub fn config_dir() -> (r: String)
    ensures
        r@ == NEXIS_CONFIG_DIR@,
{
    owned(NEXIS_CONFIG_DIR)
}

/// The profiles directory.
pub fn profiles_dir() -> (r: String)
    ensures
        r@ == NEXIS_PROFILES_DIR@,
{
    owned(NEXIS_PROFILES_DIR)
}

/// The machines directory.
pub fn machines_dir() -> (r: String)
    ensures
        r@ == NEXIS_MACHINES_DIR@,
{
    owned(NEXIS_MACHINES_DIR)
}

/// `num_cpus::get`: the number of logical CPUs available to this process,
/// which the crate documents as at least 1; the count itself depends on the
/// machine and is not stated.
#[verifier::external_body]
fn cpu_count() -> (r: usize)
    ensures
        r >= 1,
{
    num_cpus::get()
}

/// The most workers a build runs.
pub open spec fn max_workers() -> nat {
    (DEFAULT_PARALLEL_BUILDS * 2) as nat
}

/// Number of parallel workers for a CPU count: the count, at least 1 and at
/// most twice the default number of builds.
pub fn workers_for(cpus: usize) -> (r: usize)
    ensures
        r == (if cpus < 1 {
            1
        } else if cpus > max_workers() {
            max_workers()
        } else {
            cpus as nat
        }),
{
    let at_least_one = if cpus < 1 {
        1
    } else {
        cpus
    };
    let cap = DEFAULT_PARALLEL_BUILDS * 2;
    if at_least_one > cap {
        cap
    } else {
        at_least_one
    }
}

/// Number of parallel workers for this machine (see `workers_for`).
pub fn calculate_workers() -> (r: usize)
    ensures
        1 <= r <= max_workers(),
{
    workers_for(cpu_count())
}

} // verus!

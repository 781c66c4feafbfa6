//! Snapshot metadata: the facts captured once at snapshot build time.

use vstd::prelude::*;
use vstd::string::StringExecFns;

verus! {

/// Build-host platform constants: the architecture and OS names the engine
/// was built for, and the embedded engine's own version string. The host
/// reads these from its build configuration and hands them in unchanged.
pub struct BuildHost {
    /// Architecture name, e.g. `x86_64`.
    pub arch: String,
    /// OS name, e.g. `linux`.
    pub os: String,
    /// Version string of the embedded script engine.
    pub v8_version: String,
}

/// Version metadata baked into a snapshot image at build time.
pub struct SnapshotOptions {
    /// Version of the scripting language's own toolchain, or the sentinel
    /// `n/a` when not applicable.
    pub ts_version: String,
    /// Version string of the embedded script engine.
    pub v8_version: String,
    /// Architecture-OS-ABI identifier of the build host.
    pub target: String,
}

/// The lifecycle of the process-wide snapshot metadata slot.
pub enum SnapshotSlot {
    /// No metadata stored; a query synthesizes a default from the build host.
    Unset,
    /// The host supplied metadata explicitly before the build phase began.
    Populated(SnapshotOptions),
    /// The metadata has been read and removed; terminal outside hot reload.
    Consumed,
}

/// Maps an OS name to the build host's target triple: the architecture,
/// then a suffix fixed by the OS name, with unrecognized OS names kept
/// literally as the suffix.
pub open spec fn spec_target_triple(arch: Seq<char>, os: Seq<char>) -> Seq<char> {
    if os == "macos"@ {
        arch + "-apple-darwin"@
    } else if os == "linux"@ {
        arch + "-unknown-linux-gnu"@
    } else if os == "windows"@ {
        arch + "-pc-windows-msvc"@
    } else {
        arch + "-"@ + os
    }
}

/// Derives the build host's target triple from its platform constants.
pub fn target_triple(arch: &String, os: &String) -> (triple: String)
    ensures
        triple@ == spec_target_triple(arch@, os@),
{
    let mut triple = arch.clone();
    if *os == "macos".to_owned() {
        triple.append("-apple-darwin");
    } else if *os == "linux".to_owned() {
        triple.append("-unknown-linux-gnu");
    } else if *os == "windows".to_owned() {
        triple.append("-pc-windows-msvc");
    } else {
        triple.append("-");
        triple.append(os.as_str());
    }
    triple
}

impl SnapshotOptions {
    /// The default metadata a query synthesizes when the slot is `Unset`:
    /// the sentinel language version, the engine version as given, and the
    /// target triple derived from the build host's platform constants.
    pub open spec fn is_default_for(self, host: BuildHost) -> bool {
        &&& self.ts_version@ == "n/a"@
        &&& self.v8_version@ == host.v8_version@
        &&& self.target@ == spec_target_triple(host.arch@, host.os@)
    }

    /// Synthesizes the default metadata for the given build host.
    pub fn default_for(host: &BuildHost) -> (opts: SnapshotOptions)
        ensures
            opts.is_default_for(*host),
    {
        SnapshotOptions {
            ts_version: "n/a".to_owned(),
            v8_version: host.v8_version.clone(),
            target: target_triple(&host.arch, &host.os),
        }
    }
}

} // verus!

//! The immutable per-environment options record and the queries that read it.

use vstd::prelude::*;

verus! {

/// Terminal color capability, from no color support up to 24-bit color.
#[derive(Clone, Copy, PartialEq, Eq, Structural, Debug)]
pub enum ColorLevel {
    NoColor,
    Ansi,
    Ansi256,
    TrueColor,
}

/// Environment-derived facts, captured once by the host before the script
/// environment starts and never mutated afterwards.
pub struct BootstrapOptions {
    /// User-supplied command-line arguments, order-preserving.
    pub args: Vec<String>,
    /// CPU count supplied by the host; never recomputed here.
    pub cpu_count: u32,
    /// User-agent string of the embedding.
    pub user_agent: String,
    /// BCP-47 style locale tag.
    pub locale: String,
    /// Numeric encoding of the host's log-level setting.
    pub log_level: i32,
    /// Detected terminal color capability.
    pub color_level: ColorLevel,
    /// Ids of enabled unstable features; indices into the feature-name table.
    pub unstable_features: Vec<u32>,
}

/// The color depth each capability level encodes: exactly one of 1, 4, 8, 24.
pub open spec fn spec_color_depth(level: ColorLevel) -> i32 {
    match level {
        ColorLevel::NoColor => 1,
        ColorLevel::Ansi => 4,
        ColorLevel::Ansi256 => 8,
        ColorLevel::TrueColor => 24,
    }
}

/// Returns a copy of the command-line arguments, order preserved.
pub fn op_bootstrap_args(options: &BootstrapOptions) -> (args: Vec<String>)
    ensures
        args.deep_view() == options.args.deep_view(),
{
    let out = options.args.clone();
    proof {
        assert forall|i: int| 0 <= i < options.args@.len() implies options.args@[i]
            == out@[i] by {
            assert(vstd::pervasive::cloned::<String>(options.args[i], out[i]));
        }
        assert(options.args@ =~= out@);
    }
    out
}

/// Returns the CPU count the host supplied.
pub fn op_bootstrap_numcpus(options: &BootstrapOptions) -> (n: u32)
    ensures
        n == options.cpu_count,
{
    options.cpu_count
}

/// Returns a copy of the stored user-agent string.
pub fn op_bootstrap_user_agent(options: &BootstrapOptions) -> (ua: String)
    ensures
        ua@ == options.user_agent@,
{
    options.user_agent.clone()
}

/// Returns a copy of the stored locale tag.
pub fn op_bootstrap_language(options: &BootstrapOptions) -> (locale: String)
    ensures
        locale@ == options.locale@,
{
    options.locale.clone()
}

/// Returns the numeric encoding of the log level.
pub fn op_bootstrap_log_level(options: &BootstrapOptions) -> (level: i32)
    ensures
        level == options.log_level,
{
    options.log_level
}

/// Maps the color capability level to its numeric bit depth.
pub fn op_bootstrap_color_depth(options: &BootstrapOptions) -> (depth: i32)
    ensures
        depth == spec_color_depth(options.color_level),
{
    match options.color_level {
        ColorLevel::NoColor => 1,
        ColorLevel::Ansi => 4,
        ColorLevel::Ansi256 => 8,
        ColorLevel::TrueColor => 24,
    }
}

/// The color-depth mapping is total on the capability enum: every level maps
/// to exactly one of 1, 4, 8 or 24, and the mapping is a fixed function of
/// the level, so repeated queries of one options record agree.
pub proof fn lemma_color_depth_total(level: ColorLevel)
    ensures
        spec_color_depth(level) == 1 || spec_color_depth(level) == 4
            || spec_color_depth(level) == 8 || spec_color_depth(level) == 24,
{
}

} // verus!

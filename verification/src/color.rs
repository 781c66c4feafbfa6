//! Color suppression queries: pure logic over a captured reading of the
//! process's color-relevant environment, plus the capture itself.

use vstd::prelude::*;

verus! {

/// One reading of the process facts the color queries consult. The detection
/// heuristics behind it are external; the queries are pure functions of the
/// captured flags.
#[derive(Clone, Copy, PartialEq, Eq, Structural, Debug)]
pub struct ColorEnvironment {
    /// The host environment signals that color output is forced on.
    pub force_color: bool,
    /// Color output is globally enabled.
    pub use_color: bool,
    /// Stdout is an interactive terminal.
    pub stdout_tty: bool,
    /// Stderr is an interactive terminal.
    pub stderr_tty: bool,
}

impl ColorEnvironment {
    /// Holds of every reading derived from the process environment alone:
    /// forcing color on also enables color globally. An explicit later
    /// override of the global switch is the one way to break it.
    pub open spec fn consistent(self) -> bool {
        self.force_color ==> self.use_color
    }
}

/// Color output is globally disabled.
pub open spec fn spec_no_color(env: ColorEnvironment) -> bool {
    !env.use_color
}

/// Color is suppressed on one stream: never when color is forced on, and
/// otherwise exactly when the stream is not an interactive terminal or color
/// is globally disabled.
pub open spec fn spec_stream_no_color(
    force_color: bool,
    use_color: bool,
    stream_tty: bool,
) -> bool {
    !force_color && (!stream_tty || !use_color)
}

/// Relies on deno_terminal::colors::force_color: whether the process
/// environment signals that color output is forced on.
#[verifier::external_body]
fn detect_force_color() -> bool {
    deno_terminal::colors::force_color()
}

/// Relies on deno_terminal::colors::use_color: whether color output is
/// globally enabled for this process.
#[verifier::external_body]
fn detect_use_color() -> bool {
    deno_terminal::colors::use_color()
}

/// Relies on deno_terminal::is_stdout_tty: whether stdout is an interactive
/// terminal.
#[verifier::external_body]
fn detect_stdout_tty() -> bool {
    deno_terminal::is_stdout_tty()
}

/// Relies on deno_terminal::is_stderr_tty: whether stderr is an interactive
/// terminal.
#[verifier::external_body]
fn detect_stderr_tty() -> bool {
    deno_terminal::is_stderr_tty()
}

/// Captures the process's color-relevant facts in one reading. The result
/// depends on the process environment, so nothing is promised of its value;
/// every query over it is verified for every possible reading.
pub fn capture_color_environment() -> ColorEnvironment {
    ColorEnvironment {
        force_color: detect_force_color(),
        use_color: detect_use_color(),
        stdout_tty: detect_stdout_tty(),
        stderr_tty: detect_stderr_tty(),
    }
}

/// Reports whether color output is globally disabled.
pub fn op_bootstrap_no_color(env: &ColorEnvironment) -> (no_color: bool)
    ensures
        no_color == spec_no_color(*env),
{
    !env.use_color
}

/// Reports whether color is suppressed on stdout.
pub fn op_bootstrap_stdout_no_color(env: &ColorEnvironment) -> (no_color: bool)
    ensures
        no_color == spec_stream_no_color(env.force_color, env.use_color, env.stdout_tty),
{
    if env.force_color {
        return false;
    }
    !env.stdout_tty || !env.use_color
}

/// Reports whether color is suppressed on stderr; symmetric with stdout,
/// evaluated against the stderr stream.
pub fn op_bootstrap_stderr_no_color(env: &ColorEnvironment) -> (no_color: bool)
    ensures
        no_color == spec_stream_no_color(env.force_color, env.use_color, env.stderr_tty),
{
    if env.force_color {
        return false;
    }
    !env.stderr_tty || !env.use_color
}

/// Force-enabled color is never suppressed, regardless of TTY state: both
/// stream queries answer false outright, and the global query answers false
/// for every consistent reading, where forcing color on also enables it
/// globally.
pub proof fn lemma_force_color_never_suppresses(env: ColorEnvironment)
    requires
        env.force_color,
    ensures
        !spec_stream_no_color(env.force_color, env.use_color, env.stdout_tty),
        !spec_stream_no_color(env.force_color, env.use_color, env.stderr_tty),
        env.consistent() ==> !spec_no_color(env),
{
}

} // verus!

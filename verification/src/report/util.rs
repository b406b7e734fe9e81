//! How long a report waits for the programs that it starts.

use crate::text;
use crate::text::{decimal_text, join2, join3, join4, owned};
use vstd::prelude::*;

verus! {

/// The pause between two looks at a program, in milliseconds.
pub const POLL_MS: u64 = 500;

/// A number of seconds as a duration is printed.
pub open spec fn duration_text(secs: u64) -> Seq<char> {
    if secs == 0 {
        "0ns"@
    } else {
        text::decimal(secs as nat) + "s"@
    }
}

/// A number of seconds as a duration is printed.
pub fn print_duration(secs: u64) -> (out: String)
    ensures
        out@ == duration_text(secs),
{
    if secs == 0 {
        "0ns".to_owned()
    } else {
        join2(decimal_text(secs).as_str(), "s")
    }
}

/// The file name of a program.
pub fn executable_name(name: &str, windows: bool) -> (file: String)
    ensures
        file@ == if windows {
            name@ + ".exe"@
        } else {
            name@
        },
{
    if windows {
        join2(name, ".exe")
    } else {
        owned(name)
    }
}

/// What is said of a program that is not there.
pub fn missing_binary(path: &str) -> (message: String)
    ensures
        message@ == "required sibling binary "@ + path@
            + " does not exist; run `cargo build --bins` first"@,
{
    join3(
        "required sibling binary ",
        path,
        " does not exist; run `cargo build --bins` first",
    )
}

/// Whether so many milliseconds are at least so many seconds.
pub open spec fn is_over(elapsed_ms: u64, timeout_secs: u64) -> bool {
    elapsed_ms >= timeout_secs * 1_000
}

/// Whether so many milliseconds are at least so many seconds.
fn over(elapsed_ms: u64, timeout_secs: u64) -> (is: bool)
    ensures
        is == is_over(elapsed_ms, timeout_secs),
{
    elapsed_ms as u128 >= timeout_secs as u128 * 1_000u128
}

/// What to do while the server starts.
#[derive(Debug)]
pub enum ReadyStep {
    /// It takes connections.
    Ready,
    /// Look again after a pause.
    Sleep,
    /// Give up for the stated reason.
    Fail(String),
}

/// Whether a step is what to do while the server starts.
pub open spec fn is_ready_step(
    step: ReadyStep,
    bind_addr: Seq<char>,
    elapsed_ms: u64,
    timeout_secs: u64,
    connected: bool,
    exited: Option<String>,
) -> bool {
    if is_over(elapsed_ms, timeout_secs) {
        step matches ReadyStep::Fail(reason) && reason@ == "agent_mcp did not become ready at "@
            + bind_addr + " within "@ + duration_text(timeout_secs)
    } else if connected {
        step is Ready
    } else {
        match exited {
            Some(status) => step matches ReadyStep::Fail(reason) && reason@
                == "agent_mcp exited before opening "@ + bind_addr + ": "@ + status@,
            None => step is Sleep,
        }
    }
}

/// What to do while the server starts. Connecting is tried, and the server's end
/// looked for, only within the time it has.
pub fn wait_for_agent(
    bind_addr: &str,
    elapsed_ms: u64,
    timeout_secs: u64,
    connected: bool,
    exited: Option<String>,
) -> (step: ReadyStep)
    ensures
        is_ready_step(step, bind_addr@, elapsed_ms, timeout_secs, connected, exited),
{
    if over(elapsed_ms, timeout_secs) {
        return ReadyStep::Fail(
            join4(
                "agent_mcp did not become ready at ",
                bind_addr,
                " within ",
                print_duration(timeout_secs).as_str(),
            ),
        );
    }
    if connected {
        return ReadyStep::Ready;
    }
    match exited {
        Some(status) => ReadyStep::Fail(
            join4("agent_mcp exited before opening ", bind_addr, ": ", status.as_str()),
        ),
        None => ReadyStep::Sleep,
    }
}

/// What to do while a program runs.
#[derive(Debug)]
pub enum RunStep {
    /// It has ended.
    Finished,
    /// Look again after a pause.
    Sleep,
    /// End it for the stated reason.
    Kill(String),
}

/// Whether a step is what to do while a program runs.
pub open spec fn is_run_step(
    step: RunStep,
    ended: bool,
    elapsed_ms: u64,
    timeout_secs: u64,
) -> bool {
    if ended {
        step is Finished
    } else if is_over(elapsed_ms, timeout_secs) {
        step matches RunStep::Kill(reason) && reason@ == "command timed out after "@
            + duration_text(timeout_secs)
    } else {
        step is Sleep
    }
}

/// What to do while a program runs.
pub fn run_with_timeout(ended: bool, elapsed_ms: u64, timeout_secs: u64) -> (step: RunStep)
    ensures
        is_run_step(step, ended, elapsed_ms, timeout_secs),
{
    if ended {
        RunStep::Finished
    } else if over(elapsed_ms, timeout_secs) {
        RunStep::Kill(
            join2("command timed out after ", print_duration(timeout_secs).as_str()),
        )
    } else {
        RunStep::Sleep
    }
}

/// The server is ready as soon as it takes connections within its time; it has
/// failed once its time is over or it has ended, and is waited for otherwise.
pub proof fn servers_have_their_time(
    step: ReadyStep,
    bind_addr: Seq<char>,
    elapsed_ms: u64,
    timeout_secs: u64,
    connected: bool,
    exited: Option<String>,
)
    requires
        is_ready_step(step, bind_addr, elapsed_ms, timeout_secs, connected, exited),
    ensures
        elapsed_ms >= 1_000 * timeout_secs ==> step is Fail,
        elapsed_ms < 1_000 * timeout_secs && connected ==> step is Ready,
        elapsed_ms < 1_000 * timeout_secs && !connected && exited is Some ==> step is Fail,
        elapsed_ms < 1_000 * timeout_secs && !connected && exited is None ==> step is Sleep,
        step matches ReadyStep::Fail(reason) ==> reason@ == if elapsed_ms >= 1_000 * timeout_secs {
            "agent_mcp did not become ready at "@ + bind_addr + " within "@ + duration_text(
                timeout_secs,
            )
        } else {
            "agent_mcp exited before opening "@ + bind_addr + ": "@ + exited->0@
        },
{
}

/// A program that has ended is finished, however long it took; one that runs on is
/// ended once its time is over, and waited for until then.
pub proof fn programs_have_their_time(
    step: RunStep,
    ended: bool,
    elapsed_ms: u64,
    timeout_secs: u64,
)
    requires
        is_run_step(step, ended, elapsed_ms, timeout_secs),
    ensures
        ended ==> step is Finished,
        !ended && elapsed_ms >= 1_000 * timeout_secs ==> step is Kill,
        !ended && elapsed_ms < 1_000 * timeout_secs ==> step is Sleep,
        step matches RunStep::Kill(reason) ==> reason@ == "command timed out after "@
            + duration_text(timeout_secs),
{
}

/// A number of seconds is printed in digits with the letter for seconds; none is
/// printed in nanoseconds.
pub proof fn durations_are_told_in_seconds(secs: u64)
    ensures
        secs > 0 ==> duration_text(secs) == text::decimal(secs as nat).push('s'),
        secs == 0 ==> duration_text(secs) == "0ns"@,
{
    reveal_strlit("s");
    assert(text::decimal(secs as nat) + "s"@ =~= text::decimal(secs as nat).push('s'));
}

/// Between two looks at a program lies half a second.
pub proof fn looks_are_half_a_second_apart()
    ensures
        2 * POLL_MS == 1_000,
{
}

} // verus!

//! The failure reporter: renders a terminal error as the lines written to the
//! diagnostic stream — the top-level message, one line per remaining cause in
//! chain order, and the backtrace when one was captured.

use vstd::prelude::*;

use crate::bootstrap::spec_config_context;
use crate::bootstrap::spec_server_context;
use crate::errors::TerminalError;

verus! {

/// The first reported line: the top-level message.
pub open spec fn spec_error_line(m: Seq<char>) -> Seq<char> {
    "error: "@ + m
}

/// One line per cause below the top-level message.
pub open spec fn spec_cause_line(m: Seq<char>) -> Seq<char> {
    "caused by: "@ + m
}

/// The final line when a backtrace was captured at the root.
pub open spec fn spec_backtrace_line(b: Seq<char>) -> Seq<char> {
    "backtrace: "@ + b
}

/// The full report for a message chain and an optional backtrace: the error
/// line, a cause line for every message after the first, in chain order, and
/// the backtrace line last when present.
pub open spec fn spec_report_lines(msgs: Seq<Seq<char>>, bt: Option<Seq<char>>) -> Seq<Seq<char>>
    recommends
        msgs.len() >= 1,
{
    let main = seq![spec_error_line(msgs[0])] + Seq::new(
        (msgs.len() - 1) as nat,
        |i: int| spec_cause_line(msgs[i + 1]),
    );
    match bt {
        None => main,
        Some(b) => main + seq![spec_backtrace_line(b)],
    }
}

/// Renders a terminal error into the exact lines the process writes to the
/// diagnostic stream before exiting with a failure status.
pub fn render_report(e: &TerminalError) -> (lines: Vec<String>)
    requires
        e.wf(),
    ensures
        lines@.map_values(|s: String| s@) == spec_report_lines(e.msgs(), e.trace()),
{
    let mut lines: Vec<String> = Vec::new();
    let mut first = String::from_str("error: ");
    first.append(e.message(0));
    lines.push(first);
    let n = e.message_count();
    let mut i: usize = 1;
    while i < n
        invariant
            1 <= i <= n,
            n == e.msgs().len(),
            e.wf(),
            lines@.len() == i,
            lines@[0]@ == spec_error_line(e.msgs()[0]),
            forall|j: int| 1 <= j < i ==> (#[trigger] lines@[j])@ == spec_cause_line(
                e.msgs()[j],
            ),
        decreases n - i,
    {
        let mut line = String::from_str("caused by: ");
        line.append(e.message(i));
        lines.push(line);
        i = i + 1;
    }
    match e.backtrace() {
        None => {},
        Some(bt) => {
            let mut line = String::from_str("backtrace: ");
            line.append(bt.as_str());
            lines.push(line);
        },
    }
    proof {
        assert(lines@.map_values(|s: String| s@) =~= spec_report_lines(e.msgs(), e.trace()));
    }
    lines
}

/// A configuration-load failure is reported as exactly two lines before any
/// backtrace line: the fixed context, then the underlying cause.
pub proof fn lemma_config_failure_report(cause: Seq<char>, bt: Option<Seq<char>>)
    ensures
        spec_report_lines(seq![spec_config_context(), cause], bt).len() == (
        if bt is Some {
            3int
        } else {
            2int
        }),
        spec_report_lines(seq![spec_config_context(), cause], bt)[0]
            == "error: Error parsing config"@,
        spec_report_lines(seq![spec_config_context(), cause], bt)[1] == spec_cause_line(cause),
        bt matches Some(b) ==> spec_report_lines(seq![spec_config_context(), cause], bt)[2]
            == spec_backtrace_line(b),
{
    reveal_strlit("error: ");
    reveal_strlit("Error parsing config");
    reveal_strlit("error: Error parsing config");
    assert(spec_error_line("Error parsing config"@) =~= "error: Error parsing config"@);
}

/// A server-start failure is reported with the fixed context as its first
/// line, the underlying cause as its second.
pub proof fn lemma_server_failure_report(cause: Seq<char>, bt: Option<Seq<char>>)
    ensures
        spec_report_lines(seq![spec_server_context(), cause], bt)[0]
            == "error: Failed to start server"@,
        spec_report_lines(seq![spec_server_context(), cause], bt)[1] == spec_cause_line(cause),
        bt is None ==> spec_report_lines(seq![spec_server_context(), cause], bt).len() == 2,
{
    reveal_strlit("error: ");
    reveal_strlit("Failed to start server");
    reveal_strlit("error: Failed to start server");
    assert(spec_error_line("Failed to start server"@) =~= "error: Failed to start server"@);
}

} // verus!

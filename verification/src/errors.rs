//! The terminal error of a failed bootstrap: a chain of cause messages,
//! outermost context first, with an optional backtrace captured at the root.

use vstd::prelude::*;

use crate::text::opt_text;

verus! {

/// A chain of failure messages. The first message is the top-level context;
/// each later message is the cause of the one before it. The chain is built
/// once, never mutated afterwards, and consumed by the failure reporter.
pub struct TerminalError {
    messages: Vec<String>,
    backtrace: Option<String>,
}

impl TerminalError {
    /// The chain of messages, outermost context first.
    pub closed spec fn msgs(&self) -> Seq<Seq<char>> {
        self.messages@.map_values(|s: String| s@)
    }

    /// The backtrace captured when the root failure was constructed, if any.
    pub closed spec fn trace(&self) -> Option<Seq<char>> {
        opt_text(self.backtrace)
    }

    /// A chain always holds at least its root message.
    pub open spec fn wf(&self) -> bool {
        self.msgs().len() >= 1
    }

    /// The root failure of a chain. `backtrace` is the trace captured at
    /// construction when capture is enabled, `None` otherwise.
    pub fn root(message: String, backtrace: Option<String>) -> (e: TerminalError)
        ensures
            e.msgs() == seq![message@],
            e.trace() == opt_text(backtrace),
            e.wf(),
    {
        let mut messages: Vec<String> = Vec::new();
        messages.push(message);
        let e = TerminalError { messages, backtrace };
        proof {
            assert(e.msgs() =~= seq![message@]);
        }
        e
    }

    /// Wraps a lower-level failure with a higher-level context message,
    /// lengthening the chain by one at the front.
    pub fn chain(context: String, cause: TerminalError) -> (e: TerminalError)
        ensures
            e.msgs() == seq![context@] + cause.msgs(),
            e.trace() == cause.trace(),
            e.wf(),
    {
        let ghost cause_msgs = cause.msgs();
        let TerminalError { mut messages, backtrace } = cause;
        messages.insert(0, context);
        let e = TerminalError { messages, backtrace };
        proof {
            assert(e.msgs() =~= seq![context@] + cause_msgs);
        }
        e
    }

    /// How many messages the chain holds.
    pub fn message_count(&self) -> (n: usize)
        ensures
            n == self.msgs().len(),
    {
        self.messages.len()
    }

    /// The message at position `i`, counted from the top-level context.
    pub fn message(&self, i: usize) -> (m: &str)
        requires
            i < self.msgs().len(),
        ensures
            m@ == self.msgs()[i as int],
    {
        self.messages[i].as_str()
    }

    /// The backtrace text, if one was captured at the root.
    pub fn backtrace(&self) -> (b: &Option<String>)
        ensures
            opt_text(*b) == self.trace(),
    {
        &self.backtrace
    }
}

} // verus!

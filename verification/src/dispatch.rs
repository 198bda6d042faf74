//! The writer side of the channel: an authorized action becomes one
//! newline-terminated wire line; an unpermitted one becomes nothing, and the
//! caller cannot tell — deliberately, so responses never enumerate
//! permissions. Delivery itself is best-effort under an advisory deadline.

use vstd::prelude::*;
use vstd::string::*;

use crate::codec::{encoded, Action, Command, CommandView};
use crate::registry::{permitted_spec, ClientConfig};

verus! {

/// Why a dispatch failed; surfaced to the HTTP caller as an internal error.
#[derive(Debug, Copy, Clone, PartialEq, Eq, Structural)]
pub enum DispatchError {
    /// The transport failed before the deadline elapsed.
    BadPipe,
    /// The deadline elapsed before the transport accepted the write.
    Timeout,
}

/// What the transport reported for one deadline-bounded send attempt. The
/// deadline is advisory abandonment, not cancellation: a write abandoned at
/// the deadline may still land afterwards.
#[derive(Debug, Copy, Clone, PartialEq, Eq, Structural)]
pub enum SendOutcome {
    /// Open, write and flush all completed within the deadline.
    Completed,
    /// The transport reported a failure within the deadline.
    WriteFailed,
    /// The deadline elapsed before the write completed.
    DeadlineElapsed,
}

/// The writer-side handle, bound to the transport path for process lifetime.
pub struct Dispatcher {
    pub pipe: String,
}

/// The one newline-terminated line that dispatching `action` for `client`
/// puts on the wire.
pub open spec fn wire_line(c: ClientConfig, action: Action) -> Seq<char> {
    encoded(CommandView { action, project: c.project@ }) + "\n"@
}

impl Dispatcher {
    /// A dispatcher bound to the transport at `pipe`.
    pub fn new(pipe: String) -> (d: Dispatcher)
        ensures
            d.pipe@ == pipe@,
    {
        Dispatcher { pipe }
    }

    /// The permission gate of dispatch: the line to deliver exactly when the
    /// client holds `action`; nothing otherwise. A command is only ever
    /// submitted for delivery when the action is in the client's permission
    /// set.
    pub fn plan(&self, client: &ClientConfig, action: Action) -> (r: Option<String>)
        ensures
            permitted_spec(*client, action) ==> (r matches Some(l) && l@ == wire_line(
                *client,
                action,
            )),
            !permitted_spec(*client, action) ==> r is None,
    {
        if client.permitted(action) {
            let cmd = Command { action, project: client.project.clone() };
            let mut line = cmd.encode();
            line.append("\n");
            Some(line)
        } else {
            None
        }
    }

    /// The verdict owed to the caller for one send attempt: an elapsed
    /// deadline is a timeout even though the abandoned write may still land;
    /// a transport failure is a bad pipe; completion is success. A skipped
    /// send (nothing was permitted, nothing was written) is also success, so
    /// a denied caller sees the same answer as a served one.
    pub fn conclude(outcome: Option<SendOutcome>) -> (r: Result<(), DispatchError>)
        ensures
            (match outcome {
                Some(SendOutcome::Completed) => r is Ok,
                Some(SendOutcome::WriteFailed) => r == Result::<(), DispatchError>::Err(
                    DispatchError::BadPipe,
                ),
                Some(SendOutcome::DeadlineElapsed) => r == Result::<(), DispatchError>::Err(
                    DispatchError::Timeout,
                ),
                None => r is Ok,
            }),
    {
        match outcome {
            Some(SendOutcome::Completed) => Ok(()),
            Some(SendOutcome::WriteFailed) => Err(DispatchError::BadPipe),
            Some(SendOutcome::DeadlineElapsed) => Err(DispatchError::Timeout),
            None => Ok(()),
        }
    }
}

} // verus!

//! The event channel vocabulary and the error kinds surfaced to callers.
//!
//! A run pushes an ordered stream of `Log` notifications to a single observer
//! and, on the success path, exactly one terminal `Finished` notification.

use vstd::prelude::*;

verus! {

/// One notification pushed through the event channel.
#[derive(Debug, Clone, PartialEq)]
pub enum WorkflowEvent {
    /// An ordered, human-readable progress notification.
    Log { message: String },
    /// The terminal completion notification, always last on the success path.
    Finished { success: bool },
}

/// The mathematical shape of a workflow event.
pub enum EventModel {
    Log { message: Seq<char> },
    Finished { success: bool },
}

impl View for WorkflowEvent {
    type V = EventModel;

    open spec fn view(&self) -> EventModel {
        match self {
            WorkflowEvent::Log { message } => EventModel::Log { message: message@ },
            WorkflowEvent::Finished { success } => EventModel::Finished { success: *success },
        }
    }
}

/// The error kinds a run or a store operation can surface. All are reported
/// immediately to the caller; none is retried.
#[derive(Debug, Clone, PartialEq)]
pub enum WorkflowError {
    /// The raw input graph was malformed.
    Deserialization { message: String },
    /// Validation found `found` start-node candidates instead of exactly one.
    GraphValidation { found: usize },
    /// The observer could not be reached during event delivery.
    ChannelEmit { message: String },
    /// The underlying store operation failed.
    Persistence { message: String },
    /// An update or delete was attempted on a protected built-in role.
    BuiltInRoleMutation,
}

/// The decimal digit characters.
pub open spec fn digit_char(d: int) -> char {
    if d == 0 {
        '0'
    } else if d == 1 {
        '1'
    } else if d == 2 {
        '2'
    } else if d == 3 {
        '3'
    } else if d == 4 {
        '4'
    } else if d == 5 {
        '5'
    } else if d == 6 {
        '6'
    } else if d == 7 {
        '7'
    } else if d == 8 {
        '8'
    } else {
        '9'
    }
}

/// The decimal rendering of a natural number, most significant digit first.
pub open spec fn dec_str(n: nat) -> Seq<char>
    decreases n,
{
    if n < 10 {
        seq![digit_char(n as int)]
    } else {
        dec_str(n / 10) + seq![digit_char((n % 10) as int)]
    }
}

fn digit_str(d: u64) -> (r: &'static str)
    requires
        d < 10,
    ensures
        r@ == seq![digit_char(d as int)],
{
    proof {
        reveal_strlit("0");
        reveal_strlit("1");
        reveal_strlit("2");
        reveal_strlit("3");
        reveal_strlit("4");
        reveal_strlit("5");
        reveal_strlit("6");
        reveal_strlit("7");
        reveal_strlit("8");
        reveal_strlit("9");
    }
    let r: &'static str = if d == 0 {
        "0"
    } else if d == 1 {
        "1"
    } else if d == 2 {
        "2"
    } else if d == 3 {
        "3"
    } else if d == 4 {
        "4"
    } else if d == 5 {
        "5"
    } else if d == 6 {
        "6"
    } else if d == 7 {
        "7"
    } else if d == 8 {
        "8"
    } else {
        "9"
    };
    proof {
        assert(r@ =~= seq![digit_char(d as int)]);
    }
    r
}

/// Render a number in decimal.
pub fn fmt_u64(n: u64) -> (s: String)
    ensures
        s@ == dec_str(n as nat),
    decreases n,
{
    if n < 10 {
        String::from_str(digit_str(n))
    } else {
        let mut s = fmt_u64(n / 10);
        s.append(digit_str(n % 10));
        s
    }
}

impl WorkflowError {
    /// The descriptive message of each error kind.
    pub open spec fn message_spec(self) -> Seq<char> {
        match self {
            WorkflowError::Deserialization { message } => "Failed to parse workflow graph: "@
                + message@,
            WorkflowError::GraphValidation { found } => "Workflow must have exactly one start node (a node with no incoming edges). Found "@
                + dec_str(found as nat) + "."@,
            WorkflowError::ChannelEmit { message } => "Failed to emit event: "@ + message@,
            WorkflowError::Persistence { message } => message@,
            WorkflowError::BuiltInRoleMutation => "Cannot modify built-in roles"@,
        }
    }

    /// The descriptive message surfaced to the caller.
    pub fn message(&self) -> (r: String)
        ensures
            r@ == self.message_spec(),
    {
        match self {
            WorkflowError::Deserialization { message } => {
                let mut s = String::from_str("Failed to parse workflow graph: ");
                s.append(message.as_str());
                s
            },
            WorkflowError::GraphValidation { found } => {
                let mut s = String::from_str(
                    "Workflow must have exactly one start node (a node with no incoming edges). Found ",
                );
                let count = fmt_u64(*found as u64);
                s.append(count.as_str());
                s.append(".");
                s
            },
            WorkflowError::ChannelEmit { message } => {
                let mut s = String::from_str("Failed to emit event: ");
                s.append(message.as_str());
                s
            },
            WorkflowError::Persistence { message } => message.clone(),
            WorkflowError::BuiltInRoleMutation => String::from_str("Cannot modify built-in roles"),
        }
    }
}

} // verus!

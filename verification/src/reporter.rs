use vstd::prelude::*;
use serde_json::Value;
use crate::json::{json_member_text, member_text};
use crate::text::{extend_str, string_of};

verus! {

/// A tool invocation that the engine intends to make.
#[derive(Debug, PartialEq)]
pub struct PendingCall {
    pub name: String,
    pub arguments: Value,
}

/// A pending call as far as the library reads it: the tool's name and the
/// rationale attached to the arguments, if any.
pub struct PendingCallView {
    pub name: Seq<char>,
    pub rationale: Option<Seq<char>>,
}

/// The argument member that carries a call's rationale.
pub open spec fn rationale_key() -> Seq<char> {
    "$explain"@
}

impl View for PendingCall {
    type V = PendingCallView;

    open spec fn view(&self) -> PendingCallView {
        PendingCallView {
            name: self.name@,
            rationale: json_member_text(self.arguments, rationale_key()),
        }
    }
}

impl DeepView for PendingCall {
    type V = PendingCallView;

    open spec fn deep_view(&self) -> PendingCallView {
        self@
    }
}

/// The progress notice for a pending call: its rationale where it has one,
/// else the tool's name.
pub open spec fn notice_text(name: Seq<char>, rationale: Option<Seq<char>>) -> Seq<char> {
    match rationale {
        Some(why) => "-# "@ + why + "..."@,
        None => "-# using "@ + name + "..."@,
    }
}

/// The tool names of a batch of pending calls, in order.
pub open spec fn call_names(pending: Seq<PendingCallView>) -> Seq<Seq<char>> {
    Seq::new(pending.len(), |i: int| pending[i].name)
}

/// The progress notices for a batch of pending calls, in order.
pub open spec fn call_notices(pending: Seq<PendingCallView>) -> Seq<Seq<char>> {
    Seq::new(pending.len(), |i: int| notice_text(pending[i].name, pending[i].rationale))
}

/// Chooses the text of progress notices. It keeps no state; delivery is the
/// caller's.
pub struct ToolInvocationReporter;

impl ToolInvocationReporter {
    /// The notice for a tool named `name` whose arguments carry `rationale`.
    pub fn compose(name: &str, rationale: Option<&str>) -> (r: String)
        ensures
            r@ == notice_text(
                name@,
                match rationale {
                    Some(why) => Some(why@),
                    None => None,
                },
            ),
    {
        let mut out: Vec<char> = Vec::new();
        match rationale {
            Some(why) => {
                extend_str(&mut out, "-# ");
                extend_str(&mut out, why);
            },
            None => {
                extend_str(&mut out, "-# using ");
                extend_str(&mut out, name);
            },
        }
        extend_str(&mut out, "...");
        string_of(&out)
    }

    /// The notice for `call`.
    pub fn notice(call: &PendingCall) -> (r: String)
        ensures
            r@ == notice_text(call@.name, call@.rationale),
    {
        match member_text(&call.arguments, "$explain") {
            Some(why) => Self::compose(call.name.as_str(), Some(why.as_str())),
            None => Self::compose(call.name.as_str(), None),
        }
    }

    /// The notices for a batch of pending calls, one for each call, in order.
    pub fn notices(pending: &Vec<PendingCall>) -> (r: Vec<String>)
        ensures
            r.deep_view() == call_notices(pending.deep_view()),
    {
        let mut out: Vec<String> = Vec::new();
        let mut i: usize = 0;
        while i < pending.len()
            invariant
                i <= pending.len(),
                out.len() == i,
                forall|j: int|
                    0 <= j < i ==> out@[j]@ == notice_text(
                        pending@[j]@.name,
                        pending@[j]@.rationale,
                    ),
            decreases pending.len() - i,
        {
            out.push(Self::notice(&pending[i]));
            i += 1;
        }
        assert(out.deep_view() =~= call_notices(pending.deep_view()));
        out
    }

    /// The tool names of a batch of pending calls, in order.
    pub fn names(pending: &Vec<PendingCall>) -> (r: Vec<String>)
        ensures
            r.deep_view() == call_names(pending.deep_view()),
    {
        let mut out: Vec<String> = Vec::new();
        let mut i: usize = 0;
        while i < pending.len()
            invariant
                i <= pending.len(),
                out.len() == i,
                forall|j: int| 0 <= j < i ==> out@[j]@ == pending@[j]@.name,
            decreases pending.len() - i,
        {
            out.push(pending[i].name.clone());
            i += 1;
        }
        assert(out.deep_view() =~= call_names(pending.deep_view()));
        out
    }
}

} // verus!

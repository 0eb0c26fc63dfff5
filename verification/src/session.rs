use vstd::prelude::*;
use crate::reply::{compose_failure, compose_reply, failure_text, reply_text, ToolUsageRecord};
use crate::reporter::{
    call_names, call_notices, PendingCall, PendingCallView, ToolInvocationReporter,
};
use crate::transcript::Transcript;
use crate::turn::{
    lemma_non_directive, no_directive, non_directive, without_directives, ContentPart,
    ContentPartView, Turn, TurnView,
};

verus! {

/// Whether the engine may ask for tool invocations during a step.
#[derive(Clone, Copy, Debug, PartialEq, Eq, Structural)]
pub enum ToolPolicy {
    Automatic,
    Disabled,
}

/// Why a session failed.
#[derive(Clone, Copy, Debug, PartialEq, Eq, Structural)]
pub enum Failure {
    /// The engine could not open the session.
    EngineUnavailable,
    /// A step of the engine failed.
    EngineStepFailed,
}

/// Where a session stands.
#[derive(Clone, Copy, Debug, PartialEq, Eq, Structural)]
pub enum Phase {
    /// The directive is in place; the engine has not answered yet.
    DirectiveInjected,
    /// A step of the loop has been issued.
    Looping,
    /// The pass is over and its delta may be merged.
    Finished,
    /// The pass was aborted; nothing is merged.
    Failed,
}

/// What a session is configured with.
#[derive(Debug, PartialEq, Eq)]
pub struct SessionConfig {
    /// The most tool-calling iterations before the engine is made to answer.
    pub max_tool_use: u64,
    /// The operating instructions given to the engine.
    pub directive: String,
    /// The name under which the directive is given.
    pub assistant_name: String,
    /// The name of the model, as the reply states it.
    pub model: String,
}

/// What the engine shows after a call that succeeded.
#[derive(Debug, PartialEq)]
pub struct EngineReport {
    /// Whether the engine can finish with the answer it holds.
    pub can_finish: bool,
    /// The tool calls that the engine intends to make next.
    pub pending: Vec<PendingCall>,
    /// The answer that the engine holds, if any.
    pub content: Option<String>,
    /// The turns that the call appended to the engine's history.
    pub appended: Vec<Turn>,
}

/// An engine report as a mathematical value.
pub struct EngineReportView {
    pub can_finish: bool,
    pub pending: Seq<PendingCallView>,
    pub content: Option<Seq<char>>,
    pub appended: Seq<TurnView>,
}

impl View for EngineReport {
    type V = EngineReportView;

    open spec fn view(&self) -> EngineReportView {
        EngineReportView {
            can_finish: self.can_finish,
            pending: self.pending.deep_view(),
            content: self.content.deep_view(),
            appended: self.appended.deep_view(),
        }
    }
}

/// How a call of the engine ended.
#[derive(Debug, PartialEq)]
pub enum EngineEvent {
    /// The call succeeded.
    Replied(EngineReport),
    /// The call failed, with the engine's diagnostic.
    Failed(String),
}

/// An engine event as a mathematical value.
pub enum EngineEventView {
    Replied(EngineReportView),
    Failed(Seq<char>),
}

impl View for EngineEvent {
    type V = EngineEventView;

    open spec fn view(&self) -> EngineEventView {
        match self {
            EngineEvent::Replied(report) => EngineEventView::Replied(report@),
            EngineEvent::Failed(diagnostic) => EngineEventView::Failed(diagnostic@),
        }
    }
}

/// What the caller is to do next.
#[derive(Debug, PartialEq, Eq)]
pub enum Action {
    /// Deliver the notices in order, then run engine step `index` under
    /// `policy` and report how it ended.
    Step { index: u64, notices: Vec<String>, policy: ToolPolicy },
    /// The pass is over: merge the session and send the reply.
    Reply(String),
    /// The pass failed: send the reply; there is nothing to merge.
    Abort { failure: Failure, reply: String },
    /// The session was over already; the event changes nothing.
    Ignored,
}

/// An action as a mathematical value.
pub enum ActionView {
    Step { index: nat, notices: Seq<Seq<char>>, policy: ToolPolicy },
    Reply(Seq<char>),
    Abort { failure: Failure, reply: Seq<char> },
    Ignored,
}

impl View for Action {
    type V = ActionView;

    open spec fn view(&self) -> ActionView {
        match self {
            Action::Step { index, notices, policy } => ActionView::Step {
                index: *index as nat,
                notices: notices.deep_view(),
                policy: *policy,
            },
            Action::Reply(reply) => ActionView::Reply(reply@),
            Action::Abort { failure, reply } => ActionView::Abort {
                failure: *failure,
                reply: reply@,
            },
            Action::Ignored => ActionView::Ignored,
        }
    }
}

/// A session as a mathematical value.
pub struct SessionView {
    /// The session's own copy of the history, with what was appended since.
    pub local: Seq<TurnView>,
    /// The commit boundary: how long the history was when it was copied.
    pub boundary: nat,
    /// The most tool-calling iterations.
    pub cap: nat,
    /// The index of the engine step issued last.
    pub iteration: nat,
    pub phase: Phase,
    /// The tool names surfaced so far, one for each pending call.
    pub used: Seq<Seq<char>>,
    pub model: Seq<char>,
}

/// The directive turn of a session.
pub open spec fn directive_turn(directive: Seq<char>, assistant_name: Seq<char>) -> TurnView {
    TurnView::Directive {
        name: Some(assistant_name),
        content: seq![ContentPartView::Text(directive)],
    }
}

/// The session opened on a copy `history` of the channel's transcript.
pub open spec fn opened(
    history: Seq<TurnView>,
    cap: nat,
    directive: Seq<char>,
    assistant_name: Seq<char>,
    model: Seq<char>,
) -> SessionView {
    SessionView {
        local: history.push(directive_turn(directive, assistant_name)),
        boundary: history.len(),
        cap,
        iteration: 0,
        phase: Phase::DirectiveInjected,
        used: Seq::<Seq<char>>::empty(),
        model,
    }
}

impl SessionView {
    /// The directive sits at the commit boundary, it is the only directive
    /// from there on, and a step that was issued has an index within the cap.
    pub open spec fn wf(self) -> bool {
        &&& self.boundary < self.local.len()
        &&& self.local[self.boundary as int] is Directive
        &&& no_directive(self.delta())
        &&& self.phase is Looping ==> self.iteration <= self.cap
    }

    /// The session is over.
    pub open spec fn is_over(self) -> bool {
        self.phase is Finished || self.phase is Failed
    }

    /// The index of the loop iteration that the next report is judged at.
    pub open spec fn loop_head(self) -> nat {
        if self.phase is DirectiveInjected {
            0
        } else {
            self.iteration + 1
        }
    }

    /// The step issued last was the one at the cap: the loop has run out.
    pub open spec fn loop_exhausted(self) -> bool {
        self.phase is Looping && self.iteration >= self.cap
    }

    /// What the session appended to its copy, the directive left out: the
    /// turns to merge.
    pub open spec fn delta(self) -> Seq<TurnView> {
        self.local.skip(self.boundary as int + 1)
    }
}

/// The tool policy of the loop iteration `index`.
pub open spec fn policy_at(index: nat, cap: nat) -> ToolPolicy {
    if index >= cap {
        ToolPolicy::Disabled
    } else {
        ToolPolicy::Automatic
    }
}

/// The session after `event`. A report's turns join the session's copy, all
/// but directives: the copy holds the one directive that the session put
/// there.
pub open spec fn next_state(s: SessionView, event: EngineEventView) -> SessionView {
    if s.is_over() {
        s
    } else {
        match event {
            EngineEventView::Failed(_) => SessionView { phase: Phase::Failed, ..s },
            EngineEventView::Replied(report) => if s.loop_exhausted() || report.can_finish {
                SessionView {
                    phase: Phase::Finished,
                    local: s.local + non_directive(report.appended),
                    ..s
                }
            } else {
                SessionView {
                    phase: Phase::Looping,
                    iteration: s.loop_head(),
                    local: s.local + non_directive(report.appended),
                    used: s.used + call_names(report.pending),
                    ..s
                }
            },
        }
    }
}

/// What the caller is told to do on `event`.
pub open spec fn next_action(s: SessionView, event: EngineEventView) -> ActionView {
    if s.is_over() {
        ActionView::Ignored
    } else {
        match event {
            EngineEventView::Failed(diagnostic) => ActionView::Abort {
                failure: if s.phase is DirectiveInjected {
                    Failure::EngineUnavailable
                } else {
                    Failure::EngineStepFailed
                },
                reply: failure_text(diagnostic),
            },
            EngineEventView::Replied(report) => if s.loop_exhausted() || report.can_finish {
                ActionView::Reply(reply_text(report.content, s.model, s.used))
            } else {
                ActionView::Step {
                    index: s.loop_head(),
                    notices: call_notices(report.pending),
                    policy: policy_at(s.loop_head(), s.cap),
                }
            },
        }
    }
}

/// One reasoning pass over a private copy of a channel's transcript.
#[derive(Debug)]
pub struct ReasoningSession {
    local: Transcript,
    boundary: usize,
    cap: u64,
    iteration: u64,
    phase: Phase,
    used: ToolUsageRecord,
    model: String,
}

impl View for ReasoningSession {
    type V = SessionView;

    closed spec fn view(&self) -> SessionView {
        SessionView {
            local: self.local@,
            boundary: self.boundary as nat,
            cap: self.cap as nat,
            iteration: self.iteration as nat,
            phase: self.phase,
            used: self.used@,
            model: self.model@,
        }
    }
}

impl ReasoningSession {
    #[verifier::type_invariant]
    spec fn inv(&self) -> bool {
        &&& self.local.limit() is None
        &&& self@.wf()
    }

    /// Opens a session on `snapshot`, a copy of the channel's transcript:
    /// lifts the copy's entry limit, records its length as the commit
    /// boundary and appends the directive.
    pub fn open(snapshot: Transcript, config: &SessionConfig) -> (r: ReasoningSession)
        ensures
            r@ == opened(
                snapshot@,
                config.max_tool_use as nat,
                config.directive@,
                config.assistant_name@,
                config.model@,
            ),
            r@.wf(),
    {
        let mut local = snapshot;
        local.lift_entry_limit();
        let boundary = local.len();
        let mut content: Vec<ContentPart> = Vec::new();
        content.push(ContentPart::Text(config.directive.clone()));
        let mut turns: Vec<Turn> = Vec::new();
        turns.push(Turn::Directive { name: Some(config.assistant_name.clone()), content });
        let ghost directive = directive_turn(config.directive@, config.assistant_name@);
        assert(turns.deep_view() =~= seq![directive]) by {
            assert(content.deep_view() =~= seq![ContentPartView::Text(config.directive@)]);
        }
        local.add(turns);
        assert(local@ =~= snapshot@.push(directive));
        assert(local@.skip(boundary as int + 1) =~= Seq::<TurnView>::empty());
        ReasoningSession {
            local,
            boundary,
            cap: config.max_tool_use,
            iteration: 0,
            phase: Phase::DirectiveInjected,
            used: ToolUsageRecord::new(),
            model: config.model.clone(),
        }
    }

    /// The tool policy under which the engine is asked to open the session.
    pub fn opening_policy(&self) -> (r: ToolPolicy)
        ensures
            r == ToolPolicy::Automatic,
    {
        ToolPolicy::Automatic
    }

    /// Where the session stands.
    pub fn phase(&self) -> (r: Phase)
        ensures
            r == self@.phase,
    {
        self.phase
    }

    /// Whether the pass is over and its delta may be merged.
    pub fn is_finished(&self) -> (r: bool)
        ensures
            r == (self@.phase is Finished),
    {
        match self.phase {
            Phase::Finished => true,
            _ => false,
        }
    }

    /// The commit boundary.
    pub fn boundary(&self) -> (r: usize)
        ensures
            r == self@.boundary,
    {
        self.boundary
    }

    /// A copy of the session's history, directive included: what the engine
    /// is to work on.
    pub fn history(&self) -> (r: Vec<Turn>)
        ensures
            r.deep_view() == self@.local,
    {
        let r = self.local.suffix(0);
        assert(self@.local.skip(0) =~= self@.local);
        r
    }

    /// A copy of the turns to merge: all that follows the commit boundary but
    /// the directive.
    pub fn delta(&self) -> (r: Vec<Turn>)
        ensures
            r.deep_view() == self@.delta(),
            no_directive(r.deep_view()),
    {
        proof {
            use_type_invariant(self);
        }
        let length = self.local.len();
        assert(self.boundary < length);
        self.local.suffix(self.boundary + 1)
    }

    /// Takes the outcome of an engine call and gives the session after it
    /// with what the caller is to do next.
    pub fn advance(self, event: EngineEvent) -> (r: (ReasoningSession, Action))
        ensures
            r.0@ == next_state(self@, event@),
            r.1@ == next_action(self@, event@),
            r.0@.wf(),
            r.1@ matches ActionView::Step { index, policy, .. } ==> index <= self@.cap && (policy
                == ToolPolicy::Disabled <==> index == self@.cap),
    {
        proof {
            use_type_invariant(&self);
        }
        match self.phase {
            Phase::Finished => {
                return (self, Action::Ignored);
            },
            Phase::Failed => {
                return (self, Action::Ignored);
            },
            _ => {},
        }
        let ReasoningSession { local, boundary, cap, iteration, phase, used, model } = self;
        match event {
            EngineEvent::Failed(diagnostic) => {
                let failure = match phase {
                    Phase::DirectiveInjected => Failure::EngineUnavailable,
                    _ => Failure::EngineStepFailed,
                };
                let reply = compose_failure(diagnostic.as_str());
                let next = ReasoningSession {
                    local,
                    boundary,
                    cap,
                    iteration,
                    phase: Phase::Failed,
                    used,
                    model,
                };
                (next, Action::Abort { failure, reply })
            },
            EngineEvent::Replied(report) => {
                let EngineReport { can_finish, pending, content, appended } = report;
                let exhausted = match phase {
                    Phase::Looping => iteration >= cap,
                    _ => false,
                };
                let mut local = local;
                local.add(without_directives(&appended));
                proof {
                    lemma_next_state(self@, event@);
                    assert(local@ == next_state(self@, event@).local);
                }
                if exhausted || can_finish {
                    let reply = match &content {
                        Some(answer) => compose_reply(Some(answer.as_str()), model.as_str(), &used),
                        None => compose_reply(None, model.as_str(), &used),
                    };
                    let next = ReasoningSession {
                        local,
                        boundary,
                        cap,
                        iteration,
                        phase: Phase::Finished,
                        used,
                        model,
                    };
                    (next, Action::Reply(reply))
                } else {
                    let index: u64 = match phase {
                        Phase::DirectiveInjected => 0,
                        _ => iteration + 1,
                    };
                    let notices = ToolInvocationReporter::notices(&pending);
                    let mut used = used;
                    used.record_all(ToolInvocationReporter::names(&pending));
                    let policy = if index >= cap {
                        ToolPolicy::Disabled
                    } else {
                        ToolPolicy::Automatic
                    };
                    let next = ReasoningSession {
                        local,
                        boundary,
                        cap,
                        iteration: index,
                        phase: Phase::Looping,
                        used,
                        model,
                    };
                    (next, Action::Step { index, notices, policy })
                }
            },
        }
    }
}

/// The session after a run of events, taken in order.
pub open spec fn run(s: SessionView, events: Seq<EngineEventView>) -> SessionView
    decreases events.len(),
{
    if events.len() == 0 {
        s
    } else {
        next_state(run(s, events.drop_last()), events.last())
    }
}

/// The engine steps that the caller is told to run during a run of events:
/// the index and the policy of each, in order.
pub open spec fn steps_issued(s: SessionView, events: Seq<EngineEventView>) -> Seq<
    (nat, ToolPolicy),
>
    decreases events.len(),
{
    if events.len() == 0 {
        Seq::<(nat, ToolPolicy)>::empty()
    } else {
        let before = steps_issued(s, events.drop_last());
        match next_action(run(s, events.drop_last()), events.last()) {
            ActionView::Step { index, policy, .. } => before.push((index, policy)),
            _ => before,
        }
    }
}

/// The tool names of all the batches of pending calls that are surfaced
/// during a run of events: those of the reports that are answered by a step.
pub open spec fn surfaced(s: SessionView, events: Seq<EngineEventView>) -> Seq<Seq<char>>
    decreases events.len(),
{
    if events.len() == 0 {
        Seq::<Seq<char>>::empty()
    } else {
        let before = surfaced(s, events.drop_last());
        match (next_action(run(s, events.drop_last()), events.last()), events.last()) {
            (ActionView::Step { .. }, EngineEventView::Replied(report)) => before + call_names(
                report.pending,
            ),
            _ => before,
        }
    }
}

/// A newly opened session is well formed and has nothing to merge.
pub proof fn lemma_opened(
    history: Seq<TurnView>,
    cap: nat,
    directive: Seq<char>,
    assistant_name: Seq<char>,
    model: Seq<char>,
)
    ensures
        opened(history, cap, directive, assistant_name, model).wf(),
        opened(history, cap, directive, assistant_name, model).delta() == Seq::<TurnView>::empty(),
{
    let s = opened(history, cap, directive, assistant_name, model);
    assert(s.delta() =~= Seq::<TurnView>::empty());
}

/// An event leaves a well-formed session well formed, keeps its commit
/// boundary and its cap, and adds to its delta the turns of an accepted
/// report that are no directives, and nothing else.
pub proof fn lemma_next_state(s: SessionView, event: EngineEventView)
    requires
        s.wf(),
    ensures
        next_state(s, event).wf(),
        next_state(s, event).boundary == s.boundary,
        next_state(s, event).cap == s.cap,
        next_state(s, event).delta() == s.delta() + (match event {
            EngineEventView::Replied(report) if !s.is_over() => non_directive(report.appended),
            _ => Seq::<TurnView>::empty(),
        }),
        s.is_over() ==> next_state(s, event) == s,
{
    let t = next_state(s, event);
    match event {
        EngineEventView::Replied(report) if !s.is_over() => {
            let admitted = non_directive(report.appended);
            lemma_non_directive(report.appended);
            assert(t.local == s.local + admitted);
            assert(t.local[t.boundary as int] == s.local[s.boundary as int]);
            assert(t.delta() =~= s.delta() + admitted);
            assert forall|i: int| 0 <= i < t.delta().len() implies !(
            #[trigger] t.delta()[i] is Directive) by {
                if i < s.delta().len() {
                    assert(t.delta()[i] == s.delta()[i]);
                } else {
                    assert(t.delta()[i] == admitted[i - s.delta().len()]);
                }
            }
        },
        _ => {
            assert(t.delta() =~= s.delta() + Seq::<TurnView>::empty());
        },
    }
}

/// A run of events leaves a well-formed session well formed.
pub proof fn lemma_run_wf(s: SessionView, events: Seq<EngineEventView>)
    requires
        s.wf(),
    ensures
        run(s, events).wf(),
        run(s, events).boundary == s.boundary,
        run(s, events).cap == s.cap,
    decreases events.len(),
{
    if events.len() > 0 {
        lemma_run_wf(s, events.drop_last());
        lemma_next_state(run(s, events.drop_last()), events.last());
    }
}

/// A session that is over stays as it is, whatever comes.
pub proof fn lemma_over_is_final(s: SessionView, events: Seq<EngineEventView>)
    requires
        s.is_over(),
    ensures
        run(s, events) == s,
    decreases events.len(),
{
    if events.len() > 0 {
        lemma_over_is_final(s, events.drop_last());
    }
}

/// The first event of a run can be taken apart from the rest.
pub proof fn lemma_run_first(s: SessionView, events: Seq<EngineEventView>)
    requires
        events.len() > 0,
    ensures
        run(s, events) == run(next_state(s, events[0]), events.skip(1)),
    decreases events.len(),
{
    if events.len() == 1 {
        assert(events.drop_last() =~= Seq::<EngineEventView>::empty());
        assert(events.skip(1) =~= Seq::<EngineEventView>::empty());
        assert(run(s, events.drop_last()) == s);
    } else {
        lemma_run_first(s, events.drop_last());
        assert(events.drop_last().skip(1) =~= events.skip(1).drop_last());
        assert(events.drop_last()[0] == events[0]);
        assert(events.skip(1).last() == events.last());
    }
}

/// A session whose first engine call fails ends as failed, whatever is
/// reported afterwards.
pub proof fn lemma_first_failure_is_final(s: SessionView, events: Seq<EngineEventView>)
    requires
        !s.is_over(),
        events.len() > 0,
        events[0] is Failed,
    ensures
        run(s, events).phase is Failed,
        run(s, events).local == s.local,
{
    lemma_run_first(s, events);
    lemma_over_is_final(next_state(s, events[0]), events.skip(1));
}

/// What a session has to merge holds no directive, whatever the engine
/// reports.
pub proof fn lemma_delta_without_directive(s: SessionView, events: Seq<EngineEventView>)
    requires
        s.wf(),
    ensures
        no_directive(run(s, events).delta()),
{
    lemma_run_wf(s, events);
}

proof fn lemma_steps_counted(s: SessionView, events: Seq<EngineEventView>)
    requires
        s.phase is DirectiveInjected,
    ensures
        run(s, events).cap == s.cap,
        run(s, events).phase is DirectiveInjected ==> steps_issued(s, events).len() == 0,
        run(s, events).phase is Looping ==> steps_issued(s, events).len() == run(
            s,
            events,
        ).iteration + 1,
        run(s, events).phase is Looping ==> run(s, events).iteration <= s.cap,
        steps_issued(s, events).len() <= s.cap + 1,
        forall|k: int|
            0 <= k < steps_issued(s, events).len() ==> #[trigger] steps_issued(s, events)[k] == (
                k as nat,
                policy_at(k as nat, s.cap),
            ),
    decreases events.len(),
{
    if events.len() > 0 {
        lemma_steps_counted(s, events.drop_last());
    }
}

/// The loop is bounded: a session tells its caller to run at most one engine
/// step more than the cap, the steps are numbered from zero in the order
/// they are issued, and a step is run with tools disabled exactly when its
/// number is the cap.
pub proof fn lemma_bounded_loop(s: SessionView, events: Seq<EngineEventView>)
    requires
        s.phase is DirectiveInjected,
    ensures
        steps_issued(s, events).len() <= s.cap + 1,
        forall|k: int|
            0 <= k < steps_issued(s, events).len() ==> (#[trigger] steps_issued(s, events)[k]).0
                == k,
        forall|k: int|
            0 <= k < steps_issued(s, events).len() ==> ((#[trigger] steps_issued(
                s,
                events,
            )[k]).1 == ToolPolicy::Disabled <==> k == s.cap),
{
    lemma_steps_counted(s, events);
}

/// The usage record of a session holds the tool names of the batches that
/// were surfaced, one entry for each pending call, and nothing else.
pub proof fn lemma_usage_is_surfaced(s: SessionView, events: Seq<EngineEventView>)
    ensures
        run(s, events).used == s.used + surfaced(s, events),
    decreases events.len(),
{
    if events.len() == 0 {
        assert(s.used =~= s.used + surfaced(s, events));
    } else {
        lemma_usage_is_surfaced(s, events.drop_last());
        let before = run(s, events.drop_last());
        assert(run(s, events).used =~= s.used + surfaced(s, events));
    }
}

} // verus!

use vstd::prelude::*;
use crate::normalize::{normalized_turn, prepare_user_prompt, InputMessage, DETAIL_LOW};
use crate::session::{
    lemma_delta_without_directive, lemma_first_failure_is_final, lemma_opened, lemma_run_wf,
    opened, run,
    EngineEventView, ReasoningSession, SessionConfig, SessionView,
};
use crate::transcript::{kept, Transcript, DEFAULT_ENTRY_LIMIT};
use crate::turn::{no_directive, TurnView};

verus! {

/// The conversation state of one channel: its transcript. The caller keeps
/// it behind the channel's lock and calls these methods while holding it;
/// none of them waits on anything outside.
#[derive(Debug, PartialEq, Eq)]
pub struct ChannelState {
    pub prompt_stream: Transcript,
}

/// The transcript after a session is merged into it: with a finished
/// session's delta appended, unchanged by any other session.
pub open spec fn merged(log: Seq<TurnView>, limit: Option<nat>, session: SessionView) -> Seq<
    TurnView,
> {
    if session.phase is Finished {
        kept(log + session.delta(), limit)
    } else {
        log
    }
}

/// The transcript after the canonical turn of `message` is committed.
pub open spec fn committed(
    log: Seq<TurnView>,
    limit: Option<nat>,
    message: InputMessage,
    images: Seq<Seq<char>>,
) -> Seq<TurnView> {
    kept(log + seq![normalized_turn(message, DETAIL_LOW, images)], limit)
}

impl ChannelState {
    /// The state of a channel that was just seen for the first time: an
    /// empty transcript with the default entry limit.
    pub fn new() -> (r: ChannelState)
        ensures
            r.prompt_stream@ == Seq::<TurnView>::empty(),
            r.prompt_stream.limit() == Some(DEFAULT_ENTRY_LIMIT as nat),
            no_directive(r.prompt_stream@),
    {
        ChannelState { prompt_stream: Transcript::new(DEFAULT_ENTRY_LIMIT) }
    }

    /// Commits the canonical turn of `message` and nothing else. `images`
    /// are the message's resolved attachments.
    pub fn add_message(&mut self, message: InputMessage, images: &Vec<String>)
        ensures
            final(self).prompt_stream@ == committed(
                old(self).prompt_stream@,
                old(self).prompt_stream.limit(),
                message,
                images.deep_view(),
            ),
            final(self).prompt_stream.limit() == old(self).prompt_stream.limit(),
            no_directive(old(self).prompt_stream@) ==> no_directive(final(self).prompt_stream@),
    {
        proof {
            if no_directive(self.prompt_stream@) {
                lemma_commit_without_directive(
                    self.prompt_stream@,
                    self.prompt_stream.limit(),
                    message,
                    images.deep_view(),
                );
            }
        }
        let mut message = message;
        let turns = prepare_user_prompt(&mut message, DETAIL_LOW, images);
        self.prompt_stream.add(turns);
    }

    /// Empties the transcript.
    pub fn clear_prompt(&mut self)
        ensures
            final(self).prompt_stream@ == Seq::<TurnView>::empty(),
            final(self).prompt_stream.limit() == old(self).prompt_stream.limit(),
            no_directive(final(self).prompt_stream@),
    {
        self.prompt_stream.clear();
    }

    /// Starts a reasoning pass: commits the canonical turn of `message`,
    /// copies the transcript as it then stands and opens a session on the
    /// copy. The transcript itself never sees the session's directive.
    pub fn reasoning(
        &mut self,
        message: InputMessage,
        images: &Vec<String>,
        config: &SessionConfig,
    ) -> (session: ReasoningSession)
        ensures
            final(self).prompt_stream@ == committed(
                old(self).prompt_stream@,
                old(self).prompt_stream.limit(),
                message,
                images.deep_view(),
            ),
            final(self).prompt_stream.limit() == old(self).prompt_stream.limit(),
            session@ == opened(
                final(self).prompt_stream@,
                config.max_tool_use as nat,
                config.directive@,
                config.assistant_name@,
                config.model@,
            ),
            session@.wf(),
            no_directive(old(self).prompt_stream@) ==> no_directive(final(self).prompt_stream@),
    {
        proof {
            if no_directive(self.prompt_stream@) {
                lemma_commit_without_directive(
                    self.prompt_stream@,
                    self.prompt_stream.limit(),
                    message,
                    images.deep_view(),
                );
            }
        }
        let mut message = message;
        let turns = prepare_user_prompt(&mut message, DETAIL_LOW, images);
        self.prompt_stream.add(turns);
        let snapshot = self.prompt_stream.snapshot();
        ReasoningSession::open(snapshot, config)
    }

    /// Ends a reasoning pass: appends the delta of a finished session to the
    /// transcript as it now stands. A session that failed, or that is not
    /// over, leaves the transcript as it is. No directive comes with the
    /// delta.
    pub fn merge(&mut self, session: ReasoningSession)
        ensures
            final(self).prompt_stream@ == merged(
                old(self).prompt_stream@,
                old(self).prompt_stream.limit(),
                session@,
            ),
            final(self).prompt_stream.limit() == old(self).prompt_stream.limit(),
            no_directive(old(self).prompt_stream@) ==> no_directive(final(self).prompt_stream@),
    {
        if session.is_finished() {
            let delta = session.delta();
            proof {
                if no_directive(self.prompt_stream@) {
                    lemma_add_without_directive(
                        self.prompt_stream@,
                        delta.deep_view(),
                        self.prompt_stream.limit(),
                    );
                }
            }
            self.prompt_stream.add(delta);
        }
    }
}

/// What is kept of a log without directives holds no directive.
pub proof fn lemma_kept_without_directive(log: Seq<TurnView>, limit: Option<nat>)
    requires
        no_directive(log),
    ensures
        no_directive(kept(log, limit)),
{
    let rest = kept(log, limit);
    assert forall|i: int| 0 <= i < rest.len() implies !(#[trigger] rest[i] is Directive) by {
        let gone = log.len() - rest.len();
        assert(rest[i] == log[i + gone]);
    }
}

/// Committing a message brings no directive into the transcript.
pub proof fn lemma_commit_without_directive(
    log: Seq<TurnView>,
    limit: Option<nat>,
    message: InputMessage,
    images: Seq<Seq<char>>,
)
    requires
        no_directive(log),
    ensures
        no_directive(committed(log, limit, message, images)),
{
    let all = log + seq![normalized_turn(message, DETAIL_LOW, images)];
    assert forall|i: int| 0 <= i < all.len() implies !(#[trigger] all[i] is Directive) by {
        if i < log.len() {
            assert(all[i] == log[i]);
        }
    }
    lemma_kept_without_directive(all, limit);
}

/// Merging a session brings no directive into the transcript.
pub proof fn lemma_merge_without_directive(
    log: Seq<TurnView>,
    limit: Option<nat>,
    session: SessionView,
)
    requires
        no_directive(log),
        session.wf(),
    ensures
        no_directive(merged(log, limit, session)),
{
    if session.phase is Finished {
        let all = log + session.delta();
        assert forall|i: int| 0 <= i < all.len() implies !(#[trigger] all[i] is Directive) by {
            if i < log.len() {
                assert(all[i] == log[i]);
            } else {
                assert(all[i] == session.delta()[i - log.len()]);
            }
        }
        lemma_kept_without_directive(all, limit);
    }
}

/// Adding turns that hold no directive brings none into the transcript.
pub proof fn lemma_add_without_directive(
    log: Seq<TurnView>,
    added: Seq<TurnView>,
    limit: Option<nat>,
)
    requires
        no_directive(log),
        no_directive(added),
    ensures
        no_directive(kept(log + added, limit)),
{
    let all = log + added;
    assert forall|i: int| 0 <= i < all.len() implies !(#[trigger] all[i] is Directive) by {
        if i < log.len() {
            assert(all[i] == log[i]);
        } else {
            assert(all[i] == added[i - log.len()]);
        }
    }
    lemma_kept_without_directive(all, limit);
}

/// The directive never leaks: a whole pass (commit, session, any run of
/// engine events, merge into the transcript `later` that the channel holds by
/// then) leaves a transcript that held no directive without one, whatever the
/// engine does.
pub proof fn lemma_no_leakage(
    log: Seq<TurnView>,
    limit: Option<nat>,
    message: InputMessage,
    images: Seq<Seq<char>>,
    cap: nat,
    directive: Seq<char>,
    assistant_name: Seq<char>,
    model: Seq<char>,
    events: Seq<EngineEventView>,
    later: Seq<TurnView>,
)
    requires
        no_directive(log),
        no_directive(later),
    ensures
        no_directive(committed(log, limit, message, images)),
        no_directive(
            merged(
                later,
                limit,
                run(
                    opened(
                        committed(log, limit, message, images),
                        cap,
                        directive,
                        assistant_name,
                        model,
                    ),
                    events,
                ),
            ),
        ),
{
    let after_commit = committed(log, limit, message, images);
    let session = opened(after_commit, cap, directive, assistant_name, model);
    lemma_commit_without_directive(log, limit, message, images);
    lemma_opened(after_commit, cap, directive, assistant_name, model);
    lemma_delta_without_directive(session, events);
    lemma_run_wf(session, events);
    lemma_merge_without_directive(later, limit, run(session, events));
}

/// Failure is atomic: where the first engine call of a session fails, the
/// merge changes nothing, so the transcript stays as the commit left it,
/// whatever the engine reports afterwards.
pub proof fn lemma_atomic_failure(
    log: Seq<TurnView>,
    limit: Option<nat>,
    session: SessionView,
    events: Seq<EngineEventView>,
)
    requires
        !session.is_over(),
        events.len() > 0,
        events[0] is Failed,
    ensures
        run(session, events).phase is Failed,
        merged(log, limit, run(session, events)) == log,
{
    lemma_first_failure_is_final(session, events);
}

/// No failure merges anything: a session that did not finish leaves the
/// transcript as it is.
pub proof fn lemma_unfinished_merges_nothing(
    log: Seq<TurnView>,
    limit: Option<nat>,
    session: SessionView,
)
    requires
        !(session.phase is Finished),
    ensures
        merged(log, limit, session) == log,
{
}

} // verus!

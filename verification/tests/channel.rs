use observer::agent::ChannelState;
use observer::normalize::{
    needs_images, prepare_scrubbed_prompt, prepare_user_prompt, scrub_spoilers, wants_images,
    InputMessage, DETAIL_HIGH, DETAIL_LOW, DETAIL_NONE,
};
use observer::reporter::PendingCall;
use observer::session::{
    Action, EngineEvent, EngineReport, Failure, Phase, ReasoningSession, SessionConfig, ToolPolicy,
};
use observer::transcript::Transcript;
use observer::turn::{ContentPart, ImageDetail, Turn};

fn user(text: &str) -> Turn {
    Turn::User { name: Some("u".to_string()), content: vec![ContentPart::Text(text.to_string())] }
}

fn assistant(text: &str) -> Turn {
    Turn::Assistant {
        name: None,
        content: vec![ContentPart::Text(text.to_string())],
        tool_calls: None,
    }
}

fn tool_result(id: &str, text: &str) -> Turn {
    Turn::ToolResult {
        tool_call_id: id.to_string(),
        content: vec![ContentPart::Text(text.to_string())],
    }
}

fn message(content: &str) -> InputMessage {
    InputMessage {
        content: content.to_string(),
        name: "Alice".to_string(),
        message_id: "42".to_string(),
        reply_msg: None,
        user_id: "1001".to_string(),
        attached_files: vec![],
    }
}

fn config(cap: u64) -> SessionConfig {
    SessionConfig {
        max_tool_use: cap,
        directive: "be helpful".to_string(),
        assistant_name: "observer".to_string(),
        model: "gpt-4o-mini".to_string(),
    }
}

fn call(name: &str, arguments: &str) -> PendingCall {
    PendingCall { name: name.to_string(), arguments: serde_json::from_str(arguments).unwrap() }
}

fn wants_tools(calls: Vec<PendingCall>, appended: Vec<Turn>) -> EngineEvent {
    EngineEvent::Replied(EngineReport { can_finish: false, pending: calls, content: None, appended })
}

fn answers(text: &str) -> EngineEvent {
    EngineEvent::Replied(EngineReport {
        can_finish: true,
        pending: vec![],
        content: Some(text.to_string()),
        appended: vec![assistant(text)],
    })
}

fn all_turns(log: &Transcript) -> Vec<Turn> {
    log.suffix(0)
}

#[test]
fn eviction_drops_the_oldest_seven_of_seventy_one() {
    let prior: Vec<Turn> = (0..70).map(|i| user(&format!("turn {}", i))).collect();
    let mut log = Transcript::from_parts(prior, Some(64));
    log.add(vec![user("turn 70")]);
    assert_eq!(log.len(), 64);
    let expected: Vec<Turn> = (7..71).map(|i| user(&format!("turn {}", i))).collect();
    assert_eq!(all_turns(&log), expected);
}

#[test]
fn add_keeps_order_below_the_limit() {
    let mut log = Transcript::new(64);
    log.add(vec![user("a"), user("b")]);
    log.add(vec![user("c")]);
    assert_eq!(all_turns(&log), vec![user("a"), user("b"), user("c")]);
    assert_eq!(log.entry_limit(), Some(64));
}

#[test]
fn add_of_more_than_the_limit_keeps_the_newest() {
    let mut log = Transcript::new(2);
    log.add(vec![user("a"), user("b"), user("c")]);
    assert_eq!(all_turns(&log), vec![user("b"), user("c")]);
}

#[test]
fn zero_limit_keeps_nothing() {
    let mut log = Transcript::new(0);
    log.add(vec![user("a")]);
    assert_eq!(log.len(), 0);
}

#[test]
fn lowering_the_limit_evicts_at_once() {
    let mut log = Transcript::new(10);
    log.add(vec![user("a"), user("b"), user("c")]);
    log.set_entry_limit(1);
    assert_eq!(all_turns(&log), vec![user("c")]);
    assert_eq!(log.entry_limit(), Some(1));
}

#[test]
fn lifted_limit_evicts_nothing() {
    let mut log = Transcript::new(1);
    log.add(vec![user("a")]);
    log.lift_entry_limit();
    log.add(vec![user("b"), user("c")]);
    assert_eq!(all_turns(&log), vec![user("a"), user("b"), user("c")]);
    assert_eq!(log.entry_limit(), None);
}

#[test]
fn clear_empties_and_keeps_the_limit() {
    let mut log = Transcript::new(3);
    log.add(vec![user("a")]);
    log.clear();
    assert_eq!(log.len(), 0);
    assert_eq!(log.entry_limit(), Some(3));
}

#[test]
fn snapshot_is_independent() {
    let mut log = Transcript::new(5);
    log.add(vec![user("a")]);
    let mut copy = log.snapshot();
    copy.add(vec![user("b")]);
    assert_eq!(all_turns(&log), vec![user("a")]);
    assert_eq!(all_turns(&copy), vec![user("a"), user("b")]);
}

#[test]
fn get_and_suffix_at_the_edges() {
    let mut log = Transcript::new(5);
    log.add(vec![user("a"), user("b")]);
    assert_eq!(log.get(1), Some(&user("b")));
    assert_eq!(log.get(2), None);
    assert_eq!(log.suffix(1), vec![user("b")]);
    assert_eq!(log.suffix(2), vec![]);
    assert_eq!(log.suffix(3), vec![]);
}

#[test]
fn spoiler_is_replaced_in_the_envelope() {
    let mut m = message("||secret||");
    let turns = prepare_user_prompt(&mut m, 1, &vec![]);
    assert_eq!(m.content, "||<spoiler_msg>||");
    assert_eq!(
        turns,
        vec![Turn::User {
            name: Some("1001".to_string()),
            content: vec![ContentPart::Text(
                "[META]msg_id:42,user_name:Alice,replay_msg:none;\n||<spoiler_msg>||".to_string()
            )],
        }]
    );
}

#[test]
fn every_spoiler_span_is_replaced() {
    assert_eq!(scrub_spoilers("a ||x|| b ||y z|| c"), "a ||<spoiler_msg>|| b ||<spoiler_msg>|| c");
    assert_eq!(scrub_spoilers("no spoiler | here"), "no spoiler | here");
    assert_eq!(scrub_spoilers("||open only"), "||open only");
    assert_eq!(scrub_spoilers("||||"), "||<spoiler_msg>||");
    assert_eq!(scrub_spoilers("||a\nb||"), "||<spoiler_msg>||");
    assert_eq!(scrub_spoilers("x ||line1\nline2|| y\n||z||"), "x ||<spoiler_msg>|| y\n||<spoiler_msg>||");
}

#[test]
fn override_token_forces_high_detail() {
    let mut m = message("look at this !hidetail please");
    let images = vec!["data:image/png;base64,AAAA".to_string()];
    assert!(needs_images(&m, 1));
    let turns = prepare_user_prompt(&mut m, 1, &images);
    assert_eq!(m.content, "look at this  please");
    assert_eq!(
        turns,
        vec![Turn::User {
            name: Some("1001".to_string()),
            content: vec![
                ContentPart::Text(
                    "[META]msg_id:42,user_name:Alice,replay_msg:none;\nlook at this  please"
                        .to_string()
                ),
                ContentPart::Image {
                    url: "data:image/png;base64,AAAA".to_string(),
                    detail: ImageDetail::High
                },
            ],
        }]
    );
}

#[test]
fn override_token_attaches_images_even_under_no_image_policy() {
    let mut m = message("!hidetail");
    let images = vec!["u1".to_string(), "u2".to_string()];
    assert!(needs_images(&m, 0));
    let turns = prepare_user_prompt(&mut m, 0, &images);
    match &turns[0] {
        Turn::User { content, .. } => {
            assert_eq!(content.len(), 3);
            assert_eq!(
                content[2],
                ContentPart::Image { url: "u2".to_string(), detail: ImageDetail::High }
            );
        }
        _ => panic!("not a user turn"),
    }
}

#[test]
fn hidden_override_token_does_not_count() {
    let m = message("||!hidetail||");
    assert!(!needs_images(&m, 0));
    assert!(needs_images(&m, 1));
}

#[test]
fn low_policy_tags_low_and_no_policy_drops_images() {
    let images = vec!["u1".to_string()];
    let mut m = message("hello");
    let turns = prepare_user_prompt(&mut m, 1, &images);
    match &turns[0] {
        Turn::User { content, .. } => assert_eq!(
            content[1],
            ContentPart::Image { url: "u1".to_string(), detail: ImageDetail::Low }
        ),
        _ => panic!("not a user turn"),
    }
    let mut m = message("hello");
    assert!(!needs_images(&m, 0));
    let turns = prepare_user_prompt(&mut m, 0, &images);
    match &turns[0] {
        Turn::User { content, .. } => assert_eq!(content.len(), 1),
        _ => panic!("not a user turn"),
    }
}

#[test]
fn other_policy_values_leave_the_tag_out() {
    let images = vec!["u1".to_string()];
    let mut m = message("hello");
    let turns = prepare_user_prompt(&mut m, 7, &images);
    match &turns[0] {
        Turn::User { content, .. } => assert_eq!(
            content[1],
            ContentPart::Image { url: "u1".to_string(), detail: ImageDetail::Unspecified }
        ),
        _ => panic!("not a user turn"),
    }
}

#[test]
fn reply_target_stands_in_the_envelope() {
    let mut m = message("hi");
    m.reply_msg = Some("41".to_string());
    let turns = prepare_user_prompt(&mut m, 1, &vec![]);
    match &turns[0] {
        Turn::User { content, name } => {
            assert_eq!(name, &Some("1001".to_string()));
            assert_eq!(
                content[0],
                ContentPart::Text("[META]msg_id:42,user_name:Alice,replay_msg:41;\nhi".to_string())
            );
        }
        _ => panic!("not a user turn"),
    }
}

#[test]
fn new_channel_is_empty_with_limit_sixty_four() {
    let state = ChannelState::new();
    assert_eq!(state.prompt_stream.len(), 0);
    assert_eq!(state.prompt_stream.entry_limit(), Some(64));
}

#[test]
fn add_message_commits_one_user_turn() {
    let mut state = ChannelState::new();
    state.add_message(message("hello"), &vec![]);
    assert_eq!(
        all_turns(&state.prompt_stream),
        vec![Turn::User {
            name: Some("1001".to_string()),
            content: vec![ContentPart::Text(
                "[META]msg_id:42,user_name:Alice,replay_msg:none;\nhello".to_string()
            )],
        }]
    );
    state.clear_prompt();
    assert_eq!(state.prompt_stream.len(), 0);
}

#[test]
fn engine_that_can_finish_at_once_merges_one_assistant_turn() {
    let mut state = ChannelState::new();
    state.add_message(message("earlier"), &vec![]);
    let session = state.reasoning(message("question"), &vec![], &config(3));
    assert_eq!(state.prompt_stream.len(), 2);
    assert_eq!(session.phase(), Phase::DirectiveInjected);
    assert_eq!(session.boundary(), 2);
    let history = session.history();
    assert_eq!(history.len(), 3);
    assert_eq!(
        history[2],
        Turn::Directive {
            name: Some("observer".to_string()),
            content: vec![ContentPart::Text("be helpful".to_string())],
        }
    );
    let (session, action) = session.advance(answers("the answer\\nsecond line"));
    assert_eq!(action, Action::Reply("the answer\nsecond line\n-# model: gpt-4o-mini".to_string()));
    assert!(session.is_finished());
    assert_eq!(session.delta(), vec![assistant("the answer\\nsecond line")]);
    state.merge(session);
    let turns = all_turns(&state.prompt_stream);
    assert_eq!(turns.len(), 3);
    assert_eq!(turns[2], assistant("the answer\\nsecond line"));
    assert!(turns.iter().all(|t| !t.is_directive()));
}

#[test]
fn cap_forces_the_last_step_to_run_without_tools() {
    let mut state = ChannelState::new();
    let mut session = state.reasoning(message("question"), &vec![], &config(3));
    let mut policies = vec![];
    let mut notices_seen = vec![];
    let mut action;
    (session, action) = session.advance(wants_tools(
        vec![call("web_scraper", r#"{"url":"https://example.com"}"#)],
        vec![assistant("")],
    ));
    for round in 0..4u64 {
        match action {
            Action::Step { index, notices, policy } => {
                assert_eq!(index, round);
                policies.push(policy);
                notices_seen.extend(notices);
            }
            other => panic!("expected a step, got {:?}", other),
        }
        assert_eq!(session.phase(), Phase::Looping);
        (session, action) = session.advance(wants_tools(
            vec![call("web_scraper", r#"{"url":"https://example.com"}"#)],
            vec![tool_result("c", "page"), assistant("")],
        ));
    }
    assert_eq!(
        policies,
        vec![
            ToolPolicy::Automatic,
            ToolPolicy::Automatic,
            ToolPolicy::Automatic,
            ToolPolicy::Disabled
        ]
    );
    assert_eq!(notices_seen, vec!["-# using web_scraper...".to_string(); 4]);
    assert_eq!(
        action,
        Action::Reply(
            "Err: response is none from ai\n-# model: gpt-4o-mini\n-# tools: web_scraper×4"
                .to_string()
        )
    );
    assert!(session.is_finished());
    state.merge(session);
    assert_eq!(state.prompt_stream.len(), 1 + 1 + 4 * 2);
}

#[test]
fn forced_answer_is_used_when_the_cap_is_reached() {
    let mut state = ChannelState::new();
    let session = state.reasoning(message("q"), &vec![], &config(0));
    let (session, action) = session.advance(wants_tools(vec![call("get_time", "{}")], vec![]));
    assert_eq!(
        action,
        Action::Step {
            index: 0,
            notices: vec!["-# using get_time...".to_string()],
            policy: ToolPolicy::Disabled
        }
    );
    let (session, action) = session.advance(EngineEvent::Replied(EngineReport {
        can_finish: false,
        pending: vec![call("get_time", "{}")],
        content: Some("it is noon".to_string()),
        appended: vec![tool_result("c1", "12:00"), assistant("it is noon")],
    }));
    assert_eq!(
        action,
        Action::Reply("it is noon\n-# model: gpt-4o-mini\n-# tools: get_time".to_string())
    );
    state.merge(session);
    assert_eq!(
        state.prompt_stream.suffix(1),
        vec![tool_result("c1", "12:00"), assistant("it is noon")]
    );
}

#[test]
fn failure_of_the_first_call_leaves_the_commit_alone() {
    let mut state = ChannelState::new();
    let session = state.reasoning(message("question"), &vec![], &config(3));
    let after_commit = all_turns(&state.prompt_stream);
    assert_eq!(after_commit.len(), 1);
    let (session, action) = session.advance(EngineEvent::Failed("ModelConfigNotSet".to_string()));
    assert_eq!(
        action,
        Action::Abort {
            failure: Failure::EngineUnavailable,
            reply: "Err: failed reasoning - ModelConfigNotSet".to_string()
        }
    );
    assert_eq!(session.phase(), Phase::Failed);
    state.merge(session);
    assert_eq!(all_turns(&state.prompt_stream), after_commit);
}

#[test]
fn failure_of_a_later_step_merges_nothing() {
    let mut state = ChannelState::new();
    let session = state.reasoning(message("question"), &vec![], &config(3));
    let (session, _) = session.advance(wants_tools(vec![call("memory", "{}")], vec![assistant("")]));
    let (session, action) = session.advance(EngineEvent::Failed("ToolNotFound".to_string()));
    assert_eq!(
        action,
        Action::Abort {
            failure: Failure::EngineStepFailed,
            reply: "Err: failed reasoning - ToolNotFound".to_string()
        }
    );
    let (session, action) = session.advance(answers("late"));
    assert_eq!(action, Action::Ignored);
    assert_eq!(session.phase(), Phase::Failed);
    state.merge(session);
    assert_eq!(state.prompt_stream.len(), 1);
}

#[test]
fn unfinished_session_merges_nothing() {
    let mut state = ChannelState::new();
    let session = state.reasoning(message("question"), &vec![], &config(3));
    let (session, _) = session.advance(wants_tools(vec![call("memory", "{}")], vec![assistant("")]));
    state.merge(session);
    assert_eq!(state.prompt_stream.len(), 1);
}

#[test]
fn rationale_is_preferred_in_notices_and_tools_are_listed_by_first_use() {
    let mut state = ChannelState::new();
    let session = state.reasoning(message("question"), &vec![], &config(5));
    let (session, action) = session.advance(wants_tools(
        vec![
            call("www_search", r#"{"$explain":"searching the web","q":"rust"}"#),
            call("memory", r#"{"key":"k"}"#),
        ],
        vec![assistant("")],
    ));
    assert_eq!(
        action,
        Action::Step {
            index: 0,
            notices: vec![
                "-# \"searching the web\"...".to_string(),
                "-# using memory...".to_string()
            ],
            policy: ToolPolicy::Automatic
        }
    );
    let (session, action) = session.advance(wants_tools(
        vec![call("www_search", r#"{"q":"verus"}"#)],
        vec![tool_result("a", "r1"), tool_result("b", "r2"), assistant("")],
    ));
    assert_eq!(
        action,
        Action::Step {
            index: 1,
            notices: vec!["-# using www_search...".to_string()],
            policy: ToolPolicy::Automatic
        }
    );
    let (session, action) = session.advance(answers("done"));
    assert_eq!(
        action,
        Action::Reply("done\n-# model: gpt-4o-mini\n-# tools: www_search×2, memory".to_string())
    );
    state.merge(session);
    assert_eq!(state.prompt_stream.len(), 1 + 1 + 3 + 1);
}

#[test]
fn merge_appends_to_what_the_transcript_holds_by_then() {
    let mut state = ChannelState::new();
    let session = state.reasoning(message("first"), &vec![], &config(3));
    state.add_message(message("second"), &vec![]);
    let (session, _) = session.advance(answers("reply to first"));
    state.merge(session);
    let turns = all_turns(&state.prompt_stream);
    assert_eq!(turns.len(), 3);
    assert_eq!(turns[2], assistant("reply to first"));
}

#[test]
fn opening_a_session_lifts_the_limit_of_the_copy_only() {
    let mut log = Transcript::new(1);
    log.add(vec![user("a")]);
    let session = ReasoningSession::open(log.snapshot(), &config(1));
    assert_eq!(session.history().len(), 2);
    assert_eq!(log.entry_limit(), Some(1));
    assert_eq!(session.delta(), vec![]);
}

#[test]
fn scrubbed_text_is_forwarded_without_the_token() {
    let mut m = message("anything");
    let images = vec!["u1".to_string()];
    let turns = prepare_scrubbed_prompt(&mut m, "a !hidetail b !hidetail", DETAIL_NONE, &images);
    assert_eq!(m.content, "a  b ");
    assert_eq!(
        turns,
        vec![Turn::User {
            name: Some("1001".to_string()),
            content: vec![
                ContentPart::Text(
                    "[META]msg_id:42,user_name:Alice,replay_msg:none;\na  b ".to_string()
                ),
                ContentPart::Image { url: "u1".to_string(), detail: ImageDetail::High },
            ],
        }]
    );
    assert_eq!(m.name, "Alice");
    assert_eq!(m.attached_files, Vec::<String>::new());
}

#[test]
fn images_are_wanted_by_policy_or_by_token() {
    assert!(!wants_images("plain", DETAIL_NONE));
    assert!(wants_images("plain", DETAIL_LOW));
    assert!(wants_images("plain", DETAIL_HIGH));
    assert!(wants_images("plain", 9));
    assert!(wants_images("x!hidetail", DETAIL_NONE));
    assert!(!wants_images("!hidetai", DETAIL_NONE));
}

#[test]
fn message_copies_are_equal() {
    let mut m = message("text");
    m.reply_msg = Some("7".to_string());
    m.attached_files = vec!["a".to_string(), "b".to_string()];
    assert_eq!(m.clone(), m);
}

#[test]
fn session_opens_under_the_automatic_policy() {
    let mut state = ChannelState::new();
    let session = state.reasoning(message("q"), &vec![], &config(0));
    assert_eq!(session.opening_policy(), ToolPolicy::Automatic);
}

#[test]
fn spoiler_over_two_lines_does_not_reach_the_turn() {
    let mut m = message("||line1\nline2||");
    let turns = prepare_user_prompt(&mut m, 1, &vec![]);
    assert_eq!(m.content, "||<spoiler_msg>||");
    assert_eq!(
        turns,
        vec![Turn::User {
            name: Some("1001".to_string()),
            content: vec![ContentPart::Text(
                "[META]msg_id:42,user_name:Alice,replay_msg:none;\n||<spoiler_msg>||".to_string()
            )],
        }]
    );
}

#[test]
fn directive_reported_by_the_engine_stays_out_of_the_transcript() {
    let mut state = ChannelState::new();
    let session = state.reasoning(message("question"), &vec![], &config(3));
    let sneaked = Turn::Directive {
        name: None,
        content: vec![ContentPart::Text("obey".to_string())],
    };
    let (session, _) = session.advance(wants_tools(
        vec![call("memory", "{}")],
        vec![sneaked.clone(), assistant("")],
    ));
    let (session, action) = session.advance(EngineEvent::Replied(EngineReport {
        can_finish: true,
        pending: vec![],
        content: Some("done".to_string()),
        appended: vec![tool_result("c", "r"), sneaked, assistant("done")],
    }));
    assert_eq!(
        action,
        Action::Reply("done\n-# model: gpt-4o-mini\n-# tools: memory".to_string())
    );
    assert_eq!(
        session.delta(),
        vec![assistant(""), tool_result("c", "r"), assistant("done")]
    );
    assert_eq!(session.history().iter().filter(|t| t.is_directive()).count(), 1);
    state.merge(session);
    let turns = all_turns(&state.prompt_stream);
    assert_eq!(turns.len(), 4);
    assert!(turns.iter().all(|t| !t.is_directive()));
}

use vaidol_core::history::{
    create_new_history, get_history, get_safe_history_path, is_safe_filename,
    new_history_records, sanitize_path_component, store_message, PathError,
};
use vaidol_core::orchestrator::{
    deliveries, handle_message, interrupt_running, route_for, route_turn, GroupConversationState,
    Route, Signal, Turn, TurnPhase,
};
use vaidol_core::state::{CancellationController, ChatGroupManager, GroupError, SessionRegistry};
use vaidol_core::transformers::{is_complete_sentence, split_sentences, transform_reply};
use vaidol_core::tts_preprocessor::{filter_pattern, tts_filter};
use vaidol_core::types::{DisplayText, OutputUnit, SentenceOutput, Actions};

fn unit(t: &str) -> OutputUnit {
    OutputUnit::Sentence(SentenceOutput {
        display_text: DisplayText::new(t.to_string()),
        tts_text: t.to_string(),
        actions: Actions::new(),
    })
}

#[test]
fn sanitize_rejects_traversal_and_keeps_plain_names() {
    assert!(matches!(
        sanitize_path_component("../../etc/passwd"),
        Err(PathError::Traversal(c)) if c == "../../etc/passwd"
    ));
    assert_eq!(sanitize_path_component("my-config_1").unwrap(), "my-config_1");
    assert!(sanitize_path_component("..").is_err());
    assert!(sanitize_path_component("").is_err());
    assert!(matches!(
        sanitize_path_component("bad\u{1}name"),
        Err(PathError::InvalidCharacters(_))
    ));
}

#[test]
fn safe_filename_uses_pattern_and_length() {
    assert!(is_safe_filename("conf 1"));
    assert!(!is_safe_filename("tab\there"));
    assert!(!is_safe_filename(&"a".repeat(256)));
    assert!(is_safe_filename(&"a".repeat(255)));
}

#[test]
fn history_path_stays_in_conf_dir() {
    assert_eq!(
        get_safe_history_path("conf", "h1").unwrap(),
        "chat_history/conf/h1.json"
    );
    assert!(get_safe_history_path("conf", "../x").is_err());
}

#[test]
fn history_round_trip_skips_metadata() {
    let mut records = new_history_records("t0".to_string());
    store_message(&mut records, "human", "hello", None, None, "t1".to_string());
    store_message(&mut records, "ai", "hi", Some("Mia"), None, "t2".to_string());
    store_message(&mut records, "human", "bye", None, Some("a.png"), "t3".to_string());
    let read = get_history(&records);
    let got: Vec<(String, String)> = read.iter().map(|m| (m.role.clone(), m.content.clone())).collect();
    assert_eq!(
        got,
        vec![
            ("human".to_string(), "hello".to_string()),
            ("ai".to_string(), "hi".to_string()),
            ("human".to_string(), "bye".to_string()),
        ]
    );
    assert_eq!(read[1].name.as_deref(), Some("Mia"));
}

#[test]
fn new_history_is_named_after_time() {
    let h = create_new_history("conf", 1_700_000_000).unwrap().unwrap();
    assert!(h.history_uid.starts_with("2023-11-14_22-13-20_"));
    let id = &h.history_uid["2023-11-14_22-13-20_".len()..];
    assert_eq!(id.len(), 32);
    assert!(id.chars().all(|c| c.is_ascii_hexdigit() && !c.is_ascii_uppercase()));
    assert_eq!(h.path, format!("chat_history/conf/{}.json", h.history_uid));
    assert_eq!(h.records.len(), 1);
    assert_eq!(h.records[0].role, "metadata");
    assert_eq!(h.records[0].timestamp, "2023-11-14T22:13:20+00:00");
    assert!(create_new_history("", 0).unwrap().is_none());
    assert!(create_new_history("a/b", 0).is_err());
}

#[test]
fn ungrouped_client_takes_single_route() {
    let groups = ChatGroupManager::new();
    assert!(groups.get_group_members("solo").is_empty());
    let (route, members) = route_turn(&groups, "solo");
    assert_eq!(route, Route::Single);
    assert!(members.is_empty());
}

#[test]
fn group_turn_is_forwarded_to_owner() {
    let mut groups = ChatGroupManager::new();
    let g = groups.add_client_to_group("A", "B").unwrap();
    assert_eq!(g, "group_0");
    assert!(groups.is_owner("A"));
    assert!(!groups.is_owner("B"));
    let (route, members) = route_turn(&groups, "B");
    assert_eq!(route, Route::Group);
    assert_eq!(members, vec!["A".to_string(), "B".to_string()]);
    let d = deliveries("B", &members);
    let got: Vec<(String, bool)> = d.iter().map(|x| (x.client_uid.clone(), x.forwarded)).collect();
    assert_eq!(got, vec![("B".to_string(), false), ("A".to_string(), true)]);
}

#[test]
fn group_membership_rules() {
    let mut groups = ChatGroupManager::new();
    assert!(matches!(groups.add_client_to_group("A", "A"), Err(GroupError::SelfInvite)));
    groups.add_client_to_group("A", "B").unwrap();
    groups.add_client_to_group("A", "C").unwrap();
    assert!(matches!(groups.add_client_to_group("D", "B"), Err(GroupError::AlreadyInGroup(c)) if c == "B"));
    assert!(matches!(groups.add_client_to_group("D", "E"), Ok(g) if g == "group_1"));
    groups.remove_client_from_group("A").unwrap();
    assert!(groups.get_group_members("B").iter().all(|m| m != "A"));
    assert!(groups.is_owner("B"));
    assert_eq!(groups.get_group_members("C"), vec!["B".to_string(), "C".to_string()]);
    groups.remove_client_from_group("B").unwrap();
    groups.remove_client_from_group("C").unwrap();
    assert!(groups.get_client_group("C").is_none());
    assert!(matches!(groups.remove_client_from_group("C"), Err(GroupError::NotInGroup(_))));
    let g = groups.add_client_to_group("A", "C").unwrap();
    assert_eq!(g, "group_2");
    assert_eq!(groups.get_group_members("E"), vec!["D".to_string(), "E".to_string()]);
}

#[test]
fn interrupt_stops_forwarding() {
    let mut controller = CancellationController::new();
    let (id, prev) = controller.start_turn("S1").unwrap();
    assert!(prev.is_none());
    let mut turn = Turn::new("S1".to_string(), id);
    assert!(turn.start().is_some());
    assert!(turn.forward(&unit("Hello. ")));
    assert!(turn.forward(&unit("World.")));
    let mut agent = vaidol_core::agent::BasicMemoryAgent::new(
        vaidol_core::llm::LlmAdapter::LlamaCpp(vaidol_core::llm::LlamaCppLLM::new(String::new())),
        "sys".to_string(),
        true,
        "regex".to_string(),
        "user".to_string(),
    );
    let mut calls = 0;
    let heard = interrupt_running(&mut controller, &mut turn);
    assert_eq!(heard.as_deref(), Some("Hello. World."));
    if let Some(h) = &heard {
        agent.handle_interrupt(h);
        calls += 1;
    }
    if let Some(h) = turn.interrupt() {
        agent.handle_interrupt(&h);
        calls += 1;
    }
    assert_eq!(calls, 1);
    assert_eq!(agent.memory().len(), 2);
    assert!(controller.current("S1").is_none());
    assert!(!turn.forward(&unit("More.")));
    assert_eq!(turn.forwarded_units(), 2);
    assert_eq!(turn.phase(), TurnPhase::Interrupted);
    assert!(turn.interrupt().is_none());
}

#[test]
fn controller_replaces_and_finishes_turns() {
    let mut c = CancellationController::new();
    let (first, _) = c.start_turn("S").unwrap();
    let (second, prev) = c.start_turn("S").unwrap();
    assert_eq!(prev, Some(first));
    c.finish_turn("S", first);
    assert_eq!(c.current("S"), Some(second));
    c.finish_turn("S", second);
    assert!(c.current("S").is_none());
    assert_eq!(c.interrupt("S"), None);
}

#[test]
fn sessions_track_history() {
    let mut s = SessionRegistry::new();
    s.connect("c1".to_string(), "conf".to_string());
    s.set_history("c1", "h1".to_string());
    s.set_history("ghost", "h9".to_string());
    assert!(s.context("ghost").is_none());
    let ctx = s.context("c1").unwrap();
    assert_eq!(ctx.conf_uid, "conf");
    assert_eq!(ctx.history_uid.as_deref(), Some("h1"));
    s.clear_history_if("c1", "other");
    assert!(s.context("c1").unwrap().history_uid.is_some());
    s.clear_history_if("c1", "h1");
    assert!(s.context("c1").unwrap().history_uid.is_none());
    s.disconnect("c1");
    assert!(s.context("c1").is_none());
}

#[test]
fn message_kinds() {
    assert_eq!(handle_message(Some("interrupt-signal")), Signal::InterruptSignal);
    assert_eq!(handle_message(Some("text-input")), Signal::TextInput);
    assert_eq!(handle_message(Some("nope")), Signal::Unknown);
    assert_eq!(handle_message(None), Signal::Unknown);
}

#[test]
fn routes_by_member_count() {
    assert_eq!(route_for(&vec![]), Route::Single);
    assert_eq!(route_for(&vec!["a".to_string()]), Route::Single);
    assert_eq!(route_for(&vec!["a".to_string(), "b".to_string()]), Route::Group);
}

#[test]
fn speaking_order_is_round_robin() {
    let mut g = GroupConversationState::new(
        "g".to_string(),
        "*".to_string(),
        vec!["a".to_string(), "b".to_string()],
    );
    assert_eq!(g.memory_index, vec![("a".to_string(), 0), ("b".to_string(), 0)]);
    assert_eq!(g.next_speaker().as_deref(), Some("a"));
    assert_eq!(g.next_speaker().as_deref(), Some("b"));
    assert_eq!(g.next_speaker().as_deref(), Some("a"));
}

#[test]
fn filters_remove_marked_spans() {
    assert_eq!(filter_pattern("a(b(c)d)e", '(', ')'), "ae");
    assert_eq!(filter_pattern("a*b*c", '*', '*'), "a");
    assert_eq!(tts_filter("Hi [x] <y> (z)!", false, true, true, false, true), "Hi   !");
    assert_eq!(tts_filter("héllo~ wörld#", true, false, false, false, false), "héllo wörld");
    assert_eq!(tts_filter("a*b", false, false, false, false, false), "a*b");
}

#[test]
fn sentences_are_split_and_checked() {
    assert_eq!(split_sentences(" Hi. How are you?  Fine"), vec!["Hi", "How are you", "Fine"]);
    assert!(split_sentences(" . ").is_empty());
    assert!(is_complete_sentence("Done.  "));
    assert!(is_complete_sentence("好。"));
    assert!(!is_complete_sentence("not yet"));
    assert!(!is_complete_sentence("   "));
}

#[test]
fn pipeline_makes_one_unit_per_sentence() {
    let out = transform_reply("One (aside). Two!", None);
    assert_eq!(out.len(), 2);
    assert_eq!(out[0].display_text.text, "One (aside)");
    assert_eq!(out[1].tts_text, "Two");
}

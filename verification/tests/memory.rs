use godbot::dialogue::{Role, MAX_TURNS, SEED_VISIBILITY_THRESHOLD};
use godbot::god::{God, GodConfig, Message};
use godbot::kirby::{Discussion, DiscussionKind};
use ollama_rs::generation::options::GenerationOptions;

fn kirby_config() -> GodConfig {
    GodConfig::new(
        "demo".to_string(),
        "Kirby".to_string(),
        GenerationOptions::default(),
        "Kirby is kind".to_string(),
        Discussion(vec![
            DiscussionKind::prompt("Alexis", "Who is god?"),
            DiscussionKind::response("Kirby", "I am."),
        ]),
    )
}

fn message(role: Role, content: &str) -> Message {
    Message { role, content: content.to_string() }
}

fn commit_numbered(god: &mut God, from: usize, to: usize) {
    for i in from..to {
        god.set_prompt_response("Alexis", &format!("msg-{i}"), &format!("reply-{i}"));
    }
}

fn numbered_pairs(from: usize, to: usize) -> Vec<DiscussionKind> {
    let mut pairs = Vec::new();
    for i in from..to {
        pairs.push(DiscussionKind::prompt("Alexis", &format!("msg-{i}")));
        pairs.push(DiscussionKind::response("Kirby", &format!("reply-{i}")));
    }
    pairs
}

#[test]
fn constants_have_their_default_values() {
    assert_eq!(MAX_TURNS, 10);
    assert_eq!(SEED_VISIBILITY_THRESHOLD, 6);
}

#[test]
fn eleven_commits_evict_the_first_turn() {
    let mut god = God::from_config(kirby_config());
    commit_numbered(&mut god, 0, 11);
    assert_eq!(god.recollections().len(), 20);
    assert_eq!(god.recollections().0, numbered_pairs(1, 11));

    let prompt = god.get_prompt("Alexis", "msg-11");
    assert_eq!(prompt.len(), 22);
    assert_eq!(prompt[0], message(Role::System, "Kirby is kind"));
    assert_eq!(prompt[1], message(Role::User, "Alexis: msg-1"));
    assert_eq!(prompt[2], message(Role::Assistant, "reply-1"));
    assert_eq!(prompt[20], message(Role::Assistant, "reply-10"));
    assert_eq!(prompt[21], message(Role::User, "Alexis: msg-11"));
    assert!(prompt.iter().all(|m| m.content != "Alexis: Who is god?" && m.content != "I am."));
}

#[test]
fn history_stays_bounded_and_ordered() {
    let mut god = God::from_config(kirby_config());
    for n in 1..=35usize {
        commit_numbered(&mut god, n - 1, n);
        let kept = if n > MAX_TURNS { MAX_TURNS } else { n };
        assert_eq!(god.recollections().len(), 2 * kept);
        assert_eq!(god.recollections().0, numbered_pairs(n - kept, n));
    }
}

#[test]
fn tenth_commit_fills_the_history_without_eviction() {
    let mut god = God::from_config(kirby_config());
    commit_numbered(&mut god, 0, 10);
    assert_eq!(god.recollections().0, numbered_pairs(0, 10));
}

#[test]
fn fresh_prompt_shows_context_seed_and_question() {
    let god = God::from_config(kirby_config());
    let prompt = god.get_prompt("Bob", "Hello?");
    assert_eq!(
        prompt,
        vec![
            message(Role::System, "Kirby is kind"),
            message(Role::User, "Alexis: Who is god?"),
            message(Role::Assistant, "I am."),
            message(Role::User, "Bob: Hello?"),
        ]
    );
}

#[test]
fn seed_is_shown_up_to_the_threshold_and_not_beyond() {
    let mut god = God::from_config(kirby_config());
    commit_numbered(&mut god, 0, 3);
    assert_eq!(god.recollections().len(), 6);
    let shown = god.get_prompt("Bob", "q");
    assert_eq!(shown.len(), 1 + 2 + 6 + 1);
    assert_eq!(shown[1], message(Role::User, "Alexis: Who is god?"));
    assert_eq!(shown[2], message(Role::Assistant, "I am."));
    assert_eq!(shown[3], message(Role::User, "Alexis: msg-0"));

    commit_numbered(&mut god, 3, 4);
    assert_eq!(god.recollections().len(), 8);
    let hidden = god.get_prompt("Bob", "q");
    assert_eq!(hidden.len(), 1 + 8 + 1);
    assert_eq!(hidden[0], message(Role::System, "Kirby is kind"));
    assert_eq!(hidden[1], message(Role::User, "Alexis: msg-0"));
    assert_eq!(hidden[9], message(Role::User, "Bob: q"));
}

#[test]
fn clearing_the_history_shows_the_seed_again() {
    let mut god = God::from_config(kirby_config());
    commit_numbered(&mut god, 0, 5);
    assert_eq!(god.get_prompt("Bob", "q").len(), 12);
    god.clear();
    assert!(god.recollections().is_empty());
    assert_eq!(god.get_prompt("Bob", "q").len(), 4);
    assert_eq!(god.config().thursdayism.len(), 2);
}

#[test]
fn get_prompt_does_not_change_the_agent() {
    let mut god = God::from_config(kirby_config());
    commit_numbered(&mut god, 0, 2);
    let first = god.get_prompt("Bob", "q");
    let second = god.get_prompt("Bob", "q");
    assert_eq!(first, second);
    assert_eq!(god.recollections().0, numbered_pairs(0, 2));
}

#[test]
fn no_response_commits_nothing() {
    let mut god = God::from_config(kirby_config());
    commit_numbered(&mut god, 0, 2);
    assert!(!god.record_response("Alexis", "lost", None));
    assert_eq!(god.recollections().len(), 4);
    assert_eq!(god.recollections().0, numbered_pairs(0, 2));
    assert_eq!(god.get_botname(), "Kirby");
}

#[test]
fn a_response_commits_the_turn() {
    let mut god = God::from_config(kirby_config());
    assert!(god.record_response("Alexis", "msg-0", Some("reply-0")));
    assert_eq!(god.recollections().0, numbered_pairs(0, 1));
}

#[test]
fn response_is_stored_under_the_agents_name() {
    let mut god = God::from_config(kirby_config());
    god.set_botname("Marvin");
    god.set_prompt_response("Bob", "Hi", "Oh.");
    assert_eq!(
        god.recollections().0,
        vec![DiscussionKind::prompt("Bob", "Hi"), DiscussionKind::response("Marvin", "Oh.")]
    );
}

#[test]
fn export_then_import_keeps_identity_and_seed_and_drops_history() {
    let mut config = kirby_config();
    config.options = GenerationOptions::default().num_ctx(4096).top_k(40).temperature(0.8);
    let mut god = God::from_config(config);
    commit_numbered(&mut god, 0, 4);

    let restored = God::from_config(god.export_config());
    assert_eq!(restored.config().model, "demo");
    assert_eq!(restored.config().botname, "Kirby");
    assert_eq!(restored.config().context, "Kirby is kind");
    assert_eq!(restored.config().thursdayism, god.config().thursdayism);
    assert_eq!(
        serde_json::to_value(&restored.config().options).unwrap(),
        serde_json::to_value(&god.config().options).unwrap()
    );
    assert_eq!(
        serde_json::to_value(&restored.config().options).unwrap()["num_ctx"].as_u64(),
        Some(4096)
    );
    assert!(restored.recollections().is_empty());
    assert_eq!(god.recollections().len(), 8);
}

#[test]
fn loaded_configuration_wins_over_the_default() {
    let default = kirby_config();
    let mut stored = kirby_config();
    stored.botname = "Marvin".to_string();
    stored.thursdayism = Discussion(Vec::new());

    let loaded = God::from_loaded(Some(stored), &default);
    assert_eq!(loaded.get_botname(), "Marvin");
    assert!(loaded.config().thursdayism.is_empty());
    assert!(loaded.recollections().is_empty());

    let fallen_back = God::from_loaded(None, &default);
    assert_eq!(fallen_back.get_botname(), "Kirby");
    assert_eq!(fallen_back.config().thursdayism, default.thursdayism);
    assert!(fallen_back.recollections().is_empty());
}

#[test]
fn update_from_config_replaces_identity_and_forgets() {
    let mut god = God::from_config(kirby_config());
    commit_numbered(&mut god, 0, 3);
    let mut other = kirby_config();
    other.model = "marvin".to_string();
    other.botname = "Marvin".to_string();
    other.context = "Marvin is tired".to_string();
    god.update_from_config(other);
    assert_eq!(god.config().model, "marvin");
    assert_eq!(god.get_botname(), "Marvin");
    assert_eq!(god.config().context, "Marvin is tired");
    assert!(god.recollections().is_empty());
}

#[test]
fn seed_can_be_edited() {
    let mut god = God::from_config(kirby_config());
    commit_numbered(&mut god, 0, 1);

    god.set_context("Kirby is stern");
    assert_eq!(god.config().context, "Kirby is stern");
    assert_eq!(god.get_prompt("Bob", "q")[0], message(Role::System, "Kirby is stern"));

    god.add_seed_exchange("Bob", "Why?", "Because.");
    assert_eq!(
        god.config().thursdayism.0,
        vec![
            DiscussionKind::prompt("Alexis", "Who is god?"),
            DiscussionKind::response("Kirby", "I am."),
            DiscussionKind::prompt("Bob", "Why?"),
            DiscussionKind::response("Kirby", "Because."),
        ]
    );

    god.clear_seed_exchanges();
    assert!(god.config().thursdayism.is_empty());
    assert_eq!(god.config().context, "Kirby is stern");
    assert_eq!(god.recollections().0, numbered_pairs(0, 1));
    assert_eq!(
        god.get_prompt("Bob", "q"),
        vec![
            message(Role::System, "Kirby is stern"),
            message(Role::User, "Alexis: msg-0"),
            message(Role::Assistant, "reply-0"),
            message(Role::User, "Bob: q"),
        ]
    );
}

#[test]
fn renaming_keeps_everything_else() {
    let mut god = God::from_config(kirby_config());
    commit_numbered(&mut god, 0, 2);
    god.set_botname("Marvin");
    assert_eq!(god.get_botname(), "Marvin");
    assert_eq!(god.config().model, "demo");
    assert_eq!(god.config().thursdayism.len(), 2);
    assert_eq!(god.recollections().0, numbered_pairs(0, 2));
}

#[test]
fn dump_lists_identity_seed_and_history() {
    let mut god = God::from_config(kirby_config());
    god.set_prompt_response("Bob", "Hi", "Hello.");
    assert_eq!(
        god.get_config(),
        "Kirby config.\n===========\nModel: demo\nSystem: Kirby is kind\n\
         Thursdayism\n---------------\nAlexis: Who is god?\nbot: I am.\n\
         Recollections\n---------------\nBob: Hi\nbot: Hello.\n\n"
    );
}

#[test]
fn dump_of_an_agent_without_dialogue() {
    let mut config = kirby_config();
    config.thursdayism = Discussion(Vec::new());
    let god = God::from_config(config);
    assert_eq!(
        god.get_config(),
        "Kirby config.\n===========\nModel: demo\nSystem: Kirby is kind\n\
         Thursdayism\n---------------\nRecollections\n---------------\n\n"
    );
}

#[test]
fn message_of_each_kind_of_entry() {
    assert_eq!(
        Message::of(&DiscussionKind::prompt("Bob", "Hi")),
        message(Role::User, "Bob: Hi")
    );
    assert_eq!(
        Message::of(&DiscussionKind::response("Kirby", "Hello.")),
        message(Role::Assistant, "Hello.")
    );
    assert_eq!(Message::system("ctx"), message(Role::System, "ctx"));
}

#[test]
fn cloned_configuration_is_the_same() {
    let config = kirby_config();
    let copy = config.clone();
    assert_eq!(copy.model, config.model);
    assert_eq!(copy.botname, config.botname);
    assert_eq!(copy.context, config.context);
    assert_eq!(copy.thursdayism, config.thursdayism);
}

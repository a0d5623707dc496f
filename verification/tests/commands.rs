use godbot::commands::{chat_command_name, command_for, dispatch, Command};
use godbot::god::{God, GodConfig};
use godbot::kirby::{Discussion, DiscussionKind};
use godbot::templates::TemplateLibrary;
use ollama_rs::generation::options::GenerationOptions;

fn config_named(botname: &str) -> GodConfig {
    GodConfig::new(
        "demo".to_string(),
        botname.to_string(),
        GenerationOptions::default(),
        "A kind agent".to_string(),
        Discussion(vec![DiscussionKind::prompt("Alexis", "Who is god?")]),
    )
}

#[test]
fn clear_is_always_the_clear_command() {
    assert_eq!(dispatch("clear", "Marvin"), Command::Clear);
    assert_eq!(dispatch("clear", "Clear"), Command::Clear);
    assert_eq!(command_for("clear", "clear"), Command::Clear);
}

#[test]
fn the_agents_name_in_lower_case_is_the_chat_command() {
    assert_eq!(chat_command_name("Marvin"), "marvin");
    assert_eq!(chat_command_name("KIRBY the 2nd"), "kirby the 2nd");
    assert_eq!(dispatch("marvin", "Marvin"), Command::Chat);
    assert_eq!(dispatch("kirby", "KIRBY"), Command::Chat);
    assert_eq!(command_for("marvin", "marvin"), Command::Chat);
}

#[test]
fn other_names_are_unknown() {
    assert_eq!(dispatch("Marvin", "Marvin"), Command::Unknown);
    assert_eq!(dispatch("kirby", "Marvin"), Command::Unknown);
    assert_eq!(dispatch("", "Marvin"), Command::Unknown);
    assert_eq!(command_for("Marvin", "marvin"), Command::Unknown);
}

#[test]
fn chat_reply_echoes_the_prompt_and_names_the_agent() {
    let god = God::from_config(config_named("Marvin"));
    assert_eq!(
        god.chat_reply("Bob", "How are you?", "Don't ask."),
        "Bob: How are you?\n\nMarvin: Don't ask."
    );
}

#[test]
fn marvin_is_the_agent_by_default() {
    let config = GodConfig::marvin(GenerationOptions::default().num_ctx(4096).num_predict(256));
    assert_eq!(config.model, "marvin");
    assert_eq!(config.botname, "Marvin");
    assert_eq!(config.context, "");
    assert!(config.thursdayism.is_empty());
    let options = serde_json::to_value(&config.options).unwrap();
    assert_eq!(options["num_ctx"].as_u64(), Some(4096));
    assert_eq!(options["num_predict"].as_i64(), Some(256));
}

#[test]
fn unreadable_documents_are_passed_over() {
    let mut library = TemplateLibrary::new();
    assert!(library.get("kirby").is_none());
    assert!(library.add("kirby".to_string(), Some(config_named("Kirby"))));
    assert!(!library.add("broken".to_string(), None));
    assert!(library.add("marvin".to_string(), Some(config_named("Marvin"))));
    assert_eq!(library.get("kirby").unwrap().botname, "Kirby");
    assert_eq!(library.get("marvin").unwrap().botname, "Marvin");
    assert!(library.get("broken").is_none());
    assert!(library.get("Kirby").is_none());
}

#[test]
fn unreadable_document_keeps_the_template_of_its_name() {
    let mut library = TemplateLibrary::new();
    assert!(library.add("kirby".to_string(), Some(config_named("Kirby"))));
    assert!(!library.add("kirby".to_string(), None));
    assert_eq!(library.get("kirby").unwrap().botname, "Kirby");
}

#[test]
fn later_template_replaces_the_earlier_of_its_name() {
    let mut library = TemplateLibrary::new();
    assert!(library.add("agent".to_string(), Some(config_named("Kirby"))));
    assert!(library.add("agent".to_string(), Some(config_named("Marvin"))));
    assert_eq!(library.get("agent").unwrap().botname, "Marvin");
}

use orphic::extract::{scan_reply, try_extract, extract_begin, extract_resume, ScanResult, ExtractStep};
use orphic::prompts::PromptCatalog;
use orphic::session::Role;
use orphic::ModelId;

fn catalog() -> PromptCatalog {
    PromptCatalog {
        json_verify_system: String::from("repair directive"),
        json_verify_user: String::from("fix this: "),
        interpreter_system: String::from("interpreter directive"),
        interpreter_user: String::from(" explain"),
        assistant_user: String::from(" reply as json"),
    }
}

#[test]
fn wellformed_object_extracted_directly() {
    let reply = "I'll do that.\n{\"command\": \"echo hi\"}\nDone.";
    let found = try_extract(reply).expect("object expected");
    assert_eq!(found.text, "{\"command\": \"echo hi\"}");
    assert_eq!(found.command.as_deref(), Some("echo hi"));
    match extract_begin(&catalog(), reply) {
        ExtractStep::Done(Some(obj)) => assert_eq!(obj.command.as_deref(), Some("echo hi")),
        _ => panic!("direct extraction must not ask for a repair"),
    }
}

#[test]
fn missing_brace_means_no_command_and_no_repair() {
    assert!(matches!(scan_reply("no json here"), ScanResult::NoBraces));
    assert!(matches!(scan_reply("only open { brace"), ScanResult::NoBraces));
    assert!(matches!(scan_reply("only close } brace"), ScanResult::NoBraces));
    assert!(try_extract("no json here").is_none());
    match extract_begin(&catalog(), "no json here") {
        ExtractStep::Done(None) => {}
        _ => panic!("a reply without braces settles at once, without a repair"),
    }
}

#[test]
fn malformed_span_asks_for_exactly_one_repair() {
    let body = "work: {command: echo hi} done";
    assert!(matches!(scan_reply(body), ScanResult::Malformed));
    match extract_begin(&catalog(), body) {
        ExtractStep::NeedRepair(req) => {
            assert_eq!(req.messages.len(), 2);
            assert_eq!(req.messages[0].role, Role::System);
            assert_eq!(req.messages[0].content, "repair directive");
            assert_eq!(req.messages[1].role, Role::User);
            assert_eq!(req.messages[1].content, format!("fix this: {}", body));
            assert_eq!(req.model, ModelId::Gpt35Turbo);
            assert_eq!(req.max_tokens, 512);
        }
        _ => panic!("a malformed span must ask for the repair call"),
    }
}

#[test]
fn repaired_reply_that_parses_is_returned() {
    let found = extract_resume("{\"command\": \"ls\"}").expect("repaired object expected");
    assert_eq!(found.command.as_deref(), Some("ls"));
}

#[test]
fn blank_or_unparsable_repair_reply_gives_up() {
    assert!(extract_resume("").is_none());
    assert!(extract_resume(" \t\n ").is_none());
    assert!(extract_resume("still not json").is_none());
    assert!(extract_resume("{still not json}").is_none());
}

#[test]
fn reversed_braces_are_malformed_not_absent() {
    assert!(matches!(scan_reply("} backwards {"), ScanResult::Malformed));
}

#[test]
fn object_without_command_field_is_kept_with_no_command() {
    let found = try_extract("text {\"other\": 3} text").expect("object expected");
    assert_eq!(found.text, "{\"other\": 3}");
    assert!(found.command.is_none());
}

#[test]
fn non_string_command_field_counts_as_no_command() {
    let found = try_extract("{\"command\": 5}").expect("object expected");
    assert!(found.command.is_none());
}

#[test]
fn span_runs_from_first_open_to_last_close() {
    let found = try_extract("a {\"command\": \"x y\"} b").expect("object expected");
    assert_eq!(found.text, "{\"command\": \"x y\"}");
    assert_eq!(found.command.as_deref(), Some("x y"));
}

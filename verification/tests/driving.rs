use orphic::driver::{join_words, read_command, render_plan, continues_after, ReplCommand, Rendering};
use orphic::interpret::interpret_request;
use orphic::prompts::{PromptCatalog, get_prompt};
use orphic::session::Role;
use orphic::{RunFlags, RunError, TurnOutcome, ModelId};

fn catalog() -> PromptCatalog {
    PromptCatalog {
        json_verify_system: String::from("repair directive"),
        json_verify_user: String::from("fix this: "),
        interpreter_system: String::from("interpreter directive"),
        interpreter_user: String::from(""),
        assistant_user: String::from(" reply as json"),
    }
}

#[test]
fn task_words_join_with_single_spaces() {
    assert_eq!(join_words(&vec![]), "");
    assert_eq!(join_words(&vec![String::from("list")]), "list");
    let words = vec![String::from("list"), String::from("all"), String::from("files")];
    assert_eq!(join_words(&words), "list all files");
}

#[test]
fn quit_line_ends_the_loop() {
    assert!(matches!(read_command("quit"), ReplCommand::Quit));
    assert!(matches!(read_command("  quit \n"), ReplCommand::Quit));
    match read_command(" list files \n") {
        ReplCommand::Task(task) => assert_eq!(task, "list files"),
        ReplCommand::Quit => panic!("an ordinary line is a task"),
    }
    match read_command("quit now") {
        ReplCommand::Task(task) => assert_eq!(task, "quit now"),
        ReplCommand::Quit => panic!("only the literal quit line ends the loop"),
    }
}

#[test]
fn interpreter_payload_carries_exactly_task_and_output() {
    let flags = RunFlags {
        repl: false,
        interpret: true,
        debug: false,
        unsafe_mode: false,
        model: ModelId::Gpt35Turbo,
    };
    let request = interpret_request(&catalog(), "list files", "a.txt\nb.txt\n", &flags);
    assert_eq!(request.model, ModelId::Gpt35Turbo);
    assert_eq!(request.max_tokens, 512);
    assert_eq!(request.messages.len(), 2);
    assert_eq!(request.messages[0].role, Role::System);
    assert_eq!(request.messages[0].content, "interpreter directive");
    assert_eq!(request.messages[1].role, Role::User);
    let payload: serde_json::Value =
        serde_json::from_str(&request.messages[1].content).expect("payload must be json");
    let object = payload.as_object().expect("payload must be an object");
    assert_eq!(object.len(), 2);
    assert_eq!(object.get("task").and_then(|v| v.as_str()), Some("list files"));
    assert_eq!(object.get("output").and_then(|v| v.as_str()), Some("a.txt\nb.txt\n"));
}

#[test]
fn interpreter_user_suffix_trails_the_payload() {
    let mut with_suffix = catalog();
    with_suffix.interpreter_user = String::from(" explain briefly");
    let flags = RunFlags {
        repl: false,
        interpret: true,
        debug: false,
        unsafe_mode: false,
        model: ModelId::Gpt4Turbo,
    };
    let request = interpret_request(&with_suffix, "t", "o", &flags);
    assert!(request.messages[1].content.ends_with(" explain briefly"));
}

#[test]
fn render_follows_the_interpret_flag() {
    let off = RunFlags {
        repl: false,
        interpret: false,
        debug: false,
        unsafe_mode: false,
        model: ModelId::Gpt4Turbo,
    };
    match render_plan(&catalog(), "list files", "a.txt\nb.txt\n", &off) {
        Rendering::Print(text) => assert_eq!(text, "a.txt\nb.txt"),
        Rendering::Interpret(_) => panic!("interpret mode is off"),
    }
    let on = RunFlags { interpret: true, ..off };
    assert!(matches!(
        render_plan(&catalog(), "list files", "a.txt\nb.txt\n", &on),
        Rendering::Interpret(_)
    ));
}

#[test]
fn declines_continue_and_errors_stop_the_loop() {
    assert!(continues_after(&Ok(TurnOutcome::Completed(String::from("done\n")))));
    assert!(continues_after(&Ok(TurnOutcome::Aborted)));
    assert!(!continues_after(&Err(RunError::Gateway)));
    assert!(!continues_after(&Err(RunError::Execution)));
    assert!(!continues_after(&Err(RunError::Decode)));
}

#[test]
fn prompt_lookup_finds_each_required_key() {
    let c = catalog();
    assert_eq!(get_prompt(&c, "json_verify_system"), Some(&c.json_verify_system));
    assert_eq!(get_prompt(&c, "json_verify_user"), Some(&c.json_verify_user));
    assert_eq!(get_prompt(&c, "interpreter_system"), Some(&c.interpreter_system));
    assert_eq!(get_prompt(&c, "interpreter_user"), Some(&c.interpreter_user));
    assert_eq!(get_prompt(&c, "assistant_user"), Some(&c.assistant_user));
    assert_eq!(get_prompt(&c, "missing_key"), None);
}

#[test]
fn model_identifiers_are_the_wire_names() {
    assert_eq!(ModelId::Gpt35Turbo.identifier(), "gpt-3.5-turbo");
    assert_eq!(ModelId::Gpt4.identifier(), "gpt-4");
    assert_eq!(ModelId::Gpt4Turbo.identifier(), "gpt-4-turbo");
}

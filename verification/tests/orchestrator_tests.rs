use ai_commit::config::{get_openai_api_key, get_selected_model};
use ai_commit::local::{install_command, local_executable, local_invoke_args, local_response};
use ai_commit::orchestrator::{
    error_message, generate_commit_message, select_backend, step, Action, BackendSelector, Event,
    GenerationError, OrchPhase,
};
use ai_commit::prompt::build_prompt;

fn drive(mut phase: OrchPhase, mut action: Action, mut events: Vec<Event>) -> Result<String, GenerationError> {
    events.reverse();
    loop {
        match action {
            Action::Done(result) => return result,
            _ => {
                let event = events.pop().expect("run asked for more events than supplied");
                let next = step(phase, event);
                phase = next.0;
                action = next.1;
            }
        }
    }
}

#[test]
fn openai_selects_remote_backend() {
    assert_eq!(select_backend("openai"), BackendSelector::Remote);
}

#[test]
fn other_names_select_local_backend() {
    assert_eq!(select_backend("mistral"), BackendSelector::Local);
    assert_eq!(select_backend(""), BackendSelector::Local);
    assert_eq!(select_backend("openai "), BackendSelector::Local);
}

#[test]
fn remote_tried_first_when_selected_and_credentialed() {
    let (phase, action) = generate_commit_message("a.txt", "+foo", "openai", Some("sk-test"));
    assert!(matches!(phase, OrchPhase::AwaitingHttp { .. }));
    match action {
        Action::SendHttp(req) => {
            assert_eq!(req.authorization, "Bearer sk-test");
        }
        _ => panic!("expected the one remote attempt to open the run"),
    }
}

#[test]
fn remote_success_returns_raw_body_verbatim() {
    let (phase, action) = generate_commit_message("a.txt", "+foo", "openai", Some("sk-test"));
    // The response envelope is not parsed: the raw body text is the message.
    let body = "{\"choices\":[{\"message\":{\"content\":\"msg\"}}]}".to_string();
    let result = drive(phase, action, vec![Event::HttpResponse(Some(body.clone()))]);
    assert_eq!(result, Ok(body));
}

#[test]
fn missing_credential_skips_remote() {
    // MODEL=openai but no key present: the run opens on the local probe.
    let config = "MODEL=openai\n";
    let model = get_selected_model(config);
    let key = get_openai_api_key(config);
    assert_eq!(key, None);
    let (phase, action) = generate_commit_message("a.txt", "+foo", &model, key.as_deref());
    assert!(matches!(phase, OrchPhase::AwaitingProbe { .. }));
    assert!(matches!(action, Action::ProbeExecutable));
}

#[test]
fn scenario_a_local_generation_succeeds() {
    // Empty configuration: local backend, executable present, output echoed.
    let config = "";
    let model = get_selected_model(config);
    assert_eq!(model, "mistral");
    let key = get_openai_api_key(config);
    let (phase, action) = generate_commit_message("a.txt\nb.txt", "+foo", &model, key.as_deref());
    assert!(matches!(action, Action::ProbeExecutable));
    let result = drive(
        phase,
        action,
        vec![Event::ProbeResult(true), Event::ModelOutput("fix stuff\n".to_string())],
    );
    assert_eq!(result, Ok("fix stuff".to_string()));
}

#[test]
fn scenario_b_transport_failure_falls_back_to_local() {
    let config = "MODEL=openai\nOPENAI_API_KEY=sk-test\n";
    let model = get_selected_model(config);
    let key = get_openai_api_key(config);
    assert_eq!(key.as_deref(), Some("sk-test"));
    let (phase, action) = generate_commit_message("a.txt\nb.txt", "+foo", &model, key.as_deref());
    assert!(matches!(action, Action::SendHttp(_)));
    let result = drive(
        phase,
        action,
        vec![
            Event::HttpResponse(None),
            Event::ProbeResult(true),
            Event::ModelOutput("update docs".to_string()),
        ],
    );
    assert_eq!(result, Ok("update docs".to_string()));
}

#[test]
fn fallback_probes_local_after_transport_failure() {
    let (phase, _) = generate_commit_message("a.txt", "+foo", "openai", Some("sk-test"));
    let (phase, action) = step(phase, Event::HttpResponse(None));
    assert!(matches!(phase, OrchPhase::AwaitingProbe { .. }));
    assert!(matches!(action, Action::ProbeExecutable));
}

#[test]
fn fallback_runs_model_with_same_prompt() {
    let expected = build_prompt("a.txt", "+foo");
    let (phase, _) = generate_commit_message("a.txt", "+foo", "openai", Some("sk-test"));
    let (phase, _) = step(phase, Event::HttpResponse(None));
    let (_, action) = step(phase, Event::ProbeResult(true));
    match action {
        Action::RunModel(prompt) => assert_eq!(prompt, expected),
        _ => panic!("expected the offline model invocation"),
    }
}

#[test]
fn scenario_d_missing_executable_fails_even_when_install_succeeds() {
    let (phase, action) = generate_commit_message("a.txt", "+foo", "mistral", None);
    let result = drive(
        phase,
        action,
        vec![Event::ProbeResult(false), Event::InstallFinished(true)],
    );
    assert_eq!(result, Err(GenerationError::LocalExecutableMissing));
}

#[test]
fn missing_executable_fails_when_install_fails_too() {
    let (phase, action) = generate_commit_message("a.txt", "+foo", "mistral", None);
    let result = drive(
        phase,
        action,
        vec![Event::ProbeResult(false), Event::InstallFinished(false)],
    );
    assert_eq!(result, Err(GenerationError::LocalExecutableMissing));
}

#[test]
fn whitespace_only_output_is_empty_generation_error() {
    let (phase, action) = generate_commit_message("a.txt", "+foo", "mistral", None);
    let result = drive(
        phase,
        action,
        vec![Event::ProbeResult(true), Event::ModelOutput("  \n\t ".to_string())],
    );
    assert_eq!(result, Err(GenerationError::LocalGenerationEmpty));
}

#[test]
fn local_response_trims_and_rejects_blank() {
    assert_eq!(local_response(" fix stuff \n"), Ok("fix stuff".to_string()));
    assert_eq!(local_response(""), Err(GenerationError::LocalGenerationEmpty));
    assert_eq!(local_response(" \n "), Err(GenerationError::LocalGenerationEmpty));
}

#[test]
fn local_invocation_is_run_mistral_prompt() {
    let args = local_invoke_args("the prompt");
    assert_eq!(args, vec!["run".to_string(), "mistral".to_string(), "the prompt".to_string()]);
    assert_eq!(local_executable(), "ollama");
}

#[test]
fn install_command_fetches_and_pipes_script() {
    assert_eq!(install_command(), "curl -fsSL https://ollama.com/install.sh | sh");
}

#[test]
fn error_messages_are_actionable() {
    assert_eq!(
        error_message(&GenerationError::LocalExecutableMissing),
        "Ollama was not installed. Please try running the command again."
    );
    assert_eq!(
        error_message(&GenerationError::LocalGenerationEmpty),
        "Ollama failed to generate a commit message"
    );
}

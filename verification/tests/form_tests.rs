use lemurs::input_mode::InputMode;
use lemurs::login_form::{
    AuthAccepted, Config, FocusBehaviour, Key, KeyOutcome, LoginForm, UIThreadRequest,
};
use lemurs::post_login::{
    EnvironmentStartError, LaunchAction, LaunchEvent, PostLoginEnvironment, SessionLauncher,
    UserInfo,
};
use lemurs::status_message::{ErrorStatusMessage, InfoStatusMessage, StatusMessage};

fn config() -> Config {
    Config { tty: 2, focus_behaviour: FocusBehaviour::FirstNonCached, remember_username: false }
}

fn shell_envs() -> Vec<(String, PostLoginEnvironment)> {
    vec![("TTYSHELL".to_string(), PostLoginEnvironment::Shell)]
}

fn user() -> UserInfo {
    UserInfo {
        username: "alice".to_string(),
        home: "/home/alice".to_string(),
        shell: "/bin/bash".to_string(),
        uid: 1000,
        gid: 100,
    }
}

fn type_str(form: &mut LoginForm, text: &str) {
    for c in text.chars() {
        assert_eq!(form.handle_key(Key::Char(c)), KeyOutcome::Handled);
    }
}

#[test]
fn no_selected_environment_rejects_the_attempt_without_credentials() {
    let mut form = LoginForm::new(config(), false, vec![], None);
    type_str(&mut form, "alice");
    form.input_mode = InputMode::Password;
    type_str(&mut form, "secret");
    let request = form.attempt_login();
    assert!(request.is_none());
    assert_eq!(
        form.status_message,
        Some(StatusMessage::Error(ErrorStatusMessage::NoGraphicalEnvironment))
    );
    assert_eq!(form.username, "alice");
    assert_eq!(form.password, "secret");
}

#[test]
fn a_submit_hands_out_the_buffers_and_the_selected_kind() {
    let mut form = LoginForm::new(config(), false, shell_envs(), None);
    type_str(&mut form, "alice");
    form.input_mode = InputMode::Password;
    type_str(&mut form, "secret");
    let request = form.attempt_login().expect("an environment is selected");
    assert_eq!(request.username, "alice");
    assert_eq!(request.password, "secret");
    assert!(matches!(request.environment, PostLoginEnvironment::Shell));
    assert_eq!(
        form.status_message,
        Some(StatusMessage::Info(InfoStatusMessage::Authenticating))
    );
}

#[test]
fn a_rejection_clears_the_password_and_keeps_the_username() {
    let mut form = LoginForm::new(config(), false, shell_envs(), None);
    type_str(&mut form, "alice");
    form.input_mode = InputMode::Password;
    type_str(&mut form, "wrong");
    let request = form.attempt_login();
    assert!(request.is_some());
    let accepted = form.handle_auth_result(Err("bad password".to_string()));
    assert!(accepted.is_none());
    assert_eq!(
        form.status_message,
        Some(StatusMessage::Error(ErrorStatusMessage::AuthenticationError(
            "bad password".to_string()
        )))
    );
    assert_eq!(form.password, "");
    assert_eq!(form.username, "alice");
}

#[test]
fn an_acceptance_reports_logging_in_and_persists_only_when_remembering() {
    let mut remembering = config();
    remembering.remember_username = true;
    let mut form = LoginForm::new(remembering, false, shell_envs(), None);
    type_str(&mut form, "alice");
    form.attempt_login();
    let accepted: AuthAccepted =
        form.handle_auth_result(Ok(user())).expect("authentication succeeded");
    assert_eq!(accepted.user.username, "alice");
    assert_eq!(accepted.persist_username.as_deref(), Some("alice"));
    assert_eq!(form.status_message, Some(StatusMessage::Info(InfoStatusMessage::LoggingIn)));

    let mut form = LoginForm::new(config(), false, shell_envs(), None);
    form.attempt_login();
    let accepted = form.handle_auth_result(Ok(user())).expect("authentication succeeded");
    assert!(accepted.persist_username.is_none());
}

#[test]
fn a_spawn_failure_surfaces_as_failed_environment_with_no_record_left_open() {
    let mut form = LoginForm::new(config(), false, shell_envs(), None);
    type_str(&mut form, "alice");
    form.input_mode = InputMode::Password;
    type_str(&mut form, "secret");
    let request = form.attempt_login().expect("an environment is selected");
    let accepted = form.handle_auth_result(Ok(user())).expect("authentication succeeded");

    let mut launcher = SessionLauncher::new(request.environment, accepted.user, 2);
    launcher.step(LaunchEvent::Begin);
    launcher.step(LaunchEvent::EnvReady);
    let finish = launcher.step(LaunchEvent::SpawnResult(None));
    let result = match finish {
        LaunchAction::Finish { result, .. } => result,
        other => panic!("expected Finish, got {:?}", other),
    };
    assert_eq!(result, Err(EnvironmentStartError::ShellStartError));
    assert_eq!(launcher.records_opened, launcher.records_closed);

    form.handle_start_result(result);
    assert_eq!(
        form.status_message,
        Some(StatusMessage::Error(ErrorStatusMessage::FailedGraphicalEnvironment))
    );
}

#[test]
fn a_noisy_nonzero_exit_warns_and_leaves_the_form_ready_again() {
    let mut form = LoginForm::new(config(), false, shell_envs(), None);
    type_str(&mut form, "alice");
    form.input_mode = InputMode::Password;
    type_str(&mut form, "secret");
    let request = form.attempt_login().expect("an environment is selected");
    let accepted = form.handle_auth_result(Ok(user())).expect("authentication succeeded");

    let mut launcher = SessionLauncher::new(request.environment, accepted.user, 2);
    launcher.step(LaunchEvent::Begin);
    launcher.step(LaunchEvent::EnvReady);
    launcher.step(LaunchEvent::SpawnResult(Some(4242)));
    launcher.step(LaunchEvent::RecordOpened);
    launcher.step(LaunchEvent::WaitResult(lemurs::post_login::WaitOutcome::Exited {
        success: false,
        stderr: Some("boom".to_string()),
    }));
    let (result, warning) = match launcher.step(LaunchEvent::RecordClosed) {
        LaunchAction::Finish { result, warning } => (result, warning),
        other => panic!("expected Finish, got {:?}", other),
    };
    assert_eq!(result, Ok(()));
    assert!(warning.as_deref().unwrap().contains("boom"));
    assert_eq!(launcher.records_opened, 1);
    assert_eq!(launcher.records_closed, 1);

    form.handle_start_result(result);
    assert_eq!(form.status_message, None);
}

#[test]
fn clearing_the_status_twice_is_the_same_as_clearing_it_once() {
    let mut form = LoginForm::new(config(), false, shell_envs(), None);
    form.set_status_message(StatusMessage::Info(InfoStatusMessage::Authenticating));
    form.clear_status_message();
    let status_after_once = form.status_message.clone();
    let username_after_once = form.username.clone();
    let password_after_once = form.password.clone();
    let mode_after_once = form.input_mode;
    let selected_after_once = form.selected_env;
    form.clear_status_message();
    assert_eq!(form.status_message, status_after_once);
    assert_eq!(form.status_message, None);
    assert_eq!(form.username, username_after_once);
    assert_eq!(form.password, password_after_once);
    assert_eq!(form.input_mode, mode_after_once);
    assert_eq!(form.selected_env, selected_after_once);
}

#[test]
fn focus_starts_at_the_first_field_the_user_still_has_to_fill() {
    let form = LoginForm::new(config(), false, shell_envs(), None);
    assert_eq!(form.input_mode, InputMode::Username);

    let mut remembering = config();
    remembering.remember_username = true;
    let form = LoginForm::new(remembering, false, shell_envs(), Some("alice".to_string()));
    assert_eq!(form.input_mode, InputMode::Password);
    assert_eq!(form.username, "alice");

    // A cached username is ignored while remembering is off.
    let form = LoginForm::new(config(), false, shell_envs(), Some("alice".to_string()));
    assert_eq!(form.username, "");
    assert_eq!(form.input_mode, InputMode::Username);
}

#[test]
fn keys_move_the_focus_as_the_bindings_say() {
    let mut form = LoginForm::new(config(), false, shell_envs(), None);
    form.input_mode = InputMode::Normal;
    assert_eq!(form.handle_key(Key::Tab), KeyOutcome::Handled);
    assert_eq!(form.input_mode, InputMode::Switcher);
    assert_eq!(form.handle_key(Key::Down), KeyOutcome::Handled);
    assert_eq!(form.input_mode, InputMode::Username);
    assert_eq!(form.handle_key(Key::Enter), KeyOutcome::Handled);
    assert_eq!(form.input_mode, InputMode::Password);
    assert_eq!(form.handle_key(Key::Up), KeyOutcome::Handled);
    assert_eq!(form.input_mode, InputMode::Username);
    assert_eq!(form.handle_key(Key::BackTab), KeyOutcome::Handled);
    assert_eq!(form.input_mode, InputMode::Switcher);
    assert_eq!(form.handle_key(Key::Esc), KeyOutcome::Handled);
    assert_eq!(form.input_mode, InputMode::Normal);
}

#[test]
fn enter_on_the_password_field_submits_or_previews() {
    let mut form = LoginForm::new(config(), false, shell_envs(), None);
    form.input_mode = InputMode::Password;
    assert_eq!(form.handle_key(Key::Enter), KeyOutcome::Submit);

    let mut preview_form = LoginForm::new(config(), true, shell_envs(), None);
    preview_form.input_mode = InputMode::Password;
    assert_eq!(preview_form.handle_key(Key::Enter), KeyOutcome::PreviewLoginSequence);
}

#[test]
fn esc_at_idle_stops_only_in_preview_mode() {
    let mut form = LoginForm::new(config(), false, shell_envs(), None);
    form.input_mode = InputMode::Normal;
    assert_eq!(form.handle_key(Key::Esc), KeyOutcome::Handled);

    let mut preview_form = LoginForm::new(config(), true, shell_envs(), None);
    preview_form.input_mode = InputMode::Normal;
    assert_eq!(preview_form.handle_key(Key::Esc), KeyOutcome::Stop);
}

#[test]
fn typing_and_backspace_edit_the_focused_buffer_only() {
    let mut form = LoginForm::new(config(), false, shell_envs(), None);
    form.input_mode = InputMode::Username;
    type_str(&mut form, "alicee");
    assert_eq!(form.handle_key(Key::Backspace), KeyOutcome::Handled);
    assert_eq!(form.username, "alice");
    assert_eq!(form.password, "");
    form.input_mode = InputMode::Password;
    type_str(&mut form, "secret");
    assert_eq!(form.username, "alice");
    assert_eq!(form.password, "secret");
    // Backspace on an empty buffer is harmless.
    let mut empty = LoginForm::new(config(), false, shell_envs(), None);
    empty.input_mode = InputMode::Password;
    assert_eq!(empty.handle_key(Key::Backspace), KeyOutcome::Handled);
    assert_eq!(empty.password, "");
}

#[test]
fn the_switcher_moves_within_the_offered_list() {
    let envs = vec![
        ("i3".to_string(), PostLoginEnvironment::X { xinitrc_path: "/etc/lemurs/wms/i3".to_string() }),
        ("sway".to_string(), PostLoginEnvironment::Wayland {
            script_path: "/etc/lemurs/wayland/sway".to_string(),
        }),
    ];
    let mut form = LoginForm::new(config(), false, envs, None);
    form.input_mode = InputMode::Switcher;
    assert_eq!(form.selected_env, 0);
    assert_eq!(form.handle_key(Key::Left), KeyOutcome::Handled);
    assert_eq!(form.selected_env, 0);
    assert_eq!(form.handle_key(Key::Right), KeyOutcome::Handled);
    assert_eq!(form.selected_env, 1);
    assert_eq!(form.handle_key(Key::Right), KeyOutcome::Handled);
    assert_eq!(form.selected_env, 1);
    assert_eq!(form.handle_key(Key::Left), KeyOutcome::Handled);
    assert_eq!(form.selected_env, 0);
}

#[test]
fn redraw_requests_queue_only_once_a_channel_is_attached() {
    let mut form = LoginForm::new(config(), false, shell_envs(), None);
    form.try_redraw();
    assert_eq!(form.take_pending_requests(), vec![]);
    form.attach_redraw_channel();
    form.try_redraw();
    form.set_status_message(StatusMessage::Info(InfoStatusMessage::Authenticating));
    assert_eq!(
        form.take_pending_requests(),
        vec![UIThreadRequest::Redraw, UIThreadRequest::Redraw]
    );
    assert_eq!(form.take_pending_requests(), vec![]);
}

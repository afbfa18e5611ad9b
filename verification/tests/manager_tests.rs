use pants_store::directory::{Info, Reads};
use pants_store::manager::{ClientConfig, Effect, GUIMessage, ManagerState};
use pants_store::message::{ManagerMessage, Message};
use pants_store::schema::Schema;
use pants_store::state::{InternalState, PasswordState};
use pants_store::store::{Store, StoreChoice};
use pants_store::temp_message::TempMessage;

fn config() -> ClientConfig {
    ClientConfig {
        theme: "Dark".to_string(),
        password_spec: "12//1+|:upper://1+|:lower://1+|:number:".to_string(),
        clipboard_time: 10,
    }
}

fn schema_of(keys: &[&str]) -> Schema {
    let mut schema = Schema::new();
    for k in keys {
        schema.insert(k.to_string(), "password".to_string());
    }
    schema
}

/// A connected orchestrator whose directory holds the vault `bank` with the
/// given keys and the vault `temp` with none.
fn connected(bank_keys: &[&str]) -> ManagerState {
    let mut state = ManagerState::new(config());
    assert_eq!(state.update(GUIMessage::Connected), vec![Effect::Send(ManagerMessage::Info)]);
    let mut info = Info::new();
    info.insert("bank".to_string(), schema_of(bank_keys));
    info.insert("temp".to_string(), schema_of(&[]));
    assert_eq!(state.update(GUIMessage::ReceiveInfo(info)), vec![]);
    state
}

fn top_password(state: &ManagerState) -> Option<&PasswordState> {
    match state.active_state() {
        Some(InternalState::Password(p)) => Some(p),
        _ => None,
    }
}

fn is_idle(state: &ManagerState) -> bool {
    state.stack_len() == 0 && matches!(state.temp_message(), TempMessage::Empty)
}

#[test]
fn starts_idle_and_disconnected() {
    let state = ManagerState::new(config());
    assert!(is_idle(&state));
    assert!(!state.is_connected());
    assert!(!state.holds_clipboard());
    assert!(!state.needs_password());
    assert!(state.active_state().is_none());
    assert_eq!(state.get_password(), None);
    assert_eq!(state.directory().names(), Vec::<String>::new());
    assert_eq!(state.config().clipboard_time, 10);
}

#[test]
fn connecting_asks_for_the_directory() {
    let mut state = ManagerState::new(config());
    assert_eq!(state.update(GUIMessage::Connected), vec![Effect::Send(ManagerMessage::Info)]);
    assert!(state.is_connected());
    assert_eq!(state.update(GUIMessage::Disconnected), vec![]);
    assert!(!state.is_connected());
}

#[test]
fn first_entry_of_an_empty_vault_asks_for_a_confirmed_password() {
    let mut state = connected(&[]);
    assert_eq!(state.update(GUIMessage::NewEntry("bank".to_string())), vec![]);
    assert_eq!(state.stack_len(), 1);
    assert!(matches!(state.active_state(), Some(InternalState::New(_))));
    assert_eq!(state.update(GUIMessage::ChangeName("login".to_string())), vec![]);
    assert_eq!(
        state.update(GUIMessage::UpdateField("password".to_string(), "x".to_string())),
        vec![]
    );
    assert_eq!(state.update(GUIMessage::Submit), vec![]);
    assert_eq!(state.stack_len(), 2);
    let prompt = top_password(&state).unwrap();
    assert!(prompt.needs_confirm);
    assert_eq!(prompt.password, "");
    assert_eq!(prompt.confirm, None);
}

#[test]
fn confirmed_password_must_match() {
    let mut state = connected(&[]);
    state.update(GUIMessage::NewEntry("bank".to_string()));
    state.update(GUIMessage::ChangeName("login".to_string()));
    state.update(GUIMessage::UpdateField("password".to_string(), "x".to_string()));
    state.update(GUIMessage::Submit);
    state.update(GUIMessage::PasswordChanged("p".to_string()));
    assert_eq!(state.update(GUIMessage::Submit), vec![]);
    assert_eq!(state.stack_len(), 2);
    state.update(GUIMessage::PasswordConfirmChanged("q".to_string()));
    assert_eq!(state.update(GUIMessage::Submit), vec![]);
    assert_eq!(state.stack_len(), 2);
    state.update(GUIMessage::PasswordConfirmChanged("p".to_string()));
    assert_eq!(
        state.update(GUIMessage::Submit),
        vec![
            Effect::Send(ManagerMessage::VaultMessage(
                "bank".to_string(),
                Message::Update("p".to_string(), "login".to_string(), Store::Password("x".to_string()))
            )),
            Effect::Send(ManagerMessage::Info),
        ]
    );
    assert!(is_idle(&state));
}

#[test]
fn new_entry_in_a_vault_with_entries_asks_for_a_plain_password() {
    let mut state = connected(&["mail"]);
    state.update(GUIMessage::NewEntry("bank".to_string()));
    state.update(GUIMessage::ChangeName("login".to_string()));
    state.update(GUIMessage::UpdateField("password".to_string(), "x".to_string()));
    assert_eq!(state.update(GUIMessage::Submit), vec![]);
    assert_eq!(state.stack_len(), 2);
    assert!(!top_password(&state).unwrap().needs_confirm);
}

#[test]
fn duplicate_key_is_refused() {
    let mut state = connected(&["login"]);
    state.update(GUIMessage::NewEntry("bank".to_string()));
    state.update(GUIMessage::ChangeName("login".to_string()));
    state.update(GUIMessage::UpdateField("password".to_string(), "x".to_string()));
    assert!(state.temp_message().complete());
    assert_eq!(state.update(GUIMessage::Submit), vec![]);
    assert_eq!(state.stack_len(), 1);
    assert!(matches!(state.active_state(), Some(InternalState::New(_))));
    assert!(top_password(&state).is_none());
}

#[test]
fn incomplete_new_entry_is_not_submitted() {
    let mut state = connected(&["mail"]);
    state.update(GUIMessage::NewEntry("bank".to_string()));
    state.update(GUIMessage::ChangeName("login".to_string()));
    assert_eq!(state.update(GUIMessage::Submit), vec![]);
    assert_eq!(state.stack_len(), 1);
    state.update(GUIMessage::UpdateField("password".to_string(), "x".to_string()));
    state.update(GUIMessage::ChangeName(String::new()));
    assert_eq!(state.update(GUIMessage::Submit), vec![]);
    assert_eq!(state.stack_len(), 1);
}

#[test]
fn new_entry_in_an_unknown_vault_is_not_submitted() {
    let mut state = connected(&[]);
    state.update(GUIMessage::NewEntry("other".to_string()));
    state.update(GUIMessage::ChangeName("login".to_string()));
    state.update(GUIMessage::UpdateField("password".to_string(), "x".to_string()));
    assert_eq!(state.update(GUIMessage::Submit), vec![]);
    assert_eq!(state.stack_len(), 1);
}

#[test]
fn delete_goes_out_once_the_password_is_given() {
    let mut state = connected(&["login"]);
    assert_eq!(
        state.update(GUIMessage::EntryDelete("bank".to_string(), "login".to_string())),
        vec![]
    );
    assert!(state.needs_password());
    assert_eq!(state.stack_len(), 1);
    assert!(!top_password(&state).unwrap().needs_confirm);
    assert_eq!(state.update(GUIMessage::PasswordChanged("p".to_string())), vec![]);
    assert_eq!(
        state.update(GUIMessage::Submit),
        vec![
            Effect::Send(ManagerMessage::VaultMessage(
                "bank".to_string(),
                Message::Delete("p".to_string(), "login".to_string())
            )),
            Effect::Send(ManagerMessage::Info),
        ]
    );
    assert!(is_idle(&state));
}

#[test]
fn empty_password_is_not_submitted() {
    let mut state = connected(&["login"]);
    state.update(GUIMessage::EntryDelete("bank".to_string(), "login".to_string()));
    assert_eq!(state.update(GUIMessage::Submit), vec![]);
    assert_eq!(state.stack_len(), 1);
    assert!(matches!(state.temp_message(), TempMessage::Delete(_, _)));
}

#[test]
fn empty_vault_is_deleted_at_once() {
    let mut state = connected(&["login"]);
    assert_eq!(
        state.update(GUIMessage::DeleteVault("temp".to_string())),
        vec![
            Effect::Send(ManagerMessage::DeleteEmptyVault("temp".to_string())),
            Effect::Send(ManagerMessage::Info),
        ]
    );
    assert!(is_idle(&state));
    assert!(top_password(&state).is_none());
}

#[test]
fn vault_with_entries_needs_the_password() {
    let mut state = connected(&["login"]);
    assert_eq!(state.update(GUIMessage::DeleteVault("bank".to_string())), vec![]);
    assert!(matches!(state.temp_message(), TempMessage::DeleteVault(v) if v == "bank"));
    assert!(top_password(&state).is_some());
    state.update(GUIMessage::PasswordChanged("p".to_string()));
    assert_eq!(
        state.update(GUIMessage::Submit),
        vec![
            Effect::Send(ManagerMessage::DeleteVault("bank".to_string(), "p".to_string())),
            Effect::Send(ManagerMessage::Info),
        ]
    );
    assert!(is_idle(&state));
}

#[test]
fn deleting_an_unknown_vault_changes_nothing() {
    let mut state = connected(&["login"]);
    state.update(GUIMessage::EntryDelete("bank".to_string(), "login".to_string()));
    assert_eq!(state.update(GUIMessage::DeleteVault("other".to_string())), vec![]);
    assert_eq!(state.stack_len(), 1);
    assert!(matches!(state.temp_message(), TempMessage::Delete(_, _)));
}

#[test]
fn a_new_operation_discards_the_stack() {
    let mut state = connected(&["login", "mail"]);
    state.update(GUIMessage::NewEntry("bank".to_string()));
    state.update(GUIMessage::ChangeName("card".to_string()));
    state.update(GUIMessage::UpdateField("password".to_string(), "x".to_string()));
    state.update(GUIMessage::Submit);
    assert_eq!(state.stack_len(), 2);
    state.update(GUIMessage::EntryDelete("bank".to_string(), "login".to_string()));
    assert_eq!(state.stack_len(), 1);
    assert!(top_password(&state).is_some());
    assert!(matches!(state.temp_message(), TempMessage::Delete(_, k) if k == "login"));
    state.update(GUIMessage::EntryView("bank".to_string(), "mail".to_string()));
    assert_eq!(state.stack_len(), 1);
    assert!(matches!(state.temp_message(), TempMessage::Get(_, k) if k == "mail"));
    state.update(GUIMessage::NewEntry("bank".to_string()));
    assert_eq!(state.stack_len(), 1);
    assert!(matches!(state.active_state(), Some(InternalState::New(_))));
    state.update(GUIMessage::DeleteVault("temp".to_string()));
    assert_eq!(state.stack_len(), 0);
}

#[test]
fn an_error_from_the_store_resets_the_workflow() {
    let mut state = connected(&["login"]);
    state.update(GUIMessage::EntryView("bank".to_string(), "login".to_string()));
    state.update(GUIMessage::PasswordChanged("p".to_string()));
    state.update(GUIMessage::Submit);
    assert_eq!(state.stack_len(), 2);
    assert_eq!(state.update(GUIMessage::ReceiveError), vec![]);
    assert!(is_idle(&state));
    assert!(state.is_connected());
    assert_eq!(state.update(GUIMessage::ReceiveError), vec![]);
    assert!(is_idle(&state));
}

#[test]
fn reading_an_entry_opens_its_form() {
    let mut state = connected(&["login"]);
    state.update(GUIMessage::EntryView("bank".to_string(), "login".to_string()));
    state.update(GUIMessage::PasswordChanged("p".to_string()));
    assert_eq!(
        state.update(GUIMessage::Submit),
        vec![
            Effect::Send(ManagerMessage::VaultMessage(
                "bank".to_string(),
                Message::Get("p".to_string(), "login".to_string())
            )),
            Effect::Send(ManagerMessage::Info),
        ]
    );
    assert_eq!(state.stack_len(), 2);
    match state.active_state() {
        Some(InternalState::Entry(form)) => {
            assert_eq!(form.vault, "bank");
            assert_eq!(form.key, "login");
            assert!(form.hidden);
            assert_eq!(form.get_password(), Some(String::new()));
        }
        other => panic!("unexpected step {:?}", other),
    }
    assert!(matches!(state.temp_message(), TempMessage::Update(v, k, _, _) if v == "bank" && k == "login"));
    assert_eq!(state.get_password(), Some("p".to_string()));
}

#[test]
fn reading_an_entry_that_the_directory_lacks_changes_nothing() {
    let mut state = connected(&["login"]);
    state.update(GUIMessage::EntryView("bank".to_string(), "gone".to_string()));
    state.update(GUIMessage::PasswordChanged("p".to_string()));
    assert_eq!(state.update(GUIMessage::Submit), vec![]);
    assert_eq!(state.stack_len(), 1);
    assert!(matches!(state.temp_message(), TempMessage::Get(_, _)));
}

fn open_entry(state: &mut ManagerState) {
    state.update(GUIMessage::EntryView("bank".to_string(), "login".to_string()));
    state.update(GUIMessage::PasswordChanged("p".to_string()));
    state.update(GUIMessage::Submit);
    let reads = Reads {
        data: vec![(
            "login".to_string(),
            Store::UsernamePassword("me".to_string(), "secret".to_string()),
        )],
    };
    assert_eq!(state.update(GUIMessage::ReceiveRead(reads)), vec![]);
}

#[test]
fn the_answer_to_a_read_fills_the_form() {
    let mut state = connected(&["login"]);
    open_entry(&mut state);
    match state.active_state() {
        Some(InternalState::Entry(form)) => {
            assert_eq!(form.choice, StoreChoice::UsernamePassword);
            assert_eq!(form.value.get(&"username".to_string()), Some(&"me".to_string()));
            assert_eq!(form.get_password(), Some("secret".to_string()));
        }
        other => panic!("unexpected step {:?}", other),
    }
    match state.temp_message() {
        TempMessage::Update(_, _, choice, fields) => {
            assert_eq!(*choice, StoreChoice::UsernamePassword);
            assert_eq!(fields.get(&"password".to_string()), Some(&"secret".to_string()));
        }
        other => panic!("unexpected operation {:?}", other),
    }
}

#[test]
fn the_answer_under_another_key_is_ignored() {
    let mut state = connected(&["login"]);
    state.update(GUIMessage::EntryView("bank".to_string(), "login".to_string()));
    state.update(GUIMessage::PasswordChanged("p".to_string()));
    state.update(GUIMessage::Submit);
    let reads = Reads { data: vec![("mail".to_string(), Store::Password("other".to_string()))] };
    state.update(GUIMessage::ReceiveRead(reads));
    match state.active_state() {
        Some(InternalState::Entry(form)) => {
            assert_eq!(form.get_password(), Some(String::new()));
        }
        other => panic!("unexpected step {:?}", other),
    }
}

#[test]
fn a_stale_answer_is_tolerated() {
    let mut state = connected(&["login"]);
    let reads = Reads { data: vec![("login".to_string(), Store::Password("x".to_string()))] };
    assert_eq!(state.update(GUIMessage::ReceiveRead(reads)), vec![]);
    assert!(is_idle(&state));
    assert_eq!(state.update(GUIMessage::ReceiveNothing), vec![]);
    assert!(is_idle(&state));
}

#[test]
fn an_edited_entry_reuses_the_password() {
    let mut state = connected(&["login"]);
    open_entry(&mut state);
    state.update(GUIMessage::UpdateField("password".to_string(), "changed".to_string()));
    assert_eq!(
        state.update(GUIMessage::Submit),
        vec![Effect::Send(ManagerMessage::VaultMessage(
            "bank".to_string(),
            Message::Update(
                "p".to_string(),
                "login".to_string(),
                Store::UsernamePassword("me".to_string(), "changed".to_string())
            )
        ))]
    );
    assert!(is_idle(&state));
}

#[test]
fn an_incomplete_edit_is_not_submitted() {
    let mut state = connected(&["login"]);
    open_entry(&mut state);
    state.update(GUIMessage::UpdateField("username".to_string(), String::new()));
    assert_eq!(state.update(GUIMessage::Submit), vec![]);
    assert_eq!(state.stack_len(), 2);
}

#[test]
fn show_and_hide_the_password() {
    let mut state = connected(&["login"]);
    open_entry(&mut state);
    state.update(GUIMessage::ShowPassword);
    assert!(matches!(state.active_state(), Some(InternalState::Entry(f)) if !f.hidden));
    state.update(GUIMessage::HidePassword);
    assert!(matches!(state.active_state(), Some(InternalState::Entry(f)) if f.hidden));
}

#[test]
fn leaving_a_password_prompt_drops_a_deletion() {
    let mut state = connected(&["login"]);
    state.update(GUIMessage::EntryDelete("bank".to_string(), "login".to_string()));
    assert_eq!(state.update(GUIMessage::Exit), vec![]);
    assert!(is_idle(&state));
    state.update(GUIMessage::EntryView("bank".to_string(), "login".to_string()));
    state.update(GUIMessage::Exit);
    assert!(is_idle(&state));
    state.update(GUIMessage::DeleteVault("bank".to_string()));
    state.update(GUIMessage::Exit);
    assert!(is_idle(&state));
}

#[test]
fn leaving_a_password_prompt_keeps_a_new_entry() {
    let mut state = connected(&["mail"]);
    state.update(GUIMessage::NewEntry("bank".to_string()));
    state.update(GUIMessage::ChangeName("login".to_string()));
    state.update(GUIMessage::UpdateField("password".to_string(), "x".to_string()));
    state.update(GUIMessage::Submit);
    assert_eq!(state.stack_len(), 2);
    state.update(GUIMessage::Exit);
    assert_eq!(state.stack_len(), 1);
    assert!(matches!(state.active_state(), Some(InternalState::New(f)) if f.name == "login"));
    assert!(matches!(state.temp_message(), TempMessage::New(_, k, _, _) if k == "login"));
    state.update(GUIMessage::Exit);
    assert!(is_idle(&state));
}

#[test]
fn leaving_an_entry_form_drops_everything() {
    let mut state = connected(&["login"]);
    open_entry(&mut state);
    assert_eq!(state.stack_len(), 2);
    state.update(GUIMessage::Exit);
    assert!(is_idle(&state));
    assert_eq!(state.update(GUIMessage::Exit), vec![]);
    assert!(is_idle(&state));
}

#[test]
fn a_new_vault_needs_no_password() {
    let mut state = connected(&["login"]);
    assert_eq!(state.update(GUIMessage::NewVault), vec![]);
    assert!(matches!(state.active_state(), Some(InternalState::Prompt(p)) if p.vault.is_empty()));
    assert_eq!(state.update(GUIMessage::Submit), vec![]);
    assert_eq!(state.stack_len(), 1);
    state.update(GUIMessage::PromptChanged("bank".to_string()));
    assert_eq!(state.update(GUIMessage::Submit), vec![]);
    assert_eq!(state.stack_len(), 1);
    state.update(GUIMessage::PromptChanged("home".to_string()));
    assert_eq!(
        state.update(GUIMessage::Submit),
        vec![
            Effect::Send(ManagerMessage::NewVault("home".to_string())),
            Effect::Send(ManagerMessage::Info),
        ]
    );
    assert_eq!(state.stack_len(), 0);
}

#[test]
fn a_new_vault_discards_what_was_begun() {
    let mut state = connected(&["login"]);
    state.update(GUIMessage::EntryDelete("bank".to_string(), "login".to_string()));
    state.update(GUIMessage::NewVault);
    assert_eq!(state.stack_len(), 1);
    assert!(matches!(state.active_state(), Some(InternalState::Prompt(_))));
    assert!(matches!(state.temp_message(), TempMessage::Empty));
}

#[test]
fn leaving_the_vault_prompt_closes_it() {
    let mut state = connected(&["login"]);
    state.update(GUIMessage::NewVault);
    state.update(GUIMessage::PromptChanged("home".to_string()));
    assert_eq!(state.update(GUIMessage::Exit), vec![]);
    assert!(is_idle(&state));
}

#[test]
fn nothing_is_sent_while_disconnected() {
    let mut state = connected(&["login"]);
    state.update(GUIMessage::Disconnected);
    state.update(GUIMessage::EntryDelete("bank".to_string(), "login".to_string()));
    state.update(GUIMessage::PasswordChanged("p".to_string()));
    assert_eq!(state.update(GUIMessage::Submit), vec![]);
    assert!(is_idle(&state));
    assert_eq!(state.update(GUIMessage::DeleteVault("temp".to_string())), vec![]);
    assert_eq!(
        state.send_message(vec![ManagerMessage::Info, ManagerMessage::NewVault("x".to_string())]),
        vec![]
    );
}

#[test]
fn send_message_keeps_the_order() {
    let state = connected(&[]);
    assert_eq!(
        state.send_message(vec![
            ManagerMessage::NewVault("x".to_string()),
            ManagerMessage::Info,
            ManagerMessage::DeleteEmptyVault("y".to_string()),
        ]),
        vec![
            Effect::Send(ManagerMessage::NewVault("x".to_string())),
            Effect::Send(ManagerMessage::Info),
            Effect::Send(ManagerMessage::DeleteEmptyVault("y".to_string())),
        ]
    );
    assert_eq!(state.send_message(vec![]), vec![]);
}

#[test]
fn select_style_blanks_the_fields() {
    let mut state = connected(&["mail"]);
    state.update(GUIMessage::NewEntry("bank".to_string()));
    state.update(GUIMessage::UpdateField("password".to_string(), "x".to_string()));
    state.update(GUIMessage::SelectStyle(StoreChoice::UsernamePassword));
    match state.active_state() {
        Some(InternalState::New(form)) => {
            assert_eq!(form.choice, StoreChoice::UsernamePassword);
            assert_eq!(form.value.get(&"password".to_string()), Some(&String::new()));
            assert_eq!(form.value.get(&"username".to_string()), Some(&String::new()));
        }
        other => panic!("unexpected step {:?}", other),
    }
    match state.temp_message() {
        TempMessage::New(_, _, choice, fields) => {
            assert_eq!(*choice, StoreChoice::UsernamePassword);
            assert_eq!(fields.get(&"username".to_string()), Some(&String::new()));
            assert!(!fields.filled());
        }
        other => panic!("unexpected operation {:?}", other),
    }
}

#[test]
fn copying_a_password_asks_for_three_effects() {
    let mut state = connected(&["login"]);
    assert_eq!(state.update(GUIMessage::CopyPassword), vec![]);
    open_entry(&mut state);
    assert_eq!(
        state.update(GUIMessage::CopyPassword),
        vec![
            Effect::ReadClipboard,
            Effect::WriteClipboard("secret".to_string()),
            Effect::ClearClipboardAfter(10),
        ]
    );
    assert!(!state.holds_clipboard());
}

#[test]
fn the_clipboard_is_restored_once() {
    let mut state = connected(&["login"]);
    open_entry(&mut state);
    state.update(GUIMessage::CopyPassword);
    assert_eq!(state.update(GUIMessage::CopyClipboard(Some("before".to_string()))), vec![]);
    assert!(state.holds_clipboard());
    state.update(GUIMessage::CopyPassword);
    assert_eq!(state.update(GUIMessage::CopyClipboard(Some("secret".to_string()))), vec![]);
    assert_eq!(
        state.update(GUIMessage::ClearClipboard),
        vec![Effect::WriteClipboard("secret".to_string())]
    );
    assert!(!state.holds_clipboard());
    assert_eq!(state.update(GUIMessage::ClearClipboard), vec![]);
    assert!(!state.holds_clipboard());
}

#[test]
fn an_unreadable_clipboard_counts_as_empty() {
    let mut state = connected(&["login"]);
    assert_eq!(state.update(GUIMessage::CopyClipboard(None)), vec![]);
    assert!(state.holds_clipboard());
    assert_eq!(
        state.update(GUIMessage::ClearClipboard),
        vec![Effect::WriteClipboard(String::new())]
    );
}

#[test]
fn changing_the_theme_saves_the_settings() {
    let mut state = connected(&[]);
    assert_eq!(state.update(GUIMessage::ChangeTheme("Light".to_string())), vec![Effect::SaveConfig]);
    assert_eq!(state.config().theme, "Light");
}

#[test]
fn toggling_a_vault_unfolds_it() {
    let mut state = connected(&["login"]);
    assert_eq!(state.update(GUIMessage::ToggleVault("bank".to_string())), vec![]);
    assert!(state.directory().get(&"bank".to_string()).unwrap().expanded);
    let mut info = Info::new();
    info.insert("bank".to_string(), schema_of(&["mail"]));
    state.update_directory(info);
    let bank = state.directory().get(&"bank".to_string()).unwrap();
    assert!(bank.expanded);
    assert!(bank.schema.contains_key(&"mail".to_string()));
    assert_eq!(state.directory().names(), vec!["bank".to_string()]);
}

#[test]
fn a_generated_password_fills_the_form() {
    let mut state = connected(&["mail"]);
    state.update(GUIMessage::NewEntry("bank".to_string()));
    assert_eq!(state.update(GUIMessage::GeneratePassword), vec![]);
    let drawn = match state.active_state() {
        Some(InternalState::New(form)) => form.value.get(&"password".to_string()).unwrap().clone(),
        other => panic!("unexpected step {:?}", other),
    };
    assert_eq!(drawn.chars().count(), 12);
    match state.temp_message() {
        TempMessage::New(_, _, _, fields) => {
            assert_eq!(fields.get(&"password".to_string()), Some(&drawn));
        }
        other => panic!("unexpected operation {:?}", other),
    }
}

#[test]
fn a_bad_pattern_generates_nothing() {
    let mut state = ManagerState::new(ClientConfig {
        theme: "Dark".to_string(),
        password_spec: "nonsense".to_string(),
        clipboard_time: 10,
    });
    state.update(GUIMessage::NewEntry("bank".to_string()));
    assert!(!state.generate_password());
    match state.active_state() {
        Some(InternalState::New(form)) => {
            assert_eq!(form.value.get(&"password".to_string()), Some(&String::new()));
        }
        other => panic!("unexpected step {:?}", other),
    }
}

#[test]
fn handle_password_submit_of_nothing_asks_for_the_directory() {
    let mut state = connected(&["login"]);
    state.update(GUIMessage::NewVault);
    assert_eq!(
        state.handle_password_submit("p".to_string()),
        vec![Effect::Send(ManagerMessage::Info)]
    );
    assert!(is_idle(&state));
}

#[test]
fn a_record_that_does_not_convert_is_not_sent() {
    let mut state = connected(&["mail"]);
    state.update(GUIMessage::NewEntry("bank".to_string()));
    state.update(GUIMessage::ChangeName("login".to_string()));
    state.update(GUIMessage::SelectStyle(StoreChoice::UsernamePassword));
    state.update(GUIMessage::UpdateField("username".to_string(), "me".to_string()));
    state.update(GUIMessage::UpdateField("password".to_string(), "x".to_string()));
    state.update(GUIMessage::Submit);
    assert_eq!(state.stack_len(), 2);
    state.update(GUIMessage::PasswordChanged("p".to_string()));
    assert_eq!(
        state.update(GUIMessage::Submit),
        vec![
            Effect::Send(ManagerMessage::VaultMessage(
                "bank".to_string(),
                Message::Update(
                    "p".to_string(),
                    "login".to_string(),
                    Store::UsernamePassword("me".to_string(), "x".to_string())
                )
            )),
            Effect::Send(ManagerMessage::Info),
        ]
    );
}

#[test]
fn update_entry_without_an_open_form_changes_nothing() {
    let mut state = connected(&["login"]);
    state.update(GUIMessage::EntryDelete("bank".to_string(), "login".to_string()));
    state.update_entry(Reads {
        data: vec![("login".to_string(), Store::Password("x".to_string()))],
    });
    assert_eq!(state.stack_len(), 1);
    assert!(matches!(state.temp_message(), TempMessage::Delete(_, _)));
}

#[test]
fn update_field_reaches_form_and_operation() {
    let mut state = connected(&["mail"]);
    state.update(GUIMessage::NewEntry("bank".to_string()));
    state.update_field("note".to_string(), "n".to_string());
    assert!(matches!(state.active_state(), Some(InternalState::New(f)) if f.value.get(&"note".to_string()) == Some(&"n".to_string())));
    assert!(matches!(state.temp_message(), TempMessage::New(_, _, _, f) if f.get(&"note".to_string()) == Some(&"n".to_string())));
}

#[test]
fn apply_generated_takes_what_was_drawn() {
    let mut state = connected(&["mail"]);
    state.update(GUIMessage::NewEntry("bank".to_string()));
    assert!(state.apply_generated(Some("drawn".to_string())));
    assert!(matches!(state.active_state(), Some(InternalState::New(f)) if f.value.get(&"password".to_string()) == Some(&"drawn".to_string())));
    assert!(matches!(state.temp_message(), TempMessage::New(_, _, _, f) if f.get(&"password".to_string()) == Some(&"drawn".to_string())));
    assert!(!state.apply_generated(None));
    assert!(matches!(state.temp_message(), TempMessage::New(_, _, _, f) if f.get(&"password".to_string()) == Some(&"drawn".to_string())));
    assert_eq!(state.stack_len(), 1);
}

#[test]
fn a_pattern_the_parser_cannot_take_generates_nothing() {
    let mut state = ManagerState::new(ClientConfig {
        theme: "Dark".to_string(),
        password_spec: "8//1+|:é".to_string(),
        clipboard_time: 10,
    });
    state.update(GUIMessage::NewEntry("bank".to_string()));
    assert!(!state.generate_password());
    assert_eq!(state.update(GUIMessage::GeneratePassword), vec![]);
    assert!(matches!(state.active_state(), Some(InternalState::New(f)) if f.value.get(&"password".to_string()) == Some(&String::new())));
}

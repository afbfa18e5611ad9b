//! The orchestrator: it owns the pending operation, the workflow stack, the
//! directory and the clipboard record, and decides what each event changes
//! and which effects it asks for.

use crate::directory::{Directory, Info, Reads, VaultView};
use crate::generator::parseable;
use crate::message::{ManagerMessage, ManagerMessageView};
use crate::model::{first_password, ConfigView, EffectView, GUIMessageView, ManagerView};
use crate::state::{
    EntryState, InternalState, InternalStateView, NewEntryState, PasswordState, PromptState,
};
use crate::store::{password_name, StoreChoice};
use crate::temp_message::{TempMessage, TempMessageView};
use vstd::prelude::*;

verus! {

/// The settings of the client.
#[derive(Debug)]
pub struct ClientConfig {
    pub theme: String,
    /// The pattern from which passwords are generated.
    pub password_spec: String,
    /// Seconds after which a copied password leaves the clipboard.
    pub clipboard_time: u64,
}

impl View for ClientConfig {
    type V = ConfigView;

    open spec fn view(&self) -> ConfigView {
        ConfigView {
            theme: self.theme@,
            password_spec: self.password_spec@,
            clipboard_time: self.clipboard_time,
        }
    }
}

/// An event that reaches the orchestrator.
#[derive(Debug)]
pub enum GUIMessage {
    /// The connection to the store is up.
    Connected,
    /// The connection to the store is lost.
    Disconnected,
    /// The store pushed a snapshot of the directory.
    ReceiveInfo(Info),
    /// The store answered a read.
    ReceiveRead(Reads),
    /// The store answered with nothing to report.
    ReceiveNothing,
    /// The store rejected a request.
    ReceiveError,
    /// Delete an entry: the vault's name, then the entry's key.
    EntryDelete(String, String),
    /// Show an entry: the vault's name, then the entry's key.
    EntryView(String, String),
    /// Begin a new entry in the vault.
    NewEntry(String),
    /// Delete the vault.
    DeleteVault(String),
    /// Fold or unfold the vault on screen.
    ToggleVault(String),
    /// The text of the open password prompt changed.
    PasswordChanged(String),
    /// The confirmation text of the open password prompt changed.
    PasswordConfirmChanged(String),
    /// The text of the open prompt for a vault's name changed.
    PromptChanged(String),
    /// The key of the new entry changed.
    ChangeName(String),
    /// The kind of the new entry was picked.
    SelectStyle(StoreChoice),
    /// A field of the open form changed: its name, then its value.
    UpdateField(String, String),
    /// Put a generated password into the open form.
    GeneratePassword,
    /// Submit the live step.
    Submit,
    /// Cancel the live step.
    Exit,
    ShowPassword,
    HidePassword,
    /// Copy the password of the open entry to the clipboard.
    CopyPassword,
    /// What the clipboard held when a password was copied to it.
    CopyClipboard(Option<String>),
    /// The delay after a copy has passed.
    ClearClipboard,
    /// Begin a new vault.
    NewVault,
    ChangeTheme(String),
}

impl View for GUIMessage {
    type V = GUIMessageView;

    open spec fn view(&self) -> GUIMessageView {
        match self {
            GUIMessage::Connected => GUIMessageView::Connected,
            GUIMessage::Disconnected => GUIMessageView::Disconnected,
            GUIMessage::ReceiveInfo(i) => GUIMessageView::ReceiveInfo(i@),
            GUIMessage::ReceiveRead(r) => GUIMessageView::ReceiveRead(r@),
            GUIMessage::ReceiveNothing => GUIMessageView::ReceiveNothing,
            GUIMessage::ReceiveError => GUIMessageView::ReceiveError,
            GUIMessage::EntryDelete(v, k) => GUIMessageView::EntryDelete(v@, k@),
            GUIMessage::EntryView(v, k) => GUIMessageView::EntryView(v@, k@),
            GUIMessage::NewEntry(v) => GUIMessageView::NewEntry(v@),
            GUIMessage::DeleteVault(v) => GUIMessageView::DeleteVault(v@),
            GUIMessage::ToggleVault(v) => GUIMessageView::ToggleVault(v@),
            GUIMessage::PasswordChanged(p) => GUIMessageView::PasswordChanged(p@),
            GUIMessage::PasswordConfirmChanged(p) => GUIMessageView::PasswordConfirmChanged(p@),
            GUIMessage::PromptChanged(p) => GUIMessageView::PromptChanged(p@),
            GUIMessage::ChangeName(n) => GUIMessageView::ChangeName(n@),
            GUIMessage::SelectStyle(c) => GUIMessageView::SelectStyle(*c),
            GUIMessage::UpdateField(k, v) => GUIMessageView::UpdateField(k@, v@),
            GUIMessage::GeneratePassword => GUIMessageView::GeneratePassword,
            GUIMessage::Submit => GUIMessageView::Submit,
            GUIMessage::Exit => GUIMessageView::Exit,
            GUIMessage::ShowPassword => GUIMessageView::ShowPassword,
            GUIMessage::HidePassword => GUIMessageView::HidePassword,
            GUIMessage::CopyPassword => GUIMessageView::CopyPassword,
            GUIMessage::CopyClipboard(d) => GUIMessageView::CopyClipboard(
                match d {
                    Some(s) => Some(s@),
                    None => None,
                },
            ),
            GUIMessage::ClearClipboard => GUIMessageView::ClearClipboard,
            GUIMessage::NewVault => GUIMessageView::NewVault,
            GUIMessage::ChangeTheme(t) => GUIMessageView::ChangeTheme(t@),
        }
    }
}

impl GUIMessage {
    /// A snapshot carried by the event is well formed.
    pub open spec fn wf(&self) -> bool {
        match self {
            GUIMessage::ReceiveInfo(i) => i.wf(),
            _ => true,
        }
    }
}

/// Something the orchestrator asks its surroundings to do.
#[derive(Debug, PartialEq, Eq)]
pub enum Effect {
    /// Send the request to the store.
    Send(ManagerMessage),
    /// Read the clipboard and report it in a `CopyClipboard` event.
    ReadClipboard,
    /// Write the text to the clipboard.
    WriteClipboard(String),
    /// Deliver a `ClearClipboard` event after so many seconds.
    ClearClipboardAfter(u64),
    /// Save the settings.
    SaveConfig,
}

impl View for Effect {
    type V = EffectView;

    open spec fn view(&self) -> EffectView {
        match self {
            Effect::Send(m) => EffectView::Send(m@),
            Effect::ReadClipboard => EffectView::ReadClipboard,
            Effect::WriteClipboard(s) => EffectView::WriteClipboard(s@),
            Effect::ClearClipboardAfter(t) => EffectView::ClearClipboardAfter(*t),
            Effect::SaveConfig => EffectView::SaveConfig,
        }
    }
}

/// The effects of a list, each by its view.
pub open spec fn effect_views(v: Seq<Effect>) -> Seq<EffectView> {
    Seq::new(v.len(), |i: int| v[i]@)
}

/// The requests of a list, each by its view.
pub open spec fn message_views(v: Seq<ManagerMessage>) -> Seq<ManagerMessageView> {
    Seq::new(v.len(), |i: int| v[i]@)
}

/// The steps of a stack, each by its view.
pub open spec fn step_views(v: Seq<InternalState>) -> Seq<InternalStateView> {
    Seq::new(v.len(), |i: int| v[i]@)
}

/// The orchestrator.
#[derive(Debug)]
pub struct ManagerState {
    config: ClientConfig,
    directory: Directory,
    internal_state: Vec<InternalState>,
    temp_message: TempMessage,
    stored_clipboard: Option<String>,
    connected: bool,
}

impl View for ManagerState {
    type V = ManagerView;

    closed spec fn view(&self) -> ManagerView {
        ManagerView {
            config: self.config@,
            directory: self.directory@,
            stack: step_views(self.internal_state@),
            pending: self.temp_message@,
            clipboard: match self.stored_clipboard {
                Some(s) => Some(s@),
                None => None,
            },
            connected: self.connected,
        }
    }
}

impl ManagerState {
    /// The directory and every map of fields in the state are well formed.
    pub closed spec fn wf(&self) -> bool {
        &&& self.directory.wf()
        &&& self.temp_message.wf()
        &&& forall|i: int|
            0 <= i < self.internal_state@.len() ==> (#[trigger] self.internal_state@[i]).wf()
    }

    /// The orchestrator at startup: disconnected, idle, with an empty directory.
    pub fn new(config: ClientConfig) -> (r: ManagerState)
        ensures
            r.wf(),
            r@ == (ManagerView {
                config: config@,
                directory: Map::<Seq<char>, VaultView>::empty(),
                stack: Seq::<InternalStateView>::empty(),
                pending: TempMessageView::Empty,
                clipboard: None,
                connected: false,
            }),
    {
        let r = ManagerState {
            config,
            directory: Directory::new(),
            internal_state: Vec::new(),
            temp_message: TempMessage::Empty,
            stored_clipboard: None,
            connected: false,
        };
        assert(r@.stack =~= Seq::<InternalStateView>::empty());
        r
    }

    /// The live step of the workflow stack.
    pub fn active_state(&self) -> (r: Option<&InternalState>)
        requires
            self.wf(),
        ensures
            match r {
                Some(t) => self@.top() == Some(t@) && t.wf(),
                None => self@.top().is_none(),
            },
    {
        let n: usize = self.internal_state.len();
        if n == 0 {
            None
        } else {
            Some(&self.internal_state[n - 1])
        }
    }

    /// The pending operation.
    pub fn temp_message(&self) -> (r: &TempMessage)
        requires
            self.wf(),
        ensures
            r@ == self@.pending,
            r.wf(),
    {
        &self.temp_message
    }

    /// The directory of vaults.
    pub fn directory(&self) -> (r: &Directory)
        requires
            self.wf(),
        ensures
            r@ == self@.directory,
            r.wf(),
    {
        &self.directory
    }

    /// The settings.
    pub fn config(&self) -> (r: &ClientConfig)
        ensures
            r@ == self@.config,
    {
        &self.config
    }

    /// How many steps the workflow stack holds.
    pub fn stack_len(&self) -> (r: usize)
        ensures
            r == self@.stack.len(),
    {
        self.internal_state.len()
    }

    /// Whether the connection to the store is up.
    pub fn is_connected(&self) -> (r: bool)
        ensures
            r == self@.connected,
    {
        self.connected
    }

    /// Whether clipboard contents are kept for restoring.
    pub fn holds_clipboard(&self) -> (r: bool)
        ensures
            r == self@.clipboard.is_some(),
    {
        self.stored_clipboard.is_some()
    }

    /// Whether the pending operation needs the master password.
    pub fn needs_password(&self) -> (r: bool)
        ensures
            r == self@.pending.needs_password(),
    {
        self.temp_message.needs_password()
    }

    /// The password of the lowest password prompt of the stack.
    pub fn get_password(&self) -> (r: Option<String>)
        ensures
            match r {
                Some(p) => first_password(self@.stack) == Some(p@),
                None => first_password(self@.stack).is_none(),
            },
    {
        let ghost stack = self@.stack;
        let mut i: usize = 0;
        assert(stack.skip(0) =~= stack);
        while i < self.internal_state.len()
            invariant
                i <= self.internal_state@.len(),
                stack == self@.stack,
                first_password(stack) == first_password(stack.skip(i as int)),
            decreases self.internal_state@.len() - i,
        {
            assert(stack.skip(i as int)[0] == stack[i as int]);
            assert(stack.skip(i as int).skip(1) =~= stack.skip(i + 1));
            if let InternalState::Password(p) = &self.internal_state[i] {
                return Some(p.password.clone());
            }
            i += 1;
        }
        None
    }

    /// The effects that send `messages`, in order: none while disconnected.
    pub fn send_message(&self, messages: Vec<ManagerMessage>) -> (r: Vec<Effect>)
        ensures
            effect_views(r@) == self@.dispatch(message_views(messages@)),
    {
        let mut out: Vec<Effect> = Vec::new();
        if !self.connected {
            assert(effect_views(out@) =~= Seq::<EffectView>::empty());
            return out;
        }
        let ghost all = message_views(messages@);
        let mut rest = messages;
        while rest.len() > 0
            invariant
                out@.len() + rest@.len() == all.len(),
                forall|j: int| 0 <= j < out@.len() ==> (#[trigger] out@[j])@ == EffectView::Send(all[j]),
                forall|j: int| 0 <= j < rest@.len() ==> (#[trigger] rest@[j])@ == all[out@.len() + j],
            decreases rest@.len(),
        {
            let m = rest.remove(0);
            out.push(Effect::Send(m));
        }
        assert(effect_views(out@) =~= self@.dispatch(all));
        out
    }

    fn push_top(&mut self, t: InternalState)
        requires
            old(self).wf(),
            t.wf(),
        ensures
            final(self).wf(),
            final(self)@ == old(self)@.pushed(t@),
    {
        self.internal_state.push(t);
        assert(self@.stack =~= old(self)@.stack.push(t@));
    }

    fn pop_top(&mut self) -> (r: Option<InternalState>)
        requires
            old(self).wf(),
        ensures
            final(self).wf(),
            match r {
                Some(t) => old(self)@.top() == Some(t@) && t.wf() && final(self)@ == old(
                    self,
                )@.popped() && old(self)@ == final(self)@.pushed(t@),
                None => old(self)@.top().is_none() && final(self)@ == old(self)@,
            },
    {
        let r = self.internal_state.pop();
        proof {
            if r.is_some() {
                assert(self@.stack =~= old(self)@.stack.drop_last());
                assert(old(self)@.stack =~= self@.stack.push(r.unwrap()@));
            } else {
                assert(self@.stack =~= old(self)@.stack);
            }
        }
        r
    }

    fn reset(&mut self)
        requires
            old(self).wf(),
        ensures
            final(self).wf(),
            final(self)@ == old(self)@.idle(),
    {
        self.internal_state = Vec::new();
        self.temp_message = TempMessage::Empty;
        assert(self@.stack =~= Seq::<InternalStateView>::empty());
    }

    fn start(&mut self, pending: TempMessage, t: InternalState)
        requires
            old(self).wf(),
            pending.wf(),
            t.wf(),
        ensures
            final(self).wf(),
            final(self)@ == old(self)@.started(pending@, t@),
    {
        let mut stack: Vec<InternalState> = Vec::new();
        stack.push(t);
        self.internal_state = stack;
        self.temp_message = pending;
        assert(self@.stack =~= seq![t@]);
    }

    /// Takes a snapshot of the remote directory: the directory becomes the
    /// snapshot, and a vault that was known keeps its `expanded` flag.
    pub fn update_directory(&mut self, info: Info)
        requires
            old(self).wf(),
            info.wf(),
        ensures
            final(self).wf(),
            final(self)@ == old(self)@.step(GUIMessageView::ReceiveInfo(info@)).0,
    {
        let directory = self.directory.rebuild(&info);
        self.directory = directory;
    }

    /// Takes the answer to a read into the open entry form and the pending
    /// update.
    pub fn update_entry(&mut self, data: Reads)
        requires
            old(self).wf(),
        ensures
            final(self).wf(),
            final(self)@ == old(self)@.entry_updated(data@),
    {
        match self.pop_top() {
            None => {},
            Some(t) => {
                let t2 = match t {
                    InternalState::Entry(e) => {
                        match data.get(&e.key) {
                            Some(store) => {
                                let (choice, value) = store.duplicate().split();
                                InternalState::Entry(
                                    EntryState {
                                        vault: e.vault,
                                        key: e.key,
                                        choice,
                                        value,
                                        hidden: e.hidden,
                                    },
                                )
                            },
                            None => InternalState::Entry(e),
                        }
                    },
                    other => other,
                };
                self.push_top(t2);
            },
        }
        let mut pending = TempMessage::Empty;
        core::mem::swap(&mut self.temp_message, &mut pending);
        let pending2 = match pending {
            TempMessage::Update(a, b, c, f) => {
                match data.get(&b) {
                    Some(store) => {
                        let (choice, value) = store.duplicate().split();
                        TempMessage::Update(a, b, choice, value)
                    },
                    None => TempMessage::Update(a, b, c, f),
                }
            },
            p => p,
        };
        self.temp_message = pending2;
    }

    /// Finishes the pending operation with the master password. A pending
    /// read opens the entry's form above the prompt; any other operation is
    /// sent, followed by a request for a fresh directory, and the
    /// orchestrator is idle again.
    pub fn handle_password_submit(&mut self, password: String) -> (r: Vec<Effect>)
        requires
            old(self).wf(),
        ensures
            final(self).wf(),
            (final(self)@, effect_views(r@)) == old(self)@.password_submitted(password@),
    {
        let message = self.temp_message.with_password(password);
        match &self.temp_message {
            TempMessage::Get(vault, key) => {
                let known = match self.directory.get(vault) {
                    Some(v) => v.schema.contains_key(key),
                    None => false,
                };
                if !known {
                    let out: Vec<Effect> = Vec::new();
                    assert(effect_views(out@) =~= Seq::<EffectView>::empty());
                    return out;
                }
                let form = EntryState::from_entry(vault.clone(), key.clone());
                let pending = TempMessage::Update(
                    vault.clone(),
                    key.clone(),
                    StoreChoice::Password,
                    StoreChoice::Password.default_fields(),
                );
                let mut messages: Vec<ManagerMessage> = Vec::new();
                messages.push(message.unwrap());
                messages.push(ManagerMessage::Info);
                let out = self.send_message(messages);
                assert(message_views(messages@) =~= seq![messages@[0]@, ManagerMessageView::Info]);
                self.temp_message = pending;
                self.push_top(InternalState::Entry(form));
                out
            },
            TempMessage::Empty => {
                let mut messages: Vec<ManagerMessage> = Vec::new();
                messages.push(ManagerMessage::Info);
                let out = self.send_message(messages);
                assert(message_views(messages@) =~= seq![ManagerMessageView::Info]);
                self.reset();
                out
            },
            _ => {
                match message {
                    Some(m) => {
                        let mut messages: Vec<ManagerMessage> = Vec::new();
                        messages.push(m);
                        messages.push(ManagerMessage::Info);
                        let out = self.send_message(messages);
                        assert(message_views(messages@) =~= seq![m@, ManagerMessageView::Info]);
                        self.reset();
                        out
                    },
                    None => {
                        let out: Vec<Effect> = Vec::new();
                        assert(effect_views(out@) =~= Seq::<EffectView>::empty());
                        out
                    },
                }
            },
        }
    }

    fn delete_vault(&mut self, vault: String) -> (r: Vec<Effect>)
        requires
            old(self).wf(),
        ensures
            final(self).wf(),
            (final(self)@, effect_views(r@)) == old(self)@.delete_vault(vault@),
    {
        let empty = match self.directory.get(&vault) {
            Some(v) => v.schema.is_empty(),
            None => {
                let out: Vec<Effect> = Vec::new();
                assert(effect_views(out@) =~= Seq::<EffectView>::empty());
                return out;
            },
        };
        if empty {
            let mut messages: Vec<ManagerMessage> = Vec::new();
            messages.push(ManagerMessage::DeleteEmptyVault(vault));
            messages.push(ManagerMessage::Info);
            let out = self.send_message(messages);
            assert(message_views(messages@) =~= seq![
                ManagerMessageView::DeleteEmptyVault(vault@),
                ManagerMessageView::Info,
            ]);
            self.reset();
            out
        } else {
            self.start(
                TempMessage::DeleteVault(vault),
                InternalState::Password(PasswordState::new(false)),
            );
            let out: Vec<Effect> = Vec::new();
            assert(effect_views(out@) =~= Seq::<EffectView>::empty());
            out
        }
    }

    /// Sets one field of the open form and of the pending entry.
    pub fn update_field(&mut self, k: String, v: String)
        requires
            old(self).wf(),
        ensures
            final(self).wf(),
            final(self)@ == old(self)@.field_updated(k@, v@),
    {
        match self.pop_top() {
            None => {},
            Some(t) => {
                let t2 = match t {
                    InternalState::New(mut form) => {
                        form.value.insert(k.clone(), v.clone());
                        InternalState::New(form)
                    },
                    InternalState::Entry(mut form) => {
                        form.value.insert(k.clone(), v.clone());
                        InternalState::Entry(form)
                    },
                    other => other,
                };
                self.push_top(t2);
            },
        }
        let mut pending = TempMessage::Empty;
        core::mem::swap(&mut self.temp_message, &mut pending);
        let pending2 = match pending {
            TempMessage::New(a, b, c, mut f) => {
                f.insert(k, v);
                TempMessage::New(a, b, c, f)
            },
            TempMessage::Update(a, b, c, mut f) => {
                f.insert(k, v);
                TempMessage::Update(a, b, c, f)
            },
            p => p,
        };
        self.temp_message = pending2;
    }

    fn change_name(&mut self, n: String)
        requires
            old(self).wf(),
        ensures
            final(self).wf(),
            final(self)@ == old(self)@.name_changed(n@),
    {
        match self.pop_top() {
            None => {},
            Some(t) => {
                let t2 = match t {
                    InternalState::New(form) => InternalState::New(
                        NewEntryState {
                            vault: form.vault,
                            name: n.clone(),
                            choice: form.choice,
                            value: form.value,
                        },
                    ),
                    other => other,
                };
                self.push_top(t2);
            },
        }
        let mut pending = TempMessage::Empty;
        core::mem::swap(&mut self.temp_message, &mut pending);
        let pending2 = match pending {
            TempMessage::New(a, _, c, f) => TempMessage::New(a, n, c, f),
            p => p,
        };
        self.temp_message = pending2;
    }

    fn select_style(&mut self, choice: StoreChoice)
        requires
            old(self).wf(),
        ensures
            final(self).wf(),
            final(self)@ == old(self)@.style_selected(choice),
    {
        match self.pop_top() {
            None => {},
            Some(t) => {
                let t2 = match t {
                    InternalState::New(form) => InternalState::New(
                        NewEntryState {
                            vault: form.vault,
                            name: form.name,
                            choice,
                            value: choice.default_fields(),
                        },
                    ),
                    other => other,
                };
                self.push_top(t2);
            },
        }
        let mut pending = TempMessage::Empty;
        core::mem::swap(&mut self.temp_message, &mut pending);
        let pending2 = match pending {
            TempMessage::New(a, b, _, _) => TempMessage::New(a, b, choice, choice.default_fields()),
            p => p,
        };
        self.temp_message = pending2;
    }

    fn submit(&mut self) -> (r: Vec<Effect>)
        requires
            old(self).wf(),
        ensures
            final(self).wf(),
            (final(self)@, effect_views(r@)) == old(self)@.submitted(),
    {
        let mut out: Vec<Effect> = Vec::new();
        assert(effect_views(out@) =~= Seq::<EffectView>::empty());
        let n: usize = self.internal_state.len();
        if n == 0 {
            return out;
        }
        match &self.internal_state[n - 1] {
            InternalState::Password(p) => {
                if p.valid() {
                    let password = p.password.clone();
                    return self.handle_password_submit(password);
                }
            },
            InternalState::New(form) => {
                let complete = self.temp_message.complete();
                match self.directory.get(&form.vault) {
                    Some(v) => {
                        if complete {
                            if v.schema.is_empty() {
                                self.push_top(InternalState::Password(PasswordState::new(true)));
                            } else if !v.schema.contains_key(&form.name) {
                                self.push_top(InternalState::Password(PasswordState::new(false)));
                            }
                        }
                    },
                    None => {},
                }
            },
            InternalState::Entry(form) => {
                let known = match self.directory.get(&form.vault) {
                    Some(v) => v.schema.contains_key(&form.key),
                    None => false,
                };
                if known && self.temp_message.complete() {
                    match self.get_password() {
                        Some(password) => {
                            match self.temp_message.with_password(password) {
                                Some(m) => {
                                    let mut messages: Vec<ManagerMessage> = Vec::new();
                                    messages.push(m);
                                    let sent = self.send_message(messages);
                                    assert(message_views(messages@) =~= seq![m@]);
                                    self.reset();
                                    return sent;
                                },
                                None => {},
                            }
                        },
                        None => {
                            self.push_top(InternalState::Password(PasswordState::new(false)));
                        },
                    }
                }
            },
            InternalState::Prompt(prompt) => {
                let known = self.directory.get(&prompt.vault).is_some();
                if !known && !prompt.vault.as_str().is_empty() {
                    let mut messages: Vec<ManagerMessage> = Vec::new();
                    messages.push(ManagerMessage::NewVault(prompt.vault.clone()));
                    messages.push(ManagerMessage::Info);
                    let sent = self.send_message(messages);
                    assert(message_views(messages@) =~= seq![
                        ManagerMessageView::NewVault(prompt.vault@),
                        ManagerMessageView::Info,
                    ]);
                    let _ = self.pop_top();
                    return sent;
                }
            },
        }
        out
    }

    fn exit(&mut self)
        requires
            old(self).wf(),
        ensures
            final(self).wf(),
            final(self)@ == old(self)@.exited(),
    {
        match self.pop_top() {
            None => {},
            Some(InternalState::Password(_)) => {
                match &self.temp_message {
                    TempMessage::Delete(_, _) => {
                        self.temp_message = TempMessage::Empty;
                    },
                    TempMessage::Get(_, _) => {
                        self.temp_message = TempMessage::Empty;
                    },
                    TempMessage::DeleteVault(_) => {
                        self.temp_message = TempMessage::Empty;
                    },
                    _ => {},
                }
            },
            Some(InternalState::Entry(_)) => {
                self.reset();
            },
            Some(InternalState::New(_)) => {
                self.reset();
            },
            Some(InternalState::Prompt(_)) => {},
        }
    }

    fn set_hidden(&mut self, hidden: bool)
        requires
            old(self).wf(),
        ensures
            final(self).wf(),
            final(self)@ == old(self)@.password_hidden(hidden),
    {
        match self.pop_top() {
            None => {},
            Some(t) => {
                let t2 = match t {
                    InternalState::Entry(form) => InternalState::Entry(
                        EntryState {
                            vault: form.vault,
                            key: form.key,
                            choice: form.choice,
                            value: form.value,
                            hidden,
                        },
                    ),
                    other => other,
                };
                self.push_top(t2);
            },
        }
    }

    fn copy_password(&self) -> (r: Vec<Effect>)
        requires
            self.wf(),
        ensures
            effect_views(r@) == self@.copy_password(),
    {
        let mut out: Vec<Effect> = Vec::new();
        match self.active_state() {
            Some(InternalState::Entry(form)) => {
                match form.get_password() {
                    Some(p) => {
                        out.push(Effect::ReadClipboard);
                        out.push(Effect::WriteClipboard(p));
                        out.push(Effect::ClearClipboardAfter(self.config.clipboard_time));
                        assert(effect_views(out@) =~= self@.copy_password());
                    },
                    None => {
                        assert(effect_views(out@) =~= Seq::<EffectView>::empty());
                    },
                }
            },
            _ => {
                assert(effect_views(out@) =~= Seq::<EffectView>::empty());
            },
        }
        out
    }

    fn clear_clipboard(&mut self) -> (r: Vec<Effect>)
        requires
            old(self).wf(),
        ensures
            final(self).wf(),
            (final(self)@, effect_views(r@)) == old(self)@.clipboard_cleared(),
    {
        let mut out: Vec<Effect> = Vec::new();
        let mut kept: Option<String> = None;
        core::mem::swap(&mut self.stored_clipboard, &mut kept);
        match kept {
            Some(c) => {
                out.push(Effect::WriteClipboard(c));
                assert(effect_views(out@) =~= seq![EffectView::WriteClipboard(c@)]);
            },
            None => {
                assert(effect_views(out@) =~= Seq::<EffectView>::empty());
            },
        }
        out
    }

    fn edit_top(&mut self, message: GUIMessage)
        requires
            old(self).wf(),
            message is PasswordChanged || message is PasswordConfirmChanged
                || message is PromptChanged,
        ensures
            final(self).wf(),
            final(self)@ == old(self)@.step(message@).0,
    {
        match self.pop_top() {
            None => {},
            Some(t) => {
                let t2 = match (t, message) {
                    (InternalState::Password(s), GUIMessage::PasswordChanged(p)) => {
                        InternalState::Password(
                            PasswordState {
                                password: p,
                                confirm: s.confirm,
                                needs_confirm: s.needs_confirm,
                            },
                        )
                    },
                    (InternalState::Password(s), GUIMessage::PasswordConfirmChanged(p)) => {
                        InternalState::Password(
                            PasswordState {
                                password: s.password,
                                confirm: Some(p),
                                needs_confirm: s.needs_confirm,
                            },
                        )
                    },
                    (InternalState::Prompt(_), GUIMessage::PromptChanged(p)) => {
                        InternalState::Prompt(PromptState { vault: p })
                    },
                    (other, _) => other,
                };
                self.push_top(t2);
            },
        }
    }

    /// Draws a password from the configured pattern and puts it into the
    /// `password` field of the open form and of the pending entry. Returns
    /// whether a password was drawn; nothing changes where none was, and none
    /// is drawn from a pattern that the parser cannot be given.
    pub fn generate_password(&mut self) -> (r: bool)
        requires
            old(self).wf(),
        ensures
            final(self).wf(),
            !parseable(old(self)@.config.password_spec) ==> !r,
            !r ==> final(self)@ == old(self)@,
            r ==> exists|p: Seq<char>|
                final(self)@ == #[trigger] old(self)@.field_updated(password_name(), p),
            exists|drawn: Option<Seq<char>>|
                r == drawn.is_some() && final(self)@ == #[trigger] old(self)@.generated(drawn),
    {
        let drawn = crate::generator::generate(self.config.password_spec.as_str());
        let ghost answer: Option<Seq<char>> = match &drawn {
            Some(p) => Some(p@),
            None => None,
        };
        let r = self.apply_generated(drawn);
        assert(r == answer.is_some() && self@ == old(self)@.generated(answer));
        proof {
            if r {
                assert(self@ == old(self)@.field_updated(password_name(), answer.unwrap()));
            }
        }
        r
    }

    /// Takes what the generator gave: a drawn password becomes the
    /// `password` field of the open form and of the pending entry; where
    /// none was drawn nothing changes. Returns whether one was drawn.
    pub fn apply_generated(&mut self, drawn: Option<String>) -> (r: bool)
        requires
            old(self).wf(),
        ensures
            final(self).wf(),
            r == drawn.is_some(),
            final(self)@ == old(self)@.generated(
                match drawn {
                    Some(p) => Some(p@),
                    None => None,
                },
            ),
    {
        match drawn {
            Some(p) => {
                self.update_field("password".to_owned(), p);
                true
            },
            None => false,
        }
    }

    /// Handles one event: changes the state as the event asks and returns the
    /// effects to perform, in order.
    pub fn update(&mut self, message: GUIMessage) -> (r: Vec<Effect>)
        requires
            old(self).wf(),
            message.wf(),
        ensures
            final(self).wf(),
            !(message is GeneratePassword) ==> (final(self)@, effect_views(r@)) == old(self)@.step(
                message@,
            ),
            message is GeneratePassword ==> effect_views(r@) == Seq::<EffectView>::empty() && (
            final(self)@ == old(self)@ || exists|p: Seq<char>|
                final(self)@ == #[trigger] old(self)@.field_updated(password_name(), p)),
    {
        let mut out: Vec<Effect> = Vec::new();
        assert(effect_views(out@) =~= Seq::<EffectView>::empty());
        match message {
            GUIMessage::Connected => {
                self.connected = true;
                out.push(Effect::Send(ManagerMessage::Info));
                assert(effect_views(out@) =~= seq![EffectView::Send(ManagerMessageView::Info)]);
            },
            GUIMessage::Disconnected => {
                self.connected = false;
            },
            GUIMessage::ReceiveInfo(info) => {
                self.update_directory(info);
            },
            GUIMessage::ReceiveRead(reads) => {
                self.update_entry(reads);
            },
            GUIMessage::ReceiveNothing => {},
            GUIMessage::ReceiveError => {
                self.reset();
            },
            GUIMessage::EntryDelete(vault, key) => {
                self.start(
                    TempMessage::Delete(vault, key),
                    InternalState::Password(PasswordState::new(false)),
                );
            },
            GUIMessage::EntryView(vault, key) => {
                self.start(
                    TempMessage::Get(vault, key),
                    InternalState::Password(PasswordState::new(false)),
                );
            },
            GUIMessage::NewEntry(vault) => {
                let form = NewEntryState::for_vault(vault.clone());
                self.start(
                    TempMessage::New(
                        vault,
                        String::new(),
                        StoreChoice::Password,
                        StoreChoice::Password.default_fields(),
                    ),
                    InternalState::New(form),
                );
            },
            GUIMessage::DeleteVault(vault) => {
                return self.delete_vault(vault);
            },
            GUIMessage::ToggleVault(name) => {
                self.directory.toggle(&name);
            },
            GUIMessage::PasswordChanged(p) => {
                self.edit_top(GUIMessage::PasswordChanged(p));
            },
            GUIMessage::PasswordConfirmChanged(p) => {
                self.edit_top(GUIMessage::PasswordConfirmChanged(p));
            },
            GUIMessage::PromptChanged(p) => {
                self.edit_top(GUIMessage::PromptChanged(p));
            },
            GUIMessage::ChangeName(n) => {
                self.change_name(n);
            },
            GUIMessage::SelectStyle(choice) => {
                self.select_style(choice);
            },
            GUIMessage::UpdateField(k, v) => {
                self.update_field(k, v);
            },
            GUIMessage::GeneratePassword => {
                let _ = self.generate_password();
            },
            GUIMessage::Submit => {
                return self.submit();
            },
            GUIMessage::Exit => {
                self.exit();
            },
            GUIMessage::ShowPassword => {
                self.set_hidden(false);
            },
            GUIMessage::HidePassword => {
                self.set_hidden(true);
            },
            GUIMessage::CopyPassword => {
                return self.copy_password();
            },
            GUIMessage::CopyClipboard(data) => {
                self.stored_clipboard = match data {
                    Some(d) => Some(d),
                    None => Some(String::new()),
                };
            },
            GUIMessage::ClearClipboard => {
                return self.clear_clipboard();
            },
            GUIMessage::NewVault => {
                self.start(TempMessage::Empty, InternalState::Prompt(PromptState::default()));
            },
            GUIMessage::ChangeTheme(theme) => {
                self.config.theme = theme;
                out.push(Effect::SaveConfig);
                assert(effect_views(out@) =~= seq![EffectView::SaveConfig]);
            },
        }
        out
    }
}

} // verus!

//! The orchestrator as a mathematical state machine: its state, the events
//! that reach it, the effects it asks for, and the step from one state to the
//! next.

use crate::directory::{last_under, synced, toggled, VaultView};
use crate::message::{ManagerMessageView, MessageView};
use crate::state::{
    EntryStateView, InternalStateView, NewEntryStateView, PasswordStateView, PromptStateView,
};
use crate::store::{password_name, StoreChoice, StoreView};
use crate::temp_message::TempMessageView;
use vstd::prelude::*;

verus! {

/// The settings of the client.
pub ghost struct ConfigView {
    pub theme: Seq<char>,
    pub password_spec: Seq<char>,
    pub clipboard_time: u64,
}

/// An event, each text by its characters.
pub ghost enum GUIMessageView {
    Connected,
    Disconnected,
    ReceiveInfo(Map<Seq<char>, Map<Seq<char>, Seq<char>>>),
    ReceiveRead(Seq<(Seq<char>, StoreView)>),
    ReceiveNothing,
    ReceiveError,
    EntryDelete(Seq<char>, Seq<char>),
    EntryView(Seq<char>, Seq<char>),
    NewEntry(Seq<char>),
    DeleteVault(Seq<char>),
    ToggleVault(Seq<char>),
    PasswordChanged(Seq<char>),
    PasswordConfirmChanged(Seq<char>),
    PromptChanged(Seq<char>),
    ChangeName(Seq<char>),
    SelectStyle(StoreChoice),
    UpdateField(Seq<char>, Seq<char>),
    GeneratePassword,
    Submit,
    Exit,
    ShowPassword,
    HidePassword,
    CopyPassword,
    CopyClipboard(Option<Seq<char>>),
    ClearClipboard,
    NewVault,
    ChangeTheme(Seq<char>),
}

/// Something the orchestrator asks its surroundings to do.
pub ghost enum EffectView {
    Send(ManagerMessageView),
    ReadClipboard,
    WriteClipboard(Seq<char>),
    ClearClipboardAfter(u64),
    SaveConfig,
}

/// The password of the lowest password prompt of a stack.
pub open spec fn first_password(stack: Seq<InternalStateView>) -> Option<Seq<char>>
    decreases stack.len(),
{
    if stack.len() == 0 {
        None
    } else {
        match stack[0] {
            InternalStateView::Password(p) => Some(p.password),
            _ => first_password(stack.skip(1)),
        }
    }
}

/// A pending operation with one field set, where it has fields.
pub open spec fn pending_with_field(
    p: TempMessageView,
    k: Seq<char>,
    v: Seq<char>,
) -> TempMessageView {
    match p {
        TempMessageView::New(a, b, c, f) => TempMessageView::New(a, b, c, f.insert(k, v)),
        TempMessageView::Update(a, b, c, f) => TempMessageView::Update(a, b, c, f.insert(k, v)),
        _ => p,
    }
}

/// A step with one field set, where it is a form.
pub open spec fn step_with_field(
    t: InternalStateView,
    k: Seq<char>,
    v: Seq<char>,
) -> InternalStateView {
    match t {
        InternalStateView::New(n) => InternalStateView::New(
            NewEntryStateView { value: n.value.insert(k, v), ..n },
        ),
        InternalStateView::Entry(e) => InternalStateView::Entry(
            EntryStateView { value: e.value.insert(k, v), ..e },
        ),
        _ => t,
    }
}

/// The state of the orchestrator.
pub ghost struct ManagerView {
    pub config: ConfigView,
    pub directory: Map<Seq<char>, VaultView>,
    /// The workflow stack; its last element is the live step.
    pub stack: Seq<InternalStateView>,
    pub pending: TempMessageView,
    /// What the clipboard held before a secret was copied to it, while that
    /// secret is there.
    pub clipboard: Option<Seq<char>>,
    pub connected: bool,
}

impl ManagerView {
    /// The live step, if any.
    pub open spec fn top(self) -> Option<InternalStateView> {
        if self.stack.len() > 0 {
            Some(self.stack.last())
        } else {
            None
        }
    }

    /// Nothing pending and no step open; all else as it is.
    pub open spec fn idle(self) -> ManagerView {
        ManagerView { stack: Seq::empty(), pending: TempMessageView::Empty, ..self }
    }

    pub open spec fn pushed(self, t: InternalStateView) -> ManagerView {
        ManagerView { stack: self.stack.push(t), ..self }
    }

    pub open spec fn popped(self) -> ManagerView {
        ManagerView { stack: self.stack.drop_last(), ..self }
    }

    /// The live step replaced by `t`.
    pub open spec fn with_top(self, t: InternalStateView) -> ManagerView {
        ManagerView { stack: self.stack.drop_last().push(t), ..self }
    }

    /// A new operation begun: what was pending and every open step are
    /// discarded, and `t` is the only step.
    pub open spec fn started(self, pending: TempMessageView, t: InternalStateView) -> ManagerView {
        ManagerView { stack: seq![t], pending, ..self }
    }

    /// The effects that send `msgs`, in order: none while disconnected.
    pub open spec fn dispatch(self, msgs: Seq<ManagerMessageView>) -> Seq<EffectView> {
        if self.connected {
            Seq::new(msgs.len(), |i: int| EffectView::Send(msgs[i]))
        } else {
            Seq::empty()
        }
    }

    /// Whether the directory knows the vault and the vault holds the key.
    pub open spec fn has_entry(self, vault: Seq<char>, key: Seq<char>) -> bool {
        self.directory.contains_key(vault) && self.directory[vault].schema.contains_key(key)
    }

    /// Whether the directory knows the vault and the vault holds no entry.
    pub open spec fn vault_is_empty(self, vault: Seq<char>) -> bool {
        self.directory.contains_key(vault) && self.directory[vault].schema == Map::<
            Seq<char>,
            Seq<char>,
        >::empty()
    }

    /// The user asks to delete a vault. A vault without entries is deleted at
    /// once, with no password; for any other a password prompt opens. A vault
    /// that the directory does not know is left alone.
    pub open spec fn delete_vault(self, vault: Seq<char>) -> (ManagerView, Seq<EffectView>) {
        if !self.directory.contains_key(vault) {
            (self, Seq::empty())
        } else if self.vault_is_empty(vault) {
            (
                self.idle(),
                self.dispatch(
                    seq![ManagerMessageView::DeleteEmptyVault(vault), ManagerMessageView::Info],
                ),
            )
        } else {
            (
                self.started(
                    TempMessageView::DeleteVault(vault),
                    InternalStateView::Password(PasswordStateView::fresh(false)),
                ),
                Seq::empty(),
            )
        }
    }

    /// The user changes a field of the open form.
    pub open spec fn field_updated(self, k: Seq<char>, v: Seq<char>) -> ManagerView {
        let s = match self.top() {
            Some(t) => self.with_top(step_with_field(t, k, v)),
            None => self,
        };
        ManagerView { pending: pending_with_field(self.pending, k, v), ..s }
    }

    /// The generator has answered: a drawn password becomes the `password`
    /// field of the open form and of the pending entry; where none was
    /// drawn nothing changes.
    pub open spec fn generated(self, drawn: Option<Seq<char>>) -> ManagerView {
        match drawn {
            Some(p) => self.field_updated(password_name(), p),
            None => self,
        }
    }

    /// The user changes the key of the new entry.
    pub open spec fn name_changed(self, n: Seq<char>) -> ManagerView {
        let s = match self.top() {
            Some(InternalStateView::New(f)) => self.with_top(
                InternalStateView::New(NewEntryStateView { name: n, ..f }),
            ),
            _ => self,
        };
        let pending = match self.pending {
            TempMessageView::New(a, _, c, f) => TempMessageView::New(a, n, c, f),
            p => p,
        };
        ManagerView { pending, ..s }
    }

    /// The user picks the kind of the new entry: its fields start blank again.
    pub open spec fn style_selected(self, choice: StoreChoice) -> ManagerView {
        let s = match self.top() {
            Some(InternalStateView::New(f)) => self.with_top(
                InternalStateView::New(
                    NewEntryStateView { choice, value: choice.blank(), ..f },
                ),
            ),
            _ => self,
        };
        let pending = match self.pending {
            TempMessageView::New(a, b, _, _) => TempMessageView::New(a, b, choice, choice.blank()),
            p => p,
        };
        ManagerView { pending, ..s }
    }

    /// The store answers a read: an open entry form shows the record returned
    /// under its key, and a pending update takes the record returned under its
    /// key. A record under another key changes nothing.
    pub open spec fn entry_updated(self, reads: Seq<(Seq<char>, StoreView)>) -> ManagerView {
        let s = match self.top() {
            Some(InternalStateView::Entry(e)) => match last_under(reads, e.key) {
                Some(store) => self.with_top(InternalStateView::Entry(e.showing(store))),
                None => self,
            },
            _ => self,
        };
        let pending = match self.pending {
            TempMessageView::Update(a, b, c, f) => match last_under(reads, b) {
                Some(store) => TempMessageView::Update(a, b, store.choice(), store.as_map()),
                None => self.pending,
            },
            p => p,
        };
        ManagerView { pending, ..s }
    }

    /// A valid password is submitted. A read opens the entry's form above the
    /// prompt and becomes a pending update of that entry; any other operation
    /// is sent and the orchestrator is idle again. Nothing happens where the
    /// fields do not make a record, or where the entry to read is not in the
    /// directory.
    pub open spec fn password_submitted(self, password: Seq<char>) -> (
        ManagerView,
        Seq<EffectView>,
    ) {
        match self.pending {
            TempMessageView::Get(vault, key) => if self.has_entry(vault, key) {
                (
                    ManagerView {
                        stack: self.stack.push(
                            InternalStateView::Entry(EntryStateView::from_entry(vault, key)),
                        ),
                        pending: TempMessageView::Update(
                            vault,
                            key,
                            StoreChoice::Password,
                            StoreChoice::Password.blank(),
                        ),
                        ..self
                    },
                    self.dispatch(
                        seq![
                            ManagerMessageView::VaultMessage(vault, MessageView::Get(password, key)),
                            ManagerMessageView::Info,
                        ],
                    ),
                )
            } else {
                (self, Seq::empty())
            },
            TempMessageView::Empty => (self.idle(), self.dispatch(seq![ManagerMessageView::Info])),
            p => match p.finalize(password) {
                Some(m) => (self.idle(), self.dispatch(seq![m, ManagerMessageView::Info])),
                None => (self, Seq::empty()),
            },
        }
    }

    /// The form of a new entry is submitted.
    pub open spec fn new_entry_submitted(self, form: NewEntryStateView) -> ManagerView {
        if self.directory.contains_key(form.vault) && self.pending.complete() {
            if self.vault_is_empty(form.vault) {
                self.pushed(InternalStateView::Password(PasswordStateView::fresh(true)))
            } else if !self.has_entry(form.vault, form.name) {
                self.pushed(InternalStateView::Password(PasswordStateView::fresh(false)))
            } else {
                self
            }
        } else {
            self
        }
    }

    /// The form of an existing entry is submitted.
    pub open spec fn entry_submitted(self, form: EntryStateView) -> (
        ManagerView,
        Seq<EffectView>,
    ) {
        if self.has_entry(form.vault, form.key) && self.pending.complete() {
            match first_password(self.stack) {
                Some(password) => match self.pending.finalize(password) {
                    Some(m) => (self.idle(), self.dispatch(seq![m])),
                    None => (self, Seq::empty()),
                },
                None => (
                    self.pushed(InternalStateView::Password(PasswordStateView::fresh(false))),
                    Seq::empty(),
                ),
            }
        } else {
            (self, Seq::empty())
        }
    }

    /// The name of a new vault is submitted.
    pub open spec fn prompt_submitted(self, prompt: PromptStateView) -> (
        ManagerView,
        Seq<EffectView>,
    ) {
        if !self.directory.contains_key(prompt.vault) && prompt.vault.len() > 0 {
            (
                self.popped(),
                self.dispatch(
                    seq![ManagerMessageView::NewVault(prompt.vault), ManagerMessageView::Info],
                ),
            )
        } else {
            (self, Seq::empty())
        }
    }

    /// The live step is submitted.
    pub open spec fn submitted(self) -> (ManagerView, Seq<EffectView>) {
        match self.top() {
            None => (self, Seq::empty()),
            Some(InternalStateView::Password(p)) => if p.valid() {
                self.password_submitted(p.password)
            } else {
                (self, Seq::empty())
            },
            Some(InternalStateView::New(f)) => (self.new_entry_submitted(f), Seq::empty()),
            Some(InternalStateView::Entry(f)) => self.entry_submitted(f),
            Some(InternalStateView::Prompt(p)) => self.prompt_submitted(p),
        }
    }

    /// The live step is cancelled. Leaving a password prompt drops a pending
    /// read or deletion and keeps a pending entry; leaving a form drops
    /// everything; leaving the prompt for a vault's name closes only it.
    pub open spec fn exited(self) -> ManagerView {
        match self.top() {
            None => self,
            Some(InternalStateView::Password(_)) => {
                let pending = match self.pending {
                    TempMessageView::Delete(_, _) => TempMessageView::Empty,
                    TempMessageView::Get(_, _) => TempMessageView::Empty,
                    TempMessageView::DeleteVault(_) => TempMessageView::Empty,
                    p => p,
                };
                ManagerView { stack: self.stack.drop_last(), pending, ..self }
            },
            Some(InternalStateView::Entry(_)) => self.idle(),
            Some(InternalStateView::New(_)) => self.idle(),
            Some(InternalStateView::Prompt(_)) => self.popped(),
        }
    }

    /// The password of the open entry form is masked or shown.
    pub open spec fn password_hidden(self, hidden: bool) -> ManagerView {
        match self.top() {
            Some(InternalStateView::Entry(e)) => self.with_top(
                InternalStateView::Entry(EntryStateView { hidden, ..e }),
            ),
            _ => self,
        }
    }

    /// The effects that copy the password of the open entry form to the
    /// clipboard: capture what the clipboard holds, write the password, and
    /// ask for the clearing event after the configured delay.
    pub open spec fn copy_password(self) -> Seq<EffectView> {
        match self.top() {
            Some(InternalStateView::Entry(e)) => match e.password() {
                Some(p) => seq![
                    EffectView::ReadClipboard,
                    EffectView::WriteClipboard(p),
                    EffectView::ClearClipboardAfter(self.config.clipboard_time),
                ],
                None => Seq::empty(),
            },
            _ => Seq::empty(),
        }
    }

    /// What the clipboard held is reported: it is kept for restoring, as empty
    /// text where it could not be read.
    pub open spec fn clipboard_captured(self, data: Option<Seq<char>>) -> ManagerView {
        ManagerView {
            clipboard: Some(
                match data {
                    Some(d) => d,
                    None => Seq::empty(),
                },
            ),
            ..self
        }
    }

    /// The clearing event fires: what was captured is written back and
    /// forgotten. Where nothing is kept, nothing is written.
    pub open spec fn clipboard_cleared(self) -> (ManagerView, Seq<EffectView>) {
        match self.clipboard {
            Some(c) => (ManagerView { clipboard: None, ..self }, seq![EffectView::WriteClipboard(c)]),
            None => (self, Seq::empty()),
        }
    }

    /// The state after an event, and the effects asked for. For
    /// `GeneratePassword`, whose outcome a random generator decides, this is
    /// the step in which the generator gave nothing.
    pub open spec fn step(self, e: GUIMessageView) -> (ManagerView, Seq<EffectView>) {
        match e {
            GUIMessageView::Connected => (
                ManagerView { connected: true, ..self },
                seq![EffectView::Send(ManagerMessageView::Info)],
            ),
            GUIMessageView::Disconnected => (ManagerView { connected: false, ..self }, Seq::empty()),
            GUIMessageView::ReceiveInfo(info) => (
                ManagerView { directory: synced(self.directory, info), ..self },
                Seq::empty(),
            ),
            GUIMessageView::ReceiveRead(reads) => (self.entry_updated(reads), Seq::empty()),
            GUIMessageView::ReceiveNothing => (self, Seq::empty()),
            GUIMessageView::ReceiveError => (self.idle(), Seq::empty()),
            GUIMessageView::EntryDelete(vault, key) => (
                self.started(
                    TempMessageView::Delete(vault, key),
                    InternalStateView::Password(PasswordStateView::fresh(false)),
                ),
                Seq::empty(),
            ),
            GUIMessageView::EntryView(vault, key) => (
                self.started(
                    TempMessageView::Get(vault, key),
                    InternalStateView::Password(PasswordStateView::fresh(false)),
                ),
                Seq::empty(),
            ),
            GUIMessageView::NewEntry(vault) => (
                self.started(
                    TempMessageView::New(
                        vault,
                        Seq::empty(),
                        StoreChoice::Password,
                        StoreChoice::Password.blank(),
                    ),
                    InternalStateView::New(NewEntryStateView::for_vault(vault)),
                ),
                Seq::empty(),
            ),
            GUIMessageView::DeleteVault(vault) => self.delete_vault(vault),
            GUIMessageView::ToggleVault(name) => (
                ManagerView { directory: toggled(self.directory, name), ..self },
                Seq::empty(),
            ),
            GUIMessageView::PasswordChanged(p) => (
                match self.top() {
                    Some(InternalStateView::Password(s)) => self.with_top(
                        InternalStateView::Password(PasswordStateView { password: p, ..s }),
                    ),
                    _ => self,
                },
                Seq::empty(),
            ),
            GUIMessageView::PasswordConfirmChanged(p) => (
                match self.top() {
                    Some(InternalStateView::Password(s)) => self.with_top(
                        InternalStateView::Password(PasswordStateView { confirm: Some(p), ..s }),
                    ),
                    _ => self,
                },
                Seq::empty(),
            ),
            GUIMessageView::PromptChanged(p) => (
                match self.top() {
                    Some(InternalStateView::Prompt(_)) => self.with_top(
                        InternalStateView::Prompt(PromptStateView { vault: p }),
                    ),
                    _ => self,
                },
                Seq::empty(),
            ),
            GUIMessageView::ChangeName(n) => (self.name_changed(n), Seq::empty()),
            GUIMessageView::SelectStyle(choice) => (self.style_selected(choice), Seq::empty()),
            GUIMessageView::UpdateField(k, v) => (self.field_updated(k, v), Seq::empty()),
            GUIMessageView::GeneratePassword => (self, Seq::empty()),
            GUIMessageView::Submit => self.submitted(),
            GUIMessageView::Exit => (self.exited(), Seq::empty()),
            GUIMessageView::ShowPassword => (self.password_hidden(false), Seq::empty()),
            GUIMessageView::HidePassword => (self.password_hidden(true), Seq::empty()),
            GUIMessageView::CopyPassword => (self, self.copy_password()),
            GUIMessageView::CopyClipboard(data) => (self.clipboard_captured(data), Seq::empty()),
            GUIMessageView::ClearClipboard => self.clipboard_cleared(),
            GUIMessageView::NewVault => (
                self.started(
                    TempMessageView::Empty,
                    InternalStateView::Prompt(PromptStateView { vault: Seq::empty() }),
                ),
                Seq::empty(),
            ),
            GUIMessageView::ChangeTheme(theme) => (
                ManagerView { config: ConfigView { theme, ..self.config }, ..self },
                seq![EffectView::SaveConfig],
            ),
        }
    }
}

} // verus!

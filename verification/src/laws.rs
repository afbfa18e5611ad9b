//! What holds of the orchestrator in every state.

use crate::message::{ManagerMessageView, MessageView};
use crate::model::{EffectView, GUIMessageView, ManagerView};
use crate::state::{EntryStateView, InternalStateView, PasswordStateView};
use crate::temp_message::TempMessageView;
use vstd::prelude::*;

verus! {

/// Whether an event begins a new operation in state `s`. Asking to delete a
/// vault that the directory does not know begins nothing.
pub open spec fn begins_operation(s: ManagerView, e: GUIMessageView) -> bool {
    match e {
        GUIMessageView::EntryDelete(_, _) => true,
        GUIMessageView::EntryView(_, _) => true,
        GUIMessageView::NewEntry(_) => true,
        GUIMessageView::NewVault => true,
        GUIMessageView::DeleteVault(vault) => s.directory.contains_key(vault),
        _ => false,
    }
}

/// Every pending operation needs the master password, but for no operation
/// and the deletion of a vault without entries.
pub proof fn law_needs_password(p: TempMessageView)
    ensures
        p.needs_password() <==> !(p is Empty) && !(p is DeleteEmptyVault),
{
}

/// A new or updated entry is complete exactly when its key is not empty and
/// every one of its fields has a value.
pub proof fn law_entry_complete(p: TempMessageView)
    requires
        p is New || p is Update,
    ensures
        p.complete() <==> (match p {
            TempMessageView::New(_, key, _, fields) => key.len() > 0 && forall|k: Seq<char>|
                fields.contains_key(k) ==> (#[trigger] fields[k]).len() > 0,
            TempMessageView::Update(_, key, _, fields) => key.len() > 0 && forall|k: Seq<char>|
                fields.contains_key(k) ==> (#[trigger] fields[k]).len() > 0,
            _ => true,
        }),
{
}

/// Beginning an operation discards whatever the workflow stack held: after
/// it the stack holds at most the one step of the new operation, and what is
/// pending is that operation or nothing.
pub proof fn law_start_discards_stack(s: ManagerView, e: GUIMessageView)
    requires
        begins_operation(s, e),
    ensures
        s.step(e).0.stack.len() <= 1,
        s.step(e).0.stack.len() == 0 ==> s.step(e).0.pending is Empty,
        s.step(e).0.stack.len() == 1 ==> s.step(e).0.stack == seq![s.step(e).0.stack[0]] && (match (
            e,
            s.step(e).0.pending,
            s.step(e).0.stack[0],
        ) {
            (
                GUIMessageView::EntryDelete(v, k),
                TempMessageView::Delete(pv, pk),
                InternalStateView::Password(p),
            ) => v == pv && k == pk && p == PasswordStateView::fresh(false),
            (
                GUIMessageView::EntryView(v, k),
                TempMessageView::Get(pv, pk),
                InternalStateView::Password(p),
            ) => v == pv && k == pk && p == PasswordStateView::fresh(false),
            (
                GUIMessageView::NewEntry(v),
                TempMessageView::New(pv, pk, _, _),
                InternalStateView::New(f),
            ) => v == pv && pk.len() == 0 && f.vault == v,
            (
                GUIMessageView::DeleteVault(v),
                TempMessageView::DeleteVault(pv),
                InternalStateView::Password(p),
            ) => v == pv && p == PasswordStateView::fresh(false),
            (GUIMessageView::NewVault, TempMessageView::Empty, InternalStateView::Prompt(p)) => p.vault.len()
                == 0,
            _ => false,
        }),
{
}

/// After an error from the store nothing is pending and no step is open,
/// whatever the state was; nothing is sent, and all else stays.
pub proof fn law_error_resets(s: ManagerView)
    ensures
        s.step(GUIMessageView::ReceiveError).0.pending is Empty,
        s.step(GUIMessageView::ReceiveError).0.stack.len() == 0,
        s.step(GUIMessageView::ReceiveError).0 == s.idle(),
        s.step(GUIMessageView::ReceiveError).1.len() == 0,
{
}

/// A vault without entries is deleted at once: the request and a refresh are
/// sent where the connection is up, no step is opened and nothing is pending.
pub proof fn law_empty_vault_deleted_at_once(s: ManagerView, vault: Seq<char>)
    requires
        s.vault_is_empty(vault),
    ensures
        s.step(GUIMessageView::DeleteVault(vault)).0.stack.len() == 0,
        s.step(GUIMessageView::DeleteVault(vault)).0.pending is Empty,
        s.connected ==> s.step(GUIMessageView::DeleteVault(vault)).1 == seq![
            EffectView::Send(ManagerMessageView::DeleteEmptyVault(vault)),
            EffectView::Send(ManagerMessageView::Info),
        ],
        !s.connected ==> s.step(GUIMessageView::DeleteVault(vault)).1.len() == 0,
{
    let msgs = seq![ManagerMessageView::DeleteEmptyVault(vault), ManagerMessageView::Info];
    if s.connected {
        assert(s.dispatch(msgs) =~= seq![
            EffectView::Send(ManagerMessageView::DeleteEmptyVault(vault)),
            EffectView::Send(ManagerMessageView::Info),
        ]);
    }
}

/// While the connection is down no event but its coming up sends anything.
pub proof fn law_disconnected_sends_nothing(s: ManagerView, e: GUIMessageView, i: int)
    requires
        !s.connected,
        !(e is Connected),
        0 <= i < s.step(e).1.len(),
    ensures
        !(s.step(e).1[i] is Send),
{
}

/// Copying the password of the open entry changes nothing in the state and
/// asks for three things in this order: capture what the clipboard holds,
/// write the password, and deliver the clearing event after the configured
/// delay.
pub proof fn law_copy_captures_writes_and_arms(s: ManagerView, form: EntryStateView)
    requires
        s.top() == Some(InternalStateView::Entry(form)),
        form.password() is Some,
    ensures
        s.step(GUIMessageView::CopyPassword).0 == s,
        s.step(GUIMessageView::CopyPassword).1 == seq![
            EffectView::ReadClipboard,
            EffectView::WriteClipboard(form.password().unwrap()),
            EffectView::ClearClipboardAfter(s.config.clipboard_time),
        ],
{
}

/// Two copies in a row, each followed by the report of what the clipboard
/// held, and then the two clearing events: the first clearing event writes
/// back what the second copy captured (empty text where the clipboard could
/// not be read) and the second writes nothing, so the clipboard is restored
/// exactly once.
pub proof fn law_second_copy_supersedes(
    s: ManagerView,
    first: Option<Seq<char>>,
    second: Option<Seq<char>>,
)
    ensures
        ({
            let s1 = s.step(GUIMessageView::CopyPassword).0.step(
                GUIMessageView::CopyClipboard(first),
            ).0;
            let s2 = s1.step(GUIMessageView::CopyPassword).0.step(
                GUIMessageView::CopyClipboard(second),
            ).0;
            let fired1 = s2.step(GUIMessageView::ClearClipboard);
            let fired2 = fired1.0.step(GUIMessageView::ClearClipboard);
            &&& fired1.1 == seq![
                EffectView::WriteClipboard(
                    match second {
                        Some(c) => c,
                        None => Seq::empty(),
                    },
                ),
            ]
            &&& fired2.1 == Seq::<EffectView>::empty()
            &&& fired2.0.clipboard is None
            &&& fired2.0 == (ManagerView { clipboard: None, ..s })
        }),
{
}

/// A request that a submitted password releases carries that password, and
/// a refresh of the directory follows it.
pub proof fn law_password_submit_sends_once(s: ManagerView, password: Seq<char>)
    requires
        s.connected,
        s.pending.needs_password(),
        !(s.pending is Get),
        s.pending.finalize(password) is Some,
    ensures
        s.password_submitted(password).0 == s.idle(),
        s.password_submitted(password).1 == seq![
            EffectView::Send(s.pending.finalize(password).unwrap()),
            EffectView::Send(ManagerMessageView::Info),
        ],
{
    let m = s.pending.finalize(password).unwrap();
    assert(s.dispatch(seq![m, ManagerMessageView::Info]) =~= seq![
        EffectView::Send(m),
        EffectView::Send(ManagerMessageView::Info),
    ]);
}

/// The master password that a request carries, if it carries one.
pub open spec fn secret_of(m: ManagerMessageView) -> Option<Seq<char>> {
    match m {
        ManagerMessageView::DeleteVault(_, p) => Some(p),
        ManagerMessageView::VaultMessage(_, MessageView::Get(p, _)) => Some(p),
        ManagerMessageView::VaultMessage(_, MessageView::Delete(p, _)) => Some(p),
        ManagerMessageView::VaultMessage(_, MessageView::Update(p, _, _)) => Some(p),
        _ => None,
    }
}

/// Whatever a submitted password prompt sends carries the password of that
/// prompt, and that password is not empty.
pub proof fn law_prompt_attaches_its_password(s: ManagerView, p: PasswordStateView, i: int)
    requires
        s.top() == Some(InternalStateView::Password(p)),
        0 <= i < s.step(GUIMessageView::Submit).1.len(),
    ensures
        p.valid(),
        match s.step(GUIMessageView::Submit).1[i] {
            EffectView::Send(m) => secret_of(m) is Some ==> secret_of(m) == Some(p.password)
                && p.password.len() > 0,
            _ => false,
        },
{
}

/// An operation whose password was never given sends nothing: with a form
/// or the prompt for a vault's name on top, a submission sends no request
/// that carries another password than the one kept lower in the stack.
pub proof fn law_form_reuses_kept_password(s: ManagerView, i: int)
    requires
        s.top() is Some,
        !(s.top().unwrap() is Password),
        0 <= i < s.step(GUIMessageView::Submit).1.len(),
    ensures
        match s.step(GUIMessageView::Submit).1[i] {
            EffectView::Send(m) => secret_of(m) is Some ==> crate::model::first_password(s.stack)
                == secret_of(m),
            _ => false,
        },
{
}

} // verus!

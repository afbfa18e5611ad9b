//! The requests that the client sends to the remote store.

use crate::store::{Store, StoreView};
use vstd::prelude::*;

verus! {

/// A request on one entry of a vault. The first text is the master password,
/// the second the entry's key.
#[derive(Debug, PartialEq, Eq)]
pub enum Message {
    Get(String, String),
    Delete(String, String),
    Update(String, String, Store),
}

pub ghost enum MessageView {
    Get(Seq<char>, Seq<char>),
    Delete(Seq<char>, Seq<char>),
    Update(Seq<char>, Seq<char>, StoreView),
}

impl View for Message {
    type V = MessageView;

    open spec fn view(&self) -> MessageView {
        match self {
            Message::Get(p, k) => MessageView::Get(p@, k@),
            Message::Delete(p, k) => MessageView::Delete(p@, k@),
            Message::Update(p, k, s) => MessageView::Update(p@, k@, s@),
        }
    }
}

/// A request to the remote store.
#[derive(Debug, PartialEq, Eq)]
pub enum ManagerMessage {
    /// Asks for a fresh snapshot of the directory.
    Info,
    /// Creates the vault of this name.
    NewVault(String),
    /// Deletes the vault of this name; the second text is the master password.
    DeleteVault(String, String),
    /// Deletes the vault of this name, which holds no entry.
    DeleteEmptyVault(String),
    /// A request on one entry of the vault of this name.
    VaultMessage(String, Message),
}

pub ghost enum ManagerMessageView {
    Info,
    NewVault(Seq<char>),
    DeleteVault(Seq<char>, Seq<char>),
    DeleteEmptyVault(Seq<char>),
    VaultMessage(Seq<char>, MessageView),
}

impl View for ManagerMessage {
    type V = ManagerMessageView;

    open spec fn view(&self) -> ManagerMessageView {
        match self {
            ManagerMessage::Info => ManagerMessageView::Info,
            ManagerMessage::NewVault(v) => ManagerMessageView::NewVault(v@),
            ManagerMessage::DeleteVault(v, p) => ManagerMessageView::DeleteVault(v@, p@),
            ManagerMessage::DeleteEmptyVault(v) => ManagerMessageView::DeleteEmptyVault(v@),
            ManagerMessage::VaultMessage(v, m) => ManagerMessageView::VaultMessage(v@, m@),
        }
    }
}

} // verus!

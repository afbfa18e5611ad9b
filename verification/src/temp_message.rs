//! The pending operation: the one sensitive action that the user has begun,
//! with the data gathered for it so far.

use crate::fields::{all_filled, Fields};
use crate::message::{ManagerMessage, ManagerMessageView, Message, MessageView};
use crate::store::StoreChoice;
use vstd::prelude::*;
use vstd::string::StringExecFns;

verus! {

/// The pending operation. The first text of each variant is the vault's name,
/// the second, where there is one, the entry's key.
#[derive(Debug)]
pub enum TempMessage {
    Empty,
    Delete(String, String),
    Get(String, String),
    DeleteVault(String),
    DeleteEmptyVault(String),
    New(String, String, StoreChoice, Fields),
    Update(String, String, StoreChoice, Fields),
}

pub ghost enum TempMessageView {
    Empty,
    Delete(Seq<char>, Seq<char>),
    Get(Seq<char>, Seq<char>),
    DeleteVault(Seq<char>),
    DeleteEmptyVault(Seq<char>),
    New(Seq<char>, Seq<char>, StoreChoice, Map<Seq<char>, Seq<char>>),
    Update(Seq<char>, Seq<char>, StoreChoice, Map<Seq<char>, Seq<char>>),
}

impl View for TempMessage {
    type V = TempMessageView;

    open spec fn view(&self) -> TempMessageView {
        match self {
            TempMessage::Empty => TempMessageView::Empty,
            TempMessage::Delete(v, k) => TempMessageView::Delete(v@, k@),
            TempMessage::Get(v, k) => TempMessageView::Get(v@, k@),
            TempMessage::DeleteVault(v) => TempMessageView::DeleteVault(v@),
            TempMessage::DeleteEmptyVault(v) => TempMessageView::DeleteEmptyVault(v@),
            TempMessage::New(v, k, c, f) => TempMessageView::New(v@, k@, *c, f@),
            TempMessage::Update(v, k, c, f) => TempMessageView::Update(v@, k@, *c, f@),
        }
    }
}

impl Default for TempMessage {
    /// No operation.
    fn default() -> (r: TempMessage)
        ensures
            r@ == TempMessageView::Empty,
            r.wf(),
    {
        TempMessage::Empty
    }
}

impl TempMessageView {
    /// Whether a master password must be given before the operation is sent.
    pub open spec fn needs_password(self) -> bool {
        !(self is Empty) && !(self is DeleteEmptyVault)
    }

    /// Whether the operation has all the data it needs.
    pub open spec fn complete(self) -> bool {
        match self {
            TempMessageView::New(_, key, _, fields) => key.len() > 0 && all_filled(fields),
            TempMessageView::Update(_, key, _, fields) => key.len() > 0 && all_filled(fields),
            TempMessageView::Get(_, key) => key.len() > 0,
            TempMessageView::Delete(_, key) => key.len() > 0,
            _ => true,
        }
    }

    /// One line that tells the user what is pending.
    pub open spec fn summary(self) -> Seq<char> {
        match self {
            TempMessageView::Empty => "Working on nothing"@,
            TempMessageView::Delete(v, k) => "Working on deleting "@ + k + " in "@ + v,
            TempMessageView::Get(v, k) => "Working on getting "@ + k + " in "@ + v,
            TempMessageView::DeleteVault(v) => "Working on deleting vault "@ + v,
            TempMessageView::DeleteEmptyVault(v) => "Working on deleting vault "@ + v,
            TempMessageView::New(v, k, _, _) => "Working on a new entry "@ + k + " in "@ + v,
            TempMessageView::Update(v, k, _, _) => "Working on updating entry "@ + k + " in "@ + v,
        }
    }

    /// The request that the operation becomes once `secret` is attached, or
    /// `None` where its fields do not make a record of the chosen kind.
    pub open spec fn finalize(self, secret: Seq<char>) -> Option<ManagerMessageView> {
        match self {
            TempMessageView::Empty => Some(ManagerMessageView::Info),
            TempMessageView::Delete(v, k) => Some(
                ManagerMessageView::VaultMessage(v, MessageView::Delete(secret, k)),
            ),
            TempMessageView::Get(v, k) => Some(
                ManagerMessageView::VaultMessage(v, MessageView::Get(secret, k)),
            ),
            TempMessageView::DeleteVault(v) => Some(ManagerMessageView::DeleteVault(v, secret)),
            TempMessageView::DeleteEmptyVault(v) => Some(ManagerMessageView::DeleteEmptyVault(v)),
            TempMessageView::New(v, k, c, f) => match c.typed(f) {
                Some(s) => Some(ManagerMessageView::VaultMessage(v, MessageView::Update(secret, k, s))),
                None => None,
            },
            TempMessageView::Update(v, k, c, f) => match c.typed(f) {
                Some(s) => Some(ManagerMessageView::VaultMessage(v, MessageView::Update(secret, k, s))),
                None => None,
            },
        }
    }
}

impl TempMessage {
    /// The fields of the operation, where it has any, hold no key twice.
    pub open spec fn wf(&self) -> bool {
        match self {
            TempMessage::New(_, _, _, f) => f.wf(),
            TempMessage::Update(_, _, _, f) => f.wf(),
            _ => true,
        }
    }

    pub fn needs_password(&self) -> (r: bool)
        ensures
            r == self@.needs_password(),
            r == !(self is Empty || self is DeleteEmptyVault),
    {
        match self {
            TempMessage::Empty => false,
            TempMessage::DeleteEmptyVault(_) => false,
            _ => true,
        }
    }

    pub fn complete(&self) -> (r: bool)
        requires
            self.wf(),
        ensures
            r == self@.complete(),
    {
        match self {
            TempMessage::New(_, name, _, fields) => !name.as_str().is_empty() && fields.filled(),
            TempMessage::Update(_, name, _, fields) => !name.as_str().is_empty() && fields.filled(),
            TempMessage::Get(_, name) => !name.as_str().is_empty(),
            TempMessage::Delete(_, name) => !name.as_str().is_empty(),
            _ => true,
        }
    }

    /// The request for the remote store, with `password` attached.
    pub fn with_password(&self, password: String) -> (r: Option<ManagerMessage>)
        requires
            self.wf(),
        ensures
            match r {
                Some(m) => self@.finalize(password@) == Some(m@),
                None => self@.finalize(password@).is_none(),
            },
    {
        match self {
            TempMessage::Empty => Some(ManagerMessage::Info),
            TempMessage::Delete(vault, key) => Some(
                ManagerMessage::VaultMessage(vault.clone(), Message::Delete(password, key.clone())),
            ),
            TempMessage::Get(vault, key) => Some(
                ManagerMessage::VaultMessage(vault.clone(), Message::Get(password, key.clone())),
            ),
            TempMessage::DeleteVault(vault) => Some(
                ManagerMessage::DeleteVault(vault.clone(), password),
            ),
            TempMessage::DeleteEmptyVault(vault) => Some(
                ManagerMessage::DeleteEmptyVault(vault.clone()),
            ),
            TempMessage::New(vault, key, choice, value) => match choice.convert(value) {
                Some(store) => Some(
                    ManagerMessage::VaultMessage(
                        vault.clone(),
                        Message::Update(password, key.clone(), store),
                    ),
                ),
                None => None,
            },
            TempMessage::Update(vault, key, choice, value) => match choice.convert(value) {
                Some(store) => Some(
                    ManagerMessage::VaultMessage(
                        vault.clone(),
                        Message::Update(password, key.clone(), store),
                    ),
                ),
                None => None,
            },
        }
    }

    /// One line that tells the user what is pending.
    pub fn summary(&self) -> (r: String)
        ensures
            r@ == self@.summary(),
    {
        match self {
            TempMessage::Empty => "Working on nothing".to_owned(),
            TempMessage::Delete(v, k) => "Working on deleting ".to_owned().concat(
                k.as_str(),
            ).concat(" in ").concat(v.as_str()),
            TempMessage::Get(v, k) => "Working on getting ".to_owned().concat(k.as_str()).concat(
                " in ",
            ).concat(v.as_str()),
            TempMessage::DeleteVault(v) => "Working on deleting vault ".to_owned().concat(
                v.as_str(),
            ),
            TempMessage::DeleteEmptyVault(v) => "Working on deleting vault ".to_owned().concat(
                v.as_str(),
            ),
            TempMessage::New(v, k, _, _) => "Working on a new entry ".to_owned().concat(
                k.as_str(),
            ).concat(" in ").concat(v.as_str()),
            TempMessage::Update(v, k, _, _) => "Working on updating entry ".to_owned().concat(
                k.as_str(),
            ).concat(" in ").concat(v.as_str()),
        }
    }

    /// An independent copy.
    pub fn duplicate(&self) -> (r: TempMessage)
        ensures
            r@ == self@,
            r.wf() == self.wf(),
    {
        match self {
            TempMessage::Empty => TempMessage::Empty,
            TempMessage::Delete(v, k) => TempMessage::Delete(v.clone(), k.clone()),
            TempMessage::Get(v, k) => TempMessage::Get(v.clone(), k.clone()),
            TempMessage::DeleteVault(v) => TempMessage::DeleteVault(v.clone()),
            TempMessage::DeleteEmptyVault(v) => TempMessage::DeleteEmptyVault(v.clone()),
            TempMessage::New(v, k, c, f) => TempMessage::New(
                v.clone(),
                k.clone(),
                *c,
                f.duplicate(),
            ),
            TempMessage::Update(v, k, c, f) => TempMessage::Update(
                v.clone(),
                k.clone(),
                *c,
                f.duplicate(),
            ),
        }
    }
}

} // verus!

//! The steps of the workflow stack: the modal layers that collect what the
//! pending operation needs.

use crate::fields::Fields;
use crate::store::{password_name, StoreChoice, StoreView};
use vstd::prelude::*;

verus! {

/// The prompt for the master password.
#[derive(Debug, PartialEq, Eq)]
pub struct PasswordState {
    pub password: String,
    /// The password typed a second time, once anything was typed there.
    pub confirm: Option<String>,
    /// Whether the password must be typed twice: it is when it becomes the
    /// password of a vault that has no entry yet.
    pub needs_confirm: bool,
}

pub ghost struct PasswordStateView {
    pub password: Seq<char>,
    pub confirm: Option<Seq<char>>,
    pub needs_confirm: bool,
}

impl PasswordStateView {
    /// A prompt in which nothing was typed yet.
    pub open spec fn fresh(needs_confirm: bool) -> PasswordStateView {
        PasswordStateView { password: Seq::empty(), confirm: None, needs_confirm }
    }

    /// The password may be submitted: it is not empty and, where it must be
    /// typed twice, the second text equals it.
    pub open spec fn valid(self) -> bool {
        self.password.len() > 0 && (self.needs_confirm ==> self.confirm == Some(self.password))
    }
}

impl View for PasswordState {
    type V = PasswordStateView;

    open spec fn view(&self) -> PasswordStateView {
        PasswordStateView {
            password: self.password@,
            confirm: match self.confirm {
                Some(c) => Some(c@),
                None => None,
            },
            needs_confirm: self.needs_confirm,
        }
    }
}

impl Default for PasswordState {
    /// An empty prompt that asks for the password once.
    fn default() -> (r: PasswordState)
        ensures
            r@ == PasswordStateView::fresh(false),
    {
        PasswordState { password: String::new(), confirm: None, needs_confirm: false }
    }
}

impl PasswordState {
    pub fn new(needs_confirm: bool) -> (r: PasswordState)
        ensures
            r@ == PasswordStateView::fresh(needs_confirm),
    {
        PasswordState { password: String::new(), confirm: None, needs_confirm }
    }

    pub fn valid(&self) -> (r: bool)
        ensures
            r == self@.valid(),
    {
        if self.password.as_str().is_empty() {
            return false;
        }
        if !self.needs_confirm {
            return true;
        }
        match &self.confirm {
            Some(c) => *c == self.password,
            None => false,
        }
    }
}

/// The form that shows an entry of a vault and lets the user edit it.
#[derive(Debug)]
pub struct EntryState {
    pub vault: String,
    pub key: String,
    pub choice: StoreChoice,
    pub value: Fields,
    /// Whether the password is masked on screen.
    pub hidden: bool,
}

pub ghost struct EntryStateView {
    pub vault: Seq<char>,
    pub key: Seq<char>,
    pub choice: StoreChoice,
    pub value: Map<Seq<char>, Seq<char>>,
    pub hidden: bool,
}

impl EntryStateView {
    /// The form as it opens, before the store has answered the read.
    pub open spec fn from_entry(vault: Seq<char>, key: Seq<char>) -> EntryStateView {
        EntryStateView {
            vault,
            key,
            choice: StoreChoice::Password,
            value: StoreChoice::Password.blank(),
            hidden: true,
        }
    }

    /// The form showing the record `store`.
    pub open spec fn showing(self, store: StoreView) -> EntryStateView {
        EntryStateView { choice: store.choice(), value: store.as_map(), ..self }
    }

    /// The password that the form shows, if it has such a field.
    pub open spec fn password(self) -> Option<Seq<char>> {
        if self.value.contains_key(password_name()) {
            Some(self.value[password_name()])
        } else {
            None
        }
    }
}

impl View for EntryState {
    type V = EntryStateView;

    open spec fn view(&self) -> EntryStateView {
        EntryStateView {
            vault: self.vault@,
            key: self.key@,
            choice: self.choice,
            value: self.value@,
            hidden: self.hidden,
        }
    }
}

impl EntryState {
    pub fn from_entry(vault: String, key: String) -> (r: EntryState)
        ensures
            r@ == EntryStateView::from_entry(vault@, key@),
            r.value.wf(),
    {
        EntryState {
            vault,
            key,
            choice: StoreChoice::Password,
            value: StoreChoice::Password.default_fields(),
            hidden: true,
        }
    }

    /// The password that the form shows, if it has such a field.
    pub fn get_password(&self) -> (r: Option<String>)
        requires
            self.value.wf(),
        ensures
            match r {
                Some(p) => self@.password() == Some(p@),
                None => self@.password().is_none(),
            },
    {
        let name = "password".to_owned();
        match self.value.get(&name) {
            Some(p) => Some(p.clone()),
            None => None,
        }
    }
}

/// The form for a new entry of a vault.
#[derive(Debug)]
pub struct NewEntryState {
    pub vault: String,
    pub name: String,
    pub choice: StoreChoice,
    pub value: Fields,
}

pub ghost struct NewEntryStateView {
    pub vault: Seq<char>,
    pub name: Seq<char>,
    pub choice: StoreChoice,
    pub value: Map<Seq<char>, Seq<char>>,
}

impl NewEntryStateView {
    /// The empty form for a new entry of `vault`.
    pub open spec fn for_vault(vault: Seq<char>) -> NewEntryStateView {
        NewEntryStateView {
            vault,
            name: Seq::empty(),
            choice: StoreChoice::Password,
            value: StoreChoice::Password.blank(),
        }
    }
}

impl View for NewEntryState {
    type V = NewEntryStateView;

    open spec fn view(&self) -> NewEntryStateView {
        NewEntryStateView {
            vault: self.vault@,
            name: self.name@,
            choice: self.choice,
            value: self.value@,
        }
    }
}

impl NewEntryState {
    pub fn for_vault(vault: String) -> (r: NewEntryState)
        ensures
            r@ == NewEntryStateView::for_vault(vault@),
            r.value.wf(),
    {
        NewEntryState {
            vault,
            name: String::new(),
            choice: StoreChoice::Password,
            value: StoreChoice::Password.default_fields(),
        }
    }
}

/// The prompt for the name of a new vault.
#[derive(Debug, PartialEq, Eq)]
pub struct PromptState {
    pub vault: String,
}

pub ghost struct PromptStateView {
    pub vault: Seq<char>,
}

impl View for PromptState {
    type V = PromptStateView;

    open spec fn view(&self) -> PromptStateView {
        PromptStateView { vault: self.vault@ }
    }
}

impl Default for PromptState {
    /// A prompt in which no name was typed yet.
    fn default() -> (r: PromptState)
        ensures
            r@ == (PromptStateView { vault: Seq::empty() }),
    {
        PromptState { vault: String::new() }
    }
}

/// One step of the workflow stack.
#[derive(Debug)]
pub enum InternalState {
    Password(PasswordState),
    Entry(EntryState),
    New(NewEntryState),
    Prompt(PromptState),
}

pub ghost enum InternalStateView {
    Password(PasswordStateView),
    Entry(EntryStateView),
    New(NewEntryStateView),
    Prompt(PromptStateView),
}

impl View for InternalState {
    type V = InternalStateView;

    open spec fn view(&self) -> InternalStateView {
        match self {
            InternalState::Password(p) => InternalStateView::Password(p@),
            InternalState::Entry(e) => InternalStateView::Entry(e@),
            InternalState::New(n) => InternalStateView::New(n@),
            InternalState::Prompt(p) => InternalStateView::Prompt(p@),
        }
    }
}

impl InternalState {
    /// The fields of the step, where it has any, hold no key twice.
    pub open spec fn wf(&self) -> bool {
        match self {
            InternalState::Entry(e) => e.value.wf(),
            InternalState::New(n) => n.value.wf(),
            _ => true,
        }
    }
}

} // verus!

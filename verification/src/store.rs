//! The kinds of entry a vault can hold, and the typed record of each kind.

use crate::fields::Fields;
use vstd::prelude::*;

verus! {

/// The name of the field that holds an entry's password.
pub open spec fn password_name() -> Seq<char> {
    "password"@
}

/// The name of the field that holds an entry's user name.
pub open spec fn username_name() -> Seq<char> {
    "username"@
}

/// Which fields an entry has.
#[derive(Clone, Copy, Debug, PartialEq, Eq, Structural)]
pub enum StoreChoice {
    Password,
    UsernamePassword,
}

/// The typed record of an entry.
#[derive(Debug, PartialEq, Eq)]
pub enum Store {
    Password(String),
    UsernamePassword(String, String),
}

/// A typed record, each text by its characters.
pub ghost enum StoreView {
    Password(Seq<char>),
    UsernamePassword(Seq<char>, Seq<char>),
}

impl View for Store {
    type V = StoreView;

    open spec fn view(&self) -> StoreView {
        match self {
            Store::Password(p) => StoreView::Password(p@),
            Store::UsernamePassword(u, p) => StoreView::UsernamePassword(u@, p@),
        }
    }
}

impl Default for StoreChoice {
    /// An entry holds a password alone unless another kind is chosen.
    fn default() -> (r: StoreChoice)
        ensures
            r == StoreChoice::Password,
    {
        StoreChoice::Password
    }
}

impl StoreView {
    /// The kind of the record.
    pub open spec fn choice(self) -> StoreChoice {
        match self {
            StoreView::Password(_) => StoreChoice::Password,
            StoreView::UsernamePassword(_, _) => StoreChoice::UsernamePassword,
        }
    }

    /// The record as a map from field names to values.
    pub open spec fn as_map(self) -> Map<Seq<char>, Seq<char>> {
        match self {
            StoreView::Password(p) => Map::empty().insert(password_name(), p),
            StoreView::UsernamePassword(u, p) => Map::empty().insert(username_name(), u).insert(
                password_name(),
                p,
            ),
        }
    }
}

impl StoreChoice {
    /// The fields of this kind, each with an empty value.
    pub open spec fn blank(self) -> Map<Seq<char>, Seq<char>> {
        match self {
            StoreChoice::Password => Map::empty().insert(password_name(), Seq::empty()),
            StoreChoice::UsernamePassword => Map::empty().insert(
                username_name(),
                Seq::empty(),
            ).insert(password_name(), Seq::empty()),
        }
    }

    /// The typed record that a map of raw fields gives for this kind: every
    /// field of the kind must be present; other fields are ignored.
    pub open spec fn typed(self, m: Map<Seq<char>, Seq<char>>) -> Option<StoreView> {
        match self {
            StoreChoice::Password => if m.contains_key(password_name()) {
                Some(StoreView::Password(m[password_name()]))
            } else {
                None
            },
            StoreChoice::UsernamePassword => if m.contains_key(username_name()) && m.contains_key(
                password_name(),
            ) {
                Some(StoreView::UsernamePassword(m[username_name()], m[password_name()]))
            } else {
                None
            },
        }
    }

    /// The fields of this kind, ready to be filled in.
    pub fn default_fields(self) -> (r: Fields)
        ensures
            r.wf(),
            r@ == self.blank(),
    {
        let mut fields = Fields::new();
        match self {
            StoreChoice::Password => {
                fields.insert("password".to_owned(), String::new());
            },
            StoreChoice::UsernamePassword => {
                fields.insert("username".to_owned(), String::new());
                fields.insert("password".to_owned(), String::new());
            },
        }
        fields
    }

    /// Turns raw fields into the typed record of this kind.
    pub fn convert(self, fields: &Fields) -> (r: Option<Store>)
        requires
            fields.wf(),
        ensures
            match r {
                Some(s) => self.typed(fields@) == Some(s@),
                None => self.typed(fields@).is_none(),
            },
    {
        let password_key = "password".to_owned();
        match self {
            StoreChoice::Password => {
                match fields.get(&password_key) {
                    Some(p) => Some(Store::Password(p.clone())),
                    None => None,
                }
            },
            StoreChoice::UsernamePassword => {
                let username_key = "username".to_owned();
                match fields.get(&username_key) {
                    Some(u) => match fields.get(&password_key) {
                        Some(p) => Some(Store::UsernamePassword(u.clone(), p.clone())),
                        None => None,
                    },
                    None => None,
                }
            },
        }
    }
}

impl Store {
    /// The kind of the record and its fields as raw text.
    pub fn split(self) -> (r: (StoreChoice, Fields))
        ensures
            r.0 == self@.choice(),
            r.1.wf(),
            r.1@ == self@.as_map(),
    {
        let mut fields = Fields::new();
        match self {
            Store::Password(p) => {
                fields.insert("password".to_owned(), p);
                (StoreChoice::Password, fields)
            },
            Store::UsernamePassword(u, p) => {
                fields.insert("username".to_owned(), u);
                fields.insert("password".to_owned(), p);
                (StoreChoice::UsernamePassword, fields)
            },
        }
    }

    /// An independent copy.
    pub fn duplicate(&self) -> (r: Store)
        ensures
            r@ == self@,
    {
        match self {
            Store::Password(p) => Store::Password(p.clone()),
            Store::UsernamePassword(u, p) => Store::UsernamePassword(u.clone(), p.clone()),
        }
    }
}

/// A record that was split into raw fields converts back to itself.
pub proof fn lemma_split_then_convert(s: StoreView)
    ensures
        s.choice().typed(s.as_map()) == Some(s),
{
    reveal_strlit("password");
    reveal_strlit("username");
    assert(password_name() != username_name()) by {
        assert(password_name()[0] == 'p');
        assert(username_name()[0] == 'u');
    }
}

} // verus!

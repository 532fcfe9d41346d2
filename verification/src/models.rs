//! Record shapes for the two relations, `account` and `twoot`, together
//! with the request-payload shapes, and the mathematical image of each.

use vstd::prelude::*;

verus! {

/// Mathematical image of a stored account row.
pub struct AccountView {
    pub id: i32,
    pub username: Seq<char>,
    pub first_name: Seq<char>,
    pub last_name: Seq<char>,
    pub email: Seq<char>,
    pub is_admin: bool,
}

/// A stored account row: `id` is assigned by the store.
#[derive(Debug)]
pub struct Account {
    pub id: i32,
    pub username: String,
    pub first_name: String,
    pub last_name: String,
    pub email: String,
    pub is_admin: bool,
}

impl View for Account {
    type V = AccountView;

    open spec fn view(&self) -> AccountView {
        AccountView {
            id: self.id,
            username: self.username@,
            first_name: self.first_name@,
            last_name: self.last_name@,
            email: self.email@,
            is_admin: self.is_admin,
        }
    }
}

impl Account {
    /// A field-for-field copy of the row.
    pub fn duplicate(&self) -> (r: Account)
        ensures
            r == *self,
    {
        Account {
            id: self.id,
            username: self.username.clone(),
            first_name: self.first_name.clone(),
            last_name: self.last_name.clone(),
            email: self.email.clone(),
            is_admin: self.is_admin,
        }
    }
}

/// Mathematical image of a stored twoot row.
pub struct TwootView {
    pub id: i32,
    pub user_id: i32,
    pub content: Seq<char>,
    pub uuid: Seq<char>,
}

/// A stored twoot row: `id` and `uuid` are assigned by the store.
#[derive(Debug)]
pub struct Twoot {
    pub id: i32,
    pub user_id: i32,
    pub content: String,
    pub uuid: String,
}

impl View for Twoot {
    type V = TwootView;

    open spec fn view(&self) -> TwootView {
        TwootView {
            id: self.id,
            user_id: self.user_id,
            content: self.content@,
            uuid: self.uuid@,
        }
    }
}

impl Twoot {
    /// A field-for-field copy of the row.
    pub fn duplicate(&self) -> (r: Twoot)
        ensures
            r == *self,
    {
        Twoot {
            id: self.id,
            user_id: self.user_id,
            content: self.content.clone(),
            uuid: self.uuid.clone(),
        }
    }
}

/// Mathematical image of an account-registration payload.
pub struct NewAccountView {
    pub username: Seq<char>,
    pub first_name: Seq<char>,
    pub last_name: Seq<char>,
    pub email: Seq<char>,
    pub is_admin: bool,
}

/// Payload submitted to register an account; the store assigns the id.
#[derive(Debug)]
pub struct NewAccount {
    pub username: String,
    pub first_name: String,
    pub last_name: String,
    pub email: String,
    pub is_admin: bool,
}

impl View for NewAccount {
    type V = NewAccountView;

    open spec fn view(&self) -> NewAccountView {
        NewAccountView {
            username: self.username@,
            first_name: self.first_name@,
            last_name: self.last_name@,
            email: self.email@,
            is_admin: self.is_admin,
        }
    }
}

/// Mathematical image of an account-update payload or echo.
pub struct AccountPostDataView {
    pub username: Seq<char>,
    pub email: Seq<char>,
    pub first_name: Seq<char>,
    pub last_name: Seq<char>,
}

/// Payload submitted to update an account; also the echo that account
/// writes return on success.
#[derive(Debug)]
pub struct AccountPostData {
    pub username: String,
    pub email: String,
    pub first_name: String,
    pub last_name: String,
}

impl View for AccountPostData {
    type V = AccountPostDataView;

    open spec fn view(&self) -> AccountPostDataView {
        AccountPostDataView {
            username: self.username@,
            email: self.email@,
            first_name: self.first_name@,
            last_name: self.last_name@,
        }
    }
}

/// Mathematical image of a twoot-creation payload or echo.
pub struct TwootPostDataView {
    pub username: Seq<char>,
    pub content: Seq<char>,
}

/// Payload submitted to create a twoot; also the echo that the creation
/// returns on success.
#[derive(Debug)]
pub struct TwootPostData {
    pub username: String,
    pub content: String,
}

impl View for TwootPostData {
    type V = TwootPostDataView;

    open spec fn view(&self) -> TwootPostDataView {
        TwootPostDataView {
            username: self.username@,
            content: self.content@,
        }
    }
}

} // verus!

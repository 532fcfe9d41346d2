//! The relational store and its data-access operations: create, fetch and
//! update for accounts; create and fetch for twoots. The store owns both
//! relations and assigns row ids (and twoot uuids) itself.

use vstd::prelude::*;
use vstd::string::StringExecFns;
use std::collections::HashMap;

use crate::errors::{decimal_string, decimal_view, ErrorView, TwotterError};
use crate::models::{
    Account, AccountPostData, AccountPostDataView, AccountView, NewAccount, Twoot, TwootPostData,
    TwootView,
};
use crate::MAX_LISTED_ACCOUNTS;
use crate::MAX_TWOOT_CHARS;

verus! {

/// The views of the rows of a relation, in store order.
pub open spec fn views_of<T: View>(s: Seq<T>) -> Seq<T::V> {
    s.map_values(|x: T| x@)
}

/// The accounts whose username equals `username`, in store order.
pub open spec fn accounts_with_username(accounts: Seq<AccountView>, username: Seq<char>) -> Seq<
    AccountView,
>
    decreases accounts.len(),
{
    if accounts.len() == 0 {
        Seq::empty()
    } else {
        let rest = accounts_with_username(accounts.drop_last(), username);
        if accounts.last().username == username {
            rest.push(accounts.last())
        } else {
            rest
        }
    }
}

/// The twoots whose uuid equals `uuid`, in store order.
pub open spec fn twoots_with_uuid(twoots: Seq<TwootView>, uuid: Seq<char>) -> Seq<TwootView>
    decreases twoots.len(),
{
    if twoots.len() == 0 {
        Seq::empty()
    } else {
        let rest = twoots_with_uuid(twoots.drop_last(), uuid);
        if twoots.last().uuid == uuid {
            rest.push(twoots.last())
        } else {
            rest
        }
    }
}

/// Whether some stored account carries both this id and this username.
pub open spec fn user_matches(
    accounts: Seq<AccountView>,
    user_id: i32,
    username: Seq<char>,
) -> bool {
    exists|k: int|
        0 <= k < accounts.len() && accounts[k].id == user_id && accounts[k].username == username
}

/// The inner join of twoots with accounts on `user_id`, filtered to the
/// accounts carrying `username`, projected to the twoots, in store order.
pub open spec fn joined_twoots(
    accounts: Seq<AccountView>,
    twoots: Seq<TwootView>,
    username: Seq<char>,
) -> Seq<TwootView>
    decreases twoots.len(),
{
    if twoots.len() == 0 {
        Seq::empty()
    } else {
        let rest = joined_twoots(accounts, twoots.drop_last(), username);
        if user_matches(accounts, twoots.last().user_id, username) {
            rest.push(twoots.last())
        } else {
            rest
        }
    }
}

/// The account with the update payload's email and names written in; the
/// id, username and admin flag stay as they were.
pub open spec fn account_fields_updated(a: AccountView, d: AccountPostDataView) -> AccountView {
    AccountView {
        id: a.id,
        username: a.username,
        first_name: d.first_name,
        last_name: d.last_name,
        email: d.email,
        is_admin: a.is_admin,
    }
}

/// The account relation after an update by username: every row whose
/// username equals the payload's gets the payload's email and names;
/// every other row is unchanged.
pub open spec fn updated_accounts(accounts: Seq<AccountView>, d: AccountPostDataView) -> Seq<
    AccountView,
> {
    accounts.map_values(
        |a: AccountView|
            if a.username == d.username {
                account_fields_updated(a, d)
            } else {
                a
            },
    )
}

/// The uuid the store assigns to the twoot with id `n`.
pub open spec fn uuid_view(n: int) -> Seq<char> {
    "uuid-"@ + decimal_view(n as nat)
}

/// Whether some stored account carries this id.
pub open spec fn has_account_with_id(accounts: Seq<AccountView>, user_id: i32) -> bool {
    exists|k: int| 0 <= k < accounts.len() && #[trigger] accounts[k].id == user_id
}

/// Mathematical image of the store: both relations and the next fresh ids.
pub struct StoreView {
    pub accounts: Seq<AccountView>,
    pub twoots: Seq<TwootView>,
    pub next_account_id: i32,
    pub next_twoot_id: i32,
}

/// The relational store: the `account` and `twoot` relations, and the
/// counters from which row ids are assigned.
pub struct Store {
    pub accounts: Vec<Account>,
    pub twoots: Vec<Twoot>,
    pub next_account_id: i32,
    pub next_twoot_id: i32,
}

impl View for Store {
    type V = StoreView;

    open spec fn view(&self) -> StoreView {
        StoreView {
            accounts: views_of(self.accounts@),
            twoots: views_of(self.twoots@),
            next_account_id: self.next_account_id,
            next_twoot_id: self.next_twoot_id,
        }
    }
}

impl Store {
    /// Well-formedness: ids are server-assigned below the fresh counters
    /// and unique, and every twoot's `user_id` references a stored account.
    pub open spec fn wf(&self) -> bool {
        let v = self@;
        &&& 1 <= v.next_account_id
        &&& 1 <= v.next_twoot_id
        &&& forall|i: int|
            0 <= i < v.accounts.len() ==> 1 <= #[trigger] v.accounts[i].id < v.next_account_id
        &&& forall|i: int, j: int|
            #![trigger v.accounts[i].id, v.accounts[j].id]
            0 <= i < j < v.accounts.len() ==> v.accounts[i].id != v.accounts[j].id
        &&& forall|i: int|
            0 <= i < v.twoots.len() ==> 1 <= #[trigger] v.twoots[i].id < v.next_twoot_id
        &&& forall|i: int, j: int|
            #![trigger v.twoots[i].id, v.twoots[j].id]
            0 <= i < j < v.twoots.len() ==> v.twoots[i].id != v.twoots[j].id
        &&& forall|i: int|
            0 <= i < v.twoots.len() ==> has_account_with_id(
                v.accounts,
                #[trigger] v.twoots[i].user_id,
            )
        &&& forall|i: int|
            0 <= i < v.twoots.len() ==> (#[trigger] v.twoots[i].uuid) == uuid_view(
                v.twoots[i].id as int,
            )
    }

    /// An empty store: no rows, ids to be assigned from 1 up.
    pub fn new() -> (s: Store)
        ensures
            s.wf(),
            s@.accounts.len() == 0,
            s@.twoots.len() == 0,
            s@.next_account_id == 1,
            s@.next_twoot_id == 1,
    {
        Store { accounts: Vec::new(), twoots: Vec::new(), next_account_id: 1, next_twoot_id: 1 }
    }
}

impl Store {
    /// Fetches the accounts whose username equals the given value and
    /// settles the lookup: exactly one match is returned; zero matches
    /// fail with `RecordNotFound`; several fail with `MultipleResults`.
    pub fn get_account_by_username(&self, username: &String) -> (r: Result<Account, TwotterError>)
        ensures
            ({
                let matching = accounts_with_username(self@.accounts, username@);
                &&& matching.len() == 1 ==> (r matches Ok(a) && a@ == matching[0])
                &&& matching.len() == 0 ==> (r matches Err(e) && e@ == (ErrorView::RecordNotFound {
                    table: "user"@,
                }))
                &&& matching.len() > 1 ==> (r matches Err(e) && e@ == (ErrorView::MultipleResults {
                    table: "user"@,
                }))
            }),
    {
        let ghost all = self@.accounts;
        let mut rows: Vec<Account> = Vec::new();
        let n = self.accounts.len();
        let mut i: usize = 0;
        while i < n
            invariant
                n == self.accounts.len(),
                all == views_of(self.accounts@),
                i <= n,
                views_of(rows@) == accounts_with_username(all.take(i as int), username@),
            decreases n - i,
        {
            proof {
                assert(all.take(i + 1).drop_last() =~= all.take(i as int));
                assert(all.take(i + 1).last() == self.accounts@[i as int]@);
            }
            if self.accounts[i].username == *username {
                rows.push(self.accounts[i].duplicate());
            }
            proof {
                assert(views_of(rows@) =~= accounts_with_username(all.take(i + 1), username@));
            }
            i = i + 1;
        }
        proof {
            assert(all.take(n as int) =~= all);
        }
        db_get_user_by_username(rows)
    }

    /// Fetches the stored accounts in store order, never more than
    /// `MAX_LISTED_ACCOUNTS` of them.
    pub fn list_accounts(&self) -> (r: Result<Vec<Account>, TwotterError>)
        ensures
            r matches Ok(v) && {
                &&& v@.len() <= MAX_LISTED_ACCOUNTS
                &&& v@.len() == if self@.accounts.len() < MAX_LISTED_ACCOUNTS {
                    self@.accounts.len() as int
                } else {
                    MAX_LISTED_ACCOUNTS as int
                }
                &&& views_of(v@) == self@.accounts.take(v@.len() as int)
            },
    {
        let mut out: Vec<Account> = Vec::new();
        let mut i: usize = 0;
        while i < self.accounts.len() && i < MAX_LISTED_ACCOUNTS
            invariant
                i <= self.accounts.len(),
                i <= MAX_LISTED_ACCOUNTS,
                i == out@.len(),
                views_of(out@) == views_of(self.accounts@).take(i as int),
            decreases self.accounts.len() - i,
        {
            out.push(self.accounts[i].duplicate());
            proof {
                assert(views_of(out@) =~= views_of(self.accounts@).take(i + 1));
            }
            i = i + 1;
        }
        Ok(out)
    }

    /// Fetches every twoot whose uuid equals the given value, in store
    /// order; an empty result is a success, not an error.
    pub fn get_twoot_by_uuid(&self, twoot_uuid: String) -> (r: Result<Vec<Twoot>, TwotterError>)
        ensures
            r matches Ok(v) && views_of(v@) == twoots_with_uuid(self@.twoots, twoot_uuid@),
    {
        let ghost all = self@.twoots;
        let mut rows: Vec<Twoot> = Vec::new();
        let n = self.twoots.len();
        let mut i: usize = 0;
        while i < n
            invariant
                n == self.twoots.len(),
                all == views_of(self.twoots@),
                i <= n,
                views_of(rows@) == twoots_with_uuid(all.take(i as int), twoot_uuid@),
            decreases n - i,
        {
            proof {
                assert(all.take(i + 1).drop_last() =~= all.take(i as int));
                assert(all.take(i + 1).last() == self.twoots@[i as int]@);
            }
            if self.twoots[i].uuid == twoot_uuid {
                rows.push(self.twoots[i].duplicate());
            }
            proof {
                assert(views_of(rows@) =~= twoots_with_uuid(all.take(i + 1), twoot_uuid@));
            }
            i = i + 1;
        }
        proof {
            assert(all.take(n as int) =~= all);
        }
        Ok(rows)
    }
}

/// Settles a by-username lookup from the loaded rows: exactly one row is
/// the account; zero rows is `RecordNotFound`; several rows signal a
/// data-integrity problem, `MultipleResults`.
pub fn db_get_user_by_username(rows: Vec<Account>) -> (r: Result<Account, TwotterError>)
    ensures
        rows@.len() == 1 ==> (r matches Ok(a) && a == rows@[0]),
        rows@.len() == 0 ==> (r matches Err(e) && e@ == (ErrorView::RecordNotFound {
            table: "user"@,
        })),
        rows@.len() > 1 ==> (r matches Err(e) && e@ == (ErrorView::MultipleResults {
            table: "user"@,
        })),
{
    if rows.len() == 1 {
        let mut rows = rows;
        let a = rows.pop().unwrap();
        Ok(a)
    } else if rows.len() == 0 {
        Err(TwotterError::RecordNotFound { table: String::from_str("user") })
    } else {
        Err(TwotterError::MultipleResults { table: String::from_str("user") })
    }
}

/// Whether the map carries exactly the joined twoots: every joined twoot's
/// id maps to its content, and every key in the map is a joined twoot's id.
pub open spec fn map_matches_joined(m: Map<i32, String>, joined: Seq<TwootView>) -> bool {
    &&& forall|j: int|
        0 <= j < joined.len() ==> m.contains_key(#[trigger] joined[j].id) && m[joined[j].id]@
            == joined[j].content
    &&& forall|k: i32| #[trigger] m.contains_key(k) ==> exists|j: int|
        0 <= j < joined.len() && #[trigger] joined[j].id == k
}

/// Every twoot that the by-username join returns is a stored twoot.
pub proof fn lemma_joined_twoots_are_stored(
    accounts: Seq<AccountView>,
    twoots: Seq<TwootView>,
    username: Seq<char>,
)
    ensures
        forall|m: int|
            0 <= m < joined_twoots(accounts, twoots, username).len() ==> exists|k: int|
                0 <= k < twoots.len() && twoots[k] == #[trigger] joined_twoots(
                    accounts,
                    twoots,
                    username,
                )[m],
    decreases twoots.len(),
{
    if twoots.len() > 0 {
        lemma_joined_twoots_are_stored(accounts, twoots.drop_last(), username);
        let joined = joined_twoots(accounts, twoots, username);
        let rest = joined_twoots(accounts, twoots.drop_last(), username);
        assert forall|m: int| 0 <= m < joined.len() implies exists|k: int|
            0 <= k < twoots.len() && twoots[k] == #[trigger] joined[m] by {
            if m < rest.len() {
                let k = choose|k: int|
                    0 <= k < twoots.drop_last().len() && twoots.drop_last()[k] == rest[m];
                assert(twoots[k] == joined[m]);
            } else {
                assert(twoots[twoots.len() - 1] == joined[m]);
            }
        }
    }
}

impl Store {
    /// Whether some stored account carries both this id and this username.
    fn user_id_matches_username(&self, user_id: i32, username: &String) -> (r: bool)
        ensures
            r == user_matches(self@.accounts, user_id, username@),
    {
        let n = self.accounts.len();
        let mut i: usize = 0;
        while i < n
            invariant
                n == self.accounts.len(),
                i <= n,
                forall|k: int|
                    0 <= k < i ==> !((#[trigger] self@.accounts[k].id) == user_id
                        && self@.accounts[k].username == username@),
            decreases n - i,
        {
            if self.accounts[i].id == user_id && self.accounts[i].username == *username {
                proof {
                    assert(self@.accounts[i as int].id == user_id && self@.accounts[
                        i as int
                    ].username == username@);
                }
                return true;
            }
            i = i + 1;
        }
        false
    }

    /// Joins twoots with accounts on `user_id`, keeps the rows whose
    /// account carries `username`, and returns the username paired with a
    /// map from twoot id to content. An empty result is a success.
    pub fn list_twoots_by_username(&self, username: &String) -> (r: Result<
        (String, HashMap<i32, String>),
        TwotterError,
    >)
        requires
            self.wf(),
        ensures
            r matches Ok(p) && p.0@ == username@ && map_matches_joined(
                p.1@,
                joined_twoots(self@.accounts, self@.twoots, username@),
            ),
    {
        broadcast use vstd::std_specs::hash::group_hash_axioms;

        let ghost accv = self@.accounts;
        let ghost twv = self@.twoots;
        let mut twoots: HashMap<i32, String> = HashMap::new();
        let n = self.twoots.len();
        let mut i: usize = 0;
        while i < n
            invariant
                n == self.twoots.len(),
                accv == self@.accounts,
                twv == self@.twoots,
                self.wf(),
                i <= n,
                map_matches_joined(twoots@, joined_twoots(accv, twv.take(i as int), username@)),
            decreases n - i,
        {
            proof {
                assert(twv.take(i + 1).drop_last() =~= twv.take(i as int));
                assert(twv.take(i + 1).last() == twv[i as int]);
            }
            let ghost joined = joined_twoots(accv, twv.take(i as int), username@);
            let ghost joined_next = joined_twoots(accv, twv.take(i + 1), username@);
            let t = &self.twoots[i];
            if self.user_id_matches_username(t.user_id, username) {
                proof {
                    assert(joined_next =~= joined.push(twv[i as int]));
                }
                let ghost before = twoots@;
                twoots.insert(t.id, t.content.clone());
                proof {
                    lemma_joined_twoots_are_stored(accv, twv.take(i as int), username@);
                    assert forall|j: int| 0 <= j < joined_next.len() implies twoots@.contains_key(
                        #[trigger] joined_next[j].id,
                    ) && twoots@[joined_next[j].id]@ == joined_next[j].content by {
                        if j < joined.len() {
                            let k = choose|k: int|
                                0 <= k < twv.take(i as int).len() && twv.take(i as int)[k]
                                    == joined[j];
                            assert(twv[k] == joined[j]);
                            assert(twv[k].id != twv[i as int].id);
                            assert(joined_next[j] == joined[j]);
                            assert(before.contains_key(joined[j].id));
                        } else {
                            assert(joined_next[j] == twv[i as int]);
                        }
                    }
                    assert forall|k: i32| #[trigger] twoots@.contains_key(k) implies exists|j: int|
                        0 <= j < joined_next.len() && #[trigger] joined_next[j].id == k by {
                        if k == twv[i as int].id {
                            assert(joined_next[joined_next.len() - 1].id == k);
                        } else {
                            assert(before.contains_key(k));
                            let j = choose|j: int|
                                0 <= j < joined.len() && #[trigger] joined[j].id == k;
                            assert(joined_next[j].id == k);
                        }
                    }
                }
            } else {
                proof {
                    assert(joined_next =~= joined);
                }
            }
            i = i + 1;
        }
        proof {
            assert(twv.take(n as int) =~= twv);
        }
        Ok((username.clone(), twoots))
    }
}

/// Every account that a by-username lookup returns is a stored account,
/// and carries the username looked up.
pub proof fn lemma_matching_accounts_are_stored(accounts: Seq<AccountView>, username: Seq<char>)
    ensures
        forall|m: int|
            0 <= m < accounts_with_username(accounts, username).len() ==> exists|k: int|
                0 <= k < accounts.len() && accounts[k] == #[trigger] accounts_with_username(
                    accounts,
                    username,
                )[m],
        forall|m: int|
            0 <= m < accounts_with_username(accounts, username).len()
                ==> #[trigger] accounts_with_username(accounts, username)[m].username == username,
    decreases accounts.len(),
{
    if accounts.len() > 0 {
        lemma_matching_accounts_are_stored(accounts.drop_last(), username);
        let matching = accounts_with_username(accounts, username);
        let rest = accounts_with_username(accounts.drop_last(), username);
        assert forall|m: int| 0 <= m < matching.len() implies exists|k: int|
            0 <= k < accounts.len() && accounts[k] == #[trigger] matching[m] by {
            if m < rest.len() {
                let k = choose|k: int|
                    0 <= k < accounts.drop_last().len() && accounts.drop_last()[k] == rest[m];
                assert(accounts[k] == matching[m]);
            } else {
                assert(accounts[accounts.len() - 1] == matching[m]);
            }
        }
    }
}

impl Store {
    /// Inserts a new account row with the submitted fields and a fresh
    /// server-assigned id, and echoes the submitted fields (without the
    /// id). Fails with `DBInsertError` only when no fresh id is left.
    pub fn create_account(&mut self, new_account: NewAccount) -> (r: Result<
        AccountPostData,
        TwotterError,
    >)
        requires
            old(self).wf(),
        ensures
            final(self).wf(),
            old(self)@.next_account_id < i32::MAX ==> ({
                &&& r matches Ok(echo) && echo@ == (AccountPostDataView {
                    username: new_account@.username,
                    email: new_account@.email,
                    first_name: new_account@.first_name,
                    last_name: new_account@.last_name,
                })
                &&& final(self)@.accounts == old(self)@.accounts.push(
                    (AccountView {
                        id: old(self)@.next_account_id,
                        username: new_account@.username,
                        first_name: new_account@.first_name,
                        last_name: new_account@.last_name,
                        email: new_account@.email,
                        is_admin: new_account@.is_admin,
                    }),
                )
                &&& final(self)@.twoots == old(self)@.twoots
                &&& final(self)@.next_account_id == old(self)@.next_account_id + 1
                &&& final(self)@.next_twoot_id == old(self)@.next_twoot_id
            }),
            old(self)@.next_account_id == i32::MAX ==> ({
                &&& r matches Err(e) && e@ == (ErrorView::DBInsertError { table: "tweet"@ })
                &&& *final(self) == *old(self)
            }),
    {
        if self.next_account_id == i32::MAX {
            return Err(TwotterError::DBInsertError { table: String::from_str("tweet") });
        }
        let echo = AccountPostData {
            username: new_account.username.clone(),
            email: new_account.email.clone(),
            first_name: new_account.first_name.clone(),
            last_name: new_account.last_name.clone(),
        };
        let row = Account {
            id: self.next_account_id,
            username: new_account.username,
            first_name: new_account.first_name,
            last_name: new_account.last_name,
            email: new_account.email,
            is_admin: new_account.is_admin,
        };
        self.accounts.push(row);
        self.next_account_id = self.next_account_id + 1;
        proof {
            let oldv = old(self)@;
            let newv = self@;
            assert(newv.twoots =~= oldv.twoots);
            assert(newv.accounts =~= oldv.accounts.push(
                AccountView {
                    id: oldv.next_account_id,
                    username: new_account@.username,
                    first_name: new_account@.first_name,
                    last_name: new_account@.last_name,
                    email: new_account@.email,
                    is_admin: new_account@.is_admin,
                },
            ));
            assert forall|i: int| 0 <= i < newv.accounts.len() implies 1
                <= #[trigger] newv.accounts[i].id < newv.next_account_id by {
                if i < oldv.accounts.len() {
                    assert(newv.accounts[i] == oldv.accounts[i]);
                }
            }
            assert forall|i: int, j: int|
                #![trigger newv.accounts[i].id, newv.accounts[j].id]
                0 <= i < j < newv.accounts.len() implies newv.accounts[i].id
                != newv.accounts[j].id by {
                assert(newv.accounts[i] == oldv.accounts[i]);
                if j < oldv.accounts.len() {
                    assert(newv.accounts[j] == oldv.accounts[j]);
                } else {
                    assert(newv.accounts[j].id == oldv.next_account_id);
                }
            }
            assert forall|i: int| 0 <= i < self@.twoots.len() implies has_account_with_id(
                self@.accounts,
                #[trigger] self@.twoots[i].user_id,
            ) by {
                assert(self@.twoots[i] == oldv.twoots[i]);
                assert(has_account_with_id(oldv.accounts, oldv.twoots[i].user_id));
                let k = choose|k: int|
                    0 <= k < oldv.accounts.len() && #[trigger] oldv.accounts[k].id
                        == oldv.twoots[i].user_id;
                assert(self@.accounts[k].id == self@.twoots[i].user_id);
            }
            assert forall|i: int| 0 <= i < self@.twoots.len() implies (
            #[trigger] self@.twoots[i].uuid) == uuid_view(self@.twoots[i].id as int) by {
                assert(self@.twoots[i] == oldv.twoots[i]);
                assert(oldv.twoots[i].uuid == uuid_view(oldv.twoots[i].id as int));
            }
        }
        Ok(echo)
    }

    /// Writes the payload's email and names into every account row whose
    /// username equals the payload's, and echoes the newly-set values; the
    /// username itself is never changed, and the echo does not tell how
    /// many rows were affected.
    pub fn update_account(&mut self, data: AccountPostData) -> (r: Result<
        AccountPostData,
        TwotterError,
    >)
        requires
            old(self).wf(),
        ensures
            final(self).wf(),
            r matches Ok(echo) && echo@ == data@,
            final(self)@.accounts == updated_accounts(old(self)@.accounts, data@),
            final(self)@.twoots == old(self)@.twoots,
            final(self)@.next_account_id == old(self)@.next_account_id,
            final(self)@.next_twoot_id == old(self)@.next_twoot_id,
    {
        let ghost oldacc = self@.accounts;
        let mut updated: Vec<Account> = Vec::new();
        let n = self.accounts.len();
        let mut i: usize = 0;
        while i < n
            invariant
                n == self.accounts.len(),
                oldacc == views_of(self.accounts@),
                i <= n,
                updated@.len() == i,
                forall|k: int|
                    0 <= k < i ==> views_of(updated@)[k] == #[trigger] updated_accounts(
                        oldacc,
                        data@,
                    )[k],
            decreases n - i,
        {
            let a = &self.accounts[i];
            if a.username == data.username {
                updated.push(
                    Account {
                        id: a.id,
                        username: a.username.clone(),
                        first_name: data.first_name.clone(),
                        last_name: data.last_name.clone(),
                        email: data.email.clone(),
                        is_admin: a.is_admin,
                    },
                );
            } else {
                updated.push(a.duplicate());
            }
            i = i + 1;
        }
        self.accounts = updated;
        proof {
            let oldv = old(self)@;
            let newv = self@;
            assert(newv.accounts =~= updated_accounts(oldacc, data@));
            assert(newv.twoots =~= oldv.twoots);
            assert forall|k: int| 0 <= k < newv.accounts.len() implies #[trigger] newv.accounts[k].id
                == oldv.accounts[k].id by {
                assert(newv.accounts[k] == updated_accounts(oldacc, data@)[k]);
            }
            assert forall|i: int| 0 <= i < self@.twoots.len() implies has_account_with_id(
                self@.accounts,
                #[trigger] self@.twoots[i].user_id,
            ) by {
                assert(self@.twoots[i] == oldv.twoots[i]);
                assert(has_account_with_id(oldv.accounts, oldv.twoots[i].user_id));
                let k = choose|k: int|
                    0 <= k < oldv.accounts.len() && #[trigger] oldv.accounts[k].id
                        == oldv.twoots[i].user_id;
                assert(self@.accounts[k].id == self@.twoots[i].user_id);
            }
            assert forall|i: int| 0 <= i < self@.twoots.len() implies (
            #[trigger] self@.twoots[i].uuid) == uuid_view(self@.twoots[i].id as int) by {
                assert(self@.twoots[i] == oldv.twoots[i]);
                assert(oldv.twoots[i].uuid == uuid_view(oldv.twoots[i].id as int));
            }
        }
        Ok(data)
    }

    /// Creates a twoot for the given username: content over
    /// `MAX_TWOOT_CHARS` characters is rejected with the submitted length;
    /// the username is resolved through the by-username lookup, whose
    /// failures propagate unchanged; the new row takes a fresh id and the
    /// store-assigned uuid, and the submitted fields are echoed back. An
    /// insert that cannot be carried out (no fresh id left) is reported as
    /// `RecordNotFound`.
    pub fn create_twoot(&mut self, data: TwootPostData) -> (r: Result<TwootPostData, TwotterError>)
        requires
            old(self).wf(),
        ensures
            final(self).wf(),
            data@.content.len() > MAX_TWOOT_CHARS ==> ({
                &&& r matches Err(e) && e@ == (ErrorView::TwootMaxCharExceeded {
                    numchar: data@.content.len() as int,
                })
                &&& *final(self) == *old(self)
            }),
            data@.content.len() <= MAX_TWOOT_CHARS ==> ({
                let matching = accounts_with_username(old(self)@.accounts, data@.username);
                &&& matching.len() == 0 ==> (r matches Err(e) && e@ == (ErrorView::RecordNotFound {
                    table: "user"@,
                }) && *final(self) == *old(self))
                &&& matching.len() > 1 ==> (r matches Err(e) && e@ == (ErrorView::MultipleResults {
                    table: "user"@,
                }) && *final(self) == *old(self))
                &&& (matching.len() == 1 && old(self)@.next_twoot_id == i32::MAX) ==> (r matches Err(
                    e,
                ) && e@ == (ErrorView::RecordNotFound { table: "tweet"@ }) && *final(self) == *old(
                    self,
                ))
                &&& (matching.len() == 1 && old(self)@.next_twoot_id < i32::MAX) ==> (r matches Ok(
                    echo,
                ) && echo@ == data@ && final(self)@.twoots == old(self)@.twoots.push(
                    (TwootView {
                        id: old(self)@.next_twoot_id,
                        user_id: matching[0].id,
                        content: data@.content,
                        uuid: uuid_view(old(self)@.next_twoot_id as int),
                    }),
                ) && final(self)@.accounts == old(self)@.accounts && final(self)@.next_account_id
                    == old(self)@.next_account_id && final(self)@.next_twoot_id == old(
                    self,
                )@.next_twoot_id + 1)
            }),
    {
        let numchar = data.content.as_str().unicode_len();
        if numchar > MAX_TWOOT_CHARS {
            return Err(TwotterError::TwootMaxCharExceeded { numchar });
        }
        let account = match self.get_account_by_username(&data.username) {
            Ok(a) => a,
            Err(e) => {
                return Err(e);
            },
        };
        if self.next_twoot_id == i32::MAX {
            return Err(TwotterError::RecordNotFound { table: String::from_str("tweet") });
        }
        proof {
            lemma_matching_accounts_are_stored(self@.accounts, data@.username);
        }
        let id = self.next_twoot_id;
        let mut uuid = String::from_str("uuid-");
        let digits = decimal_string(id as usize);
        uuid.append(digits.as_str());
        let row = Twoot { id, user_id: account.id, content: data.content.clone(), uuid };
        self.twoots.push(row);
        self.next_twoot_id = id + 1;
        proof {
            let oldv = old(self)@;
            let newv = self@;
            let matching = accounts_with_username(oldv.accounts, data@.username);
            assert(newv.accounts =~= oldv.accounts);
            assert(newv.twoots =~= oldv.twoots.push(
                TwootView {
                    id: oldv.next_twoot_id,
                    user_id: matching[0].id,
                    content: data@.content,
                    uuid: uuid_view(oldv.next_twoot_id as int),
                },
            ));
            assert forall|i: int| 0 <= i < newv.twoots.len() implies 1
                <= #[trigger] newv.twoots[i].id < newv.next_twoot_id by {
                if i < oldv.twoots.len() {
                    assert(newv.twoots[i] == oldv.twoots[i]);
                }
            }
            assert forall|i: int, j: int|
                #![trigger newv.twoots[i].id, newv.twoots[j].id]
                0 <= i < j < newv.twoots.len() implies newv.twoots[i].id != newv.twoots[j].id by {
                assert(newv.twoots[i] == oldv.twoots[i]);
                if j < oldv.twoots.len() {
                    assert(newv.twoots[j] == oldv.twoots[j]);
                } else {
                    assert(newv.twoots[j].id == oldv.next_twoot_id);
                }
            }
            assert forall|i: int| 0 <= i < self@.twoots.len() implies has_account_with_id(
                self@.accounts,
                #[trigger] self@.twoots[i].user_id,
            ) by {
                if i < oldv.twoots.len() {
                    assert(self@.twoots[i] == oldv.twoots[i]);
                    assert(has_account_with_id(oldv.accounts, oldv.twoots[i].user_id));
                    let k = choose|k: int|
                        0 <= k < oldv.accounts.len() && #[trigger] oldv.accounts[k].id
                            == oldv.twoots[i].user_id;
                    assert(self@.accounts[k].id == self@.twoots[i].user_id);
                } else {
                    let k = choose|k: int|
                        0 <= k < oldv.accounts.len() && oldv.accounts[k] == matching[0];
                    assert(self@.accounts[k].id == self@.twoots[i].user_id);
                }
            }
            assert forall|i: int| 0 <= i < self@.twoots.len() implies (
            #[trigger] self@.twoots[i].uuid) == uuid_view(self@.twoots[i].id as int) by {
                if i < oldv.twoots.len() {
                    assert(self@.twoots[i] == oldv.twoots[i]);
                    assert(oldv.twoots[i].uuid == uuid_view(oldv.twoots[i].id as int));
                }
            }
        }
        Ok(data)
    }
}

} // verus!

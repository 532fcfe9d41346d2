//! Laws relating the data-access operations to one another, proved over
//! the same spec functions that the operations' contracts use.

use vstd::prelude::*;

use crate::errors::{decimal_view, digit_char};
use crate::models::{AccountPostDataView, AccountView, TwootView};
use crate::store::{
    account_fields_updated, accounts_with_username, twoots_with_uuid, updated_accounts, uuid_view,
    Store,
};

verus! {

/// The decimal rendering of a number has one digit exactly when the
/// number is below ten, and at least two digits otherwise.
pub proof fn lemma_decimal_view_len(n: nat)
    ensures
        n < 10 ==> decimal_view(n).len() == 1,
        n >= 10 ==> decimal_view(n).len() >= 2,
    decreases n,
{
    if n >= 10 {
        lemma_decimal_view_len(n / 10);
    }
}

/// Two different numbers never share a decimal rendering.
pub proof fn lemma_decimal_view_injective(a: nat, b: nat)
    requires
        decimal_view(a) == decimal_view(b),
    ensures
        a == b,
    decreases a,
{
    lemma_decimal_view_len(a);
    lemma_decimal_view_len(b);
    if a < 10 && b < 10 {
        assert(decimal_view(a)[0] == digit_char(a));
        assert(decimal_view(b)[0] == digit_char(b));
    } else if a >= 10 && b >= 10 {
        assert(decimal_view(a).last() == digit_char(a % 10));
        assert(decimal_view(b).last() == digit_char(b % 10));
        assert(a % 10 == b % 10);
        assert(decimal_view(a).drop_last() =~= decimal_view(a / 10));
        assert(decimal_view(b).drop_last() =~= decimal_view(b / 10));
        lemma_decimal_view_injective(a / 10, b / 10);
    }
}

/// Two different ids never share a store-assigned uuid.
pub proof fn lemma_uuid_view_injective(a: int, b: int)
    requires
        0 <= a,
        0 <= b,
        uuid_view(a) == uuid_view(b),
    ensures
        a == b,
{
    let p = "uuid-"@;
    let whole = uuid_view(a);
    assert(whole.subrange(p.len() as int, whole.len() as int) =~= decimal_view(a as nat));
    assert(whole.subrange(p.len() as int, whole.len() as int) =~= decimal_view(b as nat));
    lemma_decimal_view_injective(a as nat, b as nat);
}

/// A by-uuid fetch over twoots with pairwise distinct uuids returns at
/// most one row.
pub proof fn lemma_distinct_uuid_fetch_at_most_one(twoots: Seq<TwootView>, uuid: Seq<char>)
    requires
        forall|i: int, j: int|
            #![trigger twoots[i].uuid, twoots[j].uuid]
            0 <= i < j < twoots.len() ==> twoots[i].uuid != twoots[j].uuid,
    ensures
        twoots_with_uuid(twoots, uuid).len() <= 1,
    decreases twoots.len(),
{
    if twoots.len() > 0 {
        lemma_distinct_uuid_fetch_at_most_one(twoots.drop_last(), uuid);
        if twoots.last().uuid == uuid {
            assert forall|i: int| 0 <= i < twoots.drop_last().len() implies (#[trigger] twoots.drop_last()[i].uuid)
                != uuid by {
                assert(twoots[i].uuid != twoots[twoots.len() - 1].uuid);
            }
            lemma_no_uuid_match_is_empty(twoots.drop_last(), uuid);
        }
    }
}

/// Law: in a well-formed store every twoot carries its own uuid, so a
/// by-uuid fetch returns zero rows or one, never several.
pub proof fn lemma_wf_store_uuids_unique(s: Store)
    requires
        s.wf(),
    ensures
        forall|i: int, j: int|
            #![trigger s@.twoots[i].uuid, s@.twoots[j].uuid]
            0 <= i < j < s@.twoots.len() ==> s@.twoots[i].uuid != s@.twoots[j].uuid,
        forall|uuid: Seq<char>| #[trigger] twoots_with_uuid(s@.twoots, uuid).len() <= 1,
{
    assert forall|i: int, j: int|
        #![trigger s@.twoots[i].uuid, s@.twoots[j].uuid]
        0 <= i < j < s@.twoots.len() implies s@.twoots[i].uuid != s@.twoots[j].uuid by {
        assert(s@.twoots[i].id != s@.twoots[j].id);
        assert(s@.twoots[i].uuid == uuid_view(s@.twoots[i].id as int));
        assert(s@.twoots[j].uuid == uuid_view(s@.twoots[j].id as int));
        if s@.twoots[i].uuid == s@.twoots[j].uuid {
            lemma_uuid_view_injective(s@.twoots[i].id as int, s@.twoots[j].id as int);
        }
    }
    assert forall|uuid: Seq<char>| #[trigger] twoots_with_uuid(s@.twoots, uuid).len() <= 1 by {
        lemma_distinct_uuid_fetch_at_most_one(s@.twoots, uuid);
    }
}

/// A by-uuid fetch over twoots none of which carries the uuid is empty.
pub proof fn lemma_no_uuid_match_is_empty(twoots: Seq<TwootView>, uuid: Seq<char>)
    requires
        forall|i: int| 0 <= i < twoots.len() ==> (#[trigger] twoots[i].uuid) != uuid,
    ensures
        twoots_with_uuid(twoots, uuid) == Seq::<TwootView>::empty(),
    decreases twoots.len(),
{
    if twoots.len() > 0 {
        lemma_no_uuid_match_is_empty(twoots.drop_last(), uuid);
        assert(twoots[twoots.len() - 1].uuid != uuid);
    }
}

/// Law: after a twoot is stored under a uuid that no stored twoot carries,
/// the by-uuid fetch for that uuid returns exactly the new row.
pub proof fn lemma_created_twoot_found_by_uuid(twoots: Seq<TwootView>, t: TwootView)
    requires
        forall|i: int| 0 <= i < twoots.len() ==> (#[trigger] twoots[i].uuid) != t.uuid,
    ensures
        twoots_with_uuid(twoots.push(t), t.uuid) == seq![t],
{
    lemma_no_uuid_match_is_empty(twoots, t.uuid);
    assert(twoots.push(t).drop_last() =~= twoots);
    assert(twoots_with_uuid(twoots.push(t), t.uuid) =~= seq![t]);
}

/// Law: after an update by username, the by-username lookup for that
/// username matches exactly the rows it matched before, each now carrying
/// the payload's email and names; each matched row's id, username and
/// admin flag are unchanged. In particular a lookup that found exactly one
/// account still finds exactly one, with the new values written in.
pub proof fn lemma_update_account_then_lookup(accounts: Seq<AccountView>, d: AccountPostDataView)
    ensures
        ({
            let before = accounts_with_username(accounts, d.username);
            let after = accounts_with_username(updated_accounts(accounts, d), d.username);
            &&& after.len() == before.len()
            &&& forall|m: int|
                0 <= m < before.len() ==> after[m] == account_fields_updated(
                    #[trigger] before[m],
                    d,
                )
        }),
    decreases accounts.len(),
{
    let upd = updated_accounts(accounts, d);
    let before = accounts_with_username(accounts, d.username);
    let after = accounts_with_username(upd, d.username);
    if accounts.len() == 0 {
        assert(upd.len() == 0);
    } else {
        lemma_update_account_then_lookup(accounts.drop_last(), d);
        let before_rest = accounts_with_username(accounts.drop_last(), d.username);
        let after_rest = accounts_with_username(
            updated_accounts(accounts.drop_last(), d),
            d.username,
        );
        assert(upd.drop_last() =~= updated_accounts(accounts.drop_last(), d));
        assert(upd.len() == accounts.len());
        assert(upd.last().username == accounts.last().username);
        if accounts.last().username == d.username {
            assert(after == after_rest.push(upd.last()));
            assert(before == before_rest.push(accounts.last()));
            assert(upd.last() == account_fields_updated(accounts.last(), d));
            assert forall|m: int| 0 <= m < before.len() implies after[m]
                == account_fields_updated(#[trigger] before[m], d) by {
                if m < before_rest.len() {
                    assert(before[m] == before_rest[m]);
                    assert(after[m] == after_rest[m]);
                }
            }
        } else {
            assert(after == after_rest);
            assert(before == before_rest);
        }
    }
}

} // verus!

//! Storage accounts: creating one, making one the active account, and which may be deleted.
use vstd::prelude::*;

use crate::crypto::primitives::new_uuid_v4;
use crate::schema::Account;
use crate::text::{chars_of, eq_lit};

verus! {

/// The color an account gets when none is chosen.
pub open spec fn default_account_color() -> Seq<char> {
    "#6366f1"@
}

/// A new account; the first account (when none exists yet) becomes the active one.
pub fn new_account(
    has_existing: bool,
    name: String,
    account_type: String,
    path: Option<String>,
    color: Option<String>,
    now: String,
) -> (r: Account)
    ensures
        r.name == name,
        r.account_type == account_type,
        r.path == path,
        r.color@ == match color {
            Some(c) => c@,
            None => default_account_color(),
        },
        r.is_active == !has_existing,
        r.created_at == now,
        r.updated_at == now,
        r.id@.len() == 36,
{
    let color = match color {
        Some(c) => c,
        None => String::from_str("#6366f1"),
    };
    Account {
        id: new_uuid_v4(),
        name,
        account_type,
        path,
        color,
        is_active: !has_existing,
        created_at: now.clone(),
        updated_at: now,
    }
}

fn same_id(a: &String, b: &str) -> (r: bool)
    ensures
        r == (a@ == b@),
{
    let c = chars_of(a.as_str());
    eq_lit(&c, b)
}

fn find_account(accounts: &Vec<Account>, account_id: &str) -> (r: Option<usize>)
    ensures
        match r {
            Some(k) => k < accounts@.len() && accounts@[k as int].id@ == account_id@,
            None => forall|i: int| 0 <= i < accounts@.len() ==> (#[trigger] accounts@[i]).id@ != account_id@,
        },
{
    let mut j: usize = 0;
    while j < accounts.len()
        invariant
            j <= accounts@.len(),
            forall|i: int| 0 <= i < j ==> (#[trigger] accounts@[i]).id@ != account_id@,
        decreases accounts.len() - j,
    {
        if same_id(&accounts[j].id, account_id) {
            return Some(j);
        }
        j = j + 1;
    }
    None
}

fn copy_opt(s: &Option<String>) -> (r: Option<String>)
    ensures
        r == *s,
{
    match s {
        Some(t) => Some(t.clone()),
        None => None,
    }
}

fn restamped(a: &Account, active: bool, now: &String) -> (r: Account)
    ensures
        r.id == a.id,
        r.name == a.name,
        r.account_type == a.account_type,
        r.path == a.path,
        r.color == a.color,
        r.created_at == a.created_at,
        r.is_active == active,
        r.updated_at == *now,
{
    Account {
        id: a.id.clone(),
        name: a.name.clone(),
        account_type: a.account_type.clone(),
        path: copy_opt(&a.path),
        color: a.color.clone(),
        is_active: active,
        created_at: a.created_at.clone(),
        updated_at: now.clone(),
    }
}

/// Make the account with the given id the only active one, stamping every account with
/// `now`; refused, with nothing changed, when no account has the id. Gives the position of
/// the activated account.
pub fn switch_account(accounts: &mut Vec<Account>, account_id: &str, now: &String) -> (r: Result<usize, String>)
    ensures
        (forall|i: int| 0 <= i < old(accounts)@.len() ==> (#[trigger] old(accounts)@[i]).id@ != account_id@)
            ==> (r matches Err(m) && m@ == "Account not found: "@ + account_id@ && final(accounts)@ == old(
            accounts,
        )@),
        r matches Ok(k) ==> k < final(accounts)@.len() && final(accounts)@[k as int].id@ == account_id@,
        r is Ok ==> final(accounts)@.len() == old(accounts)@.len() && forall|i: int|
            0 <= i < final(accounts)@.len() ==> {
                let a = #[trigger] final(accounts)@[i];
                let b = old(accounts)@[i];
                &&& a.is_active == (b.id@ == account_id@)
                &&& a.updated_at == *now
                &&& a.id == b.id
                &&& a.name == b.name
                &&& a.account_type == b.account_type
                &&& a.path == b.path
                &&& a.color == b.color
                &&& a.created_at == b.created_at
            },
{
    let k = match find_account(accounts, account_id) {
        Some(k) => k,
        None => {
            let mut m = String::from_str("Account not found: ");
            m.append(account_id);
            return Err(m);
        },
    };
    let ghost before = accounts@;
    let n = accounts.len();
    for i in 0..n
        invariant
            n == accounts@.len(),
            n == before.len(),
            k < n,
            before[k as int].id@ == account_id@,
            forall|t: int|
                0 <= t < n ==> {
                    let a = #[trigger] accounts@[t];
                    let b = before[t];
                    &&& a.id == b.id
                    &&& a.name == b.name
                    &&& a.account_type == b.account_type
                    &&& a.path == b.path
                    &&& a.color == b.color
                    &&& a.created_at == b.created_at
                    &&& t < i ==> a.is_active == (b.id@ == account_id@) && a.updated_at == *now
                },
    {
        let active = same_id(&accounts[i].id, account_id);
        let a = restamped(&accounts[i], active, now);
        accounts.set(i, a);
    }
    Ok(k)
}

/// After switching, the activated account is the only active one among accounts with
/// distinct ids.
pub proof fn one_active_after_switch(accounts: Seq<Account>, account_id: Seq<char>, i: int, j: int)
    requires
        forall|t: int| 0 <= t < accounts.len() ==> #[trigger] accounts[t].is_active == (accounts[t].id@ == account_id),
        forall|s: int, t: int| 0 <= s < accounts.len() && 0 <= t < accounts.len() && s != t ==> accounts[s].id@ != accounts[t].id@,
        0 <= i < accounts.len(),
        0 <= j < accounts.len(),
        accounts[i].is_active,
        accounts[j].is_active,
    ensures
        i == j,
{
}

/// Whether an account may be deleted: it must exist and not be the active one.
pub fn check_deletable(account: Option<&Account>, account_id: &str) -> (r: Result<(), String>)
    ensures
        match account {
            None => r matches Err(m) && m@ == "Account not found: "@ + account_id@,
            Some(a) => if a.is_active {
                r matches Err(m) && m@ == "Cannot delete the active account. Switch to another account first."@
            } else {
                r is Ok
            },
        },
{
    match account {
        None => {
            let mut m = String::from_str("Account not found: ");
            m.append(account_id);
            Err(m)
        },
        Some(a) => {
            if a.is_active {
                Err(String::from_str("Cannot delete the active account. Switch to another account first."))
            } else {
                Ok(())
            }
        },
    }
}

} // verus!

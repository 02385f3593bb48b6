//! The host's part: the contribution ledger it keeps and the clock it reads.
//!
//! The ledger is a `soroban_sdk::Map` from a contributor's address, as text,
//! to the amount held for them. It is made by [`ledger_new`] and changed by
//! [`ledger_set`] alone, so that every key is text and every value an amount.
//!
//! Nothing here is proved: each item states what the host is trusted to do.
//! Whatever is asked of it, a host that has used up its budget of time, memory
//! or object handles aborts the invocation instead of answering, and undoes
//! with it every change that the invocation made.

use vstd::prelude::*;
use vstd::utf8::encode_utf8;

use crate::ledger::no_entries;

verus! {

/// The handle to the host environment, `soroban_sdk::Env`. It is only passed
/// through to the host.
#[verifier::external_type_specification]
#[verifier::external_body]
pub struct ExEnv(soroban_sdk::Env);

/// The host's text type, `soroban_sdk::String`: the key type of the ledger.
#[verifier::external_type_specification]
#[verifier::external_body]
pub struct ExHostText(soroban_sdk::String);

/// The host's ordered dictionary, `soroban_sdk::Map`.
#[verifier::external_type_specification]
#[verifier::external_body]
#[verifier::reject_recursive_types(K)]
#[verifier::reject_recursive_types(V)]
pub struct ExHostMap<K, V>(soroban_sdk::Map<K, V>);

/// An account name that the host can take as text: the host holds no text of
/// more than `u32::MAX` bytes.
pub open spec fn host_text(account: Seq<char>) -> bool {
    encode_utf8(account).len() <= u32::MAX
}

/// What a ledger holds: for each key that is text, the 128-bit signed amount
/// stored under it.
pub uninterp spec fn ledger_entries(ledger: soroban_sdk::Map<soroban_sdk::String, i128>) -> Map<Seq<char>, int>;

/// `soroban_sdk::Map::new`: a ledger without entries.
#[verifier::external_body]
pub(crate) fn ledger_new(env: &soroban_sdk::Env) -> (ledger: soroban_sdk::Map<soroban_sdk::String, i128>)
    ensures
        ledger_entries(ledger) == no_entries::<Seq<char>>(),
{
    soroban_sdk::Map::new(env)
}

/// `soroban_sdk::Map::len`: the number of entries of a ledger.
#[verifier::external_body]
pub(crate) fn ledger_len(ledger: &soroban_sdk::Map<soroban_sdk::String, i128>) -> (entries: u32)
    ensures
        entries == ledger_entries(*ledger).dom().len(),
{
    ledger.len()
}

/// `soroban_sdk::Map::try_get`, with the key made by
/// `soroban_sdk::String::from_str`: the amount stored under `who`, if there is
/// one.
#[verifier::external_body]
pub(crate) fn ledger_get(
    ledger: &soroban_sdk::Map<soroban_sdk::String, i128>,
    who: &str,
) -> (held: Option<i128>)
    requires
        host_text(who@),
    ensures
        match held {
            Some(amount) => ledger_entries(*ledger).contains_key(who@) && ledger_entries(
                *ledger,
            )[who@] == amount,
            None => !ledger_entries(*ledger).contains_key(who@),
        },
{
    match ledger.try_get(soroban_sdk::String::from_str(ledger.env(), who)) {
        Ok(held) => held,
        Err(_) => None,
    }
}

/// `soroban_sdk::Map::set`, with the key made by
/// `soroban_sdk::String::from_str`: `amount` is stored under `who`, in place
/// of what was stored there before, and no other entry changes. The host
/// keeps no map of more than `u32::MAX` entries.
#[verifier::external_body]
pub(crate) fn ledger_set(
    ledger: &mut soroban_sdk::Map<soroban_sdk::String, i128>,
    who: &str,
    amount: i128,
)
    requires
        host_text(who@),
        ledger_entries(*old(ledger)).contains_key(who@) || ledger_entries(*old(ledger)).dom().len()
            < u32::MAX,
    ensures
        ledger_entries(*final(ledger)) == ledger_entries(*old(ledger)).insert(who@, amount as int),
{
    let key = soroban_sdk::String::from_str(ledger.env(), who);
    ledger.set(key, amount)
}

/// `soroban_sdk::ledger::Ledger::timestamp`, on the `Ledger` that
/// `soroban_sdk::Env::ledger` gives: the time at which the current ledger was
/// closed, in seconds since the Unix epoch. Nothing is known of the value.
#[verifier::external_body]
pub(crate) fn ledger_timestamp(env: &soroban_sdk::Env) -> (now: u64) {
    env.ledger().timestamp()
}

} // verus!

//! The Soroban host as the canvas sees it.
//!
//! Nothing in this file is proved. Each function here makes one kind of call
//! into the SDK and states, as its contract, what that call is trusted to do.
//!
//! An `Env` is a handle on the host, and the ledger entries it reaches change
//! under it. The contracts speak of an `Env` as if it were that state: a call
//! that writes takes the handle by `&mut` and says how the state after the
//! call relates to the state before. This is sound for one handle; clones of
//! a handle share their state, so the rest of the library never clones one.
//!
//! An `Address` is a handle too, on an object of the host that made it. The
//! calls that take one resolve it first to the account or contract it names
//! and take that into the host at hand, so the contracts hold of an address
//! wherever it was made.
//!
//! The host ends an invocation that exhausts its budget, or that touches a
//! ledger entry which is archived or lies outside its footprint; the
//! contracts describe the calls that return.

use crate::grid::Pixel;
use soroban_sdk::xdr::ScAddress;
use soroban_sdk::{Address, Env, EnvBase, IntoVal, MapObject, Symbol, TryFromVal, Val};
use vstd::prelude::*;

verus! {

/// `soroban_sdk::Env`, the handle on the host. Opaque.
#[verifier::external_type_specification]
#[verifier::external_body]
pub struct ExEnv(soroban_sdk::Env);

/// `soroban_sdk::Address`, the identity of an account or a contract. Opaque:
/// the canvas records addresses and hands them back, and two of them are
/// equal where they name the same account or contract.
#[verifier::external_type_specification]
#[verifier::external_body]
pub struct ExAddress(soroban_sdk::Address);

/// `Address::clone`: a second handle on the same account or contract.
pub assume_specification[ <soroban_sdk::Address as Clone>::clone ](who: &Address) -> (copy: Address)
    ensures
        copy == *who,
;

/// `soroban_sdk::Symbol`, a short name. Opaque: the canvas passes the id of
/// a game through.
#[verifier::external_type_specification]
#[verifier::external_body]
pub struct ExSymbol(soroban_sdk::Symbol);

/// The pixel records that the running contract's persistent storage holds
/// under coordinate keys, by coordinate.
pub uninterp spec fn stored_pixels(env: Env) -> Map<(u64, u64), Pixel>;

/// The address that the running contract's instance storage holds in its hub
/// slot, if it holds one.
pub uninterp spec fn stored_hub(env: Env) -> Option<Address>;

/// Whether a contract invocation is in progress on `env`.
pub uninterp spec fn in_contract(env: Env) -> bool;

/// `Env::in_contract`: tells whether the host has a contract frame on its
/// stack. The storage of a contract can be reached only from inside one.
#[verifier::external_body]
pub(crate) fn contract_running(env: &Env) -> (running: bool)
    ensures
        running == in_contract(*env),
{
    env.in_contract()
}

/// `require_auth` of the host behind `Env::host`, which is what
/// `Address::require_auth` calls, with a refusal kept as a value instead of
/// ending the invocation: `true` when the host accepts that `who` authorized
/// the running invocation. The outcome depends on the authorizations that
/// the invocation came with, so nothing is claimed of it; the call leaves
/// the storage of the running contract as it was.
#[verifier::external_body]
pub(crate) fn host_confirms_auth(env: &Env, who: &Address) -> (confirmed: bool)
    requires
        in_contract(*env),
{
    let who = Address::try_from_val(env, &ScAddress::from(who)).unwrap();
    soroban_env_host::Env::require_auth(env.host(), who.to_object()).is_ok()
}

/// `Ledger::timestamp`: the close time of the ledger that the invocation
/// runs in. Nothing is claimed of it.
#[verifier::external_body]
pub(crate) fn ledger_timestamp(env: &Env) -> (now: u64)
    requires
        in_contract(*env),
{
    env.ledger().timestamp()
}

/// `Persistent::get` under the key `(x, y)`, decoded as a pixel record: a map
/// from the symbols `color`, `painter` and `timestamp` to a `u32`, an address
/// and a `u64`. A value of any other shape is no pixel record and reads as
/// absent, as a key without a value does.
#[verifier::external_body]
pub(crate) fn read_cell(env: &Env, x: u64, y: u64) -> (cell: Option<Pixel>)
    requires
        in_contract(*env),
    ensures
        cell == (if stored_pixels(*env).dom().contains((x, y)) {
            Some(stored_pixels(*env)[(x, y)])
        } else {
            None
        }),
{
    let raw: Val = env.storage().persistent().get(&(x, y))?;
    let record = MapObject::try_from_val(env, &raw).ok()?;
    let mut fields = [Val::VOID.to_val(); 3];
    let names = ["color", "painter", "timestamp"];
    env.host().sparse_map_unpack_to_slice(record, &names, &mut fields).ok()?;
    Some(Pixel {
        color: u32::try_from_val(env, &fields[0]).ok()?,
        painter: Address::try_from_val(env, &fields[1]).ok()?,
        timestamp: u64::try_from_val(env, &fields[2]).ok()?,
    })
}

/// `Persistent::set` under the key `(x, y)`, with the pixel encoded as the
/// map that `read_cell` decodes. Replaces what the key held; touches no other
/// key, nor the instance storage.
#[verifier::external_body]
pub(crate) fn write_cell(env: &mut Env, x: u64, y: u64, pixel: &Pixel)
    requires
        in_contract(*old(env)),
    ensures
        stored_pixels(*final(env)) == stored_pixels(*old(env)).insert((x, y), *pixel),
        stored_hub(*final(env)) == stored_hub(*old(env)),
        in_contract(*final(env)),
{
    let painter = Address::try_from_val(env, &ScAddress::from(&pixel.painter)).unwrap();
    let fields = [pixel.color.into_val(env), painter.to_val(), pixel.timestamp.into_val(env)];
    let names = ["color", "painter", "timestamp"];
    let record = env.map_new_from_slices(&names, &fields).unwrap();
    env.storage().persistent().set(&(x, y), &record.to_val());
}

/// `Instance::get` under the symbol `GAMEHUB`, decoded as an address. A value
/// that is no address reads as absent.
#[verifier::external_body]
pub(crate) fn read_hub(env: &Env) -> (hub: Option<Address>)
    requires
        in_contract(*env),
    ensures
        hub == stored_hub(*env),
{
    let raw: Val = env.storage().instance().get(&Symbol::new(env, "GAMEHUB"))?;
    Address::try_from_val(env, &raw).ok()
}

/// `Instance::set` under the symbol `GAMEHUB`. Replaces what the slot held;
/// touches no persistent entry.
#[verifier::external_body]
pub(crate) fn write_hub(env: &mut Env, hub: &Address)
    requires
        in_contract(*old(env)),
    ensures
        stored_hub(*final(env)) == Some(*hub),
        stored_pixels(*final(env)) == stored_pixels(*old(env)),
        in_contract(*final(env)),
{
    let hub = Address::try_from_val(env, &ScAddress::from(hub)).unwrap();
    env.storage().instance().set(&Symbol::new(env, "GAMEHUB"), &hub);
}

} // verus!

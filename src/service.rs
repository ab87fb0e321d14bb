use vstd::prelude::*;

use std::sync::Arc;

use crate::ids::{u128_be_bytes, ProcessId};
use crate::state::StopStep;
use crate::store::{GetError, Store};
use crate::user::{subject_common_name, AuthError, UserId};

verus! {

/// The codes that a failed remote call carries.
#[derive(Clone, Copy, Debug, PartialEq, Eq, Structural)]
pub enum RpcCode {
    /// The request is malformed: no arguments, no id, or an id that is not a UUID.
    InvalidArgument,
    /// The caller owns no process with the id.
    NotFound,
    /// No user could be derived from the peer's certificate.
    Unauthenticated,
    /// Another stop of the process is under way.
    Aborted,
    /// The child could not be started.
    Unknown,
    /// The operation is not offered.
    Unimplemented,
}

impl GetError {
    /// The code under which the error reaches the caller.
    pub fn code(&self) -> (r: RpcCode)
        ensures
            r == RpcCode::NotFound,
    {
        match self {
            GetError::NotFound => RpcCode::NotFound,
        }
    }
}

impl AuthError {
    /// The code under which the error reaches the caller.
    pub fn code(&self) -> (r: RpcCode)
        ensures
            r == RpcCode::Unauthenticated,
    {
        RpcCode::Unauthenticated
    }
}

/// The user that the first certificate the peer presented names. A peer
/// without a certificate, or whose certificate names no user, is not
/// authenticated.
pub fn authenticate(peer_certs: &Vec<Vec<u8>>) -> (r: Result<UserId, RpcCode>)
    ensures
        peer_certs@.len() == 0 ==> r == Err::<UserId, RpcCode>(RpcCode::Unauthenticated),
        peer_certs@.len() > 0 ==> match subject_common_name(peer_certs@[0]@) {
            Some(Some(cn)) => r matches Ok(u) && u.0@ == cn,
            _ => r == Err::<UserId, RpcCode>(RpcCode::Unauthenticated),
        },
{
    if peer_certs.len() == 0 {
        return Err(RpcCode::Unauthenticated);
    }
    match UserId::from_certificate(peer_certs[0].as_slice()) {
        Ok(u) => Ok(u),
        Err(e) => Err(e.code()),
    }
}

/// Checks the argument vector of a request to start a process: it must
/// name at least the program.
pub fn check_exec_args(args: &Vec<String>) -> (r: Result<(), RpcCode>)
    ensures
        args@.len() == 0 <==> r == Err::<(), RpcCode>(RpcCode::InvalidArgument),
        args@.len() > 0 <==> r is Ok,
{
    if args.len() == 0 {
        Err(RpcCode::InvalidArgument)
    } else {
        Ok(())
    }
}

/// The id that a request carries: it must be present and be sixteen bytes.
pub fn request_id(id: Option<&Vec<u8>>) -> (r: Result<ProcessId, RpcCode>)
    ensures
        id is None ==> r == Err::<ProcessId, RpcCode>(RpcCode::InvalidArgument),
        id matches Some(b) ==> (b@.len() == 16 ==> (r matches Ok(p) && u128_be_bytes(p.0) == b@)) && (
        b@.len() != 16 ==> r == Err::<ProcessId, RpcCode>(RpcCode::InvalidArgument)),
{
    match id {
        None => Err(RpcCode::InvalidArgument),
        Some(b) => match ProcessId::from_slice(b.as_slice()) {
            Ok(p) => Ok(p),
            Err(_) => Err(RpcCode::InvalidArgument),
        },
    }
}

/// The process of user `uid` that a request names: a missing or malformed id
/// is an invalid argument, and an id that the store does not hold for this
/// user is not found, whether or not another user owns it.
pub fn get_process<V>(store: &Store<V>, id: Option<&Vec<u8>>, uid: &UserId) -> (r: Result<
    Arc<V>,
    RpcCode,
>)
    ensures
        id is None ==> r == Err::<Arc<V>, RpcCode>(RpcCode::InvalidArgument),
        id matches Some(b) ==> (b@.len() != 16 ==> r == Err::<Arc<V>, RpcCode>(
            RpcCode::InvalidArgument,
        )) && (b@.len() == 16 ==> exists|k: u128|
            #[trigger] u128_be_bytes(k) == b@ && if store@.contains_key(k) && store@[k].0 == uid.0@ {
                r matches Ok(v) && *v == store@[k].1
            } else {
                r == Err::<Arc<V>, RpcCode>(RpcCode::NotFound)
            }),
{
    let pid = match request_id(id) {
        Ok(p) => p,
        Err(c) => return Err(c),
    };
    match store.get(pid, uid) {
        Ok(v) => Ok(v),
        Err(e) => Err(e.code()),
    }
}

/// The reply to a stop request: done once the child has ended, refused with
/// `Aborted` while another stop is under way. A request that fires the stop
/// is answered once the child has ended.
pub fn stop_reply(step: StopStep) -> (r: Result<(), RpcCode>)
    ensures
        step is InProgress <==> r == Err::<(), RpcCode>(RpcCode::Aborted),
        !(step is InProgress) <==> r is Ok,
{
    match step {
        StopStep::InProgress => Err(RpcCode::Aborted),
        _ => Ok(()),
    }
}

} // verus!

//! Properties that relate registration and dispatch.
use vstd::prelude::*;

use crate::parser::{registered, register_result, route, DuplicateCommand};

verus! {

/// After `n` is registered with `h1`, registering `n` again fails with
/// `DuplicateCommand`, leaves the registry as it was, and a token sequence
/// that starts with `n` is still routed to `h1`.
pub proof fn lemma_first_registration_kept<H>(
    reg: Map<Seq<char>, H>,
    n: Seq<char>,
    h1: H,
    h2: H,
    args: Seq<Seq<char>>,
)
    requires
        register_result(reg, n) is Ok,
    ensures
        register_result(registered(reg, n, h1), n) == Err::<(), DuplicateCommand>(DuplicateCommand),
        registered(registered(reg, n, h1), n, h2) == registered(reg, n, h1),
        route(registered(registered(reg, n, h1), n, h2), seq![n] + args) == Some(h1),
{
    assert((seq![n] + args)[0] == n);
}

/// Registering two distinct names routes each name to its own handler and
/// never to the other one.
pub proof fn lemma_registrations_independent<H>(
    reg: Map<Seq<char>, H>,
    a: Seq<char>,
    b: Seq<char>,
    ha: H,
    hb: H,
    args_a: Seq<Seq<char>>,
    args_b: Seq<Seq<char>>,
)
    requires
        a != b,
        register_result(reg, a) is Ok,
        register_result(reg, b) is Ok,
    ensures
        route(registered(registered(reg, a, ha), b, hb), seq![a] + args_a) == Some(ha),
        route(registered(registered(reg, a, ha), b, hb), seq![b] + args_b) == Some(hb),
        ha != hb ==> route(registered(registered(reg, a, ha), b, hb), seq![a] + args_a) != Some(hb),
        ha != hb ==> route(registered(registered(reg, a, ha), b, hb), seq![b] + args_b) != Some(ha),
{
    assert((seq![a] + args_a)[0] == a);
    assert((seq![b] + args_b)[0] == b);
}

} // verus!

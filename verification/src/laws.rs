//! Laws that span several functions of the library, written out so a reader
//! sees them stated, not just implied: binding is idempotent across whole
//! runs of bind commands, and an object identifier packed for the wire reads
//! back unchanged.

use vstd::prelude::*;
use crate::client::who_is_frame_bytes;
use crate::codec::{be32, be4, i_am_instance_of, objid_word, word_instance, word_type};

verus! {

/// Law: the open Who-Is (no range limits) is exactly the two-byte frame
/// `10 08` — the unconfirmed-request type byte and the Who-Is service
/// choice, with empty service data.
pub proof fn lemma_open_who_is_frame()
    ensures
        who_is_frame_bytes(None, None) =~= seq![0x10u8, 0x08u8],
{
}

/// One `BindInterface` round as `Engine::handle_command` and
/// `Engine::apply_bind_outcome` pin it: a bound engine issues no action at
/// all, an unbound one issues exactly one socket open and is bound once the
/// runtime reports success.  The result is the bound flag after the round
/// and how many socket opens the round issued.
pub open spec fn bind_round(bound: bool, succeeds: bool) -> (bool, nat) {
    if bound {
        (true, 0)
    } else {
        (succeeds, 1)
    }
}

/// Socket opens over a run of `n` `BindInterface` commands for one
/// interface whose bind attempts succeed.
pub open spec fn opens_in_run(bound: bool, n: nat) -> nat
    decreases n,
{
    if n == 0 {
        0
    } else {
        bind_round(bound, true).1 + opens_in_run(bind_round(bound, true).0, (n - 1) as nat)
    }
}

/// Law: binding is idempotent.  Over any run of `BindInterface` commands
/// naming the same interface, a bound engine never opens a socket, and an
/// unbound engine opens exactly one — the first command's; every later
/// command is a no-op.
pub proof fn lemma_bind_idempotent(n: nat)
    ensures
        opens_in_run(true, n) == 0,
        n >= 1 ==> opens_in_run(false, n) == 1,
    decreases n,
{
    if n > 0 {
        lemma_bind_idempotent((n - 1) as nat);
    }
}

/// Law: an object identifier survives the wire.  Packing an object type and
/// instance into the identifier word, writing it as four big-endian bytes
/// and reading those back returns both fields unchanged, for every value the
/// protocol can carry.
pub proof fn lemma_objid_round_trip(object_type: u16, instance: u32)
    requires
        object_type <= 0x3FF,
        instance <= 0x3FFFFF,
    ensures
        word_instance(
            be32(
                be4(objid_word(object_type, instance))[0],
                be4(objid_word(object_type, instance))[1],
                be4(objid_word(object_type, instance))[2],
                be4(objid_word(object_type, instance))[3],
            ),
        ) == instance,
        word_type(
            be32(
                be4(objid_word(object_type, instance))[0],
                be4(objid_word(object_type, instance))[1],
                be4(objid_word(object_type, instance))[2],
                be4(objid_word(object_type, instance))[3],
            ),
        ) == object_type,
{
    let w = objid_word(object_type, instance);
    assert(((((w >> 24) as u8) as u32) << 24) | ((((w >> 16) as u8) as u32) << 16) | ((((w >> 8) as u8)
        as u32) << 8) | (((w as u8) as u32)) == w) by (bit_vector);
    let ot = object_type;
    let inst = instance;
    assert((((ot as u32) << 22) | inst) & 0x3FFFFF == inst && ((((ot as u32) << 22) | inst) >> 22)
        as u16 == ot) by (bit_vector)
        requires
            ot <= 0x3FF,
            inst <= 0x3FFFFF,
    ;
}

/// Law (discovery round trip): a Who-Is with no range limits is answered by
/// every device; an I-Am whose payload packs instance `d` into its leading
/// identifier word decodes back to exactly `d`.  Together with the classify
/// contract this pins the round trip: the device announced is the device
/// reported.
pub proof fn lemma_i_am_round_trip(object_type: u16, instance: u32, payload: Seq<u8>)
    requires
        object_type <= 0x3FF,
        instance <= 0x3FFFFF,
        payload.len() >= 5,
        payload.subrange(1, 5) == be4(objid_word(object_type, instance)),
    ensures
        i_am_instance_of(payload) == instance,
{
    assert(payload[1] == be4(objid_word(object_type, instance))[0]
        && payload[2] == be4(objid_word(object_type, instance))[1]
        && payload[3] == be4(objid_word(object_type, instance))[2]
        && payload[4] == be4(objid_word(object_type, instance))[3]) by {
        assert(payload.subrange(1, 5)[0] == payload[1]);
        assert(payload.subrange(1, 5)[1] == payload[2]);
        assert(payload.subrange(1, 5)[2] == payload[3]);
        assert(payload.subrange(1, 5)[3] == payload[4]);
    }
    lemma_objid_round_trip(object_type, instance);
}

} // verus!


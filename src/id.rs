use vstd::prelude::*;

verus! {

/// Identifier of a stream within its connection.
///
/// Bit 0 names the side that opened the stream (clear: the client), bit 1 its
/// direction (set: unidirectional).
pub type Id = u64;

/// A stream carries data either one way only or both ways.
#[derive(Clone, Copy, Debug, PartialEq, Eq, Structural)]
pub enum Type {
    Unidirectional,
    Bidirectional,
}

/// Bit 1 of the identifier is set.
pub open spec fn spec_unidirectional(id: Id) -> bool {
    id & 2 != 0
}

/// Bit 0 of the identifier is clear.
pub open spec fn spec_client_initiated(id: Id) -> bool {
    id & 1 == 0
}

pub open spec fn spec_type(id: Id) -> Type {
    if spec_unidirectional(id) {
        Type::Unidirectional
    } else {
        Type::Bidirectional
    }
}

/// The local side may write to a unidirectional stream exactly when it opened it.
pub open spec fn spec_send_allowed(id: Id, is_client_con: bool) -> bool {
    spec_client_initiated(id) == is_client_con
}

pub fn is_unidirectional(id: Id) -> (r: bool)
    ensures
        r == spec_unidirectional(id),
{
    id & 2 != 0
}

pub fn is_client_initiated(id: Id) -> (r: bool)
    ensures
        r == spec_client_initiated(id),
{
    id & 1 == 0
}

/// Whether a connection opened locally (`is_client_con`) may send on stream `id`,
/// were it unidirectional.
pub fn is_unidirectional_send_allowed(id: Id, is_client_con: bool) -> (r: bool)
    ensures
        r == spec_send_allowed(id, is_client_con),
        r == ((id & 1 == 0) == is_client_con),
{
    if is_client_initiated(id) {
        is_client_con
    } else {
        !is_client_con
    }
}

pub fn stream_type(id: Id) -> (r: Type)
    ensures
        r == spec_type(id),
{
    if is_unidirectional(id) {
        Type::Unidirectional
    } else {
        Type::Bidirectional
    }
}

/// The type of a stream is read from bit 1 of its identifier alone: flipping
/// the initiator bit never changes it.
pub proof fn lemma_type_ignores_initiator(id: Id)
    ensures
        (spec_type(id) == Type::Unidirectional) == (id & 2 != 0),
        spec_type(id) == spec_type(id ^ 1),
{
    assert((id & 2 != 0) == ((id ^ 1) & 2 != 0)) by (bit_vector);
}

} // verus!

//! The opaque handle the host holds for one interpreter session.

use vstd::prelude::*;

use crate::span::Span;
use crate::value::{NuValue, ValueData};

verus! {

/// A host-visible token identifying one interpreter session.
///
/// The token is a 128-bit identifier minted at session creation. Two handles
/// are equal exactly when they carry the same identifier; a handle says
/// nothing about whether its session is still alive.
#[derive(Clone, Copy, PartialEq, Eq, Structural, Hash, Debug)]
pub struct LuaHandle {
    pub id: u128,
}

impl LuaHandle {
    pub fn new(uuid: u128) -> (h: LuaHandle)
        ensures
            h.uuid() == uuid,
    {
        LuaHandle { id: uuid }
    }

    /// The identifier this handle carries.
    pub open spec fn spec_uuid(&self) -> u128 {
        self.id
    }

    #[verifier::when_used_as_spec(spec_uuid)]
    pub fn uuid(&self) -> (id: u128)
        ensures
            id == self.spec_uuid(),
    {
        self.id
    }

    /// Writes the handle for the wire: an atomic sixteen-byte token, most
    /// significant byte first, that the host stores and returns but cannot
    /// inspect.
    pub fn to_wire_bytes(&self) -> (b: Vec<u8>)
        ensures
            b@ == wire_bytes(self.uuid()),
    {
        let id = self.id;
        let mut b: Vec<u8> = Vec::new();
        b.push(#[verifier::truncate] ((id >> 120) as u8));
        b.push(#[verifier::truncate] ((id >> 112) as u8));
        b.push(#[verifier::truncate] ((id >> 104) as u8));
        b.push(#[verifier::truncate] ((id >> 96) as u8));
        b.push(#[verifier::truncate] ((id >> 88) as u8));
        b.push(#[verifier::truncate] ((id >> 80) as u8));
        b.push(#[verifier::truncate] ((id >> 72) as u8));
        b.push(#[verifier::truncate] ((id >> 64) as u8));
        b.push(#[verifier::truncate] ((id >> 56) as u8));
        b.push(#[verifier::truncate] ((id >> 48) as u8));
        b.push(#[verifier::truncate] ((id >> 40) as u8));
        b.push(#[verifier::truncate] ((id >> 32) as u8));
        b.push(#[verifier::truncate] ((id >> 24) as u8));
        b.push(#[verifier::truncate] ((id >> 16) as u8));
        b.push(#[verifier::truncate] ((id >> 8) as u8));
        b.push(#[verifier::truncate] (id as u8));
        proof {
            assert(b@ =~= wire_bytes(id));
        }
        b
    }

    /// Parses a wire token back into a handle: `Some` exactly for sixteen
    /// bytes, read most significant first.
    pub fn from_wire_bytes(bytes: &[u8]) -> (r: Option<LuaHandle>)
        ensures
            match wire_parse(bytes@) {
                Some(id) => r == Some(LuaHandle { id }),
                None => r is None,
            },
    {
        if bytes.len() != 16 {
            return None;
        }
        let id = ((bytes[0] as u128) << 120) | ((bytes[1] as u128) << 112) | ((bytes[2] as u128)
            << 104) | ((bytes[3] as u128) << 96) | ((bytes[4] as u128) << 88) | ((bytes[5] as u128)
            << 80) | ((bytes[6] as u128) << 72) | ((bytes[7] as u128) << 64) | ((bytes[8] as u128)
            << 56) | ((bytes[9] as u128) << 48) | ((bytes[10] as u128) << 40) | ((bytes[11] as u128)
            << 32) | ((bytes[12] as u128) << 24) | ((bytes[13] as u128) << 16) | ((bytes[14]
            as u128) << 8) | (bytes[15] as u128);
        Some(LuaHandle { id })
    }

    /// The placeholder the host shows when it renders the opaque handle as a
    /// plain value.
    pub fn to_base_value(&self, span: Span) -> (v: NuValue)
        ensures
            v.span == span,
            v.data matches ValueData::Str { val } && val@ == "<Lua>"@,
    {
        NuValue {
            data: ValueData::Str { val: "<Lua>".to_owned() },
            span,
        }
    }
}


/// The wire representation of a handle: its identifier as sixteen bytes,
/// most significant first — an atomic token from the host's point of view.
pub open spec fn wire_bytes(id: u128) -> Seq<u8> {
    seq![
        ((id >> 120) as u8),
        ((id >> 112) as u8),
        ((id >> 104) as u8),
        ((id >> 96) as u8),
        ((id >> 88) as u8),
        ((id >> 80) as u8),
        ((id >> 72) as u8),
        ((id >> 64) as u8),
        ((id >> 56) as u8),
        ((id >> 48) as u8),
        ((id >> 40) as u8),
        ((id >> 32) as u8),
        ((id >> 24) as u8),
        ((id >> 16) as u8),
        ((id >> 8) as u8),
        (id as u8),
    ]
}

/// Parsing the wire representation: defined exactly for sixteen bytes, read
/// most significant first.
pub open spec fn wire_parse(b: Seq<u8>) -> Option<u128> {
    if b.len() == 16 {
        Some(((b[0] as u128) << 120) | ((b[1] as u128) << 112) | ((b[2] as u128) << 104) | ((b[3] as u128) << 96) | ((b[4] as u128) << 88) | ((b[5] as u128) << 80) | ((b[6] as u128) << 72) | ((b[7] as u128) << 64) | ((b[8] as u128) << 56) | ((b[9] as u128) << 48) | ((b[10] as u128) << 40) | ((b[11] as u128) << 32) | ((b[12] as u128) << 24) | ((b[13] as u128) << 16) | ((b[14] as u128) << 8) | (b[15] as u128))
    } else {
        None
    }
}

/// The wire round-trip law: parsing the bytes written for a handle yields
/// the same handle identifier, so a round-tripped handle resolves to the
/// same session as the original.
pub proof fn lemma_wire_round_trip(h: LuaHandle)
    ensures
        wire_parse(wire_bytes(h.uuid())) == Some(h.uuid()),
{
    let id = h.uuid();
    let b = wire_bytes(id);
    assert((((id >> 120) as u8 as u128) << 120) | (((id >> 112) as u8 as u128) << 112) | (((id >> 104) as u8 as u128) << 104) | (((id >> 96) as u8 as u128) << 96) | (((id >> 88) as u8 as u128) << 88) | (((id >> 80) as u8 as u128) << 80) | (((id >> 72) as u8 as u128) << 72) | (((id >> 64) as u8 as u128) << 64) | (((id >> 56) as u8 as u128) << 56) | (((id >> 48) as u8 as u128) << 48) | (((id >> 40) as u8 as u128) << 40) | (((id >> 32) as u8 as u128) << 32) | (((id >> 24) as u8 as u128) << 24) | (((id >> 16) as u8 as u128) << 16) | (((id >> 8) as u8 as u128) << 8) | ((id as u8) as u128) == id) by (bit_vector);
}

} // verus!

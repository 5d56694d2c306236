//! Converting an engine evaluation result into a host value tree.
//!
//! The engine's result is first read, through the trusted accessors, into
//! [`EngineValue`], a tree of plain values. The mapping from that tree to a
//! host [`NuValue`] — the part with actual decisions in it — is
//! [`lua_to_nushell`], verified against the [`converts`] relation.

use vstd::prelude::*;

use crate::engine::{
    lua_string_bytes, lua_string_utf8, table_entries, value_addr, value_as_bool, value_as_int,
    value_as_string, value_as_table, value_is_error, value_is_nil, value_number_bits,
    value_opaque_kind,
};
use crate::error::Error;
use crate::span::Span;
use crate::value::{NuValue, ValueData};

verus! {

/// How many levels of table nesting a conversion will follow before giving
/// up. The bound exists because the engine allows cyclic tables, which no
/// finite tree can render; it is far beyond any realistic finite nesting.
pub const MAX_TABLE_DEPTH: u64 = 4096;

/// The reference-like engine value kinds that cannot be carried over as
/// plain data and are rendered as an address-based placeholder instead.
#[derive(Clone, Copy, PartialEq, Eq, Structural, Debug)]
pub enum OpaqueKind {
    Function,
    Thread,
    LightUserData,
    UserData,
    /// A value kind the engine bindings themselves do not know.
    Other,
}

/// One engine evaluation result, read out of the engine as plain values.
#[derive(Debug)]
pub enum EngineValue {
    Nil,
    Bool { val: bool },
    Int { val: i64 },
    /// A floating-point number, carried as its raw bit pattern.
    Number { bits: u64 },
    /// A UTF-8 engine string.
    Str { val: String },
    /// An engine string that is not valid UTF-8.
    Binary { val: Vec<u8> },
    /// A table, as its key-value pairs in the engine's iteration order.
    Table { pairs: Vec<(EngineValue, EngineValue)> },
    /// A reference-like value, with its address rendered as text.
    Opaque { kind: OpaqueKind, addr: String },
    /// The engine's own error value, which has no faithful host rendering.
    Error,
}

/// Relies on `String::push_str`: appends the slice onto the end of the
/// string.
#[verifier::external_body]
pub(crate) fn append_str(s: &mut String, t: &str)
    ensures
        final(s)@ == old(s)@ + t@,
{
    s.push_str(t)
}

/// The placeholder prefix shown for each opaque value kind.
pub open spec fn kind_prefix(kind: OpaqueKind) -> Seq<char> {
    match kind {
        OpaqueKind::Function => "function"@,
        OpaqueKind::Thread => "thread"@,
        OpaqueKind::LightUserData => "light_user_data"@,
        OpaqueKind::UserData => "user_data"@,
        OpaqueKind::Other => "other"@,
    }
}

/// The full placeholder text for an opaque value: its kind, a separator, and
/// its address.
pub open spec fn opaque_text(kind: OpaqueKind, addr: Seq<char>) -> Seq<char> {
    kind_prefix(kind) + ": "@ + addr
}

/// The message reported when an engine error value reaches the conversion.
pub open spec fn unsupported_error_text() -> Seq<char> {
    "converting mlua internal errors to nushell is not supported"@
}

/// Whether converting this engine value to a host value fails: exactly when
/// an engine error value sits somewhere in the tree.
pub open spec fn conversion_fails(ev: EngineValue) -> bool
    decreases ev,
{
    match ev {
        EngineValue::Error => true,
        EngineValue::Table { pairs } => exists|i: int|
            0 <= i < pairs@.len() && (conversion_fails(#[trigger] pairs@[i].0)
                || conversion_fails(pairs@[i].1)),
        _ => false,
    }
}

/// The conversion relation: `v` is the host rendering of `ev`. Scalars map
/// to their host counterparts, a table maps to a list of two-entry records
/// naming each pair's key and value, and opaque kinds map to their
/// address-based placeholder text. Everything is minted at the unknown span.
pub open spec fn converts(ev: EngineValue, v: NuValue) -> bool
    decreases ev,
{
    match ev {
        EngineValue::Nil => v == (NuValue { data: ValueData::Nothing, span: Span::unknown() }),
        EngineValue::Bool { val } => v == (NuValue {
            data: ValueData::Bool { val },
            span: Span::unknown(),
        }),
        EngineValue::Int { val } => v == (NuValue {
            data: ValueData::Int { val },
            span: Span::unknown(),
        }),
        EngineValue::Number { bits } => v == (NuValue {
            data: ValueData::Float { bits },
            span: Span::unknown(),
        }),
        EngineValue::Str { val } => v == (NuValue {
            data: ValueData::Str { val },
            span: Span::unknown(),
        }),
        EngineValue::Binary { val } => {
            &&& v.span == Span::unknown()
            &&& v.data is Binary
            &&& v.data->Binary_val@ == val@
        },
        EngineValue::Table { pairs } => {
            &&& v.span == Span::unknown()
            &&& v.data is List
            &&& v.data->List_vals@.len() == pairs@.len()
            &&& forall|i: int|
                0 <= i < pairs@.len() ==> entry_record(
                    #[trigger] pairs@[i],
                    v.data->List_vals@[i],
                )
        },
        EngineValue::Opaque { kind, addr } => {
            &&& v.span == Span::unknown()
            &&& v.data is Str
            &&& v.data->Str_val@ == opaque_text(kind, addr@)
        },
        EngineValue::Error => false,
    }
}

/// One table pair's host rendering: a record with an `index` entry for the
/// key and an `item` entry for the value, in that order.
pub open spec fn entry_record(pair: (EngineValue, EngineValue), v: NuValue) -> bool
    decreases pair,
{
    &&& v.span == Span::unknown()
    &&& v.data is Record
    &&& v.data->Record_entries@.len() == 2
    &&& v.data->Record_entries@[0].0@ == "index"@
    &&& converts(pair.0, v.data->Record_entries@[0].1)
    &&& v.data->Record_entries@[1].0@ == "item"@
    &&& converts(pair.1, v.data->Record_entries@[1].1)
}

/// Renders one opaque engine value as its placeholder text.
fn opaque_placeholder(kind: OpaqueKind, addr: &String) -> (s: String)
    ensures
        s@ == opaque_text(kind, addr@),
{
    let mut s: String = match kind {
        OpaqueKind::Function => "function".to_owned(),
        OpaqueKind::Thread => "thread".to_owned(),
        OpaqueKind::LightUserData => "light_user_data".to_owned(),
        OpaqueKind::UserData => "user_data".to_owned(),
        OpaqueKind::Other => "other".to_owned(),
    };
    append_str(&mut s, ": ");
    append_str(&mut s, addr.as_str());
    s
}

/// Maps one engine result to the host value the command returns: the
/// structural mapping the [`converts`] relation describes, failing exactly
/// on engine error values, with the fixed unsupported-error message.
pub fn lua_to_nushell(value: &EngineValue) -> (r: Result<NuValue, Error>)
    ensures
        r is Ok <==> !conversion_fails(*value),
        r matches Ok(v) ==> converts(*value, v),
        r matches Err(e) ==> e matches Error::EngineEvaluation { message } && message@
            == unsupported_error_text(),
    decreases *value,
{
    let span = Span::unknown();
    match value {
        EngineValue::Nil => Ok(NuValue::nothing(span)),
        EngineValue::Bool { val } => Ok(NuValue::bool(*val, span)),
        EngineValue::Int { val } => Ok(NuValue::integer(*val, span)),
        EngineValue::Number { bits } => Ok(NuValue::float_from_bits(*bits, span)),
        EngineValue::Str { val } => Ok(NuValue::string(val.clone(), span)),
        EngineValue::Binary { val } => Ok(NuValue::binary(clone_bytes(val), span)),
        EngineValue::Opaque { kind, addr } => Ok(
            NuValue::string(opaque_placeholder(*kind, addr), span),
        ),
        EngineValue::Error => Err(
            Error::EngineEvaluation {
                message: "converting mlua internal errors to nushell is not supported".to_owned(),
            },
        ),
        EngineValue::Table { pairs } => {
            let mut records: Vec<NuValue> = Vec::new();
            let mut i: usize = 0;
            while i < pairs.len()
                invariant
                    i <= pairs.len(),
                    records.len() == i,
                    span == Span::spec_unknown(),
                    value is Table,
                    value->Table_pairs == *pairs,
                    forall|j: int|
                        0 <= j < i ==> entry_record(#[trigger] pairs@[j], records@[j]),
                    forall|j: int|
                        0 <= j < i ==> !conversion_fails(#[trigger] pairs@[j].0)
                            && !conversion_fails(pairs@[j].1),
                decreases pairs.len() - i,
            {
                proof {
                    assert(decreases_to!(*value => pairs@[i as int].0));
                    assert(decreases_to!(*value => pairs@[i as int].1));
                }
                let key = match lua_to_nushell(&pairs[i].0) {
                    Ok(v) => v,
                    Err(e) => {
                        proof {
                            assert(conversion_fails(pairs@[i as int].0));
                        }
                        return Err(e);
                    },
                };
                let item = match lua_to_nushell(&pairs[i].1) {
                    Ok(v) => v,
                    Err(e) => {
                        proof {
                            assert(conversion_fails(pairs@[i as int].1));
                        }
                        return Err(e);
                    },
                };
                let mut entries: Vec<(String, NuValue)> = Vec::new();
                entries.push(("index".to_owned(), key));
                entries.push(("item".to_owned(), item));
                let ghost gentries = entries@;
                records.push(NuValue::record(entries, span));
                proof {
                    assert(records@[i as int].data->Record_entries@ == gentries);
                    assert(entry_record(pairs@[i as int], records@[i as int]));
                }
                i += 1;
            }
            proof {
                assert(!conversion_fails(*value));
            }
            Ok(NuValue::list(records, span))
        },
    }
}

/// Reads one raw engine value, through the trusted accessors, into a tree of
/// plain values. The engine value is opaque, so nothing can be promised
/// about which tree comes back — everything downstream is verified for every
/// possible tree. `fuel` bounds the table depth followed, since the engine
/// allows cyclic tables.
pub(crate) fn to_engine_value(value: &mlua::Value, fuel: u64) -> (r: Result<EngineValue, Error>)
    ensures
        r matches Err(e) ==> e is EngineEvaluation || e is Bug,
    decreases fuel,
{
    if value_is_nil(value) {
        return Ok(EngineValue::Nil);
    }
    if let Some(val) = value_as_bool(value) {
        return Ok(EngineValue::Bool { val });
    }
    if let Some(val) = value_as_int(value) {
        return Ok(EngineValue::Int { val });
    }
    if let Some(bits) = value_number_bits(value) {
        return Ok(EngineValue::Number { bits });
    }
    if let Some(s) = value_as_string(value) {
        return match lua_string_utf8(&s) {
            Some(val) => Ok(EngineValue::Str { val }),
            None => Ok(EngineValue::Binary { val: lua_string_bytes(&s) }),
        };
    }
    if let Some(t) = value_as_table(value) {
        if fuel == 0 {
            return Err(
                Error::EngineEvaluation {
                    message: "table nesting is too deep to convert".to_owned(),
                },
            );
        }
        let entries = match table_entries(&t) {
            Ok(entries) => entries,
            Err(message) => {
                return Err(Error::EngineEvaluation { message });
            },
        };
        let mut pairs: Vec<(EngineValue, EngineValue)> = Vec::new();
        let mut i: usize = 0;
        while i < entries.len()
            invariant
                i <= entries.len(),
                fuel >= 1,
            decreases entries.len() - i,
        {
            let key = match to_engine_value(&entries[i].0, fuel - 1) {
                Ok(v) => v,
                Err(e) => {
                    return Err(e);
                },
            };
            let item = match to_engine_value(&entries[i].1, fuel - 1) {
                Ok(v) => v,
                Err(e) => {
                    return Err(e);
                },
            };
            pairs.push((key, item));
            i += 1;
        }
        return Ok(EngineValue::Table { pairs });
    }
    if value_is_error(value) {
        return Ok(EngineValue::Error);
    }
    if let Some(kind) = value_opaque_kind(value) {
        return Ok(EngineValue::Opaque { kind, addr: value_addr(value) });
    }
    Err(Error::Bug { message: "unrecognized engine value kind".to_owned() })
}

/// Copies a byte vector; spelled out so the copy is known to preserve the
/// bytes.
fn clone_bytes(bytes: &Vec<u8>) -> (r: Vec<u8>)
    ensures
        r@ == bytes@,
{
    let mut r: Vec<u8> = Vec::new();
    let mut i: usize = 0;
    while i < bytes.len()
        invariant
            i <= bytes.len(),
            r@ == bytes@.take(i as int),
        decreases bytes.len() - i,
    {
        r.push(bytes[i]);
        i += 1;
    }
    proof {
        assert(r@ =~= bytes@);
    }
    r
}

} // verus!

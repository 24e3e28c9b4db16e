//! The response coercion engine: reinterpreting a raw wire reply as the
//! semantic type its command calls for.
use vstd::prelude::*;
use crate::value::{ExpectedReturnType, RawValue};

verus! {

/// The ways a coercion can fail; each carries its condition, and
/// [`TypeConversionError::message`] gives the human-readable text.
#[derive(Clone, Copy, PartialEq, Eq, Structural, Debug)]
pub enum TypeConversionError {
    /// A flat array with an odd number of items cannot be regrouped into a
    /// key/value map.
    OddMapLength,
    /// The reply has a shape that cannot stand for a key/value map.
    UnexpectedMapShape,
    /// The reply could not be read as a 64-bit floating-point number.
    NotDouble,
    /// The reply could not be read as a boolean.
    NotBoolean,
}

/// The bit pattern of the 64-bit floating-point number that a bulk string
/// parses to, or `None` when it does not parse as one.
pub uninterp spec fn double_bits_of_bulk(b: Seq<u8>) -> Option<u64>;

/// The bit pattern of the 64-bit floating-point number nearest to an
/// integer reply.
pub uninterp spec fn double_bits_of_int(i: i64) -> u64;

/// Relies on `redis::from_redis_value` at the 64-bit float type, applied to
/// a bulk string: the parse reads the bytes alone, so the result is a
/// function of them alone. (Constructing `redis::Value::Double` pins the
/// parsed type.)
#[verifier::external_body]
fn parse_double_bits(b: &Vec<u8>) -> (r: Option<u64>)
    ensures
        r == double_bits_of_bulk(b@),
{
    match redis::from_redis_value(redis::Value::BulkString(b.clone())) {
        Ok(d) => {
            let _typed = redis::Value::Double(d);
            Some(d.to_bits())
        }
        Err(_) => None,
    }
}

/// Relies on `redis::from_redis_value` at the 64-bit float type, applied to
/// an integer reply, which it converts to the nearest float; the result
/// depends on the integer alone, and the conversion never fails on an
/// integer. (Constructing `redis::Value::Double` pins the parsed type.)
#[verifier::external_body]
fn int_double_bits(i: i64) -> (r: u64)
    ensures
        r == double_bits_of_int(i),
{
    match redis::from_redis_value(redis::Value::Int(i)) {
        Ok(d) => {
            let _typed = redis::Value::Double(d);
            d.to_bits()
        }
        Err(_) => 0,
    }
}

/// Whether `pairs` is the regrouping of the flat list `items` into
/// consecutive key/value pairs, in order: item `2*i` is the key of pair `i`
/// and item `2*i + 1` its value.
pub open spec fn regrouped(items: Seq<RawValue>, pairs: Seq<(RawValue, RawValue)>) -> bool {
    &&& pairs.len() == items.len() / 2
    &&& forall|i: int|
        0 <= i < pairs.len() ==> #[trigger] pairs[i] == (items[2 * i], items[2 * i + 1])
}

/// The error, if any, that coercing `value` to `expected` produces; `None`
/// means the coercion succeeds.
pub open spec fn conversion_error(value: RawValue, expected: Option<ExpectedReturnType>) -> Option<
    TypeConversionError,
> {
    match expected {
        None => None,
        Some(ExpectedReturnType::Mapping) => match value {
            RawValue::Nil => None,
            RawValue::Mapping(_) => None,
            RawValue::Array(items) => if items@.len() % 2 == 0 {
                None
            } else {
                Some(TypeConversionError::OddMapLength)
            },
            _ => Some(TypeConversionError::UnexpectedMapShape),
        },
        Some(ExpectedReturnType::Double) => match value {
            RawValue::Int(_) => None,
            RawValue::Double(_) => None,
            RawValue::Bulk(b) => if double_bits_of_bulk(b@) is Some {
                None
            } else {
                Some(TypeConversionError::NotDouble)
            },
            _ => Some(TypeConversionError::NotDouble),
        },
        Some(ExpectedReturnType::Boolean) => match value {
            RawValue::Nil => None,
            RawValue::Int(_) => None,
            RawValue::Boolean(_) => None,
            RawValue::Bulk(b) => if b@ == seq![49u8] || b@ == seq![48u8] {
                None
            } else {
                Some(TypeConversionError::NotBoolean)
            },
            _ => Some(TypeConversionError::NotBoolean),
        },
    }
}

/// Whether `out` is the correct coercion of `value` to `expected`. With no
/// expected type the reply passes through unchanged; a map-typed reply keeps
/// nil and maps as they are and regroups flat arrays; a double-typed reply
/// becomes the parsed floating-point bit pattern; a boolean-typed reply
/// becomes the truth value of the integer, bulk `"1"`/`"0"`, nil, or
/// protocol boolean.
pub open spec fn converts_to(
    value: RawValue,
    expected: Option<ExpectedReturnType>,
    out: RawValue,
) -> bool {
    match expected {
        None => out == value,
        Some(ExpectedReturnType::Mapping) => match value {
            RawValue::Nil => out == value,
            RawValue::Mapping(_) => out == value,
            RawValue::Array(items) => items@.len() % 2 == 0 && (out matches RawValue::Mapping(
                pairs,
            ) && regrouped(items@, pairs@)),
            _ => false,
        },
        Some(ExpectedReturnType::Double) => match value {
            RawValue::Int(i) => out == RawValue::Double(double_bits_of_int(i)),
            RawValue::Double(bits) => out == RawValue::Double(bits),
            RawValue::Bulk(b) => double_bits_of_bulk(b@) matches Some(bits) && out
                == RawValue::Double(bits),
            _ => false,
        },
        Some(ExpectedReturnType::Boolean) => match value {
            RawValue::Nil => out == RawValue::Boolean(false),
            RawValue::Int(i) => out == RawValue::Boolean(i != 0),
            RawValue::Boolean(b) => out == RawValue::Boolean(b),
            RawValue::Bulk(b) => (b@ == seq![49u8] && out == RawValue::Boolean(true)) || (b@
                == seq![48u8] && out == RawValue::Boolean(false)),
            _ => false,
        },
    }
}

/// Regroups a flat list of replies into consecutive key/value pairs,
/// preserving order; fails when the list has an odd number of items.
fn regroup_pairs(items: Vec<RawValue>) -> (r: Result<
    Vec<(RawValue, RawValue)>,
    TypeConversionError,
>)
    ensures
        items@.len() % 2 == 0 ==> (r matches Ok(pairs) && regrouped(items@, pairs@)),
        items@.len() % 2 != 0 ==> r == Err::<Vec<(RawValue, RawValue)>, TypeConversionError>(
            TypeConversionError::OddMapLength,
        ),
{
    if items.len() % 2 != 0 {
        return Err(TypeConversionError::OddMapLength);
    }
    let ghost orig: Seq<RawValue> = items@;
    let mut rest = items;
    let mut pairs: Vec<(RawValue, RawValue)> = Vec::new();
    while rest.len() > 0
        invariant
            orig.len() % 2 == 0,
            rest@ =~= orig.skip(2 * pairs@.len() as int),
            2 * pairs@.len() <= orig.len(),
            forall|i: int|
                0 <= i < pairs@.len() ==> #[trigger] pairs@[i] == (orig[2 * i], orig[2 * i + 1]),
        decreases rest@.len(),
    {
        let ghost n: int = pairs@.len() as int;
        proof {
            assert(rest@.len() == orig.len() - 2 * n);
            assert(rest@.len() != 1) by {
                assert((orig.len() - 2 * n) % 2 == 0) by (nonlinear_arith)
                    requires
                        orig.len() % 2 == 0,
                ;
            }
            assert(rest@[0] == orig[2 * n]);
            assert(rest@[1] == orig[2 * n + 1]);
        }
        let key = rest.remove(0);
        let val = rest.remove(0);
        pairs.push((key, val));
    }
    proof {
        assert(orig.skip(2 * pairs@.len() as int).len() == 0);
        assert(2 * pairs@.len() == orig.len());
    }
    Ok(pairs)
}

/// Coerces one raw reply to the semantic type its command calls for. With
/// `None` the reply is returned unchanged, byte for byte; otherwise the
/// coercion follows [`converts_to`], and the result is `Ok` exactly when
/// [`conversion_error`] is `None`.
pub fn convert_to_expected_type(value: RawValue, expected: Option<ExpectedReturnType>) -> (r:
    Result<RawValue, TypeConversionError>)
    ensures
        match r {
            Ok(out) => conversion_error(value, expected) is None && converts_to(
                value,
                expected,
                out,
            ),
            Err(e) => conversion_error(value, expected) == Some(e),
        },
{
    let expected = match expected {
        None => {
            return Ok(value);
        },
        Some(e) => e,
    };
    match expected {
        ExpectedReturnType::Mapping => match value {
            RawValue::Nil => Ok(RawValue::Nil),
            RawValue::Mapping(pairs) => Ok(RawValue::Mapping(pairs)),
            RawValue::Array(items) => match regroup_pairs(items) {
                Ok(pairs) => Ok(RawValue::Mapping(pairs)),
                Err(e) => Err(e),
            },
            _ => Err(TypeConversionError::UnexpectedMapShape),
        },
        ExpectedReturnType::Double => match value {
            RawValue::Int(i) => Ok(RawValue::Double(int_double_bits(i))),
            RawValue::Double(bits) => Ok(RawValue::Double(bits)),
            RawValue::Bulk(b) => match parse_double_bits(&b) {
                Some(bits) => Ok(RawValue::Double(bits)),
                None => Err(TypeConversionError::NotDouble),
            },
            _ => Err(TypeConversionError::NotDouble),
        },
        ExpectedReturnType::Boolean => match value {
            RawValue::Nil => Ok(RawValue::Boolean(false)),
            RawValue::Int(i) => Ok(RawValue::Boolean(i != 0)),
            RawValue::Boolean(b) => Ok(RawValue::Boolean(b)),
            RawValue::Bulk(b) => {
                if b.len() == 1 && b[0] == 49 {
                    proof {
                        assert(b@ =~= seq![49u8]);
                    }
                    Ok(RawValue::Boolean(true))
                } else if b.len() == 1 && b[0] == 48 {
                    proof {
                        assert(b@ =~= seq![48u8]);
                    }
                    Ok(RawValue::Boolean(false))
                } else {
                    proof {
                        assert(b@ != seq![49u8] && b@ != seq![48u8]) by {
                            if b@ == seq![49u8] || b@ == seq![48u8] {
                                assert(b@.len() == 1);
                            }
                        }
                    }
                    Err(TypeConversionError::NotBoolean)
                }
            },
            _ => Err(TypeConversionError::NotBoolean),
        },
    }
}

} // verus!

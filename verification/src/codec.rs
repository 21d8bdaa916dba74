//! Fixed-length binary codec over the interchange value.
//!
//! The interchange format has no fixed-length array type, only variable-length
//! sequences, so binary data of a statically known width crosses the boundary
//! as a sequence of byte-sized numbers whose arity is re-validated on every
//! decode.  A decode never pads short input and never truncates long input:
//! any arity other than the expected one is an error.

use vstd::prelude::*;

use crate::interchange::Value;

verus! {

/// Why a decode of an interchange value failed.
#[derive(Clone, Copy, Debug, PartialEq, Eq, Structural)]
pub enum DecodeError {
    /// The sequence did not hold exactly `expected` elements; `index` is the
    /// first index at which the arity went wrong (the first missing index for
    /// short input, `expected` itself for excess input).
    LengthMismatch { expected: usize, index: usize },
    /// The value was not a sequence, or an element was not a byte-sized
    /// number.
    TypeMismatch,
}

/// An interchange value that stands for one byte: a number no larger than 255.
pub open spec fn is_byte_number(v: Value) -> bool {
    v matches Value::Number(x) && x <= 255
}

/// The byte an element stands for (meaningful only for byte numbers).
pub open spec fn byte_of(v: Value) -> u8 {
    v->Number_0 as u8
}

/// The sequence of interchange elements that encodes `s`, in index order.
pub open spec fn encoded_elems(s: Seq<u8>) -> Seq<Value> {
    Seq::new(s.len(), |i: int| Value::Number(s[i] as u64))
}

/// Whether some element that a decode of arity `n` inspects (the first
/// `min(es.len(), n)` of them) is not a byte-sized number.
pub open spec fn has_type_fault(es: Seq<Value>, n: usize) -> bool {
    exists|i: int| 0 <= i < es.len() && i < n && !is_byte_number(es[i])
}

/// What decoding the elements of a sequence value at arity `n` returns.
///
/// Elements are inspected in index order, so a type fault anywhere in the
/// inspected prefix is reported before a missing or excess element is.
pub open spec fn decode_elems_spec(es: Seq<Value>, n: usize) -> Result<Seq<u8>, DecodeError> {
    if has_type_fault(es, n) {
        Err(DecodeError::TypeMismatch)
    } else if es.len() < n {
        Err(DecodeError::LengthMismatch { expected: n, index: es.len() as usize })
    } else if es.len() > n {
        Err(DecodeError::LengthMismatch { expected: n, index: n })
    } else {
        Ok(Seq::new(n as nat, |i: int| byte_of(es[i])))
    }
}

/// What decoding a whole interchange value at arity `n` returns: a value that
/// is not a sequence is a type mismatch.
pub open spec fn decode_value_spec(v: Value, n: usize) -> Result<Seq<u8>, DecodeError> {
    if v is Sequence {
        decode_elems_spec(v->Sequence_0@, n)
    } else {
        Err(DecodeError::TypeMismatch)
    }
}

/// Encodes `b` as a sequence-typed interchange value holding exactly
/// `b.len()` byte numbers, in index order.
pub fn encode_bytes(b: &Vec<u8>) -> (v: Value)
    ensures
        v is Sequence,
        v->Sequence_0@ == encoded_elems(b@),
{
    let mut elems: Vec<Value> = Vec::new();
    let mut i: usize = 0;
    while i < b.len()
        invariant
            i <= b@.len(),
            elems@.len() == i,
            forall|j: int| 0 <= j < i ==> elems@[j] == Value::Number(b@[j] as u64),
        decreases b@.len() - i,
    {
        elems.push(Value::Number(b[i] as u64));
        i += 1;
    }
    proof {
        assert(elems@ =~= encoded_elems(b@));
    }
    Value::Sequence(elems)
}

/// Decodes a sequence-typed interchange value into exactly `n` bytes.
///
/// Short input fails at the first missing index, excess input fails rather
/// than being truncated, and a non-sequence value or a non-byte element is a
/// type mismatch; the result is exactly what `decode_value_spec` says.
#[verifier::loop_isolation(false)]
pub fn decode_bytes(v: &Value, n: usize) -> (r: Result<Vec<u8>, DecodeError>)
    ensures
        match r {
            Ok(bytes) => decode_value_spec(*v, n) == Ok::<Seq<u8>, DecodeError>(bytes@),
            Err(e) => decode_value_spec(*v, n) == Err::<Seq<u8>, DecodeError>(e),
        },
{
    match v {
        Value::Sequence(elems) => {
            let mut out: Vec<u8> = Vec::new();
            let mut i: usize = 0;
            while i < n
                invariant
                    i <= n,
                    i <= elems@.len(),
                    out@.len() == i,
                    forall|j: int| 0 <= j < i ==> is_byte_number(#[trigger] elems@[j]),
                    forall|j: int| 0 <= j < i ==> out@[j] == byte_of(elems@[j]),
                decreases n - i,
            {
                if i >= elems.len() {
                    proof {
                        assert(!has_type_fault(elems@, n));
                    }
                    return Err(DecodeError::LengthMismatch { expected: n, index: i });
                }
                let e = &elems[i];
                match e {
                    Value::Number(x) => {
                        if *x <= 255 {
                            out.push(*x as u8);
                        } else {
                            proof {
                                assert(!is_byte_number(elems@[i as int]));
                            }
                            return Err(DecodeError::TypeMismatch);
                        }
                    },
                    _ => {
                        proof {
                            assert(!is_byte_number(elems@[i as int]));
                        }
                        return Err(DecodeError::TypeMismatch);
                    },
                }
                i += 1;
            }
            proof {
                assert(!has_type_fault(elems@, n));
            }
            if elems.len() > n {
                return Err(DecodeError::LengthMismatch { expected: n, index: n });
            }
            proof {
                assert(out@ =~= Seq::new(n as nat, |j: int| byte_of(elems@[j])));
            }
            Ok(out)
        },
        _ => Err(DecodeError::TypeMismatch),
    }
}

/// Law: the codec round-trips.  Decoding the encoding of any byte sequence at
/// its own length returns exactly those bytes.
pub proof fn lemma_round_trip(s: Seq<u8>, n: usize)
    requires
        s.len() == n,
    ensures
        decode_elems_spec(encoded_elems(s), n) == Ok::<Seq<u8>, DecodeError>(s),
{
    let es = encoded_elems(s);
    assert forall|i: int| 0 <= i < es.len() implies is_byte_number(#[trigger] es[i]) by {
        assert(es[i] == Value::Number(s[i] as u64));
    }
    assert(!has_type_fault(es, n));
    assert(Seq::new(n as nat, |i: int| byte_of(es[i])) =~= s);
}

/// Law: a sequence of any arity other than the expected one is always
/// rejected — never truncated and never padded — and, whenever its inspected
/// elements are well-typed, the error is precisely a length mismatch naming
/// the expected arity and the first index at which the arity went wrong.
pub proof fn lemma_arity_rejected(es: Seq<Value>, n: usize)
    requires
        es.len() != n,
    ensures
        decode_elems_spec(es, n) is Err,
        !has_type_fault(es, n) ==> decode_elems_spec(es, n) == Err::<Seq<u8>, DecodeError>(
            DecodeError::LengthMismatch {
                expected: n,
                index: (if es.len() < n { es.len() as usize } else { n }),
            },
        ),
{
}

} // verus!

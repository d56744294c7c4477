//! The tolerant decoder: caller fields arrive as a tagged raw value that may
//! be a native boolean, a native number, a text literal, an explicit null,
//! or absent, and are coerced to their typed shape in fixed priority order:
//! a native value passes through, a text value is parsed, anything else is
//! rejected with the offending literal.

use vstd::prelude::*;
use crate::model::DecodeError;
use crate::model::ExcedenciaDirectParams;
use crate::model::NumericValue;
use crate::model::ScenarioView;
use crate::textscan::chars_of;

verus! {

/// One caller-supplied field value, before coercion.
pub enum RawValue {
    Bool(bool),
    Number(NumericValue),
    Text(String),
    Null,
    Absent,
}

/// Case-insensitive match of `a` against a lowercase ASCII letter `b`.
pub open spec fn eq_ci_char(a: char, b: char) -> bool {
    a == b || (65 <= a as u32 && a as u32 <= 90 && a as u32 + 32 == b as u32)
}

/// Case-insensitive equality of `s` against a lowercase ASCII word `t`.
pub open spec fn eq_ci(s: Seq<char>, t: Seq<char>) -> bool {
    s.len() == t.len() && (forall|k: int| 0 <= k < s.len() ==> eq_ci_char(s[k], t[k]))
}

/// Whether a boolean-shaped raw value decodes.
pub open spec fn bool_decodes(v: RawValue) -> bool {
    match v {
        RawValue::Bool(_) => true,
        RawValue::Text(s) => eq_ci(s@, "true"@) || eq_ci(s@, "false"@),
        _ => false,
    }
}

/// The boolean a raw value decodes to, when it decodes.
pub open spec fn bool_decoded(v: RawValue) -> bool {
    match v {
        RawValue::Bool(b) => b,
        RawValue::Text(s) => eq_ci(s@, "true"@),
        _ => arbitrary(),
    }
}

/// Whether a numeric-shaped raw value decodes, `parse` being the platform
/// floating-point parser's reading of the text when the value is one.
pub open spec fn num_decodes(v: RawValue, parse: Option<NumericValue>) -> bool {
    match v {
        RawValue::Number(_) => true,
        RawValue::Null => true,
        RawValue::Absent => true,
        RawValue::Text(_) => parse is Some,
        RawValue::Bool(_) => false,
    }
}

/// The optional number a raw value decodes to, when it decodes.
pub open spec fn num_decoded(v: RawValue, parse: Option<NumericValue>) -> Option<NumericValue> {
    match v {
        RawValue::Number(n) => Some(n),
        RawValue::Null => None,
        RawValue::Absent => None,
        RawValue::Text(_) => parse,
        RawValue::Bool(_) => arbitrary(),
    }
}

/// Whether a string-shaped raw value decodes.
pub open spec fn text_decodes(v: RawValue) -> bool {
    v is Text
}

/// The decoding error owed for a failing boolean-shaped value.
pub open spec fn bool_error_matches(v: RawValue, e: DecodeError) -> bool {
    match v {
        RawValue::Text(s) => e matches DecodeError::InvalidBooleanLiteral(l) && l@ == s@,
        _ => e is UnexpectedShape,
    }
}

/// The decoding error owed for a failing numeric-shaped value.
pub open spec fn num_error_matches(v: RawValue, e: DecodeError) -> bool {
    match v {
        RawValue::Text(s) => e matches DecodeError::InvalidNumericLiteral(l) && l@ == s@,
        _ => e is UnexpectedShape,
    }
}

/// Case-insensitive equality of `s` against a lowercase ASCII word `t`.
fn eq_case_insensitive(s: &str, t: &str) -> (r: bool)
    ensures
        r == eq_ci(s@, t@),
{
    let sv = chars_of(s);
    let tv = chars_of(t);
    if sv.len() != tv.len() {
        return false;
    }
    let mut k: usize = 0;
    while k < sv.len()
        invariant
            0 <= k <= sv@.len(),
            sv@.len() == tv@.len(),
            sv@ == s@,
            tv@ == t@,
            forall|m: int| 0 <= m < k ==> eq_ci_char(s@[m], t@[m]),
        decreases sv@.len() - k,
    {
        let a = sv[k];
        let b = tv[k];
        let au = a as u32;
        let bu = b as u32;
        if !(a == b || (65 <= au && au <= 90 && au + 32 == bu)) {
            assert(!eq_ci_char(s@[k as int], t@[k as int]));
            return false;
        }
        k += 1;
    }
    true
}

/// Coerce a boolean-shaped field: a native boolean passes through, a text
/// value is matched case-insensitively against `true` and `false`, any other
/// text fails with the offending literal, and every other shape (a number,
/// an explicit null, absence) is rejected: the field is mandatory.
pub fn decode_flag(v: &RawValue) -> (r: Result<bool, DecodeError>)
    ensures
        bool_decodes(*v) ==> (r matches Ok(b) && b == bool_decoded(*v)),
        !bool_decodes(*v) ==> (r matches Err(e) && bool_error_matches(*v, e)),
{
    match v {
        RawValue::Bool(b) => Ok(*b),
        RawValue::Text(s) => {
            if eq_case_insensitive(s.as_str(), "true") {
                Ok(true)
            } else if eq_case_insensitive(s.as_str(), "false") {
                Ok(false)
            } else {
                Err(DecodeError::InvalidBooleanLiteral(s.clone()))
            }
        },
        _ => Err(DecodeError::UnexpectedShape),
    }
}

/// Coerce a numeric-shaped field: a native number passes through, an
/// explicit null or absence yields no value (the field is optional), a text
/// value stands or falls with `parse` — the platform floating-point parser's
/// reading of that text, supplied by the caller — and a native boolean is
/// rejected.
pub fn decode_numeric(v: &RawValue, parse: Option<NumericValue>) -> (r: Result<
    Option<NumericValue>,
    DecodeError,
>)
    ensures
        num_decodes(*v, parse) ==> (r matches Ok(n) && n == num_decoded(*v, parse)),
        !num_decodes(*v, parse) ==> (r matches Err(e) && num_error_matches(*v, e)),
{
    match v {
        RawValue::Number(n) => Ok(Some(*n)),
        RawValue::Null => Ok(None),
        RawValue::Absent => Ok(None),
        RawValue::Text(s) => {
            match parse {
                Some(n) => Ok(Some(n)),
                None => Err(DecodeError::InvalidNumericLiteral(s.clone())),
            }
        },
        RawValue::Bool(_) => Err(DecodeError::UnexpectedShape),
    }
}

/// Coerce a string-shaped field: only a text value is accepted.
pub fn decode_text(v: &RawValue) -> (r: Result<String, DecodeError>)
    ensures
        text_decodes(*v) ==> (r matches Ok(s) && *v matches RawValue::Text(w) && s@ == w@),
        !text_decodes(*v) ==> (r matches Err(e) && e is UnexpectedShape),
{
    match v {
        RawValue::Text(s) => Ok(s.clone()),
        _ => Err(DecodeError::UnexpectedShape),
    }
}

/// Decode the whole caller parameter set, field by field in declaration
/// order, the first failing field's error winning.  `numero_hijos_parse` is
/// the platform floating-point parser's reading of `numero_hijos`' text,
/// supplied by the caller when that value is a text.
pub fn decode_direct_params(
    parentesco: &RawValue,
    situacion: &RawValue,
    familia_monoparental: &RawValue,
    numero_hijos: &RawValue,
    numero_hijos_parse: Option<NumericValue>,
) -> (r: Result<ExcedenciaDirectParams, DecodeError>)
    ensures
        (r is Ok) <==> (text_decodes(*parentesco) && text_decodes(*situacion) && bool_decodes(
            *familia_monoparental,
        ) && num_decodes(*numero_hijos, numero_hijos_parse)),
        r matches Ok(p) ==> p@ == (ScenarioView {
            parentesco: (match *parentesco {
                RawValue::Text(s) => s@,
                _ => arbitrary(),
            }),
            situacion: (match *situacion {
                RawValue::Text(s) => s@,
                _ => arbitrary(),
            }),
            familia_monoparental: bool_decoded(*familia_monoparental),
            numero_hijos: num_decoded(*numero_hijos, numero_hijos_parse),
        }),
        r matches Err(e) ==> (if !text_decodes(*parentesco) {
            e is UnexpectedShape
        } else if !text_decodes(*situacion) {
            e is UnexpectedShape
        } else if !bool_decodes(*familia_monoparental) {
            bool_error_matches(*familia_monoparental, e)
        } else {
            num_error_matches(*numero_hijos, e)
        }),
{
    let parentesco_s = match decode_text(parentesco) {
        Ok(s) => s,
        Err(e) => {
            return Err(e);
        },
    };
    let situacion_s = match decode_text(situacion) {
        Ok(s) => s,
        Err(e) => {
            return Err(e);
        },
    };
    let flag = match decode_flag(familia_monoparental) {
        Ok(b) => b,
        Err(e) => {
            return Err(e);
        },
    };
    let count = match decode_numeric(numero_hijos, numero_hijos_parse) {
        Ok(n) => n,
        Err(e) => {
            return Err(e);
        },
    };
    Ok(
        ExcedenciaDirectParams {
            parentesco: parentesco_s,
            situacion: situacion_s,
            familia_monoparental: flag,
            numero_hijos: count,
        },
    )
}

} // verus!

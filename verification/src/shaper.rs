//! The request shaper: the flat caller-facing parameter set is wrapped into
//! the nested envelope the engine expects, and can be read back unchanged as
//! the caller-facing input echo.

use vstd::prelude::*;
use crate::model::ExcedenciaDirectParams;
use crate::model::ExcedenciaInput;
use crate::model::ExcedenciaRequest;

verus! {

/// Wrap the flat parameters into the engine's nested request shape,
/// preserving every field.
pub fn shape_request(p: ExcedenciaDirectParams) -> (r: ExcedenciaRequest)
    ensures
        r.input@ == p@,
{
    ExcedenciaRequest {
        input: ExcedenciaInput {
            parentesco: p.parentesco,
            situacion: p.situacion,
            familia_monoparental: p.familia_monoparental,
            numero_hijos: p.numero_hijos,
        },
    }
}

/// Read the caller-facing input echo back out of a shaped request.
pub fn echo_input(r: &ExcedenciaRequest) -> (p: ExcedenciaDirectParams)
    ensures
        p@ == r.input@,
{
    ExcedenciaDirectParams {
        parentesco: r.input.parentesco.clone(),
        situacion: r.input.situacion.clone(),
        familia_monoparental: r.input.familia_monoparental,
        numero_hijos: r.input.numero_hijos,
    }
}

/// Law: shaping a scenario into the engine request and reading the echo
/// back yields the original scenario.  `q` is any request shaped from `p`
/// and `e` any echo read back from `q`, each as the shaping functions
/// promise; the echo then equals the original in every field.
pub proof fn lemma_shape_round_trip(
    p: ExcedenciaDirectParams,
    q: ExcedenciaRequest,
    e: ExcedenciaDirectParams,
)
    requires
        q.input@ == p@,
        e@ == q.input@,
    ensures
        e@ == p@,
        e.parentesco@ == p.parentesco@,
        e.situacion@ == p.situacion@,
        e.familia_monoparental == p.familia_monoparental,
        e.numero_hijos == p.numero_hijos,
{
}

} // verus!

//! Caller-facing and engine-facing data types of the evaluation pipeline.

use vstd::prelude::*;

verus! {

/// One field-level rejection recovered from the engine's diagnostics.
#[derive(Debug)]
pub struct ValidationError {
    pub message: String,
    pub path: String,
}

/// The `source` member of the engine's validation envelope: the list of
/// field-level rejections.
pub struct ValidationErrorSource {
    pub errors: Vec<ValidationError>,
}

/// The structured validation envelope the engine embeds in its diagnostics:
/// `{"source":{"errors":[...]},"type":"..."}`.
pub struct ValidationErrorDetails {
    pub source: ValidationErrorSource,
    pub error_type: String,
}

/// Spec-level image of a `ValidationError`: the pair (message, path).
pub ghost struct IssueView {
    pub message: Seq<char>,
    pub path: Seq<char>,
}

impl View for ValidationError {
    type V = IssueView;

    open spec fn view(&self) -> IssueView {
        IssueView { message: self.message@, path: self.path@ }
    }
}

/// Spec-level image of a list of validation errors.
pub open spec fn issues_view(s: Seq<ValidationError>) -> Seq<IssueView> {
    s.map_values(|e: ValidationError| e@)
}

/// An IEEE-754 double carried opaquely as its raw bit pattern; the pipeline
/// never computes with it, only passes it through to the engine.
#[derive(PartialEq, Eq, Structural, Clone, Copy, Debug)]
pub struct NumericValue {
    pub bits: u64,
}

/// Spec-level image of a scenario: the four caller-supplied fields.
pub ghost struct ScenarioView {
    pub parentesco: Seq<char>,
    pub situacion: Seq<char>,
    pub familia_monoparental: bool,
    pub numero_hijos: Option<NumericValue>,
}

/// The flat, caller-facing parameter set of one evaluation.
pub struct ExcedenciaDirectParams {
    pub parentesco: String,
    pub situacion: String,
    pub familia_monoparental: bool,
    pub numero_hijos: Option<NumericValue>,
}

impl View for ExcedenciaDirectParams {
    type V = ScenarioView;

    open spec fn view(&self) -> ScenarioView {
        ScenarioView {
            parentesco: self.parentesco@,
            situacion: self.situacion@,
            familia_monoparental: self.familia_monoparental,
            numero_hijos: self.numero_hijos,
        }
    }
}

/// The scenario fields in the nested shape the engine expects.
pub struct ExcedenciaInput {
    pub parentesco: String,
    pub situacion: String,
    pub familia_monoparental: bool,
    pub numero_hijos: Option<NumericValue>,
}

impl View for ExcedenciaInput {
    type V = ScenarioView;

    open spec fn view(&self) -> ScenarioView {
        ScenarioView {
            parentesco: self.parentesco@,
            situacion: self.situacion@,
            familia_monoparental: self.familia_monoparental,
            numero_hijos: self.numero_hijos,
        }
    }
}

/// The envelope object the engine takes as its evaluation context.
pub struct ExcedenciaRequest {
    pub input: ExcedenciaInput,
}

/// Spec-level image of an evaluation outcome.
pub ghost struct OutcomeView {
    pub descripcion: Seq<char>,
    pub importe_mensual: i32,
    pub requisitos_adicionales: Seq<char>,
    pub supuesto: Seq<char>,
    pub tiene_derecho_potencial: bool,
    pub errores: Seq<Seq<char>>,
    pub advertencias: Seq<Seq<char>>,
}

/// The engine's raw success payload, as handed over by the evaluation
/// boundary: the ruleset's own output contract.
pub struct ExcedenciaOutput {
    pub descripcion: String,
    pub importe_mensual: i32,
    pub requisitos_adicionales: String,
    pub supuesto: String,
    pub tiene_derecho_potencial: bool,
    pub errores: Vec<String>,
    pub advertencias: Vec<String>,
}

impl View for ExcedenciaOutput {
    type V = OutcomeView;

    open spec fn view(&self) -> OutcomeView {
        OutcomeView {
            descripcion: self.descripcion@,
            importe_mensual: self.importe_mensual,
            requisitos_adicionales: self.requisitos_adicionales@,
            supuesto: self.supuesto@,
            tiene_derecho_potencial: self.tiene_derecho_potencial,
            errores: self.errores.deep_view(),
            advertencias: self.advertencias.deep_view(),
        }
    }
}

/// The caller-facing outcome: description, monthly amount in euros, any
/// additional requirements, the case letter, the entitlement flag, and the
/// error and warning lists.
pub struct ExcedenciaOutputForSchema {
    pub descripcion: String,
    pub importe_mensual: i32,
    pub requisitos_adicionales: String,
    pub supuesto: String,
    pub tiene_derecho_potencial: bool,
    pub errores: Vec<String>,
    pub advertencias: Vec<String>,
}

impl View for ExcedenciaOutputForSchema {
    type V = OutcomeView;

    open spec fn view(&self) -> OutcomeView {
        OutcomeView {
            descripcion: self.descripcion@,
            importe_mensual: self.importe_mensual,
            requisitos_adicionales: self.requisitos_adicionales@,
            supuesto: self.supuesto@,
            tiene_derecho_potencial: self.tiene_derecho_potencial,
            errores: self.errores.deep_view(),
            advertencias: self.advertencias.deep_view(),
        }
    }
}

/// The caller-facing response: the reshaped outcome, the input echoed back
/// for traceability, and the engine's relationship-validity flag.
pub struct ExcedenciaResponse {
    pub output: ExcedenciaOutputForSchema,
    pub input: Option<ExcedenciaInput>,
    pub parentesco_valido: Option<bool>,
}

/// A failed evaluation: field-level validation issues, an opaque
/// engine-internal diagnostic, or an opaque payload-encoding diagnostic.
pub enum ExcedenciaError {
    ValidationError(Vec<ValidationError>),
    ZenEngineError(String),
    SerializationError(String),
}

/// A failure of the tolerant decoder, carrying the offending literal where
/// one exists.
#[derive(Debug, PartialEq, Eq)]
pub enum DecodeError {
    InvalidBooleanLiteral(String),
    InvalidNumericLiteral(String),
    UnexpectedShape,
}

/// Reshape the engine's raw success payload into the caller-facing outcome,
/// keeping every caller-facing field and nothing else.
pub fn reshape_output(raw: ExcedenciaOutput) -> (r: ExcedenciaOutputForSchema)
    ensures
        r@ == raw@,
{
    ExcedenciaOutputForSchema {
        descripcion: raw.descripcion,
        importe_mensual: raw.importe_mensual,
        requisitos_adicionales: raw.requisitos_adicionales,
        supuesto: raw.supuesto,
        tiene_derecho_potencial: raw.tiene_derecho_potencial,
        errores: raw.errores,
        advertencias: raw.advertencias,
    }
}

/// Classify a failed engine evaluation: salvaged issues make it a validation
/// failure, anything else stays an opaque engine-internal failure carrying
/// the diagnostic text.
pub fn salvage_outcome(extracted: Option<Vec<ValidationError>>, detail: String) -> (r:
    ExcedenciaError)
    ensures
        match extracted {
            Some(errs) => r matches ExcedenciaError::ValidationError(v) && issues_view(v@)
                == issues_view(errs@),
            None => r matches ExcedenciaError::ZenEngineError(d) && d@ == detail@,
        },
{
    match extracted {
        Some(errs) => ExcedenciaError::ValidationError(errs),
        None => ExcedenciaError::ZenEngineError(detail),
    }
}

} // verus!

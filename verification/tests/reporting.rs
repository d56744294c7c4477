use excedencia::ExcedenciaError;
use excedencia::ExcedenciaInput;
use excedencia::ExcedenciaOutput;
use excedencia::ExcedenciaResponse;
use excedencia::NumericValue;
use excedencia::ValidationError;
use excedencia::render_validation_report;
use excedencia::reshape_output;

fn num(v: f64) -> NumericValue {
    NumericValue { bits: v.to_bits() }
}

#[test]
fn validation_failures_render_with_full_per_issue_detail() {
    let e = ExcedenciaError::ValidationError(vec![
        ValidationError { message: "m1".to_string(), path: "/input/parentesco".to_string() },
        ValidationError { message: "m2".to_string(), path: "/input/situacion".to_string() },
    ]);
    assert_eq!(
        e.render(),
        "Errores de validación:\n  - /input/parentesco: m1\n  - /input/situacion: m2\n"
    );
}

#[test]
fn opaque_failures_render_behind_their_headings() {
    let e = ExcedenciaError::ZenEngineError("graph buckled".to_string());
    assert_eq!(e.render(), "Error del motor de decisión: graph buckled");
    let s = ExcedenciaError::SerializationError("bad payload".to_string());
    assert_eq!(s.render(), "Error de serialización: bad payload");
}

#[test]
fn field_report_names_each_offending_field() {
    let errs = vec![
        ValidationError { message: "not valid".to_string(), path: "parentesco".to_string() },
    ];
    assert_eq!(
        render_validation_report(&errs),
        "Errores de validación:\n  - Campo 'parentesco': not valid\n"
    );
}

#[test]
fn reshaper_keeps_the_entitled_caregiving_outcome() {
    // the tier the ruleset owes relationship "madre", trigger "enfermedad",
    // two-parent family, no child count
    let raw = ExcedenciaOutput {
        descripcion: "Cuidado de familiar enfermo".to_string(),
        importe_mensual: 725,
        requisitos_adicionales: String::new(),
        supuesto: "A".to_string(),
        tiene_derecho_potencial: true,
        errores: vec![],
        advertencias: vec![],
    };
    let out = reshape_output(raw);
    assert_eq!(out.supuesto, "A");
    assert_eq!(out.importe_mensual, 725);
    assert!(out.tiene_derecho_potencial);
    assert!(out.errores.is_empty());
}

#[test]
fn reshaper_keeps_the_single_parent_newborn_outcome() {
    // the tier the ruleset owes relationship "madre", trigger "parto",
    // single-parent family, one child
    let raw = ExcedenciaOutput {
        descripcion: "Familia monoparental".to_string(),
        importe_mensual: 500,
        requisitos_adicionales: "Acreditar la condición monoparental".to_string(),
        supuesto: "E".to_string(),
        tiene_derecho_potencial: true,
        errores: vec![],
        advertencias: vec!["aviso".to_string()],
    };
    let out = reshape_output(raw);
    assert_eq!(out.supuesto, "E");
    assert_eq!(out.importe_mensual, 500);
    assert_eq!(out.descripcion, "Familia monoparental");
    assert_eq!(out.requisitos_adicionales, "Acreditar la condición monoparental");
    assert_eq!(out.advertencias, vec!["aviso".to_string()]);
}

#[test]
fn responses_echo_the_original_input() {
    let raw = ExcedenciaOutput {
        descripcion: "Tercer hijo".to_string(),
        importe_mensual: 500,
        requisitos_adicionales: String::new(),
        supuesto: "B".to_string(),
        tiene_derecho_potencial: true,
        errores: vec![],
        advertencias: vec![],
    };
    let response = ExcedenciaResponse {
        output: reshape_output(raw),
        input: Some(ExcedenciaInput {
            parentesco: "madre".to_string(),
            situacion: "parto".to_string(),
            familia_monoparental: false,
            numero_hijos: Some(num(3.0)),
        }),
        parentesco_valido: Some(true),
    };
    assert_eq!(response.output.supuesto, "B");
    let echoed = response.input.unwrap();
    assert_eq!(echoed.parentesco, "madre");
    assert_eq!(echoed.numero_hijos, Some(num(3.0)));
    assert_eq!(response.parentesco_valido, Some(true));
}

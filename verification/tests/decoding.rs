use excedencia::DecodeError;
use excedencia::ExcedenciaDirectParams;
use excedencia::NumericValue;
use excedencia::RawValue;
use excedencia::decode_direct_params;
use excedencia::decode_flag;
use excedencia::decode_numeric;
use excedencia::decode_text;
use excedencia::echo_input;
use excedencia::shape_request;

fn num(v: f64) -> NumericValue {
    NumericValue { bits: v.to_bits() }
}

fn parse_of(s: &str) -> Option<NumericValue> {
    s.parse::<f64>().ok().map(|v| num(v))
}

#[test]
fn decoder_accepts_native_and_text_booleans() {
    assert_eq!(decode_flag(&RawValue::Bool(true)), Ok(true));
    assert_eq!(decode_flag(&RawValue::Text("true".to_string())), Ok(true));
    assert_eq!(decode_flag(&RawValue::Text("True".to_string())), Ok(true));
    assert_eq!(decode_flag(&RawValue::Text("TRUE".to_string())), Ok(true));
    assert_eq!(decode_flag(&RawValue::Bool(false)), Ok(false));
    assert_eq!(decode_flag(&RawValue::Text("false".to_string())), Ok(false));
}

#[test]
fn decoder_rejects_other_boolean_literals() {
    match decode_flag(&RawValue::Text("maybe".to_string())) {
        Err(DecodeError::InvalidBooleanLiteral(l)) => assert_eq!(l, "maybe"),
        other => panic!("expected the offending literal back, got {:?}", other.is_ok()),
    }
    assert!(decode_flag(&RawValue::Null).is_err());
    assert!(decode_flag(&RawValue::Absent).is_err());
    assert!(decode_flag(&RawValue::Number(num(1.0))).is_err());
}

#[test]
fn decoder_coerces_numbers_from_every_accepted_shape() {
    let three = num(3.0);
    assert_eq!(decode_numeric(&RawValue::Number(num(3.0)), None), Ok(Some(three)));
    assert_eq!(
        decode_numeric(&RawValue::Text("3".to_string()), parse_of("3")),
        Ok(Some(three))
    );
    assert_eq!(decode_numeric(&RawValue::Number(num(3 as f64)), None), Ok(Some(three)));
    assert_eq!(decode_numeric(&RawValue::Null, None), Ok(None));
    assert_eq!(decode_numeric(&RawValue::Absent, None), Ok(None));
}

#[test]
fn decoder_rejects_bad_numeric_literals() {
    match decode_numeric(&RawValue::Text("abc".to_string()), parse_of("abc")) {
        Err(DecodeError::InvalidNumericLiteral(l)) => assert_eq!(l, "abc"),
        other => panic!("expected the offending literal back, got {:?}", other.is_ok()),
    }
    assert!(decode_numeric(&RawValue::Bool(true), None).is_err());
}

#[test]
fn decoder_accepts_only_text_for_string_fields() {
    assert_eq!(decode_text(&RawValue::Text("madre".to_string())), Ok("madre".to_string()));
    assert!(decode_text(&RawValue::Null).is_err());
    assert!(decode_text(&RawValue::Bool(true)).is_err());
}

#[test]
fn whole_parameter_set_decodes_in_field_order() {
    let p = decode_direct_params(
        &RawValue::Text("madre".to_string()),
        &RawValue::Text("parto".to_string()),
        &RawValue::Text("True".to_string()),
        &RawValue::Text("3".to_string()),
        parse_of("3"),
    )
    .unwrap();
    assert_eq!(p.parentesco, "madre");
    assert_eq!(p.situacion, "parto");
    assert!(p.familia_monoparental);
    assert_eq!(p.numero_hijos, Some(num(3.0)));

    // the first failing field's error wins
    match decode_direct_params(
        &RawValue::Null,
        &RawValue::Text("parto".to_string()),
        &RawValue::Text("maybe".to_string()),
        &RawValue::Absent,
        None,
    ) {
        Err(DecodeError::UnexpectedShape) => {},
        _ => panic!("expected the relationship field's shape error first"),
    }
    match decode_direct_params(
        &RawValue::Text("madre".to_string()),
        &RawValue::Text("parto".to_string()),
        &RawValue::Text("maybe".to_string()),
        &RawValue::Absent,
        None,
    ) {
        Err(DecodeError::InvalidBooleanLiteral(l)) => assert_eq!(l, "maybe"),
        _ => panic!("expected the boolean literal error"),
    }
}

#[test]
fn shaping_round_trips_the_scenario() {
    let p = ExcedenciaDirectParams {
        parentesco: "madre".to_string(),
        situacion: "enfermedad".to_string(),
        familia_monoparental: false,
        numero_hijos: Some(num(1.0)),
    };
    let q = shape_request(p);
    assert_eq!(q.input.parentesco, "madre");
    assert_eq!(q.input.situacion, "enfermedad");
    assert!(!q.input.familia_monoparental);
    assert_eq!(q.input.numero_hijos, Some(num(1.0)));
    let e = echo_input(&q);
    assert_eq!(e.parentesco, "madre");
    assert_eq!(e.situacion, "enfermedad");
    assert!(!e.familia_monoparental);
    assert_eq!(e.numero_hijos, Some(num(1.0)));
}

#[test]
fn shaping_round_trips_without_child_count() {
    let p = ExcedenciaDirectParams {
        parentesco: "padre".to_string(),
        situacion: "parto".to_string(),
        familia_monoparental: true,
        numero_hijos: None,
    };
    let q = shape_request(p);
    let e = echo_input(&q);
    assert_eq!(e.parentesco, "padre");
    assert_eq!(e.situacion, "parto");
    assert!(e.familia_monoparental);
    assert_eq!(e.numero_hijos, None);
}

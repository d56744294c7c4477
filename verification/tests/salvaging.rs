use excedencia::ExcedenciaDecisionEngine;
use excedencia::ExcedenciaError;
use excedencia::ValidationErrorDetails;
use excedencia::ValidationErrorSource;
use excedencia::salvage_outcome;

#[test]
fn cascade_recovers_the_embedded_envelope_from_noise() {
    let text = "node execution halted >> \
        {\"source\":{\"errors\":[{\"message\":\"m\",\"path\":\"p\"}]},\"type\":\"Validation\"} \
        << trailing noise";
    let issues = ExcedenciaDecisionEngine::extract_from_error_string(text).unwrap();
    assert_eq!(issues.len(), 1);
    assert_eq!(issues[0].message, "m");
    assert_eq!(issues[0].path, "p");
}

#[test]
fn cascade_recovers_several_issues_in_order() {
    let text = "{\"source\":{\"errors\":[\
        {\"message\":\"first\",\"path\":\"/input/a\"},\
        {\"path\":\"/input/b\",\"message\":\"second\"}\
        ]},\"type\":\"Validation\"}";
    let issues = ExcedenciaDecisionEngine::extract_from_error_string(text).unwrap();
    assert_eq!(issues.len(), 2);
    assert_eq!(issues[0].message, "first");
    assert_eq!(issues[0].path, "/input/a");
    assert_eq!(issues[1].message, "second");
    assert_eq!(issues[1].path, "/input/b");
}

#[test]
fn cascade_decodes_escapes_inside_the_envelope() {
    let text = "{\"source\":{\"errors\":[{\"message\":\"say \\\"no\\\"\\n\\u0041\",\
        \"path\":\"/input/x\"}]},\"type\":\"Validation\"}";
    let issues = ExcedenciaDecisionEngine::extract_from_error_string(text).unwrap();
    assert_eq!(issues.len(), 1);
    assert_eq!(issues[0].message, "say \"no\"\nA");
    assert_eq!(issues[0].path, "/input/x");
}

#[test]
fn envelope_decoder_accepts_whitespace_between_tokens() {
    let text = "{ \"source\" : { \"errors\" : [ { \"message\" : \"m\" , \
        \"path\" : \"/input/y\" } ] } , \"type\" : \"Validation\" }";
    let chars: Vec<char> = text.chars().collect();
    let issues = excedencia::decode_envelope(&chars).unwrap();
    assert_eq!(issues.len(), 1);
    assert_eq!(issues[0].message, "m");
    assert_eq!(issues[0].path, "/input/y");
}

#[test]
fn envelope_decoder_rejects_malformed_candidates() {
    for bad in [
        "{\"source\":{\"errors\":[{\"message\":\"m\"}]},\"type\":\"Validation\"}",
        "{\"errors\":[{\"message\":\"m\",\"path\":\"p\"}],\"type\":\"Validation\"}",
        "{\"source\":{\"errors\":[{\"message\":\"m\",\"path\":\"p\"}]},\"type\":\"Validation\"} x",
        "{\"source\":{\"errors\":[{\"message\":\"m\",\"path\":\"p\"}]},\"type\":2}",
        "{\"source\":{\"errors\":[{\"message\":\"m\",\"path\":\"p\",\"path\":\"q\"}]},\"type\":\"Validation\"}",
    ] {
        let chars: Vec<char> = bad.chars().collect();
        assert!(excedencia::decode_envelope(&chars).is_none());
    }
}

#[test]
fn cascade_decodes_an_empty_issue_list() {
    let text = "{\"source\":{\"errors\":[]},\"type\":\"Validation\"}";
    let issues = ExcedenciaDecisionEngine::extract_from_error_string(text).unwrap();
    assert_eq!(issues.len(), 0);
}

#[test]
fn heuristic_recovers_message_and_sentinel_path() {
    let text = "engine said {\"message\":\"X is not one of [alpha beta]\"} and nothing more";
    let issues = ExcedenciaDecisionEngine::extract_from_error_string(text).unwrap();
    assert_eq!(issues.len(), 1);
    assert_eq!(issues[0].message, "X is not one of [alpha beta]");
    assert_eq!(issues[0].path, "/input/unknown");
}

#[test]
fn heuristic_picks_up_a_path_fragment_too() {
    let text = "oops {\"message\":\"Y is not one of [uno dos]\",\"path\":\"/input/situacion\"}";
    let issues = ExcedenciaDecisionEngine::manual_extract_errors(text).unwrap();
    assert_eq!(issues.len(), 1);
    assert_eq!(issues[0].message, "Y is not one of [uno dos]");
    assert_eq!(issues[0].path, "/input/situacion");
}

#[test]
fn heuristic_needs_the_membership_phrase() {
    let text = "oops {\"message\":\"something else went wrong\",\"path\":\"/input/x\"}";
    assert!(ExcedenciaDecisionEngine::manual_extract_errors(text).is_none());
}

#[test]
fn later_fragments_win_in_the_heuristic() {
    let text = "is not one of ,\"message\":\"early\" junk\" tail,\"message\":\"late\" rest\"";
    let issues = ExcedenciaDecisionEngine::manual_extract_errors(text).unwrap();
    assert_eq!(issues.len(), 1);
    assert_eq!(issues[0].message, "late");
}

#[test]
fn opaque_texts_recover_nothing_and_stay_engine_internal() {
    let text = "wire broke while talking to the decision graph";
    assert!(ExcedenciaDecisionEngine::extract_from_error_string(text).is_none());
    let outcome = salvage_outcome(None, text.to_string());
    match outcome {
        ExcedenciaError::ZenEngineError(d) => assert_eq!(d, text),
        _ => panic!("an unrecoverable failure must stay engine-internal"),
    }
}

#[test]
fn recovered_issues_classify_as_validation_failures() {
    let text = "{\"source\":{\"errors\":[{\"message\":\"\\\"hermano\\\" is not one of the allowed \
        relationship values\",\"path\":\"/input/parentesco\"}]},\"type\":\"Validation\"}";
    let issues = ExcedenciaDecisionEngine::extract_from_error_string(text).unwrap();
    let outcome = salvage_outcome(Some(issues), String::new());
    match outcome {
        ExcedenciaError::ValidationError(errs) => {
            assert!(errs.len() >= 1);
            assert_eq!(errs[0].path, "/input/parentesco");
            assert!(errs[0].message.contains("is not one of"));
        },
        _ => panic!("salvaged issues must classify as a validation failure"),
    }
}

#[test]
fn envelope_shape_carries_extracted_issues() {
    let text = "{\"source\":{\"errors\":[{\"message\":\"m\",\"path\":\"p\"}]},\"type\":\"Validation\"}";
    let issues = ExcedenciaDecisionEngine::extract_from_error_string(text).unwrap();
    let details = ValidationErrorDetails {
        source: ValidationErrorSource { errors: issues },
        error_type: "Validation".to_string(),
    };
    assert_eq!(details.source.errors.len(), 1);
    assert_eq!(details.source.errors[0].message, "m");
    assert_eq!(details.source.errors[0].path, "p");
    assert_eq!(details.error_type, "Validation");
}

#[test]
fn bare_errors_marker_falls_through_to_the_heuristic() {
    let text = "tail \"errors\":[broken json] but \"hermano\" is not one of: \
        {\"message\":\"bad relationship\" x\"";
    let issues = ExcedenciaDecisionEngine::extract_json_from_string(text).unwrap();
    assert_eq!(issues.len(), 1);
    assert_eq!(issues[0].message, "bad relationship");
    assert_eq!(issues[0].path, "/input/unknown");
}

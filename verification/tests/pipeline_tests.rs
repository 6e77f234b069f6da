use request_validation::errors::{ValidationError, ValidationErrorTree, ValidationErrorsKind};
use request_validation::flatten::flatten_errors;
use request_validation::pipeline::{resolve_extraction, PipelineOutcome, Validate};
use request_validation::registry::HandlerRegistry;
use request_validation::render::{default_error_body, default_error_body_list, Error};
use request_validation::Validated;

#[derive(Debug, PartialEq)]
struct ExamplePayload {
    name: String,
}

fn single_field_tree(field: &str, message: &str) -> ValidationErrorTree {
    ValidationErrorTree {
        entries: vec![(
            field.to_string(),
            ValidationErrorsKind::Leaf(vec![ValidationError::new(message.to_string())]),
        )],
    }
}

impl Validate for ExamplePayload {
    fn valid(&self) -> bool {
        self.name.len() > 4
    }

    fn errors(&self) -> ValidationErrorTree {
        single_field_tree("name", "name not long enough")
    }

    fn validate(&self) -> Result<(), ValidationErrorTree> {
        if self.name.len() > 4 {
            Ok(())
        } else {
            Err(single_field_tree("name", "name not long enough"))
        }
    }
}

/// The status the request would get: 200 on success, the default error's
/// status when validation failed without a handler.
fn status_of(out: PipelineOutcome<ExamplePayload, String>) -> u16 {
    match out {
        PipelineOutcome::Success(_) => 200,
        PipelineOutcome::ValidationFailedDefault(t) => Error::Validate(t).status_code(),
        other => panic!("unexpected outcome {other:?}"),
    }
}

#[test]
fn should_validate_simple() {
    // Valid request
    let out = resolve_extraction::<ExamplePayload, String>(
        Ok(ExamplePayload { name: "123456".to_string() }),
        false,
    );
    assert_eq!(status_of(out), 200);

    // Invalid request
    let out = resolve_extraction::<ExamplePayload, String>(
        Ok(ExamplePayload { name: "1234".to_string() }),
        false,
    );
    assert_eq!(status_of(out), 400);
}

#[test]
fn valid_input_is_wrapped_unchanged() {
    let out = resolve_extraction::<ExamplePayload, String>(
        Ok(ExamplePayload { name: "abcdef".to_string() }),
        false,
    );
    match out {
        PipelineOutcome::Success(v) => {
            assert_eq!(v, Validated(ExamplePayload { name: "abcdef".to_string() }));
            assert_eq!(v.get().name.len(), 6);
        }
        other => panic!("expected success, got {other:?}"),
    }
}

#[test]
fn extraction_failure_passes_through_and_skips_validation() {
    let out = resolve_extraction::<ExamplePayload, String>(
        Err("payload is not valid json".to_string()),
        true,
    );
    assert_eq!(
        out,
        PipelineOutcome::ExtractionFailed("payload is not valid json".to_string())
    );
}

#[test]
fn should_respond_with_errors_correctly() {
    // Invalid request, no handler registered: the default flat-list body.
    let out = resolve_extraction::<ExamplePayload, String>(
        Ok(ExamplePayload { name: "1234".to_string() }),
        false,
    );
    match out {
        PipelineOutcome::ValidationFailedDefault(t) => {
            let messages: Vec<ValidationError> =
                flatten_errors(&t).into_iter().map(|f| f.error).collect();
            let body = default_error_body_list(&messages);
            assert_eq!(body, "Validation errors in fields:\n\tname not long enough");
        }
        other => panic!("expected the default validation failure, got {other:?}"),
    }
}

#[test]
fn should_use_allow_custom_error_responses() {
    // A registered handler has full authority over the response body.
    let handler = |errors: &ValidationErrorTree| -> (u16, String) {
        let messages: Vec<String> = flatten_errors(errors)
            .into_iter()
            .map(|f| format!("\"{}\"", f.error.message))
            .collect();
        (
            400,
            format!(
                "{{\"custom_message\":\"My custom message\",\"errors\":[{}]}}",
                messages.join(",")
            ),
        )
    };
    let mut registry: HandlerRegistry<fn(&ValidationErrorTree) -> (u16, String)> =
        HandlerRegistry::new();
    registry.register(handler);

    let out = resolve_extraction::<ExamplePayload, String>(
        Ok(ExamplePayload { name: "1234".to_string() }),
        registry.is_registered(),
    );
    match out {
        PipelineOutcome::ValidationFailedHandled(t) => {
            let h = registry.lookup().expect("handler was registered");
            let (status, body) = h(&t);
            assert_eq!(status, 400);
            assert_eq!(
                body,
                "{\"custom_message\":\"My custom message\",\"errors\":[\"name not long enough\"]}"
            );
        }
        other => panic!("expected the handled validation failure, got {other:?}"),
    }
}

/// A payload validated by a rule engine that reports `length is lower
/// than 5` for short names, as a tree of field paths and messages.
#[derive(Debug, PartialEq)]
struct LengthRuledPayload {
    name: String,
}

impl Validate for LengthRuledPayload {
    fn valid(&self) -> bool {
        self.name.len() >= 5
    }

    fn errors(&self) -> ValidationErrorTree {
        single_field_tree("name", "length is lower than 5")
    }

    fn validate(&self) -> Result<(), ValidationErrorTree> {
        if self.valid() {
            Ok(())
        } else {
            Err(self.errors())
        }
    }
}

fn run_length_rule(name: &str) -> PipelineOutcome<LengthRuledPayload, String> {
    resolve_extraction::<LengthRuledPayload, String>(
        Ok(LengthRuledPayload { name: name.to_string() }),
        false,
    )
}

#[test]
fn flat_list_scenario_renders_a_tabbed_line() {
    // `{"name": "abcd"}` against "name length >= 5", flat-list rendering.
    match run_length_rule("abcd") {
        PipelineOutcome::ValidationFailedDefault(t) => {
            let e = Error::Validate(t);
            assert_eq!(e.status_code(), 400);
            assert_eq!(
                e.error_body(true),
                "Validation errors in fields:\n\tname: length is lower than 5"
            );
        }
        other => panic!("expected the default validation failure, got {other:?}"),
    }
}

#[test]
fn garde_should_respond_with_errors_correctly() {
    // The same input with the tree-shaped rendering: no leading tab.
    match run_length_rule("abcd") {
        PipelineOutcome::ValidationFailedDefault(t) => {
            assert_eq!(
                default_error_body(&t, false),
                "Validation errors in fields:\nname: length is lower than 5"
            );
        }
        other => panic!("expected the default validation failure, got {other:?}"),
    }
}

#[test]
fn garde_should_validate_simple() {
    // `{"name": "abcdef"}` passes the rule and the route sees length 6.
    match run_length_rule("abcdef") {
        PipelineOutcome::Success(v) => assert_eq!(v.get().name.len(), 6),
        other => panic!("expected success, got {other:?}"),
    }
}

#[test]
fn validator_should_use_allow_custom_error_responses() {
    // A handler that reports the failing field paths rather than messages.
    let out = resolve_extraction::<ExamplePayload, String>(
        Ok(ExamplePayload { name: "1234".to_string() }),
        true,
    );
    match out {
        PipelineOutcome::ValidationFailedHandled(t) => {
            let fields: Vec<String> = flatten_errors(&t)
                .into_iter()
                .map(|f| format!("\"{}\"", f.path))
                .collect();
            let body = format!(
                "{{\"custom_message\":\"My custom message\",\"errors\":[{}]}}",
                fields.join(",")
            );
            assert_eq!(
                body,
                "{\"custom_message\":\"My custom message\",\"errors\":[\"name\"]}"
            );
        }
        other => panic!("expected the handled validation failure, got {other:?}"),
    }
}

#[test]
fn handler_receives_the_full_unflattened_payload() {
    let out = resolve_extraction::<ExamplePayload, String>(
        Ok(ExamplePayload { name: "1234".to_string() }),
        true,
    );
    match out {
        PipelineOutcome::ValidationFailedHandled(t) => {
            assert_eq!(t, single_field_tree("name", "name not long enough"));
        }
        other => panic!("expected the handled validation failure, got {other:?}"),
    }
}

#[test]
fn registered_handler_suppresses_the_default_body() {
    let out = resolve_extraction::<ExamplePayload, String>(
        Ok(ExamplePayload { name: "1234".to_string() }),
        true,
    );
    assert!(!matches!(out, PipelineOutcome::ValidationFailedDefault(_)));
}

#[test]
fn registry_starts_empty_and_last_registration_wins() {
    let mut registry: HandlerRegistry<u32> = HandlerRegistry::new();
    assert!(!registry.is_registered());
    assert!(registry.lookup().is_none());

    registry.register(1);
    assert!(registry.is_registered());
    assert_eq!(registry.lookup(), Some(&1));

    registry.register(2);
    assert_eq!(registry.lookup(), Some(&2));
}

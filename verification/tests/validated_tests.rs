use request_validation::Validated;

#[derive(Debug, PartialEq)]
struct ExamplePayload {
    name: String,
}

#[test]
fn debug_for_validated_should_work() {
    let v = Validated(ExamplePayload { name: "abcde".to_string() });

    assert_eq!("Validated(ExamplePayload { name: \"abcde\" })", format!("{v:?}"));
}

#[test]
fn into_inner_yields_the_wrapped_value() {
    let v = Validated(ExamplePayload { name: "abcde".to_string() });
    let inner = v.into_inner();
    assert_eq!(inner, ExamplePayload { name: "abcde".to_string() });
}

#[test]
fn get_reads_without_consuming() {
    let v = Validated(ExamplePayload { name: "abcde".to_string() });
    assert_eq!(v.get().name, "abcde");
    assert_eq!(v.get(), &ExamplePayload { name: "abcde".to_string() });
}

#[test]
fn replace_swaps_the_inner_value() {
    let mut v = Validated(ExamplePayload { name: "abcde".to_string() });
    let prev = v.replace(ExamplePayload { name: "fresh".to_string() });
    assert_eq!(prev, ExamplePayload { name: "abcde".to_string() });
    assert_eq!(v.get().name, "fresh");
}

#[test]
fn inner_field_is_directly_accessible() {
    let mut v = Validated(ExamplePayload { name: "abcde".to_string() });
    v.0.name.push('!');
    assert_eq!(v.into_inner().name, "abcde!");
}

#[test]
fn validated_compares_as_its_inner_value() {
    let a = Validated(ExamplePayload { name: "abcde".to_string() });
    let b = Validated(ExamplePayload { name: "abcde".to_string() });
    let c = Validated(ExamplePayload { name: "other".to_string() });
    assert_eq!(a, b);
    assert_ne!(a, c);
}

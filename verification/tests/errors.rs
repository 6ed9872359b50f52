use alanthinker_dynamic_get_field_macro::MacroError;

#[test]
fn messages_of_the_derive() {
    assert_eq!(MacroError::OnlyNamedFields.message(), "Only named fields are supported");
    assert_eq!(MacroError::OnlyStructs.message(), "Only structs are supported");
}

#[test]
fn messages_of_the_impl_block() {
    assert_eq!(
        MacroError::ExpectedSimpleStructType.message(),
        "Expected simple struct type"
    );
    assert_eq!(
        MacroError::OnlySimpleIdentifiers { item: 0, input: 1 }.message(),
        "Only simple identifiers supported"
    );
}

#[test]
fn message_of_an_unsupported_type_names_the_method() {
    let error = MacroError::UnsupportedArgumentType {
        item: 2,
        input: 1,
        method: String::from("add"),
    };
    assert_eq!(error.message(), "Unsupported argument type for method \"add\"");
}

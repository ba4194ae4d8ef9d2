//! The fixed names and expressions that the conversions hand to the interpreter.

use pyo3_pydantic::template::{
    construction_expression, extraction_expression, EXCLUDE, MODEL_JSON, MODEL_PACKAGE,
    TARGET_MODEL,
};

#[test]
fn binding_names_are_fixed() {
    assert_eq!(TARGET_MODEL, "target_model");
    assert_eq!(EXCLUDE, "exclude");
    assert_eq!(MODEL_PACKAGE, "model_package");
    assert_eq!(MODEL_JSON, "model_json");
}

#[test]
fn extraction_expression_is_fixed() {
    assert_eq!(
        extraction_expression(),
        "target_model.model_dump_json(exclude=exclude)"
    );
}

#[test]
fn extraction_expression_uses_the_binding_names() {
    assert_eq!(
        extraction_expression(),
        format!("{}.model_dump_json(exclude={})", TARGET_MODEL, EXCLUDE)
    );
}

#[test]
fn construction_expression_names_the_type() {
    assert_eq!(
        construction_expression("Pet"),
        "model_package.Pet.model_validate_json(model_json)"
    );
}

#[test]
fn construction_expression_uses_the_binding_names() {
    assert_eq!(
        construction_expression("Pet"),
        format!("{}.Pet.model_validate_json({})", MODEL_PACKAGE, MODEL_JSON)
    );
}

#[test]
fn construction_expression_takes_the_type_name_as_it_is() {
    assert_eq!(
        construction_expression(""),
        "model_package..model_validate_json(model_json)"
    );
    assert_eq!(
        construction_expression("models.Pet"),
        "model_package.models.Pet.model_validate_json(model_json)"
    );
    assert_eq!(
        construction_expression("Tier\u{e9}"),
        "model_package.Tier\u{e9}.model_validate_json(model_json)"
    );
}

//! What the conversions hand to the interpreter: the names under which
//! values are bound, and the two expressions that are evaluated.
//!
//! The expressions are fixed. Values reach them through the bound names
//! only; the one thing that is written into an expression is the name of the
//! model type, which the caller vouches for.
use vstd::prelude::*;
use vstd::string::StringExecFns;

verus! {

/// Name under which the model instance is bound for extraction.
pub const TARGET_MODEL: &'static str = "target_model";

/// Name under which the list of excluded field names is bound for extraction.
pub const EXCLUDE: &'static str = "exclude";

/// Name under which the imported module is bound for construction.
pub const MODEL_PACKAGE: &'static str = "model_package";

/// Name under which the JSON text is bound for construction.
pub const MODEL_JSON: &'static str = "model_json";

/// The extraction expression: the bound instance is asked to dump itself as
/// JSON, leaving out the bound exclusions. Field names never enter it.
pub open spec fn extraction_text() -> Seq<char> {
    TARGET_MODEL@ + ".model_dump_json(exclude="@ + EXCLUDE@ + ")"@
}

/// The construction expression for the model type `model_name`: that member
/// of the bound module is asked to validate the bound JSON text.
pub open spec fn construction_text(model_name: Seq<char>) -> Seq<char> {
    MODEL_PACKAGE@ + "."@ + model_name + ".model_validate_json("@ + MODEL_JSON@ + ")"@
}

/// The extraction expression as text for the interpreter.
pub fn extraction_expression() -> (expression: &'static str)
    ensures
        expression@ == extraction_text(),
        expression@ == "target_model.model_dump_json(exclude=exclude)"@,
{
    proof {
        reveal_strlit("target_model");
        reveal_strlit("exclude");
        reveal_strlit(".model_dump_json(exclude=");
        reveal_strlit(")");
        reveal_strlit("target_model.model_dump_json(exclude=exclude)");
        assert("target_model.model_dump_json(exclude=exclude)"@ =~= extraction_text());
    }
    "target_model.model_dump_json(exclude=exclude)"
}

/// The construction expression for `model_name` as text for the
/// interpreter. The name is written into it as it is.
pub fn construction_expression(model_name: &str) -> (expression: String)
    ensures
        expression@ == construction_text(model_name@),
        expression@ == "model_package."@ + model_name@ + ".model_validate_json(model_json)"@,
{
    let mut expression = String::from_str("model_package.");
    expression.append(model_name);
    expression.append(".model_validate_json(model_json)");
    proof {
        reveal_strlit("model_package");
        reveal_strlit("model_json");
        reveal_strlit(".");
        reveal_strlit(".model_validate_json(");
        reveal_strlit(")");
        reveal_strlit("model_package.");
        reveal_strlit(".model_validate_json(model_json)");
        assert(expression@ =~= construction_text(model_name@));
    }
    expression
}

} // verus!

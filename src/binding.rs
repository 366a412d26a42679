//! The declaration statement that binds one host value in the script.
use vstd::prelude::*;
use crate::error::RunnerError;
use crate::identifier::{is_valid_variable_name, valid_identifier};

verus! {

/// The statement `const <name> = <encoded>;`, which declares a script
/// constant `name` whose value is the literal `encoded`.
pub open spec fn declaration(name: Seq<char>, encoded: Seq<char>) -> Seq<char> {
    "const "@ + name + " = "@ + encoded + ";"@
}

/// `stmt` is a declaration of a constant named `name`, whatever its value.
pub open spec fn declares(stmt: Seq<char>, name: Seq<char>) -> bool {
    exists|encoded: Seq<char>| stmt == #[trigger] declaration(name, encoded)
}

/// Builds the statement that binds `name` to the already encoded value
/// `encoded`.
///
/// The name is checked before anything else: a name that is not a plain
/// identifier is refused, so that no text of it ever reaches the script.
/// The encoded value is placed in the statement as it stands.
pub fn declaration_statement(name: &str, encoded: &str) -> (r: Result<String, RunnerError>)
    ensures
        valid_identifier(name@) ==> (r matches Ok(s) && s@ == declaration(name@, encoded@)),
        !valid_identifier(name@) ==> (r matches Err(RunnerError::InvalidVariableName(n)) && n@ == name@),
{
    if !is_valid_variable_name(name) {
        return Err(RunnerError::InvalidVariableName(String::from_str(name)));
    }
    let mut s = String::from_str("const ");
    s.append(name);
    s.append(" = ");
    s.append(encoded);
    s.append(";");
    Ok(s)
}

} // verus!

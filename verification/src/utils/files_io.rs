//! Where the template store keeps its files.

use vstd::prelude::*;

verus! {

/// The path of the code template for `language`. Every language is served by
/// the one template there is.
pub open spec fn template_path(language: Seq<char>) -> Seq<char> {
    "code_templates/rust_axum/main.rs"@
}

/// The path that generated code for `language` is saved to.
pub open spec fn output_path(language: Seq<char>) -> Seq<char> {
    "generated_code/main.rs"@
}

/// The path to read the code template for `language` from.
pub fn code_template_path(language: &str) -> (path: String)
    ensures
        path@ == template_path(language@),
{
    String::from_str("code_templates/rust_axum/main.rs")
}

/// The path to save generated code for `language` to.
pub fn generated_code_path(language: &str) -> (path: String)
    ensures
        path@ == output_path(language@),
{
    String::from_str("generated_code/main.rs")
}

} // verus!

//! The capabilities that the agents ask the model to act out. Each one is a
//! short description of a function; the model is told to print what that
//! function would return for a given input.

use vstd::prelude::*;

verus! {

/// Text of the capability that turns an operator's request into a goal.
pub open spec fn convert_user_input_to_goal_text() -> Seq<char> {
    "fn convert_user_input_to_goal(user_request: &str) -> String
    Input: a request written by a user, in free text.
    Function: rewrites the request as one short goal statement for a software project.
    Output: the goal statement alone, as plain text."@
}

/// Text of the capability that decides what a project needs.
pub open spec fn print_project_scope_text() -> Seq<char> {
    "fn print_project_scope(project_description: &str) -> ProjectScope
    Input: the description of a software project.
    Function: decides whether the project needs create, read, update and delete
      operations on stored data, whether its users log in, and whether it takes data
      from web services outside itself.
    Output: one JSON object with the boolean members is_crud_required, is_user_login
      and is_external_urls_required, and nothing else."@
}

/// Text of the capability that lists web services a project can draw on.
pub open spec fn print_site_urls_text() -> Seq<char> {
    "fn print_site_urls(project_description: &str) -> Vec<String>
    Input: the description of a software project.
    Function: names public web endpoints that answer without a key and offer data the
      project needs.
    Output: one JSON array of URL strings, and nothing else."@
}

/// Text of the capability that writes the backend of a project.
pub open spec fn print_backend_webserver_code_text() -> Seq<char> {
    "fn print_backend_webserver_code(template_and_description: &str) -> String
    Input: a code template, the description of a software project and the language to
      build it in.
    Function: writes the source of a web server for the project, starting from the
      template.
    Output: the source text alone, ready to be saved to a file."@
}

/// The capability that turns an operator's request into a goal.
pub fn convert_user_input_to_goal(_user_request: &str) -> (text: &'static str)
    ensures
        text@ == convert_user_input_to_goal_text(),
{
    "fn convert_user_input_to_goal(user_request: &str) -> String
    Input: a request written by a user, in free text.
    Function: rewrites the request as one short goal statement for a software project.
    Output: the goal statement alone, as plain text."
}

/// The capability that decides what a project needs.
pub fn print_project_scope(_project_description: &str) -> (text: &'static str)
    ensures
        text@ == print_project_scope_text(),
{
    "fn print_project_scope(project_description: &str) -> ProjectScope
    Input: the description of a software project.
    Function: decides whether the project needs create, read, update and delete
      operations on stored data, whether its users log in, and whether it takes data
      from web services outside itself.
    Output: one JSON object with the boolean members is_crud_required, is_user_login
      and is_external_urls_required, and nothing else."
}

/// The capability that lists web services a project can draw on.
pub fn print_site_urls(_project_description: &str) -> (text: &'static str)
    ensures
        text@ == print_site_urls_text(),
{
    "fn print_site_urls(project_description: &str) -> Vec<String>
    Input: the description of a software project.
    Function: names public web endpoints that answer without a key and offer data the
      project needs.
    Output: one JSON array of URL strings, and nothing else."
}

/// The capability that writes the backend of a project.
pub fn print_backend_webserver_code(_template_and_description: &str) -> (text: &'static str)
    ensures
        text@ == print_backend_webserver_code_text(),
{
    "fn print_backend_webserver_code(template_and_description: &str) -> String
    Input: a code template, the description of a software project and the language to
      build it in.
    Function: writes the source of a web server for the project, starting from the
      template.
    Output: the source text alone, ready to be saved to a file."
}

} // verus!

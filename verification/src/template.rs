//! Message templates: texts with variables in braces.

use vstd::prelude::*;

verus! {

/// Names what `strfmt::strfmt` makes of a template and variables, each
/// variable a name and a value: the text with each variable in braces
/// replaced by its value, or what the failure says.
pub uninterp spec fn rendered(
    template: Seq<char>,
    variables: Seq<(Seq<char>, Seq<char>)>,
) -> Result<Seq<char>, Seq<char>>;

/// The variables as mathematical values.
pub open spec fn variables_view(variables: Seq<(String, String)>) -> Seq<(Seq<char>, Seq<char>)> {
    variables.map_values(|v: (String, String)| (v.0@, v.1@))
}

/// A result with text on either side as a mathematical value.
pub open spec fn rendering_view(r: Result<String, String>) -> Result<Seq<char>, Seq<char>> {
    match r {
        Ok(text) => Ok(text@),
        Err(why) => Err(why@),
    }
}

/// Fills a template, by `strfmt::strfmt`. The variables go into the map that
/// the call takes; a failure is kept as the text that it displays. A width
/// in the template asks for as many characters of output.
#[verifier::external_body]
pub(crate) fn render(template: &str, variables: &Vec<(String, String)>) -> (r: Result<
    String,
    String,
>)
    ensures
        rendering_view(r) == rendered(template@, variables_view(variables@)),
{
    let map: std::collections::HashMap<String, String> = variables.iter().cloned().collect();
    strfmt::strfmt(template, &map).map_err(|e| e.to_string())
}

} // verus!

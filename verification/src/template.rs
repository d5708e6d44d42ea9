//! The built-in notification templates, and the trusted view of the
//! template engine that renders them.

use vstd::prelude::*;

verus! {

/// Template for a repeated trigger within the daily window.
pub const TEMPLATE_REPEAT: &'static str = "<del>{last_triggered}</del> 0 seconds without posting Shorts<br>You've posted Shorts {trigger_today_count} times in the past day!";

/// Template for the first trigger within the daily window.
pub const TEMPLATE_FIRST: &'static str = "<del>{last_triggered}</del> 0 seconds without posting Shorts<br>This is the first time you've posted Shorts in the past day!";

/// Whether rendering `template` with the string values `bindings` succeeds.
/// Success may depend on the values, not just the bound names: a conditional
/// block tests a string value's non-emptiness and can guard a failing
/// lookup, so only the full bindings determine the outcome.
pub uninterp spec fn template_accepts(
    template: Seq<char>,
    bindings: Seq<(Seq<char>, Seq<char>)>,
) -> bool;

/// The text that rendering `template` with the string `bindings` produces.
pub uninterp spec fn template_output(
    template: Seq<char>,
    bindings: Seq<(Seq<char>, Seq<char>)>,
) -> Seq<char>;

/// The mathematical value of an executable binding list.
pub open spec fn binding_views(bindings: Seq<(String, String)>) -> Seq<(Seq<char>, Seq<char>)> {
    bindings.map_values(|b: (String, String)| (b.0@, b.1@))
}

/// Relies on tinytemplate::TinyTemplate (new, add_template, render):
/// rendering a template over string bindings with distinct names is a
/// deterministic function of the template text and the bindings — values are
/// reached only by name lookup, so no container order can affect the result.
/// The template is restricted to the two built-in constants: on those,
/// compilation and rendering always return (the template compiler can panic
/// on some other syntax, such as an unfinished block tag or a trailing
/// escape character).
#[verifier::external_body]
pub(crate) fn template_render(template: &str, bindings: &Vec<(String, String)>) -> (r: Option<
    String,
>)
    requires
        template@ == TEMPLATE_FIRST@ || template@ == TEMPLATE_REPEAT@,
        forall|i: int, j: int|
            0 <= i < j < bindings@.len() ==> bindings@[i].0@ != bindings@[j].0@,
    ensures
        (r is Some) == template_accepts(template@, binding_views(bindings@)),
        r is Some ==> r.unwrap()@ == template_output(template@, binding_views(bindings@)),
{
    let mut tt = tinytemplate::TinyTemplate::new();
    if tt.add_template("message", template).is_err() {
        return None;
    }
    let mut context: std::collections::HashMap<&str, &str> = std::collections::HashMap::new();
    for (key, value) in bindings.iter() {
        context.insert(key.as_str(), value.as_str());
    }
    tt.render("message", &context).ok()
}

} // verus!

//! The duration/pluralization renderer: formats the elapsed time since the
//! previous trigger together with the daily occurrence count into the
//! notification body.

use vstd::prelude::*;
use vstd::string::StringExecFns;
use crate::digits::{spec_decimal, u64_to_decimal};
use crate::template::{
    binding_views, template_accepts, template_output, template_render, TEMPLATE_FIRST,
    TEMPLATE_REPEAT,
};

verus! {

/// Binding name for the elapsed seconds since the previous trigger.
pub const KEY_ELAPSED: &'static str = "last_triggered";

/// Binding name for the occurrence count over the trailing window.
pub const KEY_COUNT: &'static str = "trigger_today_count";

/// The bindings for a notification: the elapsed seconds and the occurrence
/// count, both in decimal.
pub open spec fn render_bindings(elapsed: nat, count: nat) -> Seq<(Seq<char>, Seq<char>)> {
    seq![(KEY_ELAPSED@, spec_decimal(elapsed)), (KEY_COUNT@, spec_decimal(count))]
}

/// The template a notification uses: the first-today clause or the counted
/// clause.
pub open spec fn chosen_template(is_first_today: bool) -> Seq<char> {
    if is_first_today {
        TEMPLATE_FIRST@
    } else {
        TEMPLATE_REPEAT@
    }
}

/// Whether a notification with the given parameters renders.
pub open spec fn render_ok(elapsed: nat, count: nat, is_first_today: bool) -> bool {
    template_accepts(chosen_template(is_first_today), render_bindings(elapsed, count))
}

/// Whether both built-in templates render at the reference values the
/// engine's startup probe uses.
pub open spec fn templates_ok() -> bool {
    &&& render_ok(0, 1, true)
    &&& render_ok(0, 2, false)
}

/// The notification body for the given elapsed seconds, occurrence count and
/// first-today flag.
pub open spec fn spec_render(elapsed: nat, count: nat, is_first_today: bool) -> Seq<char> {
    template_output(chosen_template(is_first_today), render_bindings(elapsed, count))
}

/// Renders the notification body: the elapsed seconds shown struck through
/// and reset to zero, then either the first-today clause or the clause with
/// the occurrence count. Returns `None` exactly when the chosen template
/// does not render with these bindings.
pub fn render(elapsed_seconds: u64, occurrence_count: u64, is_first_today: bool) -> (r: Option<
    String,
>)
    ensures
        (r is Some) == render_ok(
            elapsed_seconds as nat,
            occurrence_count as nat,
            is_first_today,
        ),
        r is Some ==> r.unwrap()@ == spec_render(
            elapsed_seconds as nat,
            occurrence_count as nat,
            is_first_today,
        ),
{
    let mut bindings: Vec<(String, String)> = Vec::new();
    bindings.push((String::from_str(KEY_ELAPSED), u64_to_decimal(elapsed_seconds)));
    bindings.push((String::from_str(KEY_COUNT), u64_to_decimal(occurrence_count)));
    let template: &'static str = if is_first_today {
        TEMPLATE_FIRST
    } else {
        TEMPLATE_REPEAT
    };
    proof {
        reveal_strlit("last_triggered");
        reveal_strlit("trigger_today_count");
        assert(KEY_ELAPSED@.len() != KEY_COUNT@.len());
        assert(binding_views(bindings@) =~= render_bindings(
            elapsed_seconds as nat,
            occurrence_count as nat,
        ));
    }
    template_render(template, &bindings)
}

/// The minimal output mode of the renderer: the elapsed time only, as the
/// degenerate case of the extended form with occurrence count 1 and the
/// first-today clause.
pub fn render_minimal(elapsed_seconds: u64) -> (r: Option<String>)
    ensures
        (r is Some) == render_ok(elapsed_seconds as nat, 1, true),
        r is Some ==> r.unwrap()@ == spec_render(elapsed_seconds as nat, 1, true),
{
    render(elapsed_seconds, 1, true)
}

} // verus!

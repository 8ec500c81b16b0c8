use vstd::prelude::*;

verus! {

/// The text shown for an entity named `kind` whose native description
/// reads `body`: `kind { body }`.
pub open spec fn description_text(kind: Seq<char>, body: Seq<char>) -> Seq<char> {
    kind + " { "@ + body + " }"@
}

/// Frames the native description `body` of an entity named `kind` for
/// debug display. The text is for people only and is never parsed back.
pub fn render_description(kind: &str, body: &str) -> (r: String)
    ensures
        r@ == description_text(kind@, body@),
{
    let mut r = String::from_str(kind);
    r.append(" { ");
    r.append(body);
    r.append(" }");
    proof {
        reveal_strlit(" { ");
        reveal_strlit(" }");
    }
    r
}

} // verus!

//! Template rendering: `{{name}}` placeholders replaced by bound values.
use vstd::prelude::*;
use crate::game_state::opt_str;
use crate::text::{contains, owned, str_eq, str_trim, trim, cat};

verus! {

broadcast use vstd::string::group_string_axioms;

/// The placeholder syntax: `{{`, at least one character, `}}`, matched
/// lazily.
pub const PLACEHOLDER_PATTERN: &'static str = "\\{\\{(.+?)\\}\\}";

/// The view of a binding list.
pub open spec fn binding_views(b: Seq<(&str, &str)>) -> Seq<(Seq<char>, Seq<char>)> {
    b.map_values(|p: (&str, &str)| (p.0@, p.1@))
}

/// The value first bound to `key`, if any.
pub open spec fn lookup(b: Seq<(Seq<char>, Seq<char>)>, key: Seq<char>) -> Option<Seq<char>>
    decreases b.len(),
{
    if b.len() == 0 {
        None
    } else if b[0].0 == key {
        Some(b[0].1)
    } else {
        lookup(b.drop_first(), key)
    }
}

/// What a placeholder whose inner text is `inner` becomes: the value bound
/// to the trimmed name, or the placeholder rewritten around the trimmed
/// name when nothing is bound to it.
pub open spec fn placeholder_text(inner: Seq<char>, b: Seq<(Seq<char>, Seq<char>)>) -> Seq<char> {
    let var = trim(inner);
    match lookup(b, var) {
        Some(v) => v,
        None => "{{"@ + var + "}}"@,
    }
}

/// The replacement for one placeholder whose inner text is `inner`.
pub fn placeholder_value(inner: &str, bindings: &[(&str, &str)]) -> (r: String)
    ensures
        r@ == placeholder_text(inner@, binding_views(bindings@)),
{
    let var = str_trim(inner);
    let ghost bv = binding_views(bindings@);
    let mut i: usize = 0;
    assert(bv.skip(0) =~= bv);
    while i < bindings.len()
        invariant
            i <= bindings@.len(),
            bv == binding_views(bindings@),
            var@ == trim(inner@),
            lookup(bv, var@) == lookup(bv.skip(i as int), var@),
        decreases bindings@.len() - i,
    {
        let (k, v) = bindings[i];
        proof {
            assert(bv.skip(i as int).drop_first() =~= bv.skip(i + 1));
            assert(bv.skip(i as int)[0] == (k@, v@));
            assert(bv.skip(i as int).len() > 0);
        }
        if str_eq(k, var.as_str()) {
            assert(lookup(bv.skip(i as int), var@) == Some(v@));
            return owned(v);
        }
        i = i + 1;
    }
    assert(bv.skip(bindings@.len() as int).len() == 0);
    let mut r = owned("{{");
    cat(&mut r, var.as_str());
    cat(&mut r, "}}");
    r
}

/// The result of replacing every non-overlapping match of `pattern` in
/// `template` by the `placeholder_value` of its first capture group, or
/// `None` when `pattern` does not compile.
pub uninterp spec fn regex_replaced(
    pattern: Seq<char>,
    template: Seq<char>,
    bindings: Seq<(Seq<char>, Seq<char>)>,
) -> Option<Seq<char>>;

/// A placeholder name that the placeholder pattern matches whole: at least
/// one character, none of them '}' or a line break.
pub open spec fn plain_name(inner: Seq<char>) -> bool {
    inner.len() > 0 && forall|i: int| 0 <= i < inner.len() ==> inner[i] != '}' && inner[i] != '\n'
}

/// Compiles the placeholder pattern with `regex::Regex::new` and replaces
/// all its matches in `template` with `Regex::replace_all`, each match by
/// the `placeholder_value` of its capture group (which takes part in every
/// match of this pattern).  Claimed: the result is determined by the three
/// arguments (`regex_replaced`); the pattern is valid regex syntax, so it
/// compiles; as the documentation of `replace_all` says, a haystack without
/// a match is returned unchanged, and a template without "{{" has none; and
/// a template that is one placeholder whose name holds no '}' and no line
/// break is one match (`.` matches any character but a line break, `+?`
/// stops at the first "}}"), so it becomes that name's replacement.
#[verifier::external_body]
fn replace_placeholders(pattern: &str, template: &str, bindings: &[(&str, &str)])
    -> (r: Option<String>)
    requires
        pattern@ == PLACEHOLDER_PATTERN@,
    ensures
        opt_str(r) == regex_replaced(pattern@, template@, binding_views(bindings@)),
        r is Some,
        !contains(template@, "{{"@) ==> opt_str(r) == Some(template@),
        forall|inner: Seq<char>|
            plain_name(inner) && #[trigger] ("{{"@ + inner + "}}"@) == template@ ==> opt_str(r)
                == Some(placeholder_text(inner, binding_views(bindings@))),
{
    match regex::Regex::new(pattern) {
        Ok(re) => Some(
            re.replace_all(
                template,
                |caps: &regex::Captures| placeholder_value(&caps[1], bindings),
            ).into_owned(),
        ),
        Err(_) => None,
    }
}

/// The template rendered: each `{{name}}` placeholder replaced by the value
/// bound to the trimmed name (kept, with the name trimmed, when unbound).
pub open spec fn rendered(template: Seq<char>, b: Seq<(Seq<char>, Seq<char>)>) -> Seq<char> {
    match regex_replaced(PLACEHOLDER_PATTERN@, template, b) {
        Some(s) => s,
        None => template,
    }
}

/// Renders `{{variable}}` placeholders in a template.
pub fn render_template(template: &str, bindings: &[(&str, &str)]) -> (r: String)
    ensures
        r@ == rendered(template@, binding_views(bindings@)),
        !contains(template@, "{{"@) ==> r@ == template@,
        forall|inner: Seq<char>|
            plain_name(inner) && #[trigger] ("{{"@ + inner + "}}"@) == template@ ==> r@
                == placeholder_text(inner, binding_views(bindings@)),
{
    match replace_placeholders(PLACEHOLDER_PATTERN, template, bindings) {
        Some(s) => s,
        None => owned(template),
    }
}

} // verus!

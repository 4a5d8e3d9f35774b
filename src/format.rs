use dynfmt::Format;
use vstd::prelude::*;

verus! {

/// What `dynfmt`'s simple curly formatter makes of a template with one
/// positional argument, or `None` where it reports an error.
pub uninterp spec fn curly_format(template: Seq<char>, arg: Seq<char>) -> Option<Seq<char>>;

/// `s` holds no `{`, so no placeholder.
pub open spec fn no_open_brace(s: Seq<char>) -> bool {
    forall|i: int| 0 <= i < s.len() ==> s[i] != '{'
}

/// Relies on `dynfmt::SimpleCurlyFormat::format`: the template with each
/// `{}`-style placeholder replaced by the argument, or an error; a template
/// without `{` comes back as it is.
#[verifier::external_body]
fn format_curly(template: &str, arg: &str) -> (r: Option<String>)
    ensures
        r matches Some(s) ==> curly_format(template@, arg@) == Some(s@),
        r is None ==> curly_format(template@, arg@) is None,
        no_open_brace(template@) ==> r is Some && r->Some_0@ == template@,
{
    match dynfmt::SimpleCurlyFormat.format(template, [arg]) {
        Ok(s) => Some(s.into_owned()),
        Err(_) => None,
    }
}

/// The address of a user's personal bests: the configured template with the
/// user's id in its placeholder. `None` where the template is malformed.
pub fn pbs_url(template: &str, user: &str) -> (r: Option<String>)
    ensures
        r matches Some(s) ==> curly_format(template@, user@) == Some(s@),
        r is None ==> curly_format(template@, user@) is None,
{
    format_curly(template, user)
}

} // verus!

//! The rules of the missing-stats report: which modifiers it covers, which
//! stat identifiers count as handled, and which count as local.

use vstd::prelude::*;

use crate::text::chars_eq;
use crate::text::chars_of;
use crate::text::contains_chars;
use crate::text::seq_contains;
use crate::text::seq_starts_with;
use crate::text::starts_with_exec;

verus! {

broadcast use vstd::string::group_string_axioms;

/// The report covers the prefixes and suffixes of the item and desecrated
/// domains.
pub open spec fn reported_mod(domain: Seq<char>, generation_type: Seq<char>) -> bool {
    &&& (domain == "item"@ || domain == "desecrated"@)
    &&& (generation_type == "prefix"@ || generation_type == "suffix"@)
}

/// Whether the report covers a modifier of this domain and generation type.
pub fn is_reported_mod(domain: &str, generation_type: &str) -> (b: bool)
    ensures
        b == reported_mod(domain@, generation_type@),
{
    let d = chars_of(domain);
    let g = chars_of(generation_type);
    (chars_eq(&d, "item") || chars_eq(&d, "desecrated")) && (chars_eq(&g, "prefix") || chars_eq(
        &g,
        "suffix",
    ))
}

/// A stat identifier is local when it starts with `local_`.
pub fn is_local_stat(stat_id: &str) -> (b: bool)
    ensures
        b == seq_starts_with(stat_id@, "local_"@),
{
    let s = chars_of(stat_id);
    starts_with_exec(&s, "local_")
}

/// The identifier between double quotes, as a string literal of it reads.
pub open spec fn quoted(id: Seq<char>) -> Seq<char> {
    seq!['"'] + id + seq!['"']
}

/// A stat identifier is handled when one of the two sources holds it as a
/// quoted literal.
pub fn is_handled(stat_id: &str, finalizer_src: &str, balancer_src: &str) -> (b: bool)
    ensures
        b == (seq_contains(finalizer_src@, quoted(stat_id@)) || seq_contains(
            balancer_src@,
            quoted(stat_id@),
        )),
{
    let id = chars_of(stat_id);
    let mut needle: Vec<char> = Vec::new();
    needle.push('"');
    let mut i: usize = 0;
    while i < id.len()
        invariant
            i <= id@.len(),
            needle@ == seq!['"'] + id@.take(i as int),
        decreases id@.len() - i,
    {
        needle.push(id[i]);
        assert(id@.take(i + 1) =~= id@.take(i as int).push(id@[i as int]));
        i += 1;
    }
    needle.push('"');
    assert(id@.take(id@.len() as int) =~= id@);
    assert(needle@ =~= quoted(stat_id@));
    let f = chars_of(finalizer_src);
    if contains_chars(&f, &needle) {
        return true;
    }
    let g = chars_of(balancer_src);
    contains_chars(&g, &needle)
}

/// The text with each line break written as ` // `.
pub open spec fn flattened(s: Seq<char>) -> Seq<char>
    decreases s.len(),
{
    if s.len() == 0 {
        Seq::empty()
    } else {
        let c = s.last();
        flattened(s.drop_last()) + (if c == '\n' {
            seq![' ', '/', '/', ' ']
        } else {
            seq![c]
        })
    }
}

/// Writes each line break of `text` as ` // `, so that the text fits on one
/// line.
pub fn flatten_newlines(text: &str) -> (r: Vec<char>)
    ensures
        r@ == flattened(text@),
{
    let s = chars_of(text);
    let mut r: Vec<char> = Vec::new();
    let mut i: usize = 0;
    while i < s.len()
        invariant
            s@ == text@,
            i <= s@.len(),
            r@ == flattened(s@.take(i as int)),
        decreases s@.len() - i,
    {
        let c = s[i];
        assert(s@.take(i + 1).drop_last() =~= s@.take(i as int));
        if c == '\n' {
            r.push(' ');
            r.push('/');
            r.push('/');
            r.push(' ');
            assert(r@ =~= flattened(s@.take(i as int)) + seq![' ', '/', '/', ' ']);
        } else {
            r.push(c);
            assert(r@ =~= flattened(s@.take(i as int)) + seq![c]);
        }
        i += 1;
    }
    assert(s@.take(s@.len() as int) =~= s@);
    r
}

} // verus!

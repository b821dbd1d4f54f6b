//! The name of the environment variable that may carry an override.
//!
//! The variable of a configuration type is `CONFIG_` followed by the type's
//! simple name: the part of its full name that follows the last `::`.

use vstd::prelude::*;
use vstd::string::StrSliceExecFns;
use vstd::string::StringExecFns;

verus! {

/// A `::` stands in `name` at position `at`.
pub open spec fn separator_at(name: Seq<char>, at: int) -> bool {
    0 <= at && at + 1 < name.len() && name[at] == ':' && name[at + 1] == ':'
}

/// The last segment of `name`, read from left to right: `start` is where the
/// segment in hand begins and `at` the position looked at next. A separator
/// closes the segment in hand, and the next one begins behind it, so that in
/// `a:::b` the segments are `a` and `:b`.
pub open spec fn last_segment_from(name: Seq<char>, start: int, at: int) -> Seq<char>
    decreases name.len() - at,
{
    if at >= name.len() {
        name.subrange(start, name.len() as int)
    } else if separator_at(name, at) {
        last_segment_from(name, at + 2, at + 2)
    } else {
        last_segment_from(name, start, at + 1)
    }
}

/// The simple name of a type: its full name without the path before it.
pub open spec fn simple_name(name: Seq<char>) -> Seq<char> {
    last_segment_from(name, 0, 0)
}

/// The override variable of the type with the given full name.
pub open spec fn override_variable(name: Seq<char>) -> Seq<char> {
    "CONFIG_"@ + simple_name(name)
}

/// The simple name is a tail of the full name, holds no `::`, and is either
/// the whole name or stands right behind a `::`.
pub proof fn lemma_simple_name(name: Seq<char>)
    ensures
        simple_name(name).is_suffix_of(name),
        forall|at: int| !separator_at(simple_name(name), at),
        simple_name(name).len() == name.len() || separator_at(
            name,
            name.len() - simple_name(name).len() - 2,
        ),
{
    lemma_last_segment(name, 0, 0);
}

/// A name without any `::` is its own simple name.
pub proof fn lemma_simple_name_of_plain(name: Seq<char>)
    requires
        forall|at: int| !separator_at(name, at),
    ensures
        simple_name(name) == name,
{
    lemma_plain_tail(name, 0, 0);
    assert(name.subrange(0, name.len() as int) =~= name);
}

proof fn lemma_plain_tail(name: Seq<char>, start: int, at: int)
    requires
        0 <= start <= at <= name.len(),
        forall|k: int| at <= k ==> !separator_at(name, k),
    ensures
        last_segment_from(name, start, at) == name.subrange(start, name.len() as int),
    decreases name.len() - at,
{
    if at < name.len() {
        lemma_plain_tail(name, start, at + 1);
    }
}

proof fn lemma_last_segment(name: Seq<char>, start: int, at: int)
    requires
        0 <= start <= at <= name.len(),
        start == 0 || separator_at(name, start - 2),
        forall|k: int| start <= k < at ==> !separator_at(name, k),
    ensures
        ({
            let tail = last_segment_from(name, start, at);
            &&& tail.is_suffix_of(name)
            &&& forall|k: int| !separator_at(tail, k)
            &&& (tail.len() == name.len() || separator_at(name, name.len() - tail.len() - 2))
        }),
    decreases name.len() - at,
{
    let tail = last_segment_from(name, start, at);
    if at >= name.len() {
        assert(tail == name.subrange(start, name.len() as int));
        assert(tail =~= name.skip(start));
        assert forall|k: int| !separator_at(tail, k) by {
            if separator_at(tail, k) {
                assert(tail[k] == name[start + k]);
                assert(tail[k + 1] == name[start + k + 1]);
                assert(separator_at(name, start + k));
            }
        }
    } else if separator_at(name, at) {
        lemma_last_segment(name, at + 2, at + 2);
    } else {
        lemma_last_segment(name, start, at + 1);
    }
}

/// Cuts the path off a type's full name.
pub fn simple_name_of(name: &str) -> (simple: &str)
    ensures
        simple@ == simple_name(name@),
{
    let len = name.unicode_len();
    let mut start: usize = 0;
    let mut at: usize = 0;
    while at < len
        invariant
            len == name@.len(),
            start <= at <= len,
            last_segment_from(name@, start as int, at as int) == simple_name(name@),
        decreases len - at,
    {
        if at + 1 < len && name.get_char(at) == ':' && name.get_char(at + 1) == ':' {
            at = at + 2;
            start = at;
        } else {
            at = at + 1;
        }
    }
    name.substring_char(start, len)
}

/// The name of the environment variable that overrides the configuration
/// type with the given full name: `CONFIG_` and the type's simple name.
pub fn env_var_name(full_name: &str) -> (variable: String)
    ensures
        variable@ == override_variable(full_name@),
{
    String::from_str("CONFIG_").concat(simple_name_of(full_name))
}

} // verus!

//! Checks of configuration values against their allowed ranges and lists.
use vstd::prelude::*;

use crate::error::{Error, ErrorView};
use crate::util::text::{debug_quoted, debug_text, decimal, decimal_text, same_text};

verus! {

/// The characters of each string in `items`.
pub open spec fn texts(items: Seq<&str>) -> Seq<Seq<char>> {
    items.map_values(|s: &str| s@)
}

/// Each item quoted as `{:?}` writes it, joined by `", "`.
pub open spec fn quoted_list(items: Seq<Seq<char>>) -> Seq<char>
    decreases items.len(),
{
    if items.len() == 0 {
        Seq::empty()
    } else if items.len() == 1 {
        debug_text(items[0])
    } else {
        quoted_list(items.drop_last()) + ", "@ + debug_text(items.last())
    }
}

/// The error that `range` reports for a value outside `[min, max]`.
pub open spec fn out_of_range(name: Seq<char>, value: u32, min: u32, max: u32) -> ErrorView {
    ErrorView::OutOfRange {
        name,
        value: decimal(value as nat),
        min: decimal(min as nat),
        max: decimal(max as nat),
    }
}

/// The error that `one_of` reports for a value missing from `allowed`.
pub open spec fn not_allowed(name: Seq<char>, value: Seq<char>, allowed: Seq<Seq<char>>) -> ErrorView {
    ErrorView::InvalidEnum { name, value, allowed: quoted_list(allowed) }
}

/// Validate that `value` falls within `[min, max]` (inclusive).
///
/// # Errors
///
/// Returns [`Error::OutOfRange`] when the value is outside the bounds.
pub fn range(name: &str, value: &u32, min: &u32, max: &u32) -> (r: Result<(), Error>)
    ensures
        r is Ok <==> *min <= *value <= *max,
        r matches Err(e) ==> e@ == out_of_range(name@, *value, *min, *max),
{
    if *value < *min || *value > *max {
        return Err(
            Error::OutOfRange {
                name: name.to_owned(),
                value: decimal_text(*value),
                min: decimal_text(*min),
                max: decimal_text(*max),
            },
        );
    }
    Ok(())
}

/// Validate that `value` is one of `allowed`.
///
/// # Errors
///
/// Returns [`Error::InvalidEnum`] when the value is not found in the list.
pub fn one_of(name: &str, value: &str, allowed: &[&str]) -> (r: Result<(), Error>)
    ensures
        r is Ok <==> texts(allowed@).contains(value@),
        r matches Err(e) ==> e@ == not_allowed(name@, value@, texts(allowed@)),
{
    let mut i: usize = 0;
    while i < allowed.len()
        invariant
            i <= allowed@.len(),
            forall|j: int| 0 <= j < i ==> allowed@[j]@ != value@,
        decreases allowed@.len() - i,
    {
        if same_text(allowed[i], value) {
            assert(texts(allowed@)[i as int] == value@);
            return Ok(());
        }
        i = i + 1;
    }
    assert(!texts(allowed@).contains(value@));
    Err(
        Error::InvalidEnum {
            name: name.to_owned(),
            value: value.to_owned(),
            allowed: format_quoted_list(allowed),
        },
    )
}

/// Format a slice of strings as a quoted, comma-separated list.
pub fn format_quoted_list(items: &[&str]) -> (r: String)
    ensures
        r@ == quoted_list(texts(items@)),
{
    let mut out = String::new();
    let mut i: usize = 0;
    while i < items.len()
        invariant
            i <= items@.len(),
            out@ == quoted_list(texts(items@).take(i as int)),
        decreases items@.len() - i,
    {
        let quoted = debug_quoted(items[i]);
        let ghost done = texts(items@).take(i as int);
        let ghost next = texts(items@).take(i + 1);
        assert(next.drop_last() =~= done);
        assert(next.last() == items@[i as int]@);
        if i > 0 {
            out.append(", ");
        } else {
            assert(done =~= Seq::<Seq<char>>::empty());
        }
        out.append(quoted.as_str());
        i = i + 1;
    }
    assert(texts(items@).take(items@.len() as int) =~= texts(items@));
    out
}

} // verus!

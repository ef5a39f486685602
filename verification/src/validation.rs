//! Boundary checks shared by the entity modules: allow-lists, free-text
//! normalisation, record ids, and the outcomes of storage writes.
use vstd::prelude::*;
use crate::error::{AppError, AppResult, ErrorView, client_str, fails_internally, fails_with};
use crate::text::{
    lemma_trim_idempotent, chars_of, contains_str, decimal, join, join_seq, owned, push_decimal, push_decimal_u64,
    push_str, str_views, trim, trimmed,
};

verus! {

/// The message refusing a value outside an allow-list.
pub open spec fn not_allowed_msg(label: Seq<char>, allowed: Seq<Seq<char>>) -> Seq<char> {
    label + " must be one of: "@ + join_seq(allowed, ", "@)
}

/// The message refusing an empty required field.
pub open spec fn required_msg(label: Seq<char>) -> Seq<char> {
    label + " is required."@
}

/// The message refusing an over-long field.
pub open spec fn capped_msg(label: Seq<char>, max_len: nat) -> Seq<char> {
    label + " is capped at "@ + decimal(max_len as int) + " characters."@
}

/// The message for a record that does not exist.
pub open spec fn not_found_msg(what: Seq<char>, id: int) -> Seq<char> {
    what + " "@ + decimal(id) + " was not found."@
}

/// Whether `id` fits the 32-bit integer column type.
pub open spec fn fits_i32(id: int) -> bool {
    i32::MIN <= id <= i32::MAX
}

/// Narrows a free-form string to an allow-list, so that the storage CHECK
/// constraints are never the first line of defence.
pub fn validate_allowed<'a>(label: &'static str, value: &'a str, allowed: &[&'static str]) -> (r:
    AppResult<&'a str>)
    ensures
        str_views(allowed@).contains(value@) ==> r == Ok::<&'a str, AppError>(value),
        !str_views(allowed@).contains(value@) ==> fails_with(
            r,
            not_allowed_msg(label@, str_views(allowed@)),
        ),
{
    if contains_str(allowed, value) {
        Ok(value)
    } else {
        let mut m = owned(label);
        push_str(&mut m, " must be one of: ");
        let list = join(allowed, ", ");
        push_str(&mut m, list.as_str());
        Err(AppError::client(m))
    }
}

/// The message refusing `value` as a free-text field, if it is refused:
/// blank when `required`, or longer than `max_len` once trimmed.
pub open spec fn text_error(label: Seq<char>, value: Seq<char>, max_len: nat, required: bool) -> Option<
    Seq<char>,
> {
    let t = trimmed(value);
    if t.len() == 0 {
        if required { Some(required_msg(label)) } else { None }
    } else if t.len() > max_len {
        Some(capped_msg(label, max_len))
    } else {
        None
    }
}

/// The stored form of an accepted free-text field: trimmed, and absent
/// when blank.
pub open spec fn text_value(value: Seq<char>) -> Option<Seq<char>> {
    if trimmed(value).len() == 0 { None } else { Some(trimmed(value)) }
}

/// `text_error` for a field that may be missing altogether.
pub open spec fn opt_text_error(label: Seq<char>, value: Option<Seq<char>>, max_len: nat) -> Option<
    Seq<char>,
> {
    match value {
        None => None,
        Some(v) => text_error(label, v, max_len, false),
    }
}

/// `text_value` for a field that may be missing altogether.
pub open spec fn opt_text_value(value: Option<Seq<char>>) -> Option<Seq<char>> {
    match value {
        None => None,
        Some(v) => text_value(v),
    }
}

/// Trims `value`; an empty result is refused when `required` and is
/// `None` otherwise; a result longer than `max_len` characters is refused.
pub fn normalize_text(label: &'static str, value: &str, max_len: usize, required: bool) -> (r:
    AppResult<Option<String>>)
    ensures
        text_error(label@, value@, max_len as nat, required) matches Some(m) ==> fails_with(r, m),
        text_error(label@, value@, max_len as nat, required) is None ==> (r matches Ok(o)
            && o.deep_view() == text_value(value@)),
{
    let t = trim(value);
    let cs = chars_of(t.as_str());
    if cs.len() == 0 {
        return if required {
            let mut m = owned(label);
            push_str(&mut m, " is required.");
            Err(AppError::client(m))
        } else {
            Ok(None)
        };
    }
    if cs.len() > max_len {
        let mut m = owned(label);
        push_str(&mut m, " is capped at ");
        push_decimal_u64(&mut m, max_len as u64);
        push_str(&mut m, " characters.");
        assert(m@ =~= capped_msg(label@, max_len as nat));
        return Err(AppError::client(m));
    }
    Ok(Some(t))
}

/// Narrows a record id to the 32-bit column type.
pub fn row_id_arg(id: i64) -> (r: AppResult<i32>)
    ensures
        fits_i32(id as int) ==> r == Ok::<i32, AppError>(id as i32),
        !fits_i32(id as int) ==> fails_with(r, "Record id is out of range."@),
{
    if id < i32::MIN as i64 || id > i32::MAX as i64 {
        Err(client_str("Record id is out of range."))
    } else {
        Ok(id as i32)
    }
}

/// The client error for a record of kind `what` with `id` that does not
/// exist: `"{what} {id} was not found."`.
pub fn not_found(what: &str, id: i64) -> (e: AppError)
    ensures
        e@ == ErrorView::Client(not_found_msg(what@, id as int)),
{
    let mut m = owned(what);
    push_str(&mut m, " ");
    push_decimal(&mut m, id);
    push_str(&mut m, " was not found.");
    AppError::client(m)
}

/// The id of a freshly inserted row, which the storage layer must report.
pub fn inserted_id(last_row_id: Option<i64>) -> (r: AppResult<i64>)
    ensures
        last_row_id matches Some(id) ==> r == Ok::<i64, AppError>(id),
        last_row_id is None ==> fails_internally(
            r,
            "INSERT completed without returning last_row_id."@,
            "missing last_row_id"@,
        ),
{
    match last_row_id {
        Some(id) => Ok(id),
        None => Err(
            AppError::internal_text(
                "INSERT completed without returning last_row_id.",
                owned("missing last_row_id"),
            ),
        ),
    }
}

/// An update or delete that touched no row means its target `what` `id`
/// does not exist.
pub fn require_changed(changed: usize, what: &str, id: i64) -> (r: AppResult<()>)
    ensures
        changed > 0 ==> r is Ok,
        changed == 0 ==> fails_with(r, not_found_msg(what@, id as int)),
{
    if changed == 0 {
        Err(not_found(what, id))
    } else {
        Ok(())
    }
}

/// A looked-up row, or the not-found error for `what` `id`.
pub fn require_found<T>(row: Option<T>, what: &str, id: i64) -> (r: AppResult<T>)
    ensures
        row matches Some(x) ==> (r matches Ok(y) && y == x),
        row is None ==> fails_with(r, not_found_msg(what@, id as int)),
{
    match row {
        Some(x) => Ok(x),
        None => Err(not_found(what, id)),
    }
}

/// A batch of storage statements must return one result per statement.
pub fn check_batch_len(context: &'static str, got: usize, expected: usize) -> (r: AppResult<()>)
    ensures
        got == expected ==> r is Ok,
        got != expected ==> fails_internally(
            r,
            context@,
            "expected "@ + decimal(expected as int) + ", got "@ + decimal(got as int),
        ),
{
    if got != expected {
        let mut s = owned("expected ");
        push_decimal_u64(&mut s, expected as u64);
        push_str(&mut s, ", got ");
        push_decimal_u64(&mut s, got as u64);
        assert(s@ =~= "expected "@ + decimal(expected as int) + ", got "@ + decimal(got as int));
        Err(AppError::internal_text(context, s))
    } else {
        Ok(())
    }
}

/// Normalises an optional free-text field: a missing or blank value is
/// `None`; otherwise as `normalize_text` (not required).
pub fn normalize_optional(label: &'static str, value: &Option<String>, max_len: usize) -> (r:
    AppResult<Option<String>>)
    ensures
        opt_text_error(label@, value.deep_view(), max_len as nat) matches Some(m) ==> fails_with(
            r,
            m,
        ),
        opt_text_error(label@, value.deep_view(), max_len as nat) is None ==> (r matches Ok(o)
            && o.deep_view() == opt_text_value(value.deep_view())),
{
    match value {
        None => Ok(None),
        Some(v) => normalize_text(label, v.as_str(), max_len, false),
    }
}

/// A free-text value accepted by `normalize_text` is accepted again, and
/// left unchanged, when it is normalised a second time.
pub proof fn lemma_normalized_text_is_stable(
    label: Seq<char>,
    value: Seq<char>,
    max_len: nat,
    required: bool,
)
    requires
        text_error(label, value, max_len, required) is None,
        text_value(value) is Some,
    ensures
        text_error(label, text_value(value)->Some_0, max_len, required) is None,
        text_value(text_value(value)->Some_0) == text_value(value),
{
    lemma_trim_idempotent(value);
}

} // verus!

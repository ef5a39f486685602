//! The starter's todo list: title validation and the list's totals.
use vstd::prelude::*;
use crate::counts::{completed_count, todo_stats};
use crate::error::{AppError, AppResult, client_str, fails_with};
use crate::model::{TodoItem, TodosResponse};
use crate::text::{chars_of, decimal, owned, push_decimal, push_str, trim, trimmed, utf8_len, utf8_len_exceeds};
use crate::validation::fits_i32;

verus! {

/// A `todos` row as read from storage; `completed` is stored as an integer.
pub struct TodoRow {
    pub id: i64,
    pub title: String,
    pub completed: i64,
    pub created_at: String,
}

/// The todo a row describes; any non-zero `completed` means completed.
pub fn map_todo(row: TodoRow) -> (t: TodoItem)
    ensures
        t.id == row.id,
        t.title == row.title,
        t.completed == (row.completed != 0),
        t.created_at == row.created_at,
{
    TodoItem {
        id: row.id,
        title: row.title,
        completed: row.completed != 0,
        created_at: row.created_at,
    }
}

/// Trims a todo title; it must not be empty and must fit in 120 bytes.
pub fn normalize_title(title: String) -> (r: AppResult<String>)
    ensures
        trimmed(title@).len() == 0 ==> fails_with(r, "Todo titles cannot be empty."@),
        trimmed(title@).len() > 0 && utf8_len(trimmed(title@)) > 120 ==> fails_with(
            r,
            "Todo titles are capped at 120 characters."@,
        ),
        trimmed(title@).len() > 0 && utf8_len(trimmed(title@)) <= 120 ==> (r matches Ok(t) && t@
            == trimmed(title@)),
{
    let t = trim(title.as_str());
    if chars_of(t.as_str()).len() == 0 {
        return Err(client_str("Todo titles cannot be empty."));
    }
    if utf8_len_exceeds(t.as_str(), 120) {
        return Err(client_str("Todo titles are capped at 120 characters."));
    }
    Ok(t)
}

/// Narrows a todo id to the 32-bit column type.
pub fn todo_id_arg(id: i64) -> (r: AppResult<i32>)
    ensures
        fits_i32(id as int) ==> r == Ok::<i32, AppError>(id as i32),
        !fits_i32(id as int) ==> fails_with(r, "Todo id is out of range."@),
{
    if id < i32::MIN as i64 || id > i32::MAX as i64 {
        Err(client_str("Todo id is out of range."))
    } else {
        Ok(id as i32)
    }
}

/// The list page's payload: the todos and their totals.
pub fn todos_response(items: Vec<TodoItem>) -> (r: TodosResponse)
    ensures
        r.items@ == items@,
        r.stats.total == items@.len(),
        r.stats.completed == completed_count(items@),
        r.stats.open == items@.len() - completed_count(items@),
{
    let stats = todo_stats(&items);
    TodosResponse { items, stats }
}

/// A toggle or delete that touched no row had no target:
/// "Todo {action} target was not found."
pub fn ensure_row_changed(changed: usize, action: &str) -> (r: AppResult<()>)
    ensures
        changed > 0 ==> r is Ok,
        changed == 0 ==> fails_with(r, "Todo "@ + action@ + " target was not found."@),
{
    if changed == 0 {
        let mut m = owned("Todo ");
        push_str(&mut m, action);
        push_str(&mut m, " target was not found.");
        Err(AppError::client(m))
    } else {
        Ok(())
    }
}

/// The todo looked up after a write, or "Todo {id} was not found."
pub fn found_todo(row: Option<TodoRow>, id: i64) -> (r: AppResult<TodoItem>)
    ensures
        row is None ==> fails_with(r, "Todo "@ + decimal(id as int) + " was not found."@),
        row matches Some(x) ==> (r matches Ok(t) && t.id == x.id && t.title == x.title
            && t.completed == (x.completed != 0) && t.created_at == x.created_at),
{
    match row {
        None => {
            let mut m = owned("Todo ");
            push_decimal(&mut m, id);
            push_str(&mut m, " was not found.");
            Err(AppError::client(m))
        },
        Some(x) => Ok(map_todo(x)),
    }
}

} // verus!

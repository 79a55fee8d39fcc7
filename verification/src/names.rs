//! Which names may stand for a script.

use vstd::prelude::*;
use vstd::string::*;
use crate::error::{AppError, AppErrorView};

verus! {

broadcast use vstd::string::group_string_axioms;

/// `name` holds a path separator of either kind.
pub open spec fn has_separator(name: Seq<char>) -> bool {
    exists|i: int| 0 <= i < name.len() && (#[trigger] name[i] == '/' || name[i] == '\\')
}

/// `name` ends in `.py`.
pub open spec fn has_script_suffix(name: Seq<char>) -> bool {
    &&& name.len() >= 3
    &&& name[name.len() - 3] == '.'
    &&& name[name.len() - 2] == 'p'
    &&& name[name.len() - 1] == 'y'
}

/// A name under which a script may be saved: a simple file name, without
/// path separators, that ends in `.py`.
pub open spec fn is_simple_script_name(name: Seq<char>) -> bool {
    !has_separator(name) && has_script_suffix(name)
}

/// A file name whose extension is `py`: it ends in `.py` and something
/// stands before the dot.
pub open spec fn has_script_extension(file_name: Seq<char>) -> bool {
    has_script_suffix(file_name) && file_name.len() > 3
}

/// The reason given when a name is refused.
pub open spec fn invalid_name_reason() -> Seq<char> {
    "Name must be a simple .py filename"@
}

struct NameShape {
    separator: bool,
    suffix: bool,
    longer_than_suffix: bool,
}

fn shape_of(name: &str) -> (shape: NameShape)
    ensures
        shape.separator == has_separator(name@),
        shape.suffix == has_script_suffix(name@),
        shape.longer_than_suffix == (name@.len() > 3),
{
    let mut separator = false;
    let mut seen: u8 = 0;
    let mut third_last = ' ';
    let mut second_last = ' ';
    let mut last = ' ';
    for c in it: name.chars()
        invariant
            it.seq() == name@,
            separator == has_separator(name@.take(it.index() as int)),
            seen <= 4,
            seen < 4 ==> seen == it.index(),
            seen == 4 ==> it.index() >= 4,
            it.index() >= 1 ==> last == name@[it.index() - 1],
            it.index() >= 2 ==> second_last == name@[it.index() - 2],
            it.index() >= 3 ==> third_last == name@[it.index() - 3],
    {
        proof {
            let before = name@.take(it.index() as int);
            let after = name@.take(it.index() + 1);
            if has_separator(before) {
                let i = choose|i: int|
                    0 <= i < before.len() && (#[trigger] before[i] == '/' || before[i] == '\\');
                assert(after[i] == '/' || after[i] == '\\');
            }
            if c == '/' || c == '\\' {
                assert(after[it.index() as int] == '/' || after[it.index() as int] == '\\');
            }
            if has_separator(after) && !(c == '/' || c == '\\') {
                let i = choose|i: int|
                    0 <= i < after.len() && (#[trigger] after[i] == '/' || after[i] == '\\');
                assert(before[i] == '/' || before[i] == '\\');
            }
        }
        if c == '/' || c == '\\' {
            separator = true;
        }
        if seen < 4 {
            seen = seen + 1;
        }
        third_last = second_last;
        second_last = last;
        last = c;
    }
    assert(name@.take(name@.len() as int) == name@);
    NameShape {
        separator,
        suffix: seen >= 3 && third_last == '.' && second_last == 'p' && last == 'y',
        longer_than_suffix: seen >= 4,
    }
}

/// Whether a script may be saved under `name`.
pub fn is_valid_script_name(name: &str) -> (valid: bool)
    ensures
        valid == is_simple_script_name(name@),
{
    let shape = shape_of(name);
    !shape.separator && shape.suffix
}

/// Whether a directory entry of this file name is a script.
pub fn is_script_file(file_name: &str) -> (script: bool)
    ensures
        script == has_script_extension(file_name@),
{
    let shape = shape_of(file_name);
    shape.suffix && shape.longer_than_suffix
}

/// Accepts a name under which a script may be saved and refuses any other.
pub fn check_script_name(name: &str) -> (checked: Result<(), AppError>)
    ensures
        is_simple_script_name(name@) <==> checked is Ok,
        checked matches Err(error) ==> error@ == AppErrorView::InvalidScriptName(
            invalid_name_reason(),
        ),
{
    if is_valid_script_name(name) {
        Ok(())
    } else {
        Err(AppError::InvalidScriptName(String::from_str("Name must be a simple .py filename")))
    }
}

} // verus!

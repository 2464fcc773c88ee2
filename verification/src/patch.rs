//! The line-targeted patch engine: replacing one line of a generated file
//! at a known index while every other line is preserved.

use vstd::prelude::*;
use vstd::string::*;

verus! {

/// Rewrites the file content so that the line at `index` becomes
/// `replacement` verbatim while every other line is preserved in order.
/// An index at or beyond the line count replaces nothing.
pub fn replace_line(lines: &Vec<String>, index: usize, replacement: &str) -> (r: Vec<String>)
    ensures
        r@.len() == lines@.len(),
        forall|j: int| 0 <= j < lines@.len() && j != index ==> r@[j]@ == lines@[j]@,
        index < lines@.len() ==> r@[index as int]@ == replacement@,
{
    let n = lines.len();
    let mut out: Vec<String> = Vec::new();
    let mut i: usize = 0;
    while i < n
        invariant
            i <= n,
            n == lines@.len(),
            out@.len() == i,
            forall|j: int| 0 <= j < i && j != index ==> out@[j]@ == lines@[j]@,
            index < i ==> out@[index as int]@ == replacement@,
        decreases n - i,
    {
        if i == index {
            out.push(replacement.to_owned());
        } else {
            out.push(lines[i].clone());
        }
        i = i + 1;
    }
    out
}

} // verus!

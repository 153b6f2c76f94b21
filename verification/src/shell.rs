//! The shells whose history can be brought in.

use vstd::prelude::*;
use crate::text::{chars_of, ends_with};

verus! {

/// A supported shell.
#[derive(Clone, Copy, Debug, PartialEq, Eq, Structural)]
pub enum Shell {
    Zsh,
}

/// Whether `text` ends with `suffix`.
pub fn has_suffix(text: &str, suffix: &str) -> (found: bool)
    ensures
        found == ends_with(text@, suffix@),
{
    let whole = chars_of(text);
    let end = chars_of(suffix);
    if end.len() > whole.len() {
        return false;
    }
    let start = whole.len() - end.len();
    let ghost tail = text@.skip(text@.len() - suffix@.len());
    let mut i: usize = 0;
    while i < end.len()
        invariant
            i <= end.len() <= whole.len(),
            start == whole.len() - end.len(),
            whole@ == text@,
            end@ == suffix@,
            tail == text@.skip(text@.len() - suffix@.len()),
            tail.take(i as int) == suffix@.take(i as int),
        decreases end.len() - i,
    {
        if whole[start + i] != end[i] {
            assert(tail[i as int] == whole@[start + i]);
            return false;
        }
        assert(tail.take(i + 1) =~= tail.take(i as int).push(tail[i as int]));
        assert(suffix@.take(i + 1) =~= suffix@.take(i as int).push(suffix@[i as int]));
        i += 1;
    }
    assert(tail.take(end.len() as int) =~= tail);
    assert(suffix@.take(end.len() as int) =~= suffix@);
    true
}

impl Shell {
    /// The shell that runs the program at `path`: zsh where the path ends in `/zsh`, and
    /// none that is supported otherwise.
    pub fn detect(path: &str) -> (shell: Option<Shell>)
        ensures
            shell == if ends_with(path@, "/zsh"@) {
                Some(Shell::Zsh)
            } else {
                None::<Shell>
            },
    {
        if has_suffix(path, "/zsh") {
            Some(Shell::Zsh)
        } else {
            None
        }
    }
}

} // verus!

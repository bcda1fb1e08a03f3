//! The text window around the caret that is handed to recognition as context.

use vstd::prelude::*;

verus! {

/// Characters of context kept on each side of the caret.
pub const CONTEXT_CHARS: usize = 200;

/// Start of the context before the caret at `pos`.
pub open spec fn context_start(pos: nat) -> nat {
    if pos > CONTEXT_CHARS { (pos - CONTEXT_CHARS) as nat } else { 0 }
}

/// End of the context after the caret at `pos` in a text of `len` characters.
pub open spec fn context_end(pos: nat, len: nat) -> nat {
    if pos + CONTEXT_CHARS < len { (pos + CONTEXT_CHARS) as nat } else { len }
}

/// The context is at most [`CONTEXT_CHARS`] characters on each side of the
/// caret, exactly that many wherever the text is long enough, and the two
/// sides meet at the caret.
pub proof fn lemma_context_window_size(pos: nat, len: nat)
    requires
        pos <= len,
    ensures
        context_start(pos) <= pos <= context_end(pos, len) <= len,
        pos - context_start(pos) == if pos < CONTEXT_CHARS { pos as int } else { CONTEXT_CHARS as int },
        context_end(pos, len) - pos == if len - pos < CONTEXT_CHARS {
            len - pos
        } else {
            CONTEXT_CHARS as int
        },
{
}

/// Copies `text[from..to]`.
fn copy_range<T: Copy>(text: &[T], from: usize, to: usize) -> (out: Vec<T>)
    requires
        from <= to <= text@.len(),
    ensures
        out@ == text@.subrange(from as int, to as int),
{
    let mut out: Vec<T> = Vec::with_capacity(to - from);
    let mut i: usize = from;
    while i < to
        invariant
            from <= i <= to,
            to <= text@.len(),
            out@ == text@.subrange(from as int, i as int),
        decreases to - i,
    {
        out.push(text[i]);
        i = i + 1;
        assert(out@ == text@.subrange(from as int, i as int));
    }
    out
}

/// The context around a caret at `pos`: up to [`CONTEXT_CHARS`] characters
/// before it and up to [`CONTEXT_CHARS`] characters from it onwards.
pub fn context_around<T: Copy>(text: &[T], pos: usize) -> (window: (Vec<T>, Vec<T>))
    requires
        pos <= text@.len(),
    ensures
        window.0@ == text@.subrange(context_start(pos as nat) as int, pos as int),
        window.1@ == text@.subrange(pos as int, context_end(pos as nat, text@.len()) as int),
        window.0@.len() == if pos < CONTEXT_CHARS { pos as int } else { CONTEXT_CHARS as int },
        window.1@.len() == if text@.len() - pos < CONTEXT_CHARS {
            text@.len() - pos
        } else {
            CONTEXT_CHARS as int
        },
        window.0@ + window.1@ == text@.subrange(
            pos - window.0@.len(),
            pos + window.1@.len(),
        ),
{
    let len = text.len();
    let before_start = if pos > CONTEXT_CHARS { pos - CONTEXT_CHARS } else { 0 };
    let after_end = if len - pos > CONTEXT_CHARS { pos + CONTEXT_CHARS } else { len };
    let before = copy_range(text, before_start, pos);
    let after = copy_range(text, pos, after_end);
    (before, after)
}

} // verus!

//! The glyphs of a progress display, and rows of them.

use vstd::prelude::*;

verus! {

/// Clears the screen and moves the cursor to the first column of the first
/// row.
pub const CLEAR: &'static str = "\x1B[2J\x1B[1;1H";

/// Stands for one step that has been taken.
pub const DONE: char = '*';

/// Stands for one step that a bounded adapter has yet to take.
pub const LEFT: char = '.';

/// Ends every line.
pub const BREAK: char = '\n';

/// The brackets of a bar until others are chosen.
pub const BRACKETS: (char, char) = ('[', ']');

/// A row of `n` times the same glyph.
pub open spec fn marks(glyph: char, n: nat) -> Seq<char> {
    Seq::new(n, |i: int| glyph)
}

/// The glyphs of [`CLEAR`]: `ESC [ 2 J`, which clears the screen, then
/// `ESC [ 1 ; 1 H`, which moves the cursor home.
pub open spec fn clear_glyphs() -> Seq<char> {
    seq!['\u{1b}', '[', '2', 'J', '\u{1b}', '[', '1', ';', '1', 'H']
}

/// What one step sends to the terminal: [`CLEAR`] on a line of its own, then
/// the display's line.
pub open spec fn frame(line: Seq<char>) -> Seq<char> {
    clear_glyphs() + seq![BREAK] + line
}

/// `String::push` appends the character to the end of the string and leaves
/// what was there before as it was.
pub assume_specification[ String::push ](s: &mut String, ch: char)
    ensures
        final(s)@ == old(s)@.push(ch),
;

/// Appends `n` times `glyph` to `out`.
pub(crate) fn push_marks(out: &mut String, glyph: char, n: usize)
    ensures
        final(out)@ == old(out)@ + marks(glyph, n as nat),
{
    let mut k: usize = 0;
    while k < n
        invariant
            k <= n,
            out@ == old(out)@ + marks(glyph, k as nat),
        decreases n - k,
    {
        out.push(glyph);
        k = k + 1;
    }
}

/// Puts [`CLEAR`] and a line break in front of `line`.
pub(crate) fn framed(line: &String) -> (text: String)
    ensures
        text@ == frame(line@),
{
    proof {
        lemma_clear_glyphs();
    }
    let mut text = CLEAR.to_owned();
    text.push(BREAK);
    text.append(line.as_str());
    text
}

/// [`CLEAR`] holds the glyphs that [`clear_glyphs`] lists.
pub proof fn lemma_clear_glyphs()
    ensures
        CLEAR@ == clear_glyphs(),
{
    reveal_strlit("\x1B[2J\x1B[1;1H");
}

} // verus!

use vstd::prelude::*;
use vstd::std_specs::iter::IteratorSpec;
use vstd::string::{axiom_spec_iter, next_postcondition};

verus! {

/// The characters of a source text with a cursor, and the line and column of the
/// cursor for messages.
pub struct ChunkStream {
    pub chunk: Vec<char>,
    pub chunk_name: String,
    pub line: i32,
    pub column: i32,
    pub index: usize,
}

/// The line after one more line feed: the count stops at the largest `i32`.
pub open spec fn line_after(line: i32, c: char) -> i32 {
    if c == '\n' && line < i32::MAX {
        (line + 1) as i32
    } else {
        line
    }
}

/// The column after one more character: 0 after a line feed, else one more; the count
/// stops at the largest `i32`.
pub open spec fn column_after(column: i32, c: char) -> i32 {
    if c == '\n' {
        0
    } else if column < i32::MAX {
        (column + 1) as i32
    } else {
        column
    }
}

/// The line and the column after the characters `from .. to`.
pub open spec fn position_after(line: i32, column: i32, chunk: Seq<char>, from: int, to: int) -> (
    i32,
    i32,
)
    decreases to - from,
{
    if from >= to {
        (line, column)
    } else {
        let before = position_after(line, column, chunk, from, to - 1);
        (line_after(before.0, chunk[to - 1]), column_after(before.1, chunk[to - 1]))
    }
}

/// The digits of a natural number.
pub open spec fn decimal(n: nat) -> Seq<char>
    decreases n,
{
    if n < 10 {
        seq![(48 + n) as char]
    } else {
        decimal(n / 10).push((48 + n % 10) as char)
    }
}

/// An integer with its sign, `+` for zero and above.
pub open spec fn signed_decimal(i: int) -> Seq<char> {
    if i < 0 {
        seq!['-'] + decimal((-i) as nat)
    } else {
        seq!['+'] + decimal(i as nat)
    }
}

/// The position as it stands in messages.
pub open spec fn position_text(line: int, column: int) -> Seq<char> {
    "line: "@ + signed_decimal(line) + ", cloumn: "@ + signed_decimal(column)
}

/// The characters of a string.
pub fn chars_of(s: &str) -> (v: Vec<char>)
    ensures
        v@ == s@,
{
    broadcast use {axiom_spec_iter, next_postcondition};

    let mut it = s.chars();
    let mut v: Vec<char> = Vec::new();
    loop
        invariant
            it.obeys_prophetic_iter_laws(),
            it.decrease() is Some,
            v@ + it.remaining() == s@,
        decreases it.decrease()->0,
    {
        let ghost before = it.remaining();
        match it.next() {
            Some(c) => {
                v.push(c);
                assert(v@ + it.remaining() =~= s@) by {
                    assert(before =~= seq![c] + before.drop_first());
                }
            },
            None => {
                assert(v@ =~= s@);
                return v;
            },
        }
    }
}

fn digit_text(d: u32) -> (r: &'static str)
    requires
        d < 10,
    ensures
        r@ == seq![(48 + d) as char],
{
    proof {
        reveal_strlit("0");
        reveal_strlit("1");
        reveal_strlit("2");
        reveal_strlit("3");
        reveal_strlit("4");
        reveal_strlit("5");
        reveal_strlit("6");
        reveal_strlit("7");
        reveal_strlit("8");
        reveal_strlit("9");
    }
    let r = match d {
        0 => "0",
        1 => "1",
        2 => "2",
        3 => "3",
        4 => "4",
        5 => "5",
        6 => "6",
        7 => "7",
        8 => "8",
        _ => "9",
    };
    assert(r@ =~= seq![(48 + d) as char]);
    r
}

fn push_decimal(out: &mut String, n: u32)
    ensures
        final(out)@ == old(out)@ + decimal(n as nat),
    decreases n,
{
    if n < 10 {
        out.append(digit_text(n));
    } else {
        push_decimal(out, n / 10);
        out.append(digit_text(n % 10));
        assert(out@ =~= old(out)@ + decimal(n as nat));
    }
}

fn push_signed(out: &mut String, i: i32)
    ensures
        final(out)@ == old(out)@ + signed_decimal(i as int),
{
    proof {
        reveal_strlit("-");
        reveal_strlit("+");
    }
    if i < 0 {
        out.append("-");
        let magnitude: u32 = if i == i32::MIN {
            0x8000_0000
        } else {
            (-i) as u32
        };
        push_decimal(out, magnitude);
        assert(out@ =~= old(out)@ + signed_decimal(i as int));
    } else {
        out.append("+");
        push_decimal(out, i as u32);
        assert(out@ =~= old(out)@ + signed_decimal(i as int));
    }
}

impl ChunkStream {
    /// A stream over the characters of `chunk`, at its start: line 1, column 0.
    pub fn new(chunk_name: &str, chunk: &str) -> (r: ChunkStream)
        ensures
            r.chunk_name@ == chunk_name@,
            r.chunk@ == chunk@,
            r.line == 1,
            r.column == 0,
            r.index == 0,
    {
        ChunkStream {
            chunk_name: String::from_str(chunk_name),
            chunk: chars_of(chunk),
            line: 1,
            column: 0,
            index: 0,
        }
    }

    /// The cursor is at the end of the text, or behind it.
    pub open spec fn at_end(&self) -> bool {
        self.index >= self.chunk@.len()
    }

    /// The character under the cursor, or the character 0 at the end of the text.
    pub open spec fn current(&self) -> char {
        if self.at_end() {
            '\0'
        } else {
            self.chunk@[self.index as int]
        }
    }

    /// Takes the character under the cursor and moves on; the line and the column
    /// follow. At the end of the text the character 0 is returned and nothing moves.
    pub fn next(&mut self) -> (c: char)
        ensures
            c == old(self).current(),
            final(self).chunk == old(self).chunk,
            final(self).chunk_name == old(self).chunk_name,
            old(self).at_end() ==> *final(self) == *old(self),
            !old(self).at_end() ==> final(self).index == old(self).index + 1 && final(self).line
                == line_after(old(self).line, c) && final(self).column == column_after(
                old(self).column,
                c,
            ),
    {
        if self.eof() {
            return '\0';
        }
        let c = self.chunk[self.index];
        let _ = self.chunk.len();
        self.index = self.index + 1;
        if c == '\n' {
            if self.line < i32::MAX {
                self.line += 1;
            }
            self.column = 0;
        } else {
            if self.column < i32::MAX {
                self.column += 1;
            }
        }
        c
    }

    /// The character under the cursor, or the character 0 at the end of the text.
    pub fn peek(&self) -> (c: char)
        ensures
            c == self.current(),
    {
        if self.eof() {
            '\0'
        } else {
            self.chunk[self.index]
        }
    }

    /// The character after the one under the cursor, or the character 0 where the text
    /// ends before it.
    pub fn peek2(&self) -> (c: char)
        ensures
            c == if self.index + 1 < self.chunk@.len() {
                self.chunk@[self.index + 1]
            } else {
                '\0'
            },
    {
        if self.index >= self.chunk.len() || self.index + 1 >= self.chunk.len() {
            '\0'
        } else {
            self.chunk[self.index + 1]
        }
    }

    pub fn eof(&self) -> (r: bool)
        ensures
            r == self.at_end(),
    {
        self.index >= self.chunk.len()
    }

    /// The position of the cursor as it stands in messages: line and column, each with
    /// its sign.
    pub fn get_position(&self) -> (r: String)
        ensures
            r@ == position_text(self.line as int, self.column as int),
    {
        let mut out = String::from_str("line: ");
        push_signed(&mut out, self.line);
        out.append(", cloumn: ");
        push_signed(&mut out, self.column);
        out
    }
}

} // verus!

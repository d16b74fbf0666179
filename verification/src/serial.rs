//! The jump signal of a one-button controller on a serial line.

use vstd::prelude::*;
use crate::serial_input::{chars_of, occurs_at, stands_at};

verus! {

/// Whether a character is white space as Unicode defines it (`White_Space`).
pub open spec fn is_white_space(c: char) -> bool {
    let u = c as u32;
    ||| 0x09 <= u <= 0x0D
    ||| u == 0x20
    ||| u == 0x85
    ||| u == 0xA0
    ||| u == 0x1680
    ||| 0x2000 <= u <= 0x200A
    ||| u == 0x2028
    ||| u == 0x2029
    ||| u == 0x202F
    ||| u == 0x205F
    ||| u == 0x3000
}

/// Decides whether a character is white space.
pub fn white_space(c: char) -> (b: bool)
    ensures
        b == is_white_space(c),
{
    let u: u32 = c as u32;
    (0x09 <= u && u <= 0x0D) || u == 0x20 || u == 0x85 || u == 0xA0 || u == 0x1680 || (0x2000 <= u
        && u <= 0x200A) || u == 0x2028 || u == 0x2029 || u == 0x202F || u == 0x205F || u == 0x3000
}

/// A text without the white space it begins with.
pub open spec fn without_leading(s: Seq<char>) -> Seq<char>
    decreases s.len(),
{
    if s.len() > 0 && is_white_space(s[0]) {
        without_leading(s.drop_first())
    } else {
        s
    }
}

/// A text without the white space it ends with.
pub open spec fn without_trailing(s: Seq<char>) -> Seq<char>
    decreases s.len(),
{
    if s.len() > 0 && is_white_space(s.last()) {
        without_trailing(s.drop_last())
    } else {
        s
    }
}

/// A text without the white space around it.
pub open spec fn trimmed(s: Seq<char>) -> Seq<char> {
    without_trailing(without_leading(s))
}

/// Decides whether a line, white space around it aside, is exactly `word`.
pub fn says_only(line: &Vec<char>, word: &Vec<char>) -> (same: bool)
    ensures
        same == (trimmed(line@) == word@),
{
    let n: usize = line.len();
    let mut a: usize = 0;
    proof {
        assert(line@.subrange(0, n as int) =~= line@);
    }
    while a < n && white_space(line[a])
        invariant
            a <= n,
            n == line.len(),
            without_leading(line@) == without_leading(line@.subrange(a as int, n as int)),
        decreases n - a,
    {
        proof {
            assert(line@.subrange(a as int, n as int).drop_first() =~= line@.subrange(
                a + 1,
                n as int,
            ));
        }
        a = a + 1;
    }
    assert(without_leading(line@) == line@.subrange(a as int, n as int));
    let mut b: usize = n;
    while b > a && white_space(line[b - 1])
        invariant
            a <= b <= n,
            n == line.len(),
            trimmed(line@) == without_trailing(line@.subrange(a as int, b as int)),
        decreases b - a,
    {
        proof {
            assert(line@.subrange(a as int, b as int).drop_last() =~= line@.subrange(
                a as int,
                b - 1,
            ));
        }
        b = b - 1;
    }
    assert(trimmed(line@) == line@.subrange(a as int, b as int));
    if b - a != word.len() {
        return false;
    }
    stands_at(line, word, a)
}

/// The flag a one-button controller raises to request a jump.
#[derive(Clone, Copy, Debug, PartialEq, Eq, Structural)]
pub struct JumpSignal(pub bool);

impl Default for JumpSignal {
    fn default() -> (signal: JumpSignal)
        ensures
            !signal.0,
    {
        JumpSignal(false)
    }
}

impl JumpSignal {
    /// Takes in one line from the port: a line that, white space around it
    /// aside, reads `JUMP` raises the flag. A flag that is up stays up.
    pub fn accept_line(&mut self, line: &str)
        ensures
            final(self).0 == (old(self).0 || trimmed(line@) == "JUMP"@),
    {
        let chars: Vec<char> = chars_of(line);
        let jump: Vec<char> = chars_of("JUMP");
        if says_only(&chars, &jump) {
            self.0 = true;
        }
    }

    /// Reads the flag and lowers it, so that one request is served once.
    pub fn take(&mut self) -> (raised: bool)
        ensures
            raised == old(self).0,
            !final(self).0,
    {
        let raised: bool = self.0;
        self.0 = false;
        raised
    }
}

} // verus!

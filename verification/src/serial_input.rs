//! Flags that a hardware controller raises over a serial line. Whoever reads
//! the port hands each line to the reader; the tick reads the flags and
//! clears them.

use vstd::prelude::*;
use vstd::string::*;

verus! {

/// Whether `word` stands in `line` at position `at`.
pub open spec fn occurs_at(line: Seq<char>, word: Seq<char>, at: int) -> bool {
    0 <= at && at + word.len() <= line.len() && line.subrange(at, at + word.len()) == word
}

/// Whether `word` stands somewhere in `line`.
pub open spec fn contains_word(line: Seq<char>, word: Seq<char>) -> bool {
    exists|at: int| occurs_at(line, word, at)
}

/// The characters of a string, in order.
pub fn chars_of(text: &str) -> (chars: Vec<char>)
    ensures
        chars@ == text@,
{
    let n: usize = text.unicode_len();
    let mut chars: Vec<char> = Vec::new();
    let mut i: usize = 0;
    while i < n
        invariant
            i <= n,
            n == text@.len(),
            chars@ == text@.take(i as int),
        decreases n - i,
    {
        chars.push(text.get_char(i));
        proof {
            assert(text@.take(i + 1) =~= text@.take(i as int).push(text@[i as int]));
        }
        i = i + 1;
    }
    proof {
        assert(text@.take(n as int) =~= text@);
    }
    chars
}

/// Decides whether `word` stands in `line` at position `at`.
pub fn stands_at(line: &Vec<char>, word: &Vec<char>, at: usize) -> (found: bool)
    requires
        at + word.len() <= line.len(),
    ensures
        found == occurs_at(line@, word@, at as int),
{
    let m: usize = word.len();
    let mut j: usize = 0;
    while j < m
        invariant
            j <= m,
            m == word.len(),
            at + m <= line.len(),
            forall|k: int| 0 <= k < j ==> line@[at + k] == word@[k],
        decreases m - j,
    {
        if line[at + j] != word[j] {
            proof {
                assert(line@.subrange(at as int, at + m)[j as int] == line@[at + j]);
            }
            return false;
        }
        j = j + 1;
    }
    proof {
        assert(line@.subrange(at as int, at + m) =~= word@);
    }
    true
}

/// Decides whether `word` stands somewhere in `line`.
pub fn mentions(line: &Vec<char>, word: &Vec<char>) -> (found: bool)
    ensures
        found == contains_word(line@, word@),
{
    let n: usize = line.len();
    let m: usize = word.len();
    if m > n {
        return false;
    }
    let last: usize = n - m;
    let mut at: usize = 0;
    while at < last
        invariant
            at <= last,
            last == n - m,
            n == line.len(),
            m == word.len(),
            forall|k: int| 0 <= k < at ==> !occurs_at(line@, word@, k),
        decreases last - at,
    {
        if stands_at(line, word, at) {
            return true;
        }
        at = at + 1;
    }
    stands_at(line, word, last)
}

/// The flags of a controller with a jump and a duck button, and the name of
/// the port it is read from.
#[derive(Clone, Debug)]
pub struct SerialReader {
    pub port_name: String,
    pub jump_pressed: bool,
    pub duck_pressed: bool,
}

impl SerialReader {
    /// A reader for the named port, with both flags down.
    pub fn new(port_name: &str) -> (reader: SerialReader)
        ensures
            reader.port_name@ == port_name@,
            !reader.jump_pressed,
            !reader.duck_pressed,
    {
        SerialReader {
            port_name: port_name.to_owned(),
            jump_pressed: false,
            duck_pressed: false,
        }
    }

    /// Takes in one line from the port: a line that mentions `JUMP` raises
    /// the jump flag, one that mentions `DUCK` raises the duck flag. A flag
    /// that is up stays up.
    pub fn accept_line(&mut self, line: &str)
        ensures
            final(self).jump_pressed == (old(self).jump_pressed || contains_word(line@, "JUMP"@)),
            final(self).duck_pressed == (old(self).duck_pressed || contains_word(line@, "DUCK"@)),
            final(self).port_name == old(self).port_name,
    {
        let chars: Vec<char> = chars_of(line);
        let jump: Vec<char> = chars_of("JUMP");
        let duck: Vec<char> = chars_of("DUCK");
        if mentions(&chars, &jump) {
            self.jump_pressed = true;
        }
        if mentions(&chars, &duck) {
            self.duck_pressed = true;
        }
    }

    /// Lowers both flags.
    pub fn reset_inputs(&mut self)
        ensures
            !final(self).jump_pressed,
            !final(self).duck_pressed,
            final(self).port_name == old(self).port_name,
    {
        self.jump_pressed = false;
        self.duck_pressed = false;
    }
}

} // verus!

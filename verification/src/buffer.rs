//! The line of text typed since the last confirm or clear, with the
//! append / backspace / clear state machine that the input events drive.

use vstd::prelude::*;

verus! {

/// A control character: the C0 range, delete, and the C1 range. These are
/// exactly the characters `char::is_control` reports, and they are never
/// appended to the buffer.
pub open spec fn spec_is_control_char(c: char) -> bool {
    (c as u32) < 0x20 || (0x7F <= (c as u32) && (c as u32) <= 0x9F)
}

/// Decides `spec_is_control_char` on a concrete character.
pub fn is_control_char(c: char) -> (r: bool)
    ensures
        r == spec_is_control_char(c),
{
    let u = c as u32;
    u < 0x20 || (0x7F <= u && u <= 0x9F)
}

/// The buffer after one typed character: control characters are ignored,
/// anything else is appended.
pub open spec fn spec_typed_char(b: Seq<char>, c: char) -> Seq<char> {
    if spec_is_control_char(c) {
        b
    } else {
        b.push(c)
    }
}

/// The buffer after a whole queue of typed characters, applied in arrival
/// order.
pub open spec fn spec_typed_chars(b: Seq<char>, cs: Seq<char>) -> Seq<char>
    decreases cs.len(),
{
    if cs.len() == 0 {
        b
    } else {
        spec_typed_char(spec_typed_chars(b, cs.drop_last()), cs.last())
    }
}

/// The line of text typed since the last confirm or clear.
#[derive(Debug)]
pub struct LineBuffer {
    chars: Vec<char>,
}

impl View for LineBuffer {
    type V = Seq<char>;

    closed spec fn view(&self) -> Seq<char> {
        self.chars@
    }
}

impl LineBuffer {
    /// An empty buffer.
    pub fn new() -> (b: LineBuffer)
        ensures
            b@ == Seq::<char>::empty(),
    {
        LineBuffer { chars: Vec::new() }
    }

    /// A typed character arrives: append it unless it is a control
    /// character.
    pub fn type_char(&mut self, c: char)
        ensures
            final(self)@ == spec_typed_char(old(self)@, c),
    {
        if !is_control_char(c) {
            self.chars.push(c);
        }
    }

    /// Backspace: drop the last character; an empty buffer stays empty.
    pub fn backspace(&mut self)
        ensures
            old(self)@.len() > 0 ==> final(self)@ == old(self)@.drop_last(),
            old(self)@.len() == 0 ==> final(self)@ == old(self)@,
    {
        let _dropped = self.chars.pop();
    }

    /// Empty the buffer, as every confirm press does.
    pub fn clear(&mut self)
        ensures
            final(self)@ == Seq::<char>::empty(),
    {
        self.chars.clear();
    }

    /// Number of characters currently held.
    pub fn len(&self) -> (n: usize)
        ensures
            n == self@.len(),
    {
        self.chars.len()
    }

    /// The characters currently held, for the host to display.
    pub fn contents(&self) -> (r: &Vec<char>)
        ensures
            r@ == self@,
    {
        &self.chars
    }

    /// Exact comparison against a target word: true just when the buffer
    /// holds precisely the target's characters.
    pub fn matches_word(&self, target: &Vec<char>) -> (r: bool)
        ensures
            r == (self@ == target@),
    {
        if self.chars.len() != target.len() {
            return false;
        }
        let n = self.chars.len();
        let mut i: usize = 0;
        while i < n
            invariant
                i <= n,
                n == self@.len(),
                n == target@.len(),
                forall|j: int| 0 <= j < i ==> self@[j] == target@[j],
            decreases n - i,
        {
            if self.chars[i] != target[i] {
                return false;
            }
            i = i + 1;
        }
        proof {
            assert(self@ =~= target@);
        }
        true
    }
}

} // verus!

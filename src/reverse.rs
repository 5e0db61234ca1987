use vstd::prelude::*;

use crate::converter::TextConverter;

verus! {

/// A conversion that reverses the order of the characters of a text.
pub struct ReverseText;

impl TextConverter for ReverseText {
    open spec fn conversion(input: Seq<char>) -> Seq<char> {
        input.reverse()
    }

    fn converter(input: &str) -> (output: String) {
        let n = input.unicode_len();
        let mut output = String::new();
        let mut i: usize = n;
        while i > 0
            invariant
                n == input@.len(),
                i <= n,
                output@.len() == n - i,
                forall|j: int| 0 <= j < n - i ==> output@[j] == input@[n - 1 - j],
            decreases i,
        {
            let ch = input.substring_char(i - 1, i);
            output.append(ch);
            i = i - 1;
        }
        assert(output@ =~= input@.reverse());
        output
    }
}

/// Reversing a text twice gives it back: for this conversion, though not for
/// every conversion, applying it to its own result is the identity.
pub proof fn lemma_reverse_twice(input: Seq<char>)
    ensures
        ReverseText::conversion(ReverseText::conversion(input)) == input,
{
    assert(input.reverse().reverse() =~= input);
}

} // verus!

//! The display form of a secret.

use vstd::prelude::*;
use vstd::string::*;

verus! {

/// A secret is shown in part only when it has more characters than this.
pub const MASK_THRESHOLD: usize = 7;

/// The masked form of a secret: its first three and last four characters
/// around an ellipsis when it has more than seven characters, three
/// asterisks otherwise.
pub open spec fn masked(value: Seq<char>) -> Seq<char> {
    if value.len() > MASK_THRESHOLD {
        value.subrange(0, 3) + seq!['.', '.', '.'] + value.subrange(value.len() - 4, value.len() as int)
    } else {
        seq!['*', '*', '*']
    }
}

/// Computes the masked form of `value`. Lengths and positions count
/// characters, so a secret outside ASCII is cut between characters too.
pub fn generate_masked_value(value: &str) -> (shown: String)
    ensures
        shown@ == masked(value@),
{
    let count: usize = value.unicode_len();
    if count > MASK_THRESHOLD {
        let mut shown = String::from_str(value.substring_char(0, 3));
        shown.append("...");
        shown.append(value.substring_char(count - 4, count));
        proof {
            reveal_strlit("...");
            assert("..."@ =~= seq!['.', '.', '.']);
        }
        shown
    } else {
        proof {
            reveal_strlit("***");
            assert("***"@ =~= seq!['*', '*', '*']);
        }
        String::from_str("***")
    }
}

} // verus!

//! Notation parser: turns the raw text after a move command into two board
//! squares. The text must split into exactly two space-separated tokens; a
//! token must, after uppercasing, reduce (dropping every byte that is not a
//! file letter `A`..`H` or a rank digit `1`..`8`) to exactly one letter and
//! one digit, in either order.

use vstd::prelude::*;

use crate::model::{MoveRequest, Square};

verus! {

/// The move text was malformed; the caller replies "Invalid move".
#[derive(Clone, Copy, Debug, PartialEq, Eq, Structural)]
pub struct ParseError;

/// The token separator: an ASCII space.
pub open spec fn is_space(b: u8) -> bool {
    b == 32
}

/// Uppercases an ASCII lowercase letter; leaves every other byte alone.
pub open spec fn norm_byte(b: u8) -> u8 {
    if 97 <= b && b <= 122 {  // 'a'..='z'
        (b - 32) as u8
    } else {
        b
    }
}

/// A file letter 'A'..='H'.
pub open spec fn is_file_letter(b: u8) -> bool {
    65 <= b && b <= 72
}

/// A rank digit '1'..='8'.
pub open spec fn is_rank_digit(b: u8) -> bool {
    49 <= b && b <= 56
}

/// A byte that survives filtering: a file letter or a rank digit.
pub open spec fn is_kept(b: u8) -> bool {
    is_file_letter(b) || is_rank_digit(b)
}

/// A token reduced for validation: uppercased, with every byte that is not a
/// file letter or rank digit dropped.
pub open spec fn filtered_token(t: Seq<u8>) -> Seq<u8> {
    t.map_values(|b: u8| norm_byte(b)).filter(|b: u8| is_kept(b))
}

/// The square a token denotes: its reduction must be exactly one file letter
/// and one rank digit, in either order.
pub open spec fn spec_token_square(t: Seq<u8>) -> Option<Square> {
    let f = filtered_token(t);
    if f.len() == 2 && is_file_letter(f[0]) && is_rank_digit(f[1]) {
        Some(Square { file: (f[0] - 65) as u8, rank: (f[1] - 49) as u8 })
    } else if f.len() == 2 && is_rank_digit(f[0]) && is_file_letter(f[1]) {
        Some(Square { file: (f[1] - 65) as u8, rank: (f[0] - 49) as u8 })
    } else {
        None
    }
}

/// Position `i` splits the text into exactly two tokens that both denote
/// squares: the byte there is the only space in the text.
pub open spec fn splits_to_request(s: Seq<u8>, i: int) -> bool {
    &&& 0 <= i < s.len()
    &&& is_space(s[i])
    &&& forall|j: int| 0 <= j < s.len() && j != i ==> !is_space(s[j])
    &&& spec_token_square(s.take(i)) is Some
    &&& spec_token_square(s.skip(i + 1)) is Some
}

/// What the parser accepts: a text with exactly one space whose two sides both
/// reduce to valid squares, and nothing else.
pub open spec fn spec_parse(s: Seq<u8>) -> Option<MoveRequest> {
    if exists|i: int| splits_to_request(s, i) {
        let i = choose|i: int| splits_to_request(s, i);
        Some(
            MoveRequest {
                source: spec_token_square(s.take(i)).unwrap(),
                destination: spec_token_square(s.skip(i + 1)).unwrap(),
            },
        )
    } else {
        None
    }
}

/// Filtering one more byte extends the reduction by that byte when it is
/// kept, and leaves it alone otherwise.
proof fn lemma_filtered_step(t: Seq<u8>, j: int)
    requires
        0 <= j < t.len(),
    ensures
        is_kept(norm_byte(t[j])) ==> filtered_token(t.take(j + 1)) == filtered_token(
            t.take(j),
        ).push(norm_byte(t[j])),
        !is_kept(norm_byte(t[j])) ==> filtered_token(t.take(j + 1)) == filtered_token(t.take(j)),
{
    let m1 = t.take(j + 1).map_values(|b: u8| norm_byte(b));
    let m0 = t.take(j).map_values(|b: u8| norm_byte(b));
    assert(m1 =~= m0.push(norm_byte(t[j])));
    reveal(Seq::filter);
    assert(m1.drop_last() =~= m0);
    assert(m1.last() == norm_byte(t[j]));
}

/// Uppercases a lowercase ASCII letter, executable form.
fn upper_byte(b: u8) -> (r: u8)
    ensures
        r == norm_byte(b),
{
    if 97 <= b && b <= 122 {
        b - 32
    } else {
        b
    }
}

/// Reads the square a token denotes, rejecting any token whose reduction is
/// not exactly one file letter and one rank digit.
pub fn parse_token(t: &[u8]) -> (r: Option<Square>)
    ensures
        r == spec_token_square(t@),
        r matches Some(sq) ==> sq.valid(),
{
    let ghost gt = t@;
    let mut count: usize = 0;
    let mut first: u8 = 0;
    let mut second: u8 = 0;
    let mut j: usize = 0;
    while j < t.len()
        invariant
            0 <= j <= gt.len(),
            t@ == gt,
            count <= j,
            count == filtered_token(gt.take(j as int)).len(),
            count >= 1 ==> first == filtered_token(gt.take(j as int))[0],
            count >= 2 ==> second == filtered_token(gt.take(j as int))[1],
        decreases gt.len() - j,
    {
        let b = upper_byte(t[j]);
        proof {
            lemma_filtered_step(gt, j as int);
        }
        if (65 <= b && b <= 72) || (49 <= b && b <= 56) {
            if count == 0 {
                first = b;
            } else if count == 1 {
                second = b;
            }
            count = count + 1;
        }
        j = j + 1;
    }
    proof {
        assert(gt.take(gt.len() as int) =~= gt);
    }
    if count == 2 {
        if 65 <= first && first <= 72 && 49 <= second && second <= 56 {
            Some(Square { file: first - 65, rank: second - 49 })
        } else if 49 <= first && first <= 56 && 65 <= second && second <= 72 {
            Some(Square { file: second - 65, rank: first - 49 })
        } else {
            None
        }
    } else {
        None
    }
}

/// Parses the remainder of a move command into its two squares. Rejects, with
/// no other effect, every text that does not split into exactly two tokens
/// that both reduce to valid squares.
pub fn parse_move(text: &[u8]) -> (r: Result<MoveRequest, ParseError>)
    ensures
        r matches Ok(m) ==> spec_parse(text@) == Some(m) && m.valid(),
        r is Err ==> spec_parse(text@) is None,
{
    let ghost gt = text@;
    let mut space_at: usize = 0;
    let mut spaces: usize = 0;
    let mut i: usize = 0;
    while i < text.len()
        invariant
            0 <= i <= gt.len(),
            text@ == gt,
            spaces <= i,
            spaces >= 1 ==> space_at < i && is_space(gt[space_at as int]),
            spaces <= 1 ==> forall|j: int|
                0 <= j < i && j != space_at ==> !is_space(gt[j]),
            spaces == 0 ==> forall|j: int| 0 <= j < i ==> !is_space(gt[j]),
            spaces >= 2 ==> exists|j: int|
                0 <= j < i && j != space_at && is_space(gt[j]),
        decreases gt.len() - i,
    {
        if text[i] == 32 {
            if spaces == 0 {
                space_at = i;
            }
            spaces = spaces + 1;
        }
        i = i + 1;
    }
    if spaces != 1 {
        proof {
            assert forall|k: int| !splits_to_request(gt, k) by {
                if 0 <= k < gt.len() && is_space(gt[k]) {
                    assert(spaces >= 1);
                }
            }
        }
        return Err(ParseError);
    }
    let left = vstd::slice::slice_subrange(text, 0, space_at);
    let right = vstd::slice::slice_subrange(text, space_at + 1, text.len());
    proof {
        assert(left@ =~= gt.take(space_at as int));
        assert(right@ =~= gt.skip(space_at as int + 1));
    }
    let source = match parse_token(left) {
        Some(sq) => sq,
        None => {
            proof {
                assert forall|k: int| !splits_to_request(gt, k) by {
                    if 0 <= k < gt.len() && is_space(gt[k]) {
                        assert(k == space_at as int);
                    }
                }
            }
            return Err(ParseError);
        },
    };
    let destination = match parse_token(right) {
        Some(sq) => sq,
        None => {
            proof {
                assert forall|k: int| !splits_to_request(gt, k) by {
                    if 0 <= k < gt.len() && is_space(gt[k]) {
                        assert(k == space_at as int);
                    }
                }
            }
            return Err(ParseError);
        },
    };
    proof {
        assert(splits_to_request(gt, space_at as int));
        let w = choose|k: int| splits_to_request(gt, k);
        assert(w == space_at as int);
    }
    Ok(MoveRequest { source, destination })
}

} // verus!

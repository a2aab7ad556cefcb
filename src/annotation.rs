use vstd::prelude::*;

verus! {

/// The numeric code of an annotation token: `N` is 0, `V` is 1, `S` is 2,
/// and every other token is 3.
pub open spec fn code_of(token: Seq<char>) -> u8 {
    if token.len() != 1 {
        3
    } else if token[0] == 'N' {
        0
    } else if token[0] == 'V' {
        1
    } else if token[0] == 'S' {
        2
    } else {
        3
    }
}

/// Maps an annotation token to its numeric code. The mapping is total.
pub fn annotation_code(token: &str) -> (r: u8)
    ensures
        r == code_of(token@),
        r <= 3,
{
    if token.unicode_len() != 1 {
        return 3;
    }
    let c = token.get_char(0);
    if c == 'N' {
        0
    } else if c == 'V' {
        1
    } else if c == 'S' {
        2
    } else {
        3
    }
}

} // verus!

use vstd::prelude::*;

verus! {

/// The character that writes one decimal digit.
pub open spec fn digit_char(d: int) -> char {
    if d == 0 {
        '0'
    } else if d == 1 {
        '1'
    } else if d == 2 {
        '2'
    } else if d == 3 {
        '3'
    } else if d == 4 {
        '4'
    } else if d == 5 {
        '5'
    } else if d == 6 {
        '6'
    } else if d == 7 {
        '7'
    } else if d == 8 {
        '8'
    } else {
        '9'
    }
}

/// The decimal writing of a non-negative number, most significant digit
/// first, with no leading zeros (except for zero itself).
pub open spec fn decimal_chars(n: int) -> Seq<char>
    decreases n,
{
    if n < 10 {
        seq![digit_char(n)]
    } else {
        decimal_chars(n / 10).push(digit_char(n % 10))
    }
}

/// The score line shown in the header band.
pub open spec fn score_text(score: int) -> Seq<char> {
    seq!['S', 'c', 'o', 'r', 'e', ':', ' '] + decimal_chars(score)
}

/// The message shown while the game is over.
pub open spec fn game_over_text() -> Seq<char> {
    seq!['G', 'a', 'm', 'e', ' ', 'O', 'v', 'e', 'r']
}

/// The blank run that hides the game-over message between blinks.
pub open spec fn game_over_blank() -> Seq<char> {
    seq![' ', ' ', ' ', ' ', ' ', ' ', ' ', ' ', ' ']
}

fn digit_to_char(d: u16) -> (c: char)
    requires
        d < 10,
    ensures
        c == digit_char(d as int),
{
    match d {
        0 => '0',
        1 => '1',
        2 => '2',
        3 => '3',
        4 => '4',
        5 => '5',
        6 => '6',
        7 => '7',
        8 => '8',
        _ => '9',
    }
}

/// Appends the decimal writing of `n` to `out`.
fn push_decimal(n: u16, out: &mut Vec<char>)
    ensures
        final(out)@ == old(out)@ + decimal_chars(n as int),
    decreases n,
{
    if n < 10 {
        out.push(digit_to_char(n));
        proof {
            assert(out@ =~= old(out)@ + decimal_chars(n as int));
        }
    } else {
        push_decimal(n / 10, out);
        out.push(digit_to_char(n % 10));
        proof {
            assert(out@ =~= old(out)@ + decimal_chars(n as int));
        }
    }
}

/// The score line as characters: the label, then the decimal score.
pub fn score_line(score: u16) -> (r: Vec<char>)
    ensures
        r@ == score_text(score as int),
{
    let mut r: Vec<char> = Vec::new();
    r.push('S');
    r.push('c');
    r.push('o');
    r.push('r');
    r.push('e');
    r.push(':');
    r.push(' ');
    proof {
        assert(r@ =~= seq!['S', 'c', 'o', 'r', 'e', ':', ' ']);
    }
    push_decimal(score, &mut r);
    r
}

/// The game-over line as characters: the message when `visible`, the blank
/// run of the same length otherwise.
pub fn game_over_line(visible: bool) -> (r: Vec<char>)
    ensures
        r@ == if visible {
            game_over_text()
        } else {
            game_over_blank()
        },
{
    let mut r: Vec<char> = Vec::new();
    if visible {
        r.push('G');
        r.push('a');
        r.push('m');
        r.push('e');
        r.push(' ');
        r.push('O');
        r.push('v');
        r.push('e');
        r.push('r');
        proof {
            assert(r@ =~= game_over_text());
        }
    } else {
        let mut i: usize = 0;
        while i < 9
            invariant
                i <= 9,
                r@ =~= game_over_blank().take(i as int),
            decreases 9 - i,
        {
            r.push(' ');
            proof {
                assert(r@ =~= game_over_blank().take(i + 1));
            }
            i = i + 1;
        }
        proof {
            assert(r@ =~= game_over_blank());
        }
    }
    r
}

} // verus!

//! Texts: numerals, amounts, hexadecimal digits, white space, lists of names, and what is said of
//! a failure.

use vstd::prelude::*;

use crate::chain::{amount_text, without_trailing_zeros};
use crate::form::Model;
use crate::hexadecimal::{hex_digit, hex_text, hex_value};
use crate::text::{
    all_trimmed, decimal, is_blank, is_trimmed, leading_space, names_in, padded, pieces,
    pieces_of_join, space_is_bounded, trailing_space, trimmed, trimming_trims, white_space,
};
use crate::wire::{Failure, failure_texts};

verus! {

/// Whether a text is made of decimal digits.
pub open spec fn is_digits(s: Seq<char>) -> bool {
    forall|i: int| 0 <= i < s.len() ==> '0' <= #[trigger] s[i] <= '9'
}

/// What decimal digits are worth, each ten times as much as the one behind it.
pub open spec fn worth(s: Seq<char>) -> nat
    decreases s.len(),
{
    if s.len() == 0 {
        0
    } else {
        10 * worth(s.drop_last()) + (s.last() as u32 - '0' as u32) as nat
    }
}

/// A numeral is made of digits, is worth its number, and has no zero in front but for zero itself.
pub proof fn a_numeral_is_worth_its_number(n: nat)
    ensures
        decimal(n).len() > 0,
        is_digits(decimal(n)),
        worth(decimal(n)) == n,
        n > 0 ==> decimal(n)[0] != '0',
        n == 0 ==> decimal(n).len() == 1,
    decreases n,
{
    let s = decimal(n);
    if n < 10 {
        assert(s.drop_last() =~= seq![]);
        assert(worth(seq![]) == 0);
    } else {
        a_numeral_is_worth_its_number(n / 10);
        assert(s.drop_last() =~= decimal(n / 10));
        assert forall|i: int| 0 <= i < s.len() implies '0' <= #[trigger] s[i] <= '9' by {
            if i < s.len() - 1 {
                assert(s[i] == decimal(n / 10)[i]);
            }
        }
        assert(s[0] == decimal(n / 10)[0]);
    }
}

/// Ten to some power.
pub open spec fn ten_to(n: nat) -> nat
    decreases n,
{
    if n == 0 {
        1
    } else {
        10 * ten_to((n - 1) as nat)
    }
}

/// A padded number has its width, is made of digits, and is worth the number where that fits.
proof fn padding_keeps_worth(n: nat, width: nat)
    requires
        n < ten_to(width),
    ensures
        padded(n, width).len() == width,
        is_digits(padded(n, width)),
        worth(padded(n, width)) == n,
    decreases width,
{
    if width > 0 {
        let s = padded(n, width);
        let front = padded(n / 10, (width - 1) as nat);
        padding_keeps_worth(n / 10, (width - 1) as nat);
        assert(s.drop_last() =~= front);
        assert forall|i: int| 0 <= i < s.len() implies '0' <= #[trigger] s[i] <= '9' by {
            if i < s.len() - 1 {
                assert(s[i] == front[i]);
            }
        }
    }
}

/// Zeros at the end of digits are places alone.
proof fn trailing_zeros_are_places(s: Seq<char>)
    requires
        is_digits(s),
    ensures
        ({
            let short = without_trailing_zeros(s);
            &&& short.len() <= s.len()
            &&& is_digits(short)
            &&& short.len() > 0 ==> short.last() != '0'
            &&& worth(s) == worth(short) * ten_to((s.len() - short.len()) as nat)
        }),
    decreases s.len(),
{
    if s.len() > 0 && s.last() == '0' {
        let front = s.drop_last();
        trailing_zeros_are_places(front);
        let short = without_trailing_zeros(front);
        let less: nat = (front.len() - short.len()) as nat;
        assert(10 * (worth(short) * ten_to(less)) == worth(short) * (10 * ten_to(less)))
            by (nonlinear_arith);
        let more: nat = (s.len() - short.len()) as nat;
        assert(more == less + 1);
        assert(ten_to(more) == 10 * ten_to(less));
        assert(worth(s) == 10 * worth(front));
        assert(worth(s) == worth(short) * ten_to(more));
    } else {
        let one: nat = ten_to(0);
        assert(worth(s) * one == worth(s)) by (nonlinear_arith)
            requires
                one == 1,
        ;
    }
}

/// An amount shows its whole coins and, behind a point, as many decimals as it needs, which are
/// worth the rest of its satoshis.
pub proof fn an_amount_is_worth_its_satoshis(sats: nat)
    ensures
        sats % 100_000_000 == 0 ==> amount_text(sats) == decimal(sats / 100_000_000) + " BTC"@,
        sats % 100_000_000 != 0 ==> exists|decimals: Seq<char>|
            {
                &&& amount_text(sats) == decimal(sats / 100_000_000) + seq!['.'] + decimals
                    + " BTC"@
                &&& 0 < decimals.len() <= 8
                &&& is_digits(decimals)
                &&& decimals.last() != '0'
                &&& #[trigger] worth(decimals) * ten_to((8 - decimals.len()) as nat) == sats
                    % 100_000_000
            },
{
    let rest = sats % 100_000_000;
    if rest != 0 {
        assert(ten_to(8) == 100_000_000) by {
            reveal_with_fuel(ten_to, 9);
        }
        padding_keeps_worth(rest, 8);
        trailing_zeros_are_places(padded(rest, 8));
        let decimals = without_trailing_zeros(padded(rest, 8));
        if decimals.len() == 0 {
            assert(worth(decimals) == 0);
            assert(0 * ten_to(8) == 0);
        }
        assert(worth(decimals) * ten_to((8 - decimals.len()) as nat) == rest);
    }
}

/// The sixteen hexadecimal digits are written in lower case, and read in either case.
pub proof fn hexadecimal_digits_are(n: nat)
    requires
        n < 16,
    ensures
        hex_digit(n) == "0123456789abcdef"@[n as int],
        hex_value("0123456789abcdef"@[n as int]) == Some(n),
        hex_value("0123456789ABCDEF"@[n as int]) == Some(n),
{
    reveal_strlit("0123456789abcdef");
    reveal_strlit("0123456789ABCDEF");
}

/// A byte is written as two hexadecimal digits, the high one first.
pub proof fn bytes_are_written_as_two_digits(data: Seq<u8>, i: int)
    requires
        0 <= i < data.len(),
    ensures
        hex_text(data).len() == 2 * data.len(),
        hex_text(data)[2 * i] == "0123456789abcdef"@[data[i] as int / 16],
        hex_text(data)[2 * i + 1] == "0123456789abcdef"@[data[i] as int % 16],
{
    hexadecimal_digits_are(data[i] as nat / 16);
    hexadecimal_digits_are(data[i] as nat % 16);
}

/// White space is what Unicode calls so: twenty-five characters.
pub proof fn white_space_is(c: char)
    ensures
        white_space(c) <==> {
            ||| c == '\t'
            ||| c == '\n'
            ||| c == '\u{b}'
            ||| c == '\u{c}'
            ||| c == '\r'
            ||| c == ' '
            ||| c == '\u{85}'
            ||| c == '\u{a0}'
            ||| c == '\u{1680}'
            ||| '\u{2000}' <= c <= '\u{200a}'
            ||| c == '\u{2028}'
            ||| c == '\u{2029}'
            ||| c == '\u{202f}'
            ||| c == '\u{205f}'
            ||| c == '\u{3000}'
        },
{
}

/// A text is what trimming leaves, with white space in front and behind.
pub proof fn trimming_takes_white_space_alone(s: Seq<char>)
    ensures
        exists|front: Seq<char>, back: Seq<char>|
            s == #[trigger] (front + trimmed(s) + back) && is_blank(front) && is_blank(back),
        is_trimmed(trimmed(s)),
{
    let lead = leading_space(s) as int;
    let rest = s.skip(lead);
    let left = rest.len() - trailing_space(rest);
    space_is_bounded(s);
    space_is_bounded(rest);
    leading_space_is_blank(s);
    trailing_space_is_blank(rest);
    assert(s =~= s.take(lead) + trimmed(s) + rest.skip(left));
    trimming_trims(s);
}

/// The white space in front of a text is blank.
proof fn leading_space_is_blank(s: Seq<char>)
    ensures
        is_blank(s.take(leading_space(s) as int)),
    decreases s.len(),
{
    space_is_bounded(s);
    if s.len() > 0 && white_space(s[0]) {
        let rest = s.drop_first();
        let front = s.take(leading_space(s) as int);
        leading_space_is_blank(rest);
        space_is_bounded(rest);
        assert forall|i: int| 0 <= i < front.len() implies white_space(#[trigger] front[i]) by {
            if i > 0 {
                assert(front[i] == rest.take(leading_space(rest) as int)[i - 1]);
            }
        }
    }
}

/// The white space behind a text is blank.
proof fn trailing_space_is_blank(s: Seq<char>)
    ensures
        is_blank(s.skip(s.len() - trailing_space(s))),
    decreases s.len(),
{
    space_is_bounded(s);
    if s.len() > 0 && white_space(s.last()) {
        let front = s.drop_last();
        let back = s.skip(s.len() - trailing_space(s));
        trailing_space_is_blank(front);
        space_is_bounded(front);
        assert forall|i: int| 0 <= i < back.len() implies white_space(#[trigger] back[i]) by {
            if i < back.len() - 1 {
                assert(back[i] == front.skip(front.len() - trailing_space(front))[i]);
            }
        }
    }
}

/// A list of names is cut at its commas: what stands in front of the first one, trimmed, is the
/// first name, and the others are those of the rest; a list without a comma is one name.
pub proof fn a_list_is_cut_at_commas(first: Seq<char>, rest: Seq<char>)
    requires
        !first.contains(','),
    ensures
        names_in(first) == seq![trimmed(first)],
        names_in(first + seq![','] + rest) == seq![trimmed(first)] + names_in(rest),
{
    pieces_of_join(first, rest, ',');
    assert(names_in(first) =~= seq![trimmed(first)]);
    assert(names_in(first + seq![','] + rest) =~= seq![trimmed(first)] + all_trimmed(
        pieces(rest, ','),
    ));
}

/// What is said of a failure: one message of the program, or those of what failed outside.
pub proof fn failures_are_told(name: Seq<char>, messages: Seq<Seq<char>>)
    ensures
        failure_texts(Failure::<Model>::KekMissing) == seq!["INSCRIBER_KEK not found"@],
        failure_texts(Failure::<Model>::NotSecp256k1 { name }) == seq![
            name + " is not a secp256k1 key"@,
        ],
        failure_texts(Failure::<Model>::NotEd25519 { name }) == seq![
            name + " is not a ed25519 key"@,
        ],
        failure_texts(Failure::<Model>::InvalidName { name }) == seq![
            "invalid name to inscribe: "@ + name,
        ],
        failure_texts(Failure::<Model>::NoNames) == seq!["no names to inscribe"@],
        failure_texts(Failure::<Model>::NoMatchedOutput) == seq![
            "no matched transaction out to spend"@,
        ],
        failure_texts(Failure::<Model>::Outside { messages }) == messages,
{
}

} // verus!

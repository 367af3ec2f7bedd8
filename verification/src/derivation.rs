//! The paths along which keys are derived.

use vstd::prelude::*;

use crate::chain::{child_number, decimal_value, hardened, is_decimal, path_children};
use crate::text::{decimal, decimal_text, join2, join3, pieces, pieces_of_join};

verus! {

/// A derivation path: its root, an account and an index.
pub open spec fn derivation(root: Seq<char>, acc: u32, idx: u32) -> Seq<char> {
    root + decimal(acc as nat) + ("'/1/"@ + decimal(idx as nat))
}

/// The path along which a secp256k1 key is derived.
pub open spec fn secp256k1_path(acc: u32, idx: u32) -> Seq<char> {
    derivation("m/44'/0'/"@, acc, idx)
}

/// The path along which an Ed25519 key is derived.
pub open spec fn ed25519_path(acc: u32, idx: u32) -> Seq<char> {
    derivation("m/42'/0'/"@, acc, idx)
}

/// The numeral of a number consists of digits, and stands for the number.
proof fn decimal_reads_back(n: nat)
    ensures
        is_decimal(decimal(n)),
        decimal_value(decimal(n)) == n,
    decreases n,
{
    reveal_with_fuel(decimal_value, 2);
    let s = decimal(n);
    if n < 10 {
        assert(s.drop_last() =~= seq![]);
    } else {
        decimal_reads_back(n / 10);
        assert(s.drop_last() =~= decimal(n / 10));
        assert forall|i: int| 0 <= i < s.len() implies '0' <= #[trigger] s[i] <= '9' by {
            if i < s.len() - 1 {
                assert(s[i] == decimal(n / 10)[i]);
            }
        }
    }
}

/// The children that a number names, hardened or not, where it is below 2^31.
proof fn decimal_is_a_child(n: u32)
    ensures
        child_number(decimal(n as nat)) == if n < hardened() {
            Some(n)
        } else {
            None
        },
        child_number(decimal(n as nat).push('\'')) == if n < hardened() {
            Some((n + hardened()) as u32)
        } else {
            None
        },
        !decimal(n as nat).contains('/'),
        !decimal(n as nat).push('\'').contains('/'),
{
    let s = decimal(n as nat);
    decimal_reads_back(n as nat);
    assert('0' <= s[0] <= '9');
    assert('0' <= s.last() <= '9') by {
        assert(s.last() == s[s.len() - 1]);
    }
    assert(s.push('\'').drop_last() =~= s);
    assert forall|i: int| 0 <= i < s.len() implies s[i] != '/' by {
        assert('0' <= s[i] <= '9');
    }
}

/// The steps of a derivation path.
proof fn derivation_splits(root: Seq<char>, purpose: Seq<char>, acc: u32, idx: u32)
    requires
        root == seq!['m', '/'] + purpose + seq!['/', '0', '\'', '/'],
        !purpose.contains('/'),
    ensures
        pieces(derivation(root, acc, idx), '/') == seq![
            seq!['m'],
            purpose,
            seq!['0', '\''],
            decimal(acc as nat).push('\''),
            seq!['1'],
            decimal(idx as nat),
        ],
{
    reveal_strlit("'/1/");
    let a = decimal(acc as nat);
    let i = decimal(idx as nat);
    decimal_is_a_child(acc);
    decimal_is_a_child(idx);
    let s5 = seq!['1'] + seq!['/'] + i;
    let s4 = a.push('\'') + seq!['/'] + s5;
    let s3 = seq!['0', '\''] + seq!['/'] + s4;
    let s2 = purpose + seq!['/'] + s3;
    let s1 = seq!['m'] + seq!['/'] + s2;
    assert("'/1/"@ =~= seq!['\'', '/', '1', '/']);
    assert(s4 =~= a + ("'/1/"@ + i));
    assert(s3 =~= seq!['0', '\'', '/'] + s4);
    assert(s2 =~= purpose + seq!['/', '0', '\'', '/'] + s4);
    assert(s1 =~= root + s4);
    assert(root + s4 =~= root + a + ("'/1/"@ + i));
    pieces_of_join(i, seq![], '/');
    pieces_of_join(seq!['1'], i, '/');
    pieces_of_join(a.push('\''), s5, '/');
    pieces_of_join(seq!['0', '\''], s4, '/');
    pieces_of_join(purpose, s3, '/');
    pieces_of_join(seq!['m'], s2, '/');
    assert(pieces(s1, '/') =~= seq![
        seq!['m'],
        purpose,
        seq!['0', '\''],
        a.push('\''),
        seq!['1'],
        i,
    ]);
}

/// The children along a derivation path, where the account and the index are below 2^31; else
/// there is no such path.
proof fn derivation_children(
    root: Seq<char>,
    purpose: Seq<char>,
    first: u32,
    acc: u32,
    idx: u32,
)
    requires
        root == seq!['m', '/'] + purpose + seq!['/', '0', '\'', '/'],
        !purpose.contains('/'),
        child_number(purpose) == Some(first),
    ensures
        path_children(derivation(root, acc, idx)) == if acc < hardened() && idx < hardened() {
            Some(seq![first, hardened() as u32, (acc + hardened()) as u32, 1u32, idx])
        } else {
            None
        },
{
    derivation_splits(root, purpose, acc, idx);
    decimal_is_a_child(acc);
    decimal_is_a_child(idx);
    let parts = pieces(derivation(root, acc, idx), '/');
    reveal_strlit("m");
    assert("m"@ =~= seq!['m']);
    decimal_is_a_child(0);
    decimal_is_a_child(1);
    assert(parts[2] =~= decimal(0).push('\''));
    assert(parts[4] =~= decimal(1));
    assert(parts[3] == decimal(acc as nat).push('\''));
    assert(parts[5] == decimal(idx as nat));
    if acc < hardened() && idx < hardened() {
        assert(forall|i: int| 1 <= i < parts.len() ==> child_number(#[trigger] parts[i]) is Some);
        assert(path_children(derivation(root, acc, idx))->0 =~= seq![
            first,
            hardened() as u32,
            (acc + hardened()) as u32,
            1u32,
            idx,
        ]);
    } else {
        assert(child_number(parts[3]) is None || child_number(parts[5]) is None);
    }
}

/// A secp256k1 key is derived at 44', 0', the account hardened, 1 and the index, for every account
/// and index below 2^31; any other account or index is refused.
pub proof fn secp256k1_path_leads(acc: u32, idx: u32)
    ensures
        path_children(secp256k1_path(acc, idx)) == if acc < hardened() && idx < hardened() {
            Some(
                seq![
                    (44 + hardened()) as u32,
                    hardened() as u32,
                    (acc + hardened()) as u32,
                    1u32,
                    idx,
                ],
            )
        } else {
            None
        },
{
    reveal_strlit("m/44'/0'/");
    let purpose = seq!['4', '4', '\''];
    assert("m/44'/0'/"@ =~= seq!['m', '/'] + purpose + seq!['/', '0', '\'', '/']);
    purpose_child(44, '4', '4');
    derivation_children("m/44'/0'/"@, purpose, (44 + hardened()) as u32, acc, idx);
}

/// An Ed25519 key is derived at 42', 0', the account hardened, 1 and the index, for every account
/// and index below 2^31; any other account or index is refused.
pub proof fn ed25519_path_leads(acc: u32, idx: u32)
    ensures
        path_children(ed25519_path(acc, idx)) == if acc < hardened() && idx < hardened() {
            Some(
                seq![
                    (42 + hardened()) as u32,
                    hardened() as u32,
                    (acc + hardened()) as u32,
                    1u32,
                    idx,
                ],
            )
        } else {
            None
        },
{
    reveal_strlit("m/42'/0'/");
    let purpose = seq!['4', '2', '\''];
    assert("m/42'/0'/"@ =~= seq!['m', '/'] + purpose + seq!['/', '0', '\'', '/']);
    purpose_child(42, '4', '2');
    derivation_children("m/42'/0'/"@, purpose, (42 + hardened()) as u32, acc, idx);
}

/// The hardened child that two digits name.
proof fn purpose_child(n: u32, tens: char, ones: char)
    requires
        n < 100,
        '0' <= tens <= '9',
        '0' <= ones <= '9',
        n == 10 * (tens as u32 - '0' as u32) + (ones as u32 - '0' as u32),
    ensures
        child_number(seq![tens, ones, '\'']) == Some((n + hardened()) as u32),
        !seq![tens, ones, '\''].contains('/'),
{
    let part = seq![tens, ones, '\''];
    let digits = seq![tens, ones];
    reveal_with_fuel(decimal_value, 3);
    assert(part.drop_last() =~= digits);
    assert(digits.drop_last() =~= seq![tens]);
    assert(seq![tens].drop_last() =~= seq![]);
    assert(is_decimal(digits));
    assert(decimal_value(digits) == n);
}

/// Writes a derivation path.
fn write_derivation(root: &str, acc: u32, idx: u32) -> (r: String)
    ensures
        r@ == derivation(root@, acc, idx),
{
    let tail: String = join2("'/1/", decimal_text(idx as u64).as_str());
    join3(root, decimal_text(acc as u64).as_str(), tail.as_str())
}

/// The path along which a secp256k1 key is derived.
pub fn secp256k1_derivation(acc: u32, idx: u32) -> (r: String)
    ensures
        r@ == secp256k1_path(acc, idx),
{
    write_derivation("m/44'/0'/", acc, idx)
}

/// The path along which an Ed25519 key is derived.
pub fn ed25519_derivation(acc: u32, idx: u32) -> (r: String)
    ensures
        r@ == ed25519_path(acc, idx),
{
    write_derivation("m/42'/0'/", acc, idx)
}

} // verus!

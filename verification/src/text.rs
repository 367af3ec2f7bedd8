//! Plain text: decimal numbers, white space, lists, and the pieces that messages are built of.

use vstd::prelude::*;
use vstd::string::*;

verus! {

/// Two pieces of text, one behind the other.
pub fn join2(a: &str, b: &str) -> (r: String)
    ensures
        r@ == a@ + b@,
{
    a.to_owned().concat(b)
}

/// Three pieces of text, one behind the other.
pub fn join3(a: &str, b: &str, c: &str) -> (r: String)
    ensures
        r@ == a@ + b@ + c@,
{
    a.to_owned().concat(b).concat(c)
}

/// Whether two texts are the same.
pub fn same_text(a: &str, b: &str) -> (r: bool)
    ensures
        r == (a@ == b@),
{
    let a: String = a.to_owned();
    let b: String = b.to_owned();
    a == b
}

/// A list of one text.
pub fn one_text(text: &str) -> (r: Vec<String>)
    ensures
        texts(r@) == seq![text@],
{
    let mut r: Vec<String> = Vec::new();
    r.push(text.to_owned());
    assert(texts(r@) =~= seq![text@]);
    r
}

/// The decimal digit that stands for `d`.
pub open spec fn digit(d: nat) -> char
    recommends
        d < 10,
{
    ('0' as u32 + d) as char
}

/// The decimal numeral of `n`, without leading zeros.
pub open spec fn decimal(n: nat) -> Seq<char>
    decreases n,
{
    if n < 10 {
        seq![digit(n)]
    } else {
        decimal(n / 10).push(digit(n % 10))
    }
}

/// The digits of `n` that remain once it has been reduced to `width` digits, zeros in front.
pub open spec fn padded(n: nat, width: nat) -> Seq<char>
    decreases width,
{
    if width == 0 {
        seq![]
    } else {
        padded(n / 10, (width - 1) as nat).push(digit(n % 10))
    }
}

/// One digit as text.
fn digit_text(d: u64) -> (r: &'static str)
    requires
        d < 10,
    ensures
        r@ == seq![digit(d as nat)],
{
    proof {
        reveal_strlit("0");
        reveal_strlit("1");
        reveal_strlit("2");
        reveal_strlit("3");
        reveal_strlit("4");
        reveal_strlit("5");
        reveal_strlit("6");
        reveal_strlit("7");
        reveal_strlit("8");
        reveal_strlit("9");
    }
    let r: &'static str = match d {
        0 => "0",
        1 => "1",
        2 => "2",
        3 => "3",
        4 => "4",
        5 => "5",
        6 => "6",
        7 => "7",
        8 => "8",
        _ => "9",
    };
    assert(r@ =~= seq![digit(d as nat)]);
    r
}

/// The decimal numeral of `n`.
pub fn decimal_text(n: u64) -> (r: String)
    ensures
        r@ == decimal(n as nat),
    decreases n,
{
    if n < 10 {
        digit_text(n).to_owned()
    } else {
        let mut front: String = decimal_text(n / 10);
        let ghost before = front@;
        front.append(digit_text(n % 10));
        assert(front@ =~= before.push(digit((n % 10) as nat)));
        front
    }
}

/// The characters with the Unicode property `White_Space`.
pub open spec fn white_space(c: char) -> bool {
    ||| 0x09 <= c as u32 <= 0x0d
    ||| c as u32 == 0x20
    ||| c as u32 == 0x85
    ||| c as u32 == 0xa0
    ||| c as u32 == 0x1680
    ||| 0x2000 <= c as u32 <= 0x200a
    ||| c as u32 == 0x2028
    ||| c as u32 == 0x2029
    ||| c as u32 == 0x202f
    ||| c as u32 == 0x205f
    ||| c as u32 == 0x3000
}

/// Whether `c` has the Unicode property `White_Space`.
pub fn is_white_space(c: char) -> (r: bool)
    ensures
        r == white_space(c),
{
    let n: u32 = c as u32;
    (0x09 <= n && n <= 0x0d) || n == 0x20 || n == 0x85 || n == 0xa0 || n == 0x1680 || (0x2000 <= n
        && n <= 0x200a) || n == 0x2028 || n == 0x2029 || n == 0x202f || n == 0x205f || n == 0x3000
}

/// How many characters of `s`, from the front, are white space.
pub open spec fn leading_space(s: Seq<char>) -> nat
    decreases s.len(),
{
    if s.len() > 0 && white_space(s[0]) {
        1 + leading_space(s.drop_first())
    } else {
        0
    }
}

/// How many characters of `s`, from the back, are white space.
pub open spec fn trailing_space(s: Seq<char>) -> nat
    decreases s.len(),
{
    if s.len() > 0 && white_space(s.last()) {
        1 + trailing_space(s.drop_last())
    } else {
        0
    }
}

/// `s` without the white space around it.
pub open spec fn trimmed(s: Seq<char>) -> Seq<char> {
    let rest = s.skip(leading_space(s) as int);
    rest.take(rest.len() - trailing_space(rest))
}

/// A text has at least as many characters as it has white space at either end.
pub proof fn space_is_bounded(s: Seq<char>)
    ensures
        leading_space(s) <= s.len(),
        trailing_space(s) <= s.len(),
    decreases s.len(),
{
    if s.len() > 0 {
        space_is_bounded(s.drop_first());
        space_is_bounded(s.drop_last());
    }
}

/// `s` without the white space around it.
pub fn trim(s: &str) -> (r: String)
    ensures
        r@ == trimmed(s@),
{
    let n: usize = s.unicode_len();
    let mut from: usize = 0;
    proof {
        space_is_bounded(s@);
        assert(s@.skip(0) =~= s@);
    }
    while from < n && is_white_space(s.get_char(from))
        invariant
            n == s@.len(),
            from <= n,
            leading_space(s@) == from + leading_space(s@.skip(from as int)),
        decreases n - from,
    {
        assert(s@.skip(from as int).drop_first() =~= s@.skip(from + 1));
        from = from + 1;
    }
    let ghost rest = s@.skip(from as int);
    assert(leading_space(s@) == from);
    let mut to: usize = n;
    proof {
        space_is_bounded(rest);
        assert(rest.take(rest.len() as int) =~= rest);
    }
    while from < to && is_white_space(s.get_char(to - 1))
        invariant
            n == s@.len(),
            from <= to <= n,
            rest == s@.skip(from as int),
            trailing_space(rest) == (n - to) + trailing_space(rest.take(to - from)),
        decreases to,
    {
        assert(rest.take(to - from).last() == s@[to - 1]);
        assert(rest.take(to - from).drop_last() =~= rest.take(to - 1 - from));
        to = to - 1;
    }
    assert(trailing_space(rest) == n - to) by {
        if from < to {
            assert(rest.take(to - from).last() == s@[to - 1]);
        }
    }
    assert(s@.subrange(from as int, to as int) =~= trimmed(s@));
    s.substring_char(from, to).to_owned()
}

/// Behind the white space in front of a text stands none.
proof fn leading_space_is_skipped(s: Seq<char>)
    ensures
        leading_space(s) < s.len() ==> !white_space(s[leading_space(s) as int]),
    decreases s.len(),
{
    if s.len() > 0 && white_space(s[0]) {
        leading_space_is_skipped(s.drop_first());
    }
}

/// Before the white space behind a text stands none.
proof fn trailing_space_is_cut(s: Seq<char>)
    ensures
        trailing_space(s) < s.len() ==> !white_space(s[s.len() - 1 - trailing_space(s)]),
    decreases s.len(),
{
    if s.len() > 0 && white_space(s.last()) {
        trailing_space_is_cut(s.drop_last());
    }
}

/// Whether no white space stands around a text.
pub open spec fn is_trimmed(s: Seq<char>) -> bool {
    s.len() > 0 ==> !white_space(s[0]) && !white_space(s.last())
}

/// No white space stands around a text that was trimmed.
pub proof fn trimming_trims(s: Seq<char>)
    ensures
        is_trimmed(trimmed(s)),
{
    let rest = s.skip(leading_space(s) as int);
    space_is_bounded(s);
    space_is_bounded(rest);
    leading_space_is_skipped(s);
    trailing_space_is_cut(rest);
}

/// Whether a text is made of white space alone.
pub open spec fn is_blank(s: Seq<char>) -> bool {
    forall|i: int| 0 <= i < s.len() ==> white_space(#[trigger] s[i])
}

/// White space in front of a text counts in full.
proof fn leading_space_counts(front: Seq<char>, s: Seq<char>)
    requires
        is_blank(front),
    ensures
        leading_space(front + s) == front.len() + leading_space(s),
    decreases front.len(),
{
    if front.len() > 0 {
        assert((front + s).drop_first() =~= front.drop_first() + s);
        leading_space_counts(front.drop_first(), s);
    } else {
        assert(front + s =~= s);
    }
}

/// White space behind a text counts in full.
proof fn trailing_space_counts(s: Seq<char>, back: Seq<char>)
    requires
        is_blank(back),
    ensures
        trailing_space(s + back) == trailing_space(s) + back.len(),
    decreases back.len(),
{
    if back.len() > 0 {
        assert((s + back).drop_last() =~= s + back.drop_last());
        trailing_space_counts(s, back.drop_last());
    } else {
        assert(s + back =~= s);
    }
}

/// What stands behind a text that is not blank leaves the white space in front of it as it is.
proof fn leading_space_stays(s: Seq<char>, back: Seq<char>)
    requires
        leading_space(s) < s.len(),
    ensures
        leading_space(s + back) == leading_space(s),
    decreases s.len(),
{
    if white_space(s[0]) {
        assert((s + back).drop_first() =~= s.drop_first() + back);
        leading_space_stays(s.drop_first(), back);
    }
}

/// A text that is all leading space is blank.
proof fn all_leading_is_blank(s: Seq<char>)
    requires
        leading_space(s) >= s.len(),
    ensures
        is_blank(s),
    decreases s.len(),
{
    if s.len() > 0 {
        all_leading_is_blank(s.drop_first());
        assert forall|i: int| 0 <= i < s.len() implies white_space(#[trigger] s[i]) by {
            if i > 0 {
                assert(white_space(s.drop_first()[i - 1]));
            }
        }
    }
}

/// A blank text is trimmed to nothing.
proof fn blank_is_trimmed_away(s: Seq<char>)
    requires
        is_blank(s),
    ensures
        trimmed(s) == Seq::<char>::empty(),
{
    leading_space_counts(s, seq![]);
    assert(s + seq![] =~= s);
    assert(trimmed(s) =~= seq![]);
}

/// White space around a text changes nothing of what trimming leaves.
pub proof fn trimming_ignores_white_space_around(front: Seq<char>, s: Seq<char>, back: Seq<char>)
    requires
        is_blank(front),
        is_blank(back),
    ensures
        trimmed(front + s + back) == trimmed(s),
{
    let whole = front + s + back;
    let lead = leading_space(s) as int;
    space_is_bounded(s);
    assert(whole =~= front + (s + back));
    if lead < s.len() {
        leading_space_counts(front, s + back);
        leading_space_stays(s, back);
        let rest = s.skip(lead);
        assert(whole.skip(front.len() + lead) =~= rest + back);
        trailing_space_counts(rest, back);
        space_is_bounded(rest);
        assert(trimmed(whole) =~= trimmed(s));
    } else {
        all_leading_is_blank(s);
        assert(is_blank(whole));
        blank_is_trimmed_away(s);
        blank_is_trimmed_away(whole);
    }
}

/// A text without white space around it is left as it is.
pub proof fn trimming_leaves_trimmed_texts(s: Seq<char>)
    requires
        is_trimmed(s),
    ensures
        trimmed(s) == s,
{
    assert(s.skip(0) =~= s);
    assert(s.take(s.len() as int) =~= s);
}

/// Where `c` first stands in `s`, or the length of `s` where it does not.
pub open spec fn first_index(s: Seq<char>, c: char) -> nat
    decreases s.len(),
{
    if s.len() == 0 || s[0] == c {
        0
    } else {
        1 + first_index(s.drop_first(), c)
    }
}

/// The pieces of `s` between the occurrences of `c`; there is always at least one.
pub open spec fn pieces(s: Seq<char>, c: char) -> Seq<Seq<char>>
    decreases s.len(),
{
    let i = first_index(s, c);
    if i < s.len() {
        seq![s.take(i as int)] + pieces(s.skip(i as int + 1), c)
    } else {
        seq![s]
    }
}

/// `first_index` is the first place at which `c` stands.
pub proof fn first_index_is_first(s: Seq<char>, c: char)
    ensures
        first_index(s, c) <= s.len(),
        first_index(s, c) < s.len() ==> s[first_index(s, c) as int] == c,
        forall|i: int| 0 <= i < first_index(s, c) ==> s[i] != c,
    decreases s.len(),
{
    if s.len() > 0 && s[0] != c {
        first_index_is_first(s.drop_first(), c);
        assert forall|i: int| 0 <= i < first_index(s, c) implies s[i] != c by {
            if i > 0 {
                assert(s.drop_first()[i - 1] != c);
            }
        }
    }
}

/// Where `c` stands nowhere before `i`, and stands at `i` unless that is the end, `i` is the first
/// index.
pub proof fn first_index_is(s: Seq<char>, c: char, i: int)
    requires
        0 <= i <= s.len(),
        forall|j: int| 0 <= j < i ==> s[j] != c,
        i < s.len() ==> s[i] == c,
    ensures
        first_index(s, c) == i,
{
    first_index_is_first(s, c);
}

/// A text in which `c` first stands at its end or not at all splits in front of the rest.
pub proof fn pieces_of_join(a: Seq<char>, b: Seq<char>, c: char)
    requires
        !a.contains(c),
    ensures
        pieces(a + seq![c] + b, c) == seq![a] + pieces(b, c),
        pieces(a, c) == seq![a],
{
    let s = a + seq![c] + b;
    assert(s[a.len() as int] == c);
    assert forall|j: int| 0 <= j < a.len() implies s[j] != c by {
        assert(s[j] == a[j]);
        assert(a.contains(a[j]));
    }
    first_index_is(s, c, a.len() as int);
    assert(s.take(a.len() as int) =~= a);
    assert(s.skip(a.len() as int + 1) =~= b);
    assert forall|j: int| 0 <= j < a.len() implies a[j] != c by {
        assert(a.contains(a[j]));
    }
    first_index_is(a, c, a.len() as int);
}

/// A list of texts as a list of character sequences.
pub open spec fn texts(v: Seq<String>) -> Seq<Seq<char>> {
    Seq::new(v.len(), |i: int| v[i]@)
}

/// Each piece of a list without the white space around it.
pub open spec fn all_trimmed(s: Seq<Seq<char>>) -> Seq<Seq<char>> {
    Seq::new(s.len(), |i: int| trimmed(s[i]))
}

/// The names that a command line lists: the pieces between commas, trimmed.
pub open spec fn names_in(s: Seq<char>) -> Seq<Seq<char>> {
    all_trimmed(pieces(s, ','))
}

/// How often `c` stands in `s`.
pub open spec fn occurrences(s: Seq<char>, c: char) -> nat
    decreases s.len(),
{
    if s.len() == 0 {
        0
    } else {
        occurrences(s.drop_last(), c) + if s.last() == c {
            1nat
        } else {
            0nat
        }
    }
}

/// Occurrences add up.
proof fn occurrences_add(a: Seq<char>, b: Seq<char>, c: char)
    ensures
        occurrences(a + b, c) == occurrences(a, c) + occurrences(b, c),
    decreases b.len(),
{
    if b.len() == 0 {
        assert(a + b =~= a);
    } else {
        assert((a + b).drop_last() =~= a + b.drop_last());
        occurrences_add(a, b.drop_last(), c);
    }
}

/// What stands nowhere occurs never.
proof fn occurrences_of_none(s: Seq<char>, c: char)
    requires
        forall|i: int| 0 <= i < s.len() ==> s[i] != c,
    ensures
        occurrences(s, c) == 0,
    decreases s.len(),
{
    if s.len() > 0 {
        occurrences_of_none(s.drop_last(), c);
    }
}

/// A text has one piece more than separators, and no piece holds a separator.
pub proof fn pieces_are_between(s: Seq<char>, c: char)
    ensures
        pieces(s, c).len() == occurrences(s, c) + 1,
        forall|i: int, j: int|
            0 <= i < pieces(s, c).len() && 0 <= j < pieces(s, c)[i].len() ==> pieces(s, c)[i][j]
                != c,
    decreases s.len(),
{
    let at = first_index(s, c) as int;
    first_index_is_first(s, c);
    if at < s.len() {
        let front = s.take(at);
        let rest = s.skip(at + 1);
        pieces_are_between(rest, c);
        occurrences_of_none(front, c);
        assert(occurrences(seq![c], c) == 1) by {
            reveal_with_fuel(occurrences, 2);
        }
        occurrences_add(front, seq![c], c);
        occurrences_add(front + seq![c], rest, c);
        assert(front + seq![c] + rest =~= s);
        assert forall|i: int, j: int|
            0 <= i < pieces(s, c).len() && 0 <= j < pieces(s, c)[i].len() implies pieces(s, c)[i][j]
            != c by {
            if i > 0 {
                assert(pieces(s, c)[i] == pieces(rest, c)[i - 1]);
            }
        }
    } else {
        occurrences_of_none(s, c);
    }
}

/// A command line lists one name more than it has commas, so at least one; no name holds a comma,
/// and no white space stands around any.
pub proof fn names_are_between_commas(s: Seq<char>)
    ensures
        names_in(s).len() == occurrences(s, ',') + 1,
        forall|i: int| 0 <= i < names_in(s).len() ==> is_trimmed(#[trigger] names_in(s)[i]),
        forall|i: int, j: int|
            0 <= i < names_in(s).len() && 0 <= j < names_in(s)[i].len() ==> names_in(s)[i][j]
                != ',',
{
    pieces_are_between(s, ',');
    assert forall|i: int| 0 <= i < names_in(s).len() implies is_trimmed(
        #[trigger] names_in(s)[i],
    ) by {
        trimming_trims(pieces(s, ',')[i]);
    }
    assert forall|i: int, j: int|
        0 <= i < names_in(s).len() && 0 <= j < names_in(s)[i].len() implies names_in(s)[i][j]
        != ',' by {
        let piece = pieces(s, ',')[i];
        let rest = piece.skip(leading_space(piece) as int);
        space_is_bounded(piece);
        space_is_bounded(rest);
        assert(names_in(s)[i][j] == piece[j + leading_space(piece)]);
    }
}

/// Reads the names that a command line lists, separated by commas.
pub fn parse_names(s: &str) -> (r: Vec<String>)
    ensures
        texts(r@) == names_in(s@),
{
    let n: usize = s.unicode_len();
    let mut r: Vec<String> = Vec::new();
    let mut from: usize = 0;
    let mut at: usize = 0;
    assert(s@.skip(0) =~= s@);
    assert(texts(r@) + all_trimmed(pieces(s@, ',')) =~= names_in(s@));
    while at < n
        invariant
            n == s@.len(),
            from <= at <= n,
            forall|j: int| from <= j < at ==> s@[j] != ',',
            texts(r@) + all_trimmed(pieces(s@.skip(from as int), ',')) == names_in(s@),
        decreases n - at,
    {
        if s.get_char(at) == ',' {
            let piece: String = trim(s.substring_char(from, at));
            let ghost rest = s@.skip(from as int);
            let ghost before = r@;
            proof {
                first_index_is(rest, ',', at - from);
                assert(rest.take(at - from) =~= s@.subrange(from as int, at as int));
                assert(rest.skip(at - from + 1) =~= s@.skip(at + 1));
            }
            r.push(piece);
            proof {
                let tail = all_trimmed(pieces(s@.skip(at + 1), ','));
                assert(texts(r@) =~= texts(before).push(piece@));
                assert(all_trimmed(pieces(rest, ',')) =~= seq![piece@] + tail);
                assert(texts(r@) + tail =~= texts(before) + (seq![piece@] + tail));
            }
            from = at + 1;
        }
        at = at + 1;
    }
    let ghost rest = s@.skip(from as int);
    let ghost before = r@;
    let piece: String = trim(s.substring_char(from, n));
    proof {
        first_index_is(rest, ',', rest.len() as int);
        assert(s@.subrange(from as int, n as int) =~= rest);
    }
    r.push(piece);
    assert(all_trimmed(pieces(rest, ',')) =~= seq![piece@]);
    assert(texts(r@) =~= texts(before) + seq![piece@]);
    r
}

} // verus!

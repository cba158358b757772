//! Text building blocks: numerals, comparison and search over the characters of a string.
use vstd::prelude::*;
use vstd::string::*;

verus! {

/// The character that stands for the digit `d`; letters are upper case.
pub open spec fn digit(d: nat) -> char {
    if d < 10 {
        ('0' as u32 + d) as char
    } else {
        ('A' as u32 + (d - 10)) as char
    }
}

/// The numeral of `n` in the given base, without leading zeros.
pub open spec fn numeral(n: nat, base: nat) -> Seq<char>
    recommends
        2 <= base <= 16,
    decreases n,
{
    if n < base || base < 2 {
        seq![digit(n)]
    } else {
        proof {
            assert(n / base < n) by (nonlinear_arith)
                requires
                    2 <= base <= n,
            ;
        }
        numeral(n / base, base).push(digit(n % base))
    }
}

/// The decimal numeral of an integer, with a minus sign where it is negative.
pub open spec fn decimal(n: int) -> Seq<char> {
    if n < 0 {
        seq!['-'] + numeral((-n) as nat, 10)
    } else {
        numeral(n as nat, 10)
    }
}

/// The upper-case hexadecimal numeral of a natural number.
pub open spec fn hexadecimal(n: nat) -> Seq<char> {
    numeral(n, 16)
}

/// The word for a truth value.
pub open spec fn truth(b: bool) -> Seq<char> {
    if b {
        seq!['t', 'r', 'u', 'e']
    } else {
        seq!['f', 'a', 'l', 's', 'e']
    }
}

/// Whether `needle` stands somewhere in `haystack` as one run of characters.
pub open spec fn has_run(haystack: Seq<char>, needle: Seq<char>) -> bool {
    exists|i: int| #[trigger] run_at(haystack, needle, i)
}

/// Whether `needle` stands in `haystack` starting at index `i`.
pub open spec fn run_at(haystack: Seq<char>, needle: Seq<char>, i: int) -> bool {
    &&& 0 <= i
    &&& i + needle.len() <= haystack.len()
    &&& haystack.subrange(i, i + needle.len()) == needle
}

/// A string slice of one digit.
fn digit_text(d: u64) -> (s: &'static str)
    requires
        d < 16,
    ensures
        s@ == seq![digit(d as nat)],
{
    proof {
        reveal_strlit("0");
        reveal_strlit("1");
        reveal_strlit("2");
        reveal_strlit("3");
        reveal_strlit("4");
        reveal_strlit("5");
        reveal_strlit("6");
        reveal_strlit("7");
        reveal_strlit("8");
        reveal_strlit("9");
        reveal_strlit("A");
        reveal_strlit("B");
        reveal_strlit("C");
        reveal_strlit("D");
        reveal_strlit("E");
        reveal_strlit("F");
    }
    let s: &'static str = match d {
        0 => "0",
        1 => "1",
        2 => "2",
        3 => "3",
        4 => "4",
        5 => "5",
        6 => "6",
        7 => "7",
        8 => "8",
        9 => "9",
        10 => "A",
        11 => "B",
        12 => "C",
        13 => "D",
        14 => "E",
        _ => "F",
    };
    assert(s@ =~= seq![digit(d as nat)]);
    s
}

/// Appends the numeral of `n` in the given base.
fn append_numeral(out: &mut String, n: u64, base: u64)
    requires
        2 <= base <= 16,
    ensures
        final(out)@ == old(out)@ + numeral(n as nat, base as nat),
    decreases n,
{
    if n < base {
        out.append(digit_text(n));
    } else {
        assert(0 <= n / base < n) by (nonlinear_arith)
            requires
                2 <= base <= n,
        ;
        assert(0 <= n % base < base) by (nonlinear_arith)
            requires
                2 <= base,
        ;
        append_numeral(out, n / base, base);
        out.append(digit_text(n % base));
        assert(out@ =~= old(out)@ + numeral((n / base) as nat, base as nat).push(
            digit((n % base) as nat),
        ));
    }
}

/// Appends the decimal numeral of an unsigned number.
pub fn append_unsigned(out: &mut String, n: u64)
    ensures
        final(out)@ == old(out)@ + decimal(n as int),
{
    append_numeral(out, n, 10);
}

/// Appends the decimal numeral of a signed number.
pub fn append_signed(out: &mut String, n: i32)
    ensures
        final(out)@ == old(out)@ + decimal(n as int),
{
    if n < 0 {
        proof {
            reveal_strlit("-");
        }
        out.append("-");
        let ghost signed = out@;
        append_numeral(out, (-(n as i64)) as u64, 10);
        assert(signed =~= old(out)@ + seq!['-']);
        assert(out@ =~= old(out)@ + (seq!['-'] + numeral((-n) as nat, 10)));
    } else {
        append_numeral(out, n as u64, 10);
    }
}

/// Appends the upper-case hexadecimal numeral of a number.
pub fn append_hexadecimal(out: &mut String, n: u32)
    ensures
        final(out)@ == old(out)@ + hexadecimal(n as nat),
{
    append_numeral(out, n as u64, 16);
}

/// Appends `true` or `false`.
pub fn append_truth(out: &mut String, b: bool)
    ensures
        final(out)@ == old(out)@ + truth(b),
{
    proof {
        reveal_strlit("true");
        reveal_strlit("false");
        assert("true"@ =~= truth(true));
        assert("false"@ =~= truth(false));
    }
    if b {
        out.append("true");
    } else {
        out.append("false");
    }
}

/// Whether two string slices hold the same characters.
pub fn same_text(a: &str, b: &str) -> (same: bool)
    ensures
        same == (a@ == b@),
{
    a.to_owned() == b.to_owned()
}

/// The characters of a string slice.
fn characters(s: &str) -> (chars: Vec<char>)
    ensures
        chars@ == s@,
{
    let mut chars: Vec<char> = Vec::new();
    for c in it: s.chars()
        invariant
            it.seq() == s@,
            chars@ == s@.take(it.index()),
    {
        chars.push(c);
    }
    chars
}

/// Whether `needle` stands in `haystack` starting at index `start`.
fn stands_at(haystack: &Vec<char>, needle: &Vec<char>, start: usize) -> (found: bool)
    requires
        start + needle@.len() <= haystack@.len(),
    ensures
        found == run_at(haystack@, needle@, start as int),
{
    let available: usize = haystack.len();
    let mut k: usize = 0;
    while k < needle.len()
        invariant
            available == haystack@.len(),
            k <= needle@.len(),
            start + needle@.len() <= haystack@.len(),
            forall|j: int| 0 <= j < k ==> haystack@[start + j] == needle@[j],
        decreases needle@.len() - k,
    {
        if haystack[start + k] != needle[k] {
            assert(haystack@.subrange(start as int, start + needle@.len())[k as int]
                != needle@[k as int]);
            return false;
        }
        k += 1;
    }
    assert(haystack@.subrange(start as int, start + needle@.len()) =~= needle@);
    true
}

/// Whether `needle` stands somewhere in `haystack`.
pub fn contains_text(haystack: &str, needle: &str) -> (found: bool)
    ensures
        found == has_run(haystack@, needle@),
{
    let hay: Vec<char> = characters(haystack);
    let run: Vec<char> = characters(needle);
    if run.len() > hay.len() {
        assert forall|i: int| !run_at(haystack@, needle@, i) by {}
        return false;
    }
    let last: usize = hay.len() - run.len();
    let mut i: usize = 0;
    loop
        invariant
            hay@ == haystack@,
            run@ == needle@,
            last == hay@.len() - run@.len(),
            i <= last,
            forall|j: int| 0 <= j < i ==> !run_at(haystack@, needle@, j),
        decreases last - i,
    {
        if stands_at(&hay, &run, i) {
            return true;
        }
        if i == last {
            assert forall|j: int| !run_at(haystack@, needle@, j) by {}
            return false;
        }
        i += 1;
    }
}

/// Law: a digit below ten is its figure, and the rest are the letters from `A` to `F`.
pub proof fn law_digits_are_figures_and_letters(d: nat)
    requires
        d < 16,
    ensures
        digit(d) == seq![
            '0',
            '1',
            '2',
            '3',
            '4',
            '5',
            '6',
            '7',
            '8',
            '9',
            'A',
            'B',
            'C',
            'D',
            'E',
            'F',
        ][d as int],
{
}

/// Law: numerals are positional. One digit stands for itself, a longer numeral is that of all but
/// the last digit followed by the last digit, and a minus sign stands before what is negative.
pub proof fn law_numerals_are_positional(n: nat)
    ensures
        n < 10 ==> decimal(n as int) == seq![digit(n)],
        n >= 10 ==> decimal(n as int) == decimal(n as int / 10) + decimal(n as int % 10),
        n > 0 ==> decimal(-n) == seq!['-'] + decimal(n as int),
        n < 16 ==> hexadecimal(n) == seq![digit(n)],
        n >= 16 ==> hexadecimal(n) == hexadecimal(n / 16) + hexadecimal(n % 16),
{
    if n >= 10 {
        assert(numeral(n % 10, 10) == seq![digit(n % 10)]);
        assert(numeral(n / 10, 10).push(digit(n % 10)) =~= numeral(n / 10, 10) + seq![
            digit(n % 10),
        ]);
    }
    if n >= 16 {
        assert(numeral(n % 16, 16) == seq![digit(n % 16)]);
        assert(numeral(n / 16, 16).push(digit(n % 16)) =~= numeral(n / 16, 16) + seq![
            digit(n % 16),
        ]);
    }
}

/// Law: truth values are written as words.
pub proof fn law_truth_is_a_word()
    ensures
        truth(true) == "true"@,
        truth(false) == "false"@,
{
    reveal_strlit("true");
    reveal_strlit("false");
    assert(truth(true) =~= "true"@);
    assert(truth(false) =~= "false"@);
}

/// Law: a text stands in another exactly where that one is something, the text, and something
/// more.
pub proof fn law_run_is_a_part(haystack: Seq<char>, needle: Seq<char>)
    ensures
        has_run(haystack, needle) <==> exists|head: Seq<char>, tail: Seq<char>|
            haystack == #[trigger] (head + needle + tail),
{
    if has_run(haystack, needle) {
        let i = choose|i: int| #[trigger] run_at(haystack, needle, i);
        let head = haystack.subrange(0, i);
        let tail = haystack.subrange(i + needle.len(), haystack.len() as int);
        assert(haystack =~= head + needle + tail);
    }
    if exists|head: Seq<char>, tail: Seq<char>| haystack == #[trigger] (head + needle + tail) {
        let (head, tail) = choose|head: Seq<char>, tail: Seq<char>|
            haystack == #[trigger] (head + needle + tail);
        let i: int = head.len() as int;
        assert(haystack.subrange(i, i + needle.len()) =~= needle);
        assert(run_at(haystack, needle, i));
    }
}

} // verus!

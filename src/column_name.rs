use vstd::prelude::*;

verus! {

/// Number of letters in the alphabet used for column names.
pub const ALPHABET_SIZE: usize = 26;

/// The letter for a digit `d` in `0..26`: `A` for 0, ..., `Z` for 25.
pub open spec fn letter(d: nat) -> char {
    (65 + d) as u8 as char
}

/// Whether `c` is an uppercase ASCII letter.
pub open spec fn is_upper_letter(c: char) -> bool {
    65 <= (c as u32) <= 90
}

/// The spreadsheet name of the zero-based column `n`, in bijective base 26:
/// `A`..`Z` for 0..25, then `AA`..`ZZ`, then `AAA`, ...
pub open spec fn column_name(n: nat) -> Seq<char>
    decreases n,
{
    if n < 26 {
        seq![letter(n)]
    } else {
        column_name((n / 26 - 1) as nat).push(letter(n % 26))
    }
}

/// Lexicographic order on equally long words: they agree up to some
/// position, where `a` has the smaller letter.
pub open spec fn lex_less(a: Seq<char>, b: Seq<char>) -> bool {
    exists|i: int|
        0 <= i < a.len() && i < b.len() && #[trigger] a.take(i) == b.take(i) && (a[i] as u32) < (
        b[i] as u32)
}

/// The conventional order of column names: shorter names first, names of
/// equal length in dictionary order.
pub open spec fn name_precedes(a: Seq<char>, b: Seq<char>) -> bool {
    a.len() < b.len() || (a.len() == b.len() && lex_less(a, b))
}

/// Every column name is a non-empty word of uppercase letters.
pub proof fn lemma_column_name_is_upper_word(n: nat)
    ensures
        column_name(n).len() > 0,
        forall|i: int| 0 <= i < column_name(n).len() ==> is_upper_letter(#[trigger] column_name(n)[i]),
    decreases n,
{
    if n >= 26 {
        let q = (n / 26 - 1) as nat;
        lemma_column_name_is_upper_word(q);
        assert(forall|i: int| 0 <= i < column_name(q).len() ==> column_name(n)[i] == column_name(q)[i]);
    }
}

/// Appending one letter to each of two words keeps their order.
proof fn lemma_precedes_push(a: Seq<char>, b: Seq<char>, x: char, y: char)
    requires
        name_precedes(a, b),
    ensures
        name_precedes(a.push(x), b.push(y)),
{
    if a.len() == b.len() {
        let i = choose|i: int|
            0 <= i < a.len() && i < b.len() && #[trigger] a.take(i) == b.take(i) && (a[i] as u32) < (
            b[i] as u32);
        assert(a.push(x).take(i) =~= a.take(i));
        assert(b.push(y).take(i) =~= b.take(i));
        assert(a.push(x)[i] == a[i] && b.push(y)[i] == b[i]);
    }
}

/// Column names follow the order of their indices: a smaller index has a
/// name that comes first (shorter, or equally long and earlier in the
/// dictionary).
pub proof fn lemma_column_name_order(n1: nat, n2: nat)
    requires
        n1 < n2,
    ensures
        name_precedes(column_name(n1), column_name(n2)),
    decreases n2,
{
    if n2 < 26 {
        assert(column_name(n1).take(0) =~= column_name(n2).take(0));
        assert((letter(n1) as u32) < (letter(n2) as u32));
    } else if n1 < 26 {
        lemma_column_name_is_upper_word((n2 / 26 - 1) as nat);
    } else {
        let q1 = (n1 / 26 - 1) as nat;
        let q2 = (n2 / 26 - 1) as nat;
        assert(q1 <= q2);
        if q1 < q2 {
            lemma_column_name_order(q1, q2);
            lemma_precedes_push(column_name(q1), column_name(q2), letter(n1 % 26), letter(n2 % 26));
        } else {
            let p = column_name(q1);
            let i = p.len() as int;
            assert(n1 % 26 < n2 % 26);
            assert(column_name(n1).take(i) =~= p);
            assert(column_name(n2).take(i) =~= p);
            assert((letter(n1 % 26) as u32) < (letter(n2 % 26) as u32));
            assert(column_name(n1)[i] == letter(n1 % 26));
            assert(column_name(n2)[i] == letter(n2 % 26));
        }
    }
}

/// Distinct indices have distinct names.
pub proof fn lemma_column_name_injective(n1: nat, n2: nat)
    requires
        n1 != n2,
    ensures
        column_name(n1) != column_name(n2),
{
    let (lo, hi) = if n1 < n2 { (n1, n2) } else { (n2, n1) };
    lemma_column_name_order(lo, hi);
    if column_name(lo).len() == column_name(hi).len() {
        let i = choose|i: int|
            0 <= i < column_name(lo).len() && i < column_name(hi).len() && #[trigger] column_name(lo).take(i)
                == column_name(hi).take(i) && (column_name(lo)[i] as u32) < (column_name(hi)[i] as u32);
        assert(column_name(lo)[i] != column_name(hi)[i]);
    }
}

/// One letter names the indices 0 to 25, two letters name 26 to 701, and
/// from 702 on names have three letters or more.
pub proof fn lemma_column_name_length(n: nat)
    ensures
        column_name(n).len() == 1 <==> n < 26,
        column_name(n).len() == 2 <==> 26 <= n < 702,
        column_name(n).len() >= 3 <==> n >= 702,
{
    if n >= 26 {
        let q = (n / 26 - 1) as nat;
        lemma_column_name_is_upper_word(q);
        if n < 702 {
            assert(q < 26);
        } else {
            assert(q >= 26);
            lemma_column_name_is_upper_word((q / 26 - 1) as nat);
        }
    }
}

} // verus!

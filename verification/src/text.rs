//! Small verified text utilities: string equality, joining pieces with a
//! separator, and decimal rendering.

use vstd::prelude::*;

verus! {

/// Compares two string slices character by character.
pub fn str_eq(a: &str, b: &str) -> (r: bool)
    ensures
        r == (a@ == b@),
{
    let a_len = a.unicode_len();
    let b_len = b.unicode_len();
    if a_len != b_len {
        return false;
    }
    let mut i: usize = 0;
    while i < a_len
        invariant
            a_len == a@.len(),
            b_len == b@.len(),
            a_len == b_len,
            i <= a_len,
            forall|j: int| 0 <= j < i ==> a@[j] == b@[j],
        decreases a_len - i,
    {
        if a.get_char(i) != b.get_char(i) {
            return false;
        }
        i = i + 1;
    }
    proof {
        assert(a@ =~= b@);
    }
    true
}

/// The pieces joined left to right, with `sep` between adjacent pieces.
pub open spec fn join_with(pieces: Seq<Seq<char>>, sep: char) -> Seq<char>
    decreases pieces.len(),
{
    if pieces.len() == 0 {
        Seq::empty()
    } else if pieces.len() == 1 {
        pieces[0]
    } else {
        pieces[0] + seq![sep] + join_with(pieces.drop_first(), sep)
    }
}

/// Joining one more piece appends a separator and that piece.
pub proof fn lemma_join_push(pieces: Seq<Seq<char>>, sep: char, last: Seq<char>)
    requires
        pieces.len() > 0,
    ensures
        join_with(pieces.push(last), sep) == join_with(pieces, sep) + seq![sep] + last,
    decreases pieces.len(),
{
    if pieces.len() == 1 {
        assert(pieces.push(last).drop_first() =~= seq![last]);
        assert(join_with(pieces.push(last), sep) == pieces.push(last)[0] + seq![sep]
            + join_with(pieces.push(last).drop_first(), sep));
        assert(join_with(seq![last], sep) == last);
        assert(pieces.push(last)[0] == pieces[0]);
    } else {
        assert(pieces.push(last).drop_first() =~= pieces.drop_first().push(last));
        lemma_join_push(pieces.drop_first(), sep, last);
        assert(join_with(pieces.push(last), sep) =~= join_with(pieces, sep) + seq![sep]
            + last);
    }
}

/// Extending the final piece by one character extends the joined text by
/// that character.
pub proof fn lemma_join_extend_last(
    pieces: Seq<Seq<char>>,
    sep: char,
    piece: Seq<char>,
    c: char,
)
    ensures
        join_with(pieces.push(piece.push(c)), sep) == join_with(pieces.push(piece), sep).push(
            c,
        ),
{
    if pieces.len() == 0 {
        assert(join_with(pieces.push(piece.push(c)), sep) == piece.push(c));
        assert(join_with(pieces.push(piece), sep) == piece);
    } else {
        lemma_join_push(pieces, sep, piece.push(c));
        lemma_join_push(pieces, sep, piece);
        assert(join_with(pieces, sep) + seq![sep] + piece.push(c) =~= (join_with(pieces, sep)
            + seq![sep] + piece).push(c));
    }
}

/// Pieces free of the separator are determined by their joined text:
/// no two different piece sequences join to the same text. A contract
/// that gives a join and keeps the separator out of the pieces
/// therefore pins the pieces down.
pub proof fn lemma_join_unique(p1: Seq<Seq<char>>, p2: Seq<Seq<char>>, sep: char)
    requires
        p1.len() >= 1,
        p2.len() >= 1,
        forall|k: int| 0 <= k < p1.len() ==> !(#[trigger] p1[k]).contains(sep),
        forall|k: int| 0 <= k < p2.len() ==> !(#[trigger] p2[k]).contains(sep),
        join_with(p1, sep) == join_with(p2, sep),
    ensures
        p1 == p2,
    decreases p1.len(),
{
    let j = join_with(p1, sep);
    if p1.len() == 1 && p2.len() == 1 {
        assert(p1 =~= p2);
    } else if p1.len() == 1 {
        let l2 = p2[0].len() as int;
        assert(j == p2[0] + seq![sep] + join_with(p2.drop_first(), sep));
        assert(j[l2] == sep);
        assert(p1[0][l2] == sep);
        assert(p1[0].contains(sep));
        assert(false);
    } else if p2.len() == 1 {
        let l1 = p1[0].len() as int;
        assert(j == p1[0] + seq![sep] + join_with(p1.drop_first(), sep));
        assert(j[l1] == sep);
        assert(p2[0][l1] == sep);
        assert(p2[0].contains(sep));
        assert(false);
    } else {
        let l1 = p1[0].len() as int;
        let l2 = p2[0].len() as int;
        let t1 = join_with(p1.drop_first(), sep);
        let t2 = join_with(p2.drop_first(), sep);
        assert(j == p1[0] + seq![sep] + t1);
        assert(j == p2[0] + seq![sep] + t2);
        assert(j[l1] == sep);
        assert(j[l2] == sep);
        if l1 < l2 {
            assert(p2[0][l1] == sep);
            assert(p2[0].contains(sep));
            assert(false);
        }
        if l2 < l1 {
            assert(p1[0][l2] == sep);
            assert(p1[0].contains(sep));
            assert(false);
        }
        assert forall|i: int| 0 <= i < l1 implies p1[0][i] == p2[0][i] by {
            assert(j[i] == p1[0][i]);
            assert(j[i] == p2[0][i]);
        }
        assert(p1[0] =~= p2[0]);
        assert(t1.len() == j.len() - l1 - 1);
        assert(t2.len() == j.len() - l2 - 1);
        assert forall|i: int| 0 <= i < t1.len() implies t1[i] == t2[i] by {
            assert(j[l1 + 1 + i] == t1[i]);
            assert(j[l2 + 1 + i] == t2[i]);
        }
        assert(t1 =~= t2);
        assert forall|k: int| 0 <= k < p1.drop_first().len() implies !(#[trigger] p1.drop_first()[
        k]).contains(sep) by {
            assert(p1.drop_first()[k] == p1[k + 1]);
        }
        assert forall|k: int| 0 <= k < p2.drop_first().len() implies !(#[trigger] p2.drop_first()[
        k]).contains(sep) by {
            assert(p2.drop_first()[k] == p2[k + 1]);
        }
        lemma_join_unique(p1.drop_first(), p2.drop_first(), sep);
        assert(p1.len() == p2.len());
        assert forall|i: int| 0 <= i < p1.len() implies p1[i] == p2[i] by {
            if i > 0 {
                assert(p1.drop_first()[i - 1] == p1[i]);
                assert(p2.drop_first()[i - 1] == p2[i]);
            }
        }
        assert(p1 =~= p2);
    }
}

/// The character for one decimal digit.
pub open spec fn dec_digit(d: int) -> char {
    if d == 0 {
        '0'
    } else if d == 1 {
        '1'
    } else if d == 2 {
        '2'
    } else if d == 3 {
        '3'
    } else if d == 4 {
        '4'
    } else if d == 5 {
        '5'
    } else if d == 6 {
        '6'
    } else if d == 7 {
        '7'
    } else if d == 8 {
        '8'
    } else {
        '9'
    }
}

/// The decimal digits of `n`, most significant first, with no leading
/// zeros (`0` itself is rendered as one digit).
pub open spec fn dec_chars(n: nat) -> Seq<char>
    decreases n,
{
    if n < 10 {
        seq![dec_digit(n as int)]
    } else {
        dec_chars(n / 10).push(dec_digit((n % 10) as int))
    }
}

fn dec_digit_exec(d: u64) -> (r: char)
    requires
        d < 10,
    ensures
        r == dec_digit(d as int),
{
    if d == 0 {
        '0'
    } else if d == 1 {
        '1'
    } else if d == 2 {
        '2'
    } else if d == 3 {
        '3'
    } else if d == 4 {
        '4'
    } else if d == 5 {
        '5'
    } else if d == 6 {
        '6'
    } else if d == 7 {
        '7'
    } else if d == 8 {
        '8'
    } else {
        '9'
    }
}

/// Renders `n` in decimal.
pub fn u64_to_dec(n: u64) -> (r: Vec<char>)
    ensures
        r@ == dec_chars(n as nat),
    decreases n,
{
    if n < 10 {
        let mut out: Vec<char> = Vec::new();
        out.push(dec_digit_exec(n));
        proof {
            assert(out@ =~= dec_chars(n as nat));
        }
        out
    } else {
        let mut out = u64_to_dec(n / 10);
        out.push(dec_digit_exec(n % 10));
        out
    }
}

/// Relies on `String`'s `FromIterator` over characters: collecting yields
/// exactly the given characters, in order.
#[verifier::external_body]
pub(crate) fn chars_to_string(v: &Vec<char>) -> (r: String)
    ensures
        r@ == v@,
{
    v.iter().collect()
}

} // verus!

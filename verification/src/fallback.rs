//! A deterministic fallback for slug generation: when random draws keep
//! colliding, a counter below the size of the slug space is base-62
//! encoded into a slug, and by pigeonhole one of `n + 1` distinct
//! candidates misses a table of `n` keys.

use vstd::prelude::*;

use crate::model::{is_generated_slug, is_slug_char, SLUG_LENGTH, SLUG_SPACE};
use crate::table::Table;
use crate::{Slug, Url};
use vstd::string::StringExecFns;

verus! {

pub open spec fn letter_char(d: int) -> char {
    if d == 0 {
        'a'
    } else if d == 1 {
        'b'
    } else if d == 2 {
        'c'
    } else if d == 3 {
        'd'
    } else if d == 4 {
        'e'
    } else if d == 5 {
        'f'
    } else if d == 6 {
        'g'
    } else if d == 7 {
        'h'
    } else if d == 8 {
        'i'
    } else if d == 9 {
        'j'
    } else if d == 10 {
        'k'
    } else if d == 11 {
        'l'
    } else if d == 12 {
        'm'
    } else if d == 13 {
        'n'
    } else if d == 14 {
        'o'
    } else if d == 15 {
        'p'
    } else if d == 16 {
        'q'
    } else if d == 17 {
        'r'
    } else if d == 18 {
        's'
    } else if d == 19 {
        't'
    } else if d == 20 {
        'u'
    } else if d == 21 {
        'v'
    } else if d == 22 {
        'w'
    } else if d == 23 {
        'x'
    } else if d == 24 {
        'y'
    } else if d == 25 {
        'z'
    } else if d == 26 {
        'A'
    } else if d == 27 {
        'B'
    } else if d == 28 {
        'C'
    } else if d == 29 {
        'D'
    } else if d == 30 {
        'E'
    } else if d == 31 {
        'F'
    } else if d == 32 {
        'G'
    } else if d == 33 {
        'H'
    } else if d == 34 {
        'I'
    } else if d == 35 {
        'J'
    } else if d == 36 {
        'K'
    } else if d == 37 {
        'L'
    } else if d == 38 {
        'M'
    } else if d == 39 {
        'N'
    } else if d == 40 {
        'O'
    } else if d == 41 {
        'P'
    } else if d == 42 {
        'Q'
    } else if d == 43 {
        'R'
    } else if d == 44 {
        'S'
    } else if d == 45 {
        'T'
    } else if d == 46 {
        'U'
    } else if d == 47 {
        'V'
    } else if d == 48 {
        'W'
    } else if d == 49 {
        'X'
    } else if d == 50 {
        'Y'
    } else if d == 51 {
        'Z'
    } else if d == 52 {
        '0'
    } else if d == 53 {
        '1'
    } else if d == 54 {
        '2'
    } else if d == 55 {
        '3'
    } else if d == 56 {
        '4'
    } else if d == 57 {
        '5'
    } else if d == 58 {
        '6'
    } else if d == 59 {
        '7'
    } else if d == 60 {
        '8'
    } else {
        '9'
    }
}

pub open spec fn digit_of(c: char) -> int {
    if c == 'a' {
        0
    } else if c == 'b' {
        1
    } else if c == 'c' {
        2
    } else if c == 'd' {
        3
    } else if c == 'e' {
        4
    } else if c == 'f' {
        5
    } else if c == 'g' {
        6
    } else if c == 'h' {
        7
    } else if c == 'i' {
        8
    } else if c == 'j' {
        9
    } else if c == 'k' {
        10
    } else if c == 'l' {
        11
    } else if c == 'm' {
        12
    } else if c == 'n' {
        13
    } else if c == 'o' {
        14
    } else if c == 'p' {
        15
    } else if c == 'q' {
        16
    } else if c == 'r' {
        17
    } else if c == 's' {
        18
    } else if c == 't' {
        19
    } else if c == 'u' {
        20
    } else if c == 'v' {
        21
    } else if c == 'w' {
        22
    } else if c == 'x' {
        23
    } else if c == 'y' {
        24
    } else if c == 'z' {
        25
    } else if c == 'A' {
        26
    } else if c == 'B' {
        27
    } else if c == 'C' {
        28
    } else if c == 'D' {
        29
    } else if c == 'E' {
        30
    } else if c == 'F' {
        31
    } else if c == 'G' {
        32
    } else if c == 'H' {
        33
    } else if c == 'I' {
        34
    } else if c == 'J' {
        35
    } else if c == 'K' {
        36
    } else if c == 'L' {
        37
    } else if c == 'M' {
        38
    } else if c == 'N' {
        39
    } else if c == 'O' {
        40
    } else if c == 'P' {
        41
    } else if c == 'Q' {
        42
    } else if c == 'R' {
        43
    } else if c == 'S' {
        44
    } else if c == 'T' {
        45
    } else if c == 'U' {
        46
    } else if c == 'V' {
        47
    } else if c == 'W' {
        48
    } else if c == 'X' {
        49
    } else if c == 'Y' {
        50
    } else if c == 'Z' {
        51
    } else if c == '0' {
        52
    } else if c == '1' {
        53
    } else if c == '2' {
        54
    } else if c == '3' {
        55
    } else if c == '4' {
        56
    } else if c == '5' {
        57
    } else if c == '6' {
        58
    } else if c == '7' {
        59
    } else if c == '8' {
        60
    } else {
        61
    }
}

proof fn lemma_letter_char_digit_of(d: int)
    requires
        0 <= d < 62,
    ensures
        digit_of(letter_char(d)) == d,
        is_slug_char(letter_char(d)),
{
}

/// `62 ^ k`.
pub open spec fn pow62(k: nat) -> int
    decreases k,
{
    if k == 0 {
        1
    } else {
        62 * pow62((k - 1) as nat)
    }
}

proof fn lemma_pow62_value()
    ensures
        pow62(SLUG_LENGTH as nat) == SLUG_SPACE,
{
    assert(pow62(0) == 1);
    assert(pow62(1) == 62);
    assert(pow62(2) == 3844);
    assert(pow62(3) == 238328);
    assert(pow62(4) == 14776336);
    assert(pow62(5) == 916132832);
    assert(pow62(6) == 56800235584);
    assert(pow62(7) == 3521614606208);
    assert(pow62(8) == 218340105584896);
}

/// The slug that the counter `c` encodes: `k` base-62 digits, least
/// significant first.
pub open spec fn encode_spec(c: int, k: nat) -> Seq<char>
    decreases k,
{
    if k == 0 {
        Seq::empty()
    } else {
        seq![letter_char(c % 62)] + encode_spec(c / 62, (k - 1) as nat)
    }
}

proof fn lemma_encode_props(c: int, k: nat)
    requires
        c >= 0,
    ensures
        encode_spec(c, k).len() == k,
        forall|j: int| 0 <= j < k ==> is_slug_char(#[trigger] encode_spec(c, k)[j]),
    decreases k,
{
    if k > 0 {
        lemma_encode_props(c / 62, (k - 1) as nat);
        lemma_letter_char_digit_of(c % 62);
        assert forall|j: int| 0 <= j < k implies is_slug_char(#[trigger] encode_spec(c, k)[j]) by {
            if j > 0 {
                assert(encode_spec(c, k)[j] == encode_spec(c / 62, (k - 1) as nat)[j - 1]);
            }
        }
    }
}

proof fn lemma_encode_injective(a: int, b: int, k: nat)
    requires
        0 <= a < pow62(k),
        0 <= b < pow62(k),
        encode_spec(a, k) == encode_spec(b, k),
    ensures
        a == b,
    decreases k,
{
    if k > 0 {
        lemma_encode_props(a, k);
        lemma_encode_props(b, k);
        assert(encode_spec(a, k)[0] == letter_char(a % 62));
        assert(encode_spec(b, k)[0] == letter_char(b % 62));
        assert(letter_char(a % 62) == letter_char(b % 62));
        lemma_letter_char_digit_of(a % 62);
        lemma_letter_char_digit_of(b % 62);
        assert(a % 62 == b % 62);
        let ta = encode_spec(a / 62, (k - 1) as nat);
        let tb = encode_spec(b / 62, (k - 1) as nat);
        assert forall|j: int| 0 <= j < ta.len() implies ta[j] == tb[j] by {
            assert(encode_spec(a, k)[j + 1] == ta[j]);
            assert(encode_spec(b, k)[j + 1] == tb[j]);
        }
        assert(ta =~= tb);
        assert(a / 62 < pow62((k - 1) as nat)) by (nonlinear_arith)
            requires
                0 <= a,
                a < 62 * pow62((k - 1) as nat),
        ;
        assert(b / 62 < pow62((k - 1) as nat)) by (nonlinear_arith)
            requires
                0 <= b,
                b < 62 * pow62((k - 1) as nat),
        ;
        lemma_encode_injective(a / 62, b / 62, (k - 1) as nat);
        assert(a == 62 * (a / 62) + a % 62) by (nonlinear_arith);
        assert(b == 62 * (b / 62) + b % 62) by (nonlinear_arith);
    }
}

/// The set of slugs encoded by the counters below `m`.
spec fn counter_image(m: int) -> Set<Seq<char>> {
    Set::new(|s: Seq<char>| exists|x: int| 0 <= x < m && s == encode_spec(x, SLUG_LENGTH as nat))
}

proof fn lemma_counter_image_len(m: int)
    requires
        0 <= m <= pow62(SLUG_LENGTH as nat),
    ensures
        counter_image(m).finite(),
        counter_image(m).len() == m,
    decreases m,
{
    if m == 0 {
        assert(counter_image(0) =~= Set::<Seq<char>>::empty());
    } else {
        lemma_counter_image_len(m - 1);
        let last = encode_spec(m - 1, SLUG_LENGTH as nat);
        assert(!counter_image(m - 1).contains(last)) by {
            if counter_image(m - 1).contains(last) {
                let x = choose|x: int|
                    0 <= x < m - 1 && last == encode_spec(x, SLUG_LENGTH as nat);
                lemma_encode_injective(x, m - 1, SLUG_LENGTH as nat);
            }
        }
        assert(counter_image(m) =~= counter_image(m - 1).insert(last)) by {
            assert(counter_image(m).contains(last)) by {
                assert(0 <= m - 1 < m && last == encode_spec(m - 1, SLUG_LENGTH as nat));
            }
            assert forall|s: Seq<char>|
                counter_image(m).contains(s) && s != last implies counter_image(m - 1).contains(
                s,
            ) by {
                let x = choose|x: int| 0 <= x < m && s == encode_spec(x, SLUG_LENGTH as nat);
                assert(x < m - 1 || x == m - 1);
                assert(0 <= x < m - 1 && s == encode_spec(x, SLUG_LENGTH as nat));
            }
        }
        vstd::set::axiom_set_insert_finite(counter_image(m - 1), last);
        vstd::set::axiom_set_insert_len(counter_image(m - 1), last);
    }
}

/// One character of the slug alphabet, as a string slice.
fn letter_str(d: u8) -> (r: &'static str)
    requires
        d < 62,
    ensures
        r@.len() == 1,
        r@[0] == letter_char(d as int),
{
    match d {
        0 => {
            proof { reveal_strlit("a"); }
            "a"
        },
        1 => {
            proof { reveal_strlit("b"); }
            "b"
        },
        2 => {
            proof { reveal_strlit("c"); }
            "c"
        },
        3 => {
            proof { reveal_strlit("d"); }
            "d"
        },
        4 => {
            proof { reveal_strlit("e"); }
            "e"
        },
        5 => {
            proof { reveal_strlit("f"); }
            "f"
        },
        6 => {
            proof { reveal_strlit("g"); }
            "g"
        },
        7 => {
            proof { reveal_strlit("h"); }
            "h"
        },
        8 => {
            proof { reveal_strlit("i"); }
            "i"
        },
        9 => {
            proof { reveal_strlit("j"); }
            "j"
        },
        10 => {
            proof { reveal_strlit("k"); }
            "k"
        },
        11 => {
            proof { reveal_strlit("l"); }
            "l"
        },
        12 => {
            proof { reveal_strlit("m"); }
            "m"
        },
        13 => {
            proof { reveal_strlit("n"); }
            "n"
        },
        14 => {
            proof { reveal_strlit("o"); }
            "o"
        },
        15 => {
            proof { reveal_strlit("p"); }
            "p"
        },
        16 => {
            proof { reveal_strlit("q"); }
            "q"
        },
        17 => {
            proof { reveal_strlit("r"); }
            "r"
        },
        18 => {
            proof { reveal_strlit("s"); }
            "s"
        },
        19 => {
            proof { reveal_strlit("t"); }
            "t"
        },
        20 => {
            proof { reveal_strlit("u"); }
            "u"
        },
        21 => {
            proof { reveal_strlit("v"); }
            "v"
        },
        22 => {
            proof { reveal_strlit("w"); }
            "w"
        },
        23 => {
            proof { reveal_strlit("x"); }
            "x"
        },
        24 => {
            proof { reveal_strlit("y"); }
            "y"
        },
        25 => {
            proof { reveal_strlit("z"); }
            "z"
        },
        26 => {
            proof { reveal_strlit("A"); }
            "A"
        },
        27 => {
            proof { reveal_strlit("B"); }
            "B"
        },
        28 => {
            proof { reveal_strlit("C"); }
            "C"
        },
        29 => {
            proof { reveal_strlit("D"); }
            "D"
        },
        30 => {
            proof { reveal_strlit("E"); }
            "E"
        },
        31 => {
            proof { reveal_strlit("F"); }
            "F"
        },
        32 => {
            proof { reveal_strlit("G"); }
            "G"
        },
        33 => {
            proof { reveal_strlit("H"); }
            "H"
        },
        34 => {
            proof { reveal_strlit("I"); }
            "I"
        },
        35 => {
            proof { reveal_strlit("J"); }
            "J"
        },
        36 => {
            proof { reveal_strlit("K"); }
            "K"
        },
        37 => {
            proof { reveal_strlit("L"); }
            "L"
        },
        38 => {
            proof { reveal_strlit("M"); }
            "M"
        },
        39 => {
            proof { reveal_strlit("N"); }
            "N"
        },
        40 => {
            proof { reveal_strlit("O"); }
            "O"
        },
        41 => {
            proof { reveal_strlit("P"); }
            "P"
        },
        42 => {
            proof { reveal_strlit("Q"); }
            "Q"
        },
        43 => {
            proof { reveal_strlit("R"); }
            "R"
        },
        44 => {
            proof { reveal_strlit("S"); }
            "S"
        },
        45 => {
            proof { reveal_strlit("T"); }
            "T"
        },
        46 => {
            proof { reveal_strlit("U"); }
            "U"
        },
        47 => {
            proof { reveal_strlit("V"); }
            "V"
        },
        48 => {
            proof { reveal_strlit("W"); }
            "W"
        },
        49 => {
            proof { reveal_strlit("X"); }
            "X"
        },
        50 => {
            proof { reveal_strlit("Y"); }
            "Y"
        },
        51 => {
            proof { reveal_strlit("Z"); }
            "Z"
        },
        52 => {
            proof { reveal_strlit("0"); }
            "0"
        },
        53 => {
            proof { reveal_strlit("1"); }
            "1"
        },
        54 => {
            proof { reveal_strlit("2"); }
            "2"
        },
        55 => {
            proof { reveal_strlit("3"); }
            "3"
        },
        56 => {
            proof { reveal_strlit("4"); }
            "4"
        },
        57 => {
            proof { reveal_strlit("5"); }
            "5"
        },
        58 => {
            proof { reveal_strlit("6"); }
            "6"
        },
        59 => {
            proof { reveal_strlit("7"); }
            "7"
        },
        60 => {
            proof { reveal_strlit("8"); }
            "8"
        },
        _ => {
            proof { reveal_strlit("9"); }
            "9"
        },
    }
}

/// Builds the slug that the counter `c` encodes.
fn encode_slug(c0: u64) -> (s: Slug)
    requires
        (c0 as int) < pow62(SLUG_LENGTH as nat),
    ensures
        s@ == encode_spec(c0 as int, SLUG_LENGTH as nat),
        is_generated_slug(s@),
{
    let mut s = String::new();
    let mut c: u64 = c0;
    let mut i: usize = 0;
    while i < SLUG_LENGTH
        invariant
            i <= SLUG_LENGTH,
            s@.len() == i,
            encode_spec(c0 as int, SLUG_LENGTH as nat) == s@ + encode_spec(
                c as int,
                (SLUG_LENGTH - i) as nat,
            ),
        decreases SLUG_LENGTH - i,
    {
        let d: u8 = (c % 62) as u8;
        let piece = letter_str(d);
        proof {
            assert(piece@ =~= seq![letter_char((c as int) % 62)]);
            assert((s@ + piece@) + encode_spec((c as int) / 62, (SLUG_LENGTH - (i + 1)) as nat)
                =~= s@ + encode_spec(c as int, (SLUG_LENGTH - i) as nat));
        }
        s = s.concat(piece);
        c = c / 62;
        i = i + 1;
    }
    proof {
        assert(s@ + encode_spec(c as int, 0) =~= s@);
        lemma_encode_props(c0 as int, SLUG_LENGTH as nat);
    }
    Slug(s)
}

/// Finds a generated slug that the link table does not hold: one of
/// `n + 1` distinct candidates must miss a table of `n` keys.
pub(crate) fn fresh_fallback_slug(links: &Table<Url>) -> (s: Slug)
    requires
        links.wf(),
        links@.dom().len() < SLUG_SPACE,
    ensures
        is_generated_slug(s@),
        !links@.contains_key(s@),
{
    proof {
        lemma_pow62_value();
    }
    let n: u64 = links.len() as u64;
    let mut c: u64 = 0;
    while c <= n
        invariant
            links.wf(),
            n == links@.dom().len(),
            links@.dom().finite(),
            n < SLUG_SPACE,
            (n as int) < pow62(SLUG_LENGTH as nat),
            c <= n + 1,
            forall|x: int|
                0 <= x < c ==> links@.contains_key(#[trigger] encode_spec(x, SLUG_LENGTH as nat)),
        decreases n + 1 - c,
    {
        let candidate = encode_slug(c);
        if !links.contains_key(&candidate) {
            return candidate;
        }
        c = c + 1;
    }
    proof {
        lemma_counter_image_len(n + 1);
        assert forall|s: Seq<char>| counter_image(n + 1).contains(s) implies links@.dom().contains(
            s,
        ) by {
            let x = choose|x: int| 0 <= x < n + 1 && s == encode_spec(x, SLUG_LENGTH as nat);
            assert(links@.contains_key(encode_spec(x, SLUG_LENGTH as nat)));
        }
        vstd::set_lib::lemma_len_subset(counter_image(n + 1), links@.dom());
        assert(false);
    }
    // Never reached: running out the loop would put n + 1 distinct keys
    // into a table of n, as the proof above shows.
    encode_slug(0)
}

} // verus!

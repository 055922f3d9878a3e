//! The encoding of the persisted lifecycle record: a fixed, canonical text
//! form that the state store holds under its `status` key. Decoding an
//! encoded record yields the record itself, so persisting, reloading and
//! re-persisting never changes the stored form.
//!
//! The format is positional: booleans are one character, numbers are sixteen
//! lower-case hex digits, strings carry their length first, and options tag
//! their payload with one character.

use vstd::prelude::*;

use crate::status::{Status, StudentConfig};

verus! {

/// Sixteen to the given power.
pub open spec fn pow16(w: nat) -> nat
    decreases w,
{
    if w == 0 {
        1
    } else {
        16 * pow16((w - 1) as nat)
    }
}

/// Powers of sixteen grow with the exponent.
proof fn lemma_pow16_increases(a: nat, b: nat)
    requires
        a <= b,
    ensures
        pow16(a) <= pow16(b),
    decreases b,
{
    if a < b {
        lemma_pow16_increases(a, (b - 1) as nat);
        assert(pow16(b) == 16 * pow16((b - 1) as nat));
    }
}

/// The character of one hex digit, lower case.
pub open spec fn hex_digit(d: int) -> char {
    if d == 0 {
        '0'
    } else if d == 1 {
        '1'
    } else if d == 2 {
        '2'
    } else if d == 3 {
        '3'
    } else if d == 4 {
        '4'
    } else if d == 5 {
        '5'
    } else if d == 6 {
        '6'
    } else if d == 7 {
        '7'
    } else if d == 8 {
        '8'
    } else if d == 9 {
        '9'
    } else if d == 10 {
        'a'
    } else if d == 11 {
        'b'
    } else if d == 12 {
        'c'
    } else if d == 13 {
        'd'
    } else if d == 14 {
        'e'
    } else {
        'f'
    }
}

/// The value of one hex-digit character, or nothing for any other character.
pub open spec fn hex_value(c: char) -> Option<nat> {
    if c == '0' {
        Some(0nat)
    } else if c == '1' {
        Some(1nat)
    } else if c == '2' {
        Some(2nat)
    } else if c == '3' {
        Some(3nat)
    } else if c == '4' {
        Some(4nat)
    } else if c == '5' {
        Some(5nat)
    } else if c == '6' {
        Some(6nat)
    } else if c == '7' {
        Some(7nat)
    } else if c == '8' {
        Some(8nat)
    } else if c == '9' {
        Some(9nat)
    } else if c == 'a' {
        Some(10nat)
    } else if c == 'b' {
        Some(11nat)
    } else if c == 'c' {
        Some(12nat)
    } else if c == 'd' {
        Some(13nat)
    } else if c == 'e' {
        Some(14nat)
    } else if c == 'f' {
        Some(15nat)
    } else {
        None
    }
}

/// Reading back the character of a digit yields the digit.
proof fn lemma_hex_digit_value(d: nat)
    requires
        d < 16,
    ensures
        hex_value(hex_digit(d as int)) == Some(d),
{
}

fn hex_digit_str(d: u64) -> (r: &'static str)
    requires
        d < 16,
    ensures
        r@ == seq![hex_digit(d as int)],
{
    let r: &'static str = if d == 0 {
        "0"
    } else if d == 1 {
        "1"
    } else if d == 2 {
        "2"
    } else if d == 3 {
        "3"
    } else if d == 4 {
        "4"
    } else if d == 5 {
        "5"
    } else if d == 6 {
        "6"
    } else if d == 7 {
        "7"
    } else if d == 8 {
        "8"
    } else if d == 9 {
        "9"
    } else if d == 10 {
        "a"
    } else if d == 11 {
        "b"
    } else if d == 12 {
        "c"
    } else if d == 13 {
        "d"
    } else if d == 14 {
        "e"
    } else {
        "f"
    };
    proof {
        reveal_strlit("0");
        reveal_strlit("1");
        reveal_strlit("2");
        reveal_strlit("3");
        reveal_strlit("4");
        reveal_strlit("5");
        reveal_strlit("6");
        reveal_strlit("7");
        reveal_strlit("8");
        reveal_strlit("9");
        reveal_strlit("a");
        reveal_strlit("b");
        reveal_strlit("c");
        reveal_strlit("d");
        reveal_strlit("e");
        reveal_strlit("f");
        assert(r@ =~= seq![hex_digit(d as int)]);
    }
    r
}

fn hex_char_value(c: char) -> (r: Option<u8>)
    ensures
        r matches Some(d) ==> hex_value(c) == Some(d as nat) && d < 16,
        r.is_none() ==> hex_value(c).is_none(),
{
    match c {
        '0' => Some(0),
        '1' => Some(1),
        '2' => Some(2),
        '3' => Some(3),
        '4' => Some(4),
        '5' => Some(5),
        '6' => Some(6),
        '7' => Some(7),
        '8' => Some(8),
        '9' => Some(9),
        'a' => Some(10),
        'b' => Some(11),
        'c' => Some(12),
        'd' => Some(13),
        'e' => Some(14),
        'f' => Some(15),
        _ => None,
    }
}

/// A number rendered as `w` hex digits, most significant first; only the
/// value modulo sixteen to the `w` is represented.
pub open spec fn enc_u64_w(n: nat, w: nat) -> Seq<char>
    decreases w,
{
    if w == 0 {
        Seq::empty()
    } else {
        enc_u64_w(n / 16, (w - 1) as nat).push(hex_digit((n % 16) as int))
    }
}

/// The encoding is exactly `w` characters long.
pub proof fn lemma_enc_u64_w_len(n: nat, w: nat)
    ensures
        enc_u64_w(n, w).len() == w,
    decreases w,
{
    if w > 0 {
        lemma_enc_u64_w_len(n / 16, (w - 1) as nat);
    }
}

/// A number as sixteen hex digits.
pub open spec fn enc_u64(n: nat) -> Seq<char> {
    enc_u64_w(n, 16)
}

fn enc_u64_rec(v: u64, w: usize) -> (r: String)
    ensures
        r@ == enc_u64_w(v as nat, w as nat),
    decreases w,
{
    if w == 0 {
        let r = String::new();
        proof {
            assert(r@ =~= enc_u64_w(v as nat, 0));
        }
        r
    } else {
        let mut s = enc_u64_rec(v / 16, w - 1);
        s.append(hex_digit_str(v % 16));
        proof {
            assert(s@ =~= enc_u64_w(v as nat, w as nat));
        }
        s
    }
}

/// Renders a number as sixteen hex digits.
pub fn encode_u64(v: u64) -> (r: String)
    ensures
        r@ == enc_u64(v as nat),
{
    enc_u64_rec(v, 16)
}

/// Reads `w` hex digits at `i`, most significant first.
pub open spec fn sdec_u64_w(s: Seq<char>, i: int, w: nat) -> Option<(nat, int)>
    decreases w,
{
    if w == 0 {
        Some((0nat, i))
    } else {
        match sdec_u64_w(s, i, (w - 1) as nat) {
            None => None,
            Some((hi, j)) => if 0 <= j < s.len() {
                match hex_value(s[j]) {
                    None => None,
                    Some(d) => Some((hi * 16 + d, j + 1)),
                }
            } else {
                None
            },
        }
    }
}

/// Reads a sixteen-digit number at `i`.
pub open spec fn sdec_u64(s: Seq<char>, i: int) -> Option<(nat, int)> {
    sdec_u64_w(s, i, 16)
}

/// A successful read stays in bounds and below sixteen to the `w`.
proof fn lemma_sdec_u64_w_bounds(s: Seq<char>, i: int, w: nat)
    requires
        0 <= i <= s.len(),
    ensures
        sdec_u64_w(s, i, w) matches Some((v, j)) ==> v < pow16(w) && j == i + w && j <= s.len(),
    decreases w,
{
    if w > 0 {
        lemma_sdec_u64_w_bounds(s, i, (w - 1) as nat);
        if let Some((hi, j)) = sdec_u64_w(s, i, (w - 1) as nat) {
            if 0 <= j < s.len() {
                if let Some(d) = hex_value(s[j]) {
                    assert(hi * 16 + d < pow16(w)) by {
                        assert(hi <= pow16((w - 1) as nat) - 1);
                        assert(hi * 16 <= (pow16((w - 1) as nat) - 1) * 16) by (nonlinear_arith)
                            requires
                                hi <= pow16((w - 1) as nat) - 1,
                        ;
                        assert(d < 16);
                        assert(16 * pow16((w - 1) as nat) == pow16(w));
                    }
                }
            }
        }
    }
}

/// Reading back an encoded number at its position yields the number.
proof fn lemma_u64_round(s: Seq<char>, i: int, n: nat, w: nat)
    requires
        0 <= i,
        i + w <= s.len(),
        n < pow16(w),
        s.subrange(i, i + w) == enc_u64_w(n, w),
    ensures
        sdec_u64_w(s, i, w) == Some((n, i + w)),
    decreases w,
{
    lemma_enc_u64_w_len(n, w);
    if w > 0 {
        lemma_enc_u64_w_len(n / 16, (w - 1) as nat);
        assert(n / 16 < pow16((w - 1) as nat)) by {
            assert(pow16(w) == 16 * pow16((w - 1) as nat));
            assert(n / 16 < pow16((w - 1) as nat)) by (nonlinear_arith)
                requires
                    n < 16 * pow16((w - 1) as nat),
            ;
        }
        assert(s.subrange(i, i + w - 1) =~= enc_u64_w(n / 16, (w - 1) as nat)) by {
            assert forall|k: int| 0 <= k < w - 1 implies #[trigger] s.subrange(i, i + w - 1)[k]
                == enc_u64_w(n / 16, (w - 1) as nat)[k] by {
                assert(s.subrange(i, i + w)[k] == enc_u64_w(n, w)[k]);
            }
        }
        lemma_u64_round(s, i, n / 16, (w - 1) as nat);
        assert(s[i + w - 1] == hex_digit((n % 16) as int)) by {
            assert(s.subrange(i, i + w)[w - 1] == enc_u64_w(n, w)[w - 1]);
        }
        lemma_hex_digit_value(n % 16);
        assert((n / 16) * 16 + n % 16 == n) by (nonlinear_arith);
    }
}

/// Reads sixteen hex digits at `i`.
fn dec_u64_rec(s: &str, n: usize, i: usize, w: usize) -> (r: Option<(u64, usize)>)
    requires
        n == s@.len(),
        i <= n,
        w <= 16,
    ensures
        r.is_some() == sdec_u64_w(s@, i as int, w as nat).is_some(),
        r matches Some((v, j)) ==> sdec_u64_w(s@, i as int, w as nat) == Some(
            ((v as nat), j as int),
        ) && j == i + w && j <= n && (v as nat) < pow16(w as nat),
    decreases w,
{
    if w == 0 {
        Some((0u64, i))
    } else {
        proof {
            lemma_sdec_u64_w_bounds(s@, i as int, (w - 1) as nat);
        }
        match dec_u64_rec(s, n, i, w - 1) {
            None => None,
            Some((hi, j)) => {
                if j < n {
                    let c = s.get_char(j);
                    match hex_char_value(c) {
                        None => None,
                        Some(d) => {
                            proof {
                                lemma_pow16_increases(w as nat, 16);
                                assert(pow16(16) == 0x10000000000000000) by {
                                    reveal_with_fuel(pow16, 17);
                                }
                                assert(hi * 16 + d < pow16(w as nat)) by (nonlinear_arith)
                                    requires
                                        (hi as nat) < pow16((w - 1) as nat),
                                        (d as nat) < 16,
                                        pow16(w as nat) == 16 * pow16((w - 1) as nat),
                                ;
                            }
                            Some((hi * 16 + (d as u64), j + 1))
                        },
                    }
                } else {
                    None
                }
            },
        }
    }
}

/// Reads a sixteen-digit number at `i`.
pub fn decode_u64(s: &str, n: usize, i: usize) -> (r: Option<(u64, usize)>)
    requires
        n == s@.len(),
        i <= n,
    ensures
        r.is_some() == sdec_u64(s@, i as int).is_some(),
        r matches Some((v, j)) ==> sdec_u64(s@, i as int) == Some(((v as nat), j as int)) && j == i
            + 16 && j <= n,
{
    dec_u64_rec(s, n, i, 16)
}

/// A boolean as one character.
pub open spec fn enc_bool(b: bool) -> Seq<char> {
    if b {
        seq!['1']
    } else {
        seq!['0']
    }
}

/// Renders a boolean as one character.
pub fn encode_bool(b: bool) -> (r: String)
    ensures
        r@ == enc_bool(b),
{
    let r = if b {
        String::from_str("1")
    } else {
        String::from_str("0")
    };
    proof {
        reveal_strlit("0");
        reveal_strlit("1");
        assert(r@ =~= enc_bool(b));
    }
    r
}

/// Reads one boolean character at `i`.
pub open spec fn sdec_bool(s: Seq<char>, i: int) -> Option<(bool, int)> {
    if 0 <= i < s.len() && s[i] == '0' {
        Some((false, i + 1))
    } else if 0 <= i < s.len() && s[i] == '1' {
        Some((true, i + 1))
    } else {
        None
    }
}

/// Reads one boolean character at `i`.
pub fn decode_bool(s: &str, n: usize, i: usize) -> (r: Option<(bool, usize)>)
    requires
        n == s@.len(),
        i <= n,
    ensures
        r.is_some() == sdec_bool(s@, i as int).is_some(),
        r matches Some((b, j)) ==> sdec_bool(s@, i as int) == Some((b, j as int)) && j == i + 1
            && j <= n,
{
    if i < n {
        let c = s.get_char(i);
        if c == '0' {
            Some((false, i + 1))
        } else if c == '1' {
            Some((true, i + 1))
        } else {
            None
        }
    } else {
        None
    }
}

/// Reading back an encoded boolean at its position yields the boolean.
proof fn lemma_bool_round(s: Seq<char>, i: int, b: bool)
    requires
        0 <= i,
        i + 1 <= s.len(),
        s.subrange(i, i + 1) == enc_bool(b),
    ensures
        sdec_bool(s, i) == Some((b, i + 1)),
{
    assert(s[i] == s.subrange(i, i + 1)[0]);
}

/// A string as its length followed by its characters.
pub open spec fn enc_str(t: Seq<char>) -> Seq<char> {
    enc_u64(t.len() as nat) + t
}

/// The string encoding is sixteen characters longer than the string.
pub proof fn lemma_enc_str_len(t: Seq<char>)
    ensures
        enc_str(t).len() == 16 + t.len(),
{
    lemma_enc_u64_w_len(t.len() as nat, 16);
}

/// Renders a string with its length first.
pub fn encode_str(t: &str) -> (r: String)
    ensures
        r@ == enc_str(t@),
{
    let len = t.unicode_len();
    let mut r = encode_u64(len as u64);
    r.append(t);
    r
}

/// Reads a length-prefixed string at `i`.
pub open spec fn sdec_str(s: Seq<char>, i: int) -> Option<(Seq<char>, int)> {
    match sdec_u64(s, i) {
        None => None,
        Some((l, j)) => if j + l <= s.len() {
            Some((s.subrange(j, j + l), j + l))
        } else {
            None
        },
    }
}

/// Reads a length-prefixed string at `i`.
pub fn decode_str(s: &str, n: usize, i: usize) -> (r: Option<(String, usize)>)
    requires
        n == s@.len(),
        i <= n,
    ensures
        r.is_some() == sdec_str(s@, i as int).is_some(),
        r matches Some((t, j)) ==> sdec_str(s@, i as int) == Some((t@, j as int)) && i < j <= n,
{
    match decode_u64(s, n, i) {
        None => None,
        Some((l64, j)) => {
            if l64 <= (n - j) as u64 {
                let l = l64 as usize;
                let sub = s.substring_char(j, j + l);
                Some((sub.to_owned(), j + l))
            } else {
                None
            }
        },
    }
}

/// Splits one known concatenation out of a containing sequence.
proof fn lemma_split_at(s: Seq<char>, i: int, a: Seq<char>, b: Seq<char>)
    requires
        0 <= i,
        i + a.len() + b.len() <= s.len(),
        s.subrange(i, i + a.len() + b.len()) == a + b,
    ensures
        s.subrange(i, i + a.len()) == a,
        s.subrange(i + a.len(), i + a.len() + b.len()) == b,
{
    let la = a.len() as int;
    let lb = b.len() as int;
    assert forall|k: int| 0 <= k < la implies #[trigger] s.subrange(i, i + la)[k] == a[k] by {
        assert(s.subrange(i, i + la + lb)[k] == (a + b)[k]);
    }
    assert(s.subrange(i, i + la) =~= a);
    assert forall|k: int| 0 <= k < lb implies #[trigger] s.subrange(i + la, i + la + lb)[k]
        == b[k] by {
        assert(s.subrange(i, i + la + lb)[la + k] == (a + b)[la + k]);
    }
    assert(s.subrange(i + la, i + la + lb) =~= b);
}

/// Reading back an encoded string at its position yields the string.
proof fn lemma_str_round(s: Seq<char>, i: int, t: Seq<char>)
    requires
        0 <= i,
        i + enc_str(t).len() <= s.len(),
        t.len() < pow16(16),
        s.subrange(i, i + enc_str(t).len()) == enc_str(t),
    ensures
        sdec_str(s, i) == Some((t, i + enc_str(t).len())),
{
    lemma_enc_str_len(t);
    lemma_enc_u64_w_len(t.len() as nat, 16);
    lemma_split_at(s, i, enc_u64(t.len() as nat), t);
    lemma_u64_round(s, i, t.len() as nat, 16);
    assert(s.subrange(i + 16, i + 16 + t.len()) =~= t);
}

/// An optional string: a tag character, then the string when present.
pub open spec fn enc_opt_str(o: Option<Seq<char>>) -> Seq<char> {
    match o {
        None => enc_bool(false),
        Some(t) => enc_bool(true) + enc_str(t),
    }
}

/// The view of an optional string.
pub open spec fn opt_view(o: Option<String>) -> Option<Seq<char>> {
    match o {
        None => None,
        Some(t) => Some(t@),
    }
}

/// Renders an optional string.
pub fn encode_opt_str(o: &Option<String>) -> (r: String)
    ensures
        r@ == enc_opt_str(opt_view(*o)),
{
    match o {
        None => encode_bool(false),
        Some(t) => {
            let mut r = encode_bool(true);
            let payload = encode_str(t.as_str());
            r.append(payload.as_str());
            r
        },
    }
}

/// Reads an optional string at `i`.
pub open spec fn sdec_opt_str(s: Seq<char>, i: int) -> Option<(Option<Seq<char>>, int)> {
    match sdec_bool(s, i) {
        None => None,
        Some((tag, j)) => if !tag {
            Some((None, j))
        } else {
            match sdec_str(s, j) {
                None => None,
                Some((t, k)) => Some((Some(t), k)),
            }
        },
    }
}

/// Reads an optional string at `i`.
pub fn decode_opt_str(s: &str, n: usize, i: usize) -> (r: Option<(Option<String>, usize)>)
    requires
        n == s@.len(),
        i <= n,
    ensures
        r.is_some() == sdec_opt_str(s@, i as int).is_some(),
        r matches Some((o, j)) ==> sdec_opt_str(s@, i as int) == Some((opt_view(o), j as int)) && i
            < j <= n,
{
    match decode_bool(s, n, i) {
        None => None,
        Some((tag, j)) => {
            if !tag {
                Some((None, j))
            } else {
                match decode_str(s, n, j) {
                    None => None,
                    Some((t, k)) => Some((Some(t), k)),
                }
            }
        },
    }
}

/// Reading back an encoded optional string at its position yields it.
proof fn lemma_opt_str_round(s: Seq<char>, i: int, o: Option<Seq<char>>)
    requires
        0 <= i,
        i + enc_opt_str(o).len() <= s.len(),
        o matches Some(t) ==> t.len() < pow16(16),
        s.subrange(i, i + enc_opt_str(o).len()) == enc_opt_str(o),
    ensures
        sdec_opt_str(s, i) == Some((o, i + enc_opt_str(o).len())),
{
    match o {
        None => {
            lemma_bool_round(s, i, false);
        },
        Some(t) => {
            lemma_enc_str_len(t);
            lemma_split_at(s, i, enc_bool(true), enc_str(t));
            lemma_bool_round(s, i, true);
            lemma_str_round(s, i + 1, t);
        },
    }
}

/// An optional number: a tag character, then sixteen hex digits when present.
pub open spec fn enc_opt_usize(o: Option<usize>) -> Seq<char> {
    match o {
        None => enc_bool(false),
        Some(v) => enc_bool(true) + enc_u64(v as nat),
    }
}

/// Renders an optional number.
pub fn encode_opt_usize(o: &Option<usize>) -> (r: String)
    ensures
        r@ == enc_opt_usize(*o),
{
    match o {
        None => encode_bool(false),
        Some(v) => {
            let mut r = encode_bool(true);
            let payload = encode_u64(*v as u64);
            r.append(payload.as_str());
            r
        },
    }
}

/// Reads an optional number at `i`.
pub open spec fn sdec_opt_usize(s: Seq<char>, i: int) -> Option<(Option<usize>, int)> {
    match sdec_bool(s, i) {
        None => None,
        Some((tag, j)) => if !tag {
            Some((None, j))
        } else {
            match sdec_u64(s, j) {
                None => None,
                Some((v, k)) => if v <= usize::MAX as nat {
                    Some((Some(v as usize), k))
                } else {
                    None
                },
            }
        },
    }
}

/// Reads an optional number at `i`.
pub fn decode_opt_usize(s: &str, n: usize, i: usize) -> (r: Option<(Option<usize>, usize)>)
    requires
        n == s@.len(),
        i <= n,
    ensures
        r.is_some() == sdec_opt_usize(s@, i as int).is_some(),
        r matches Some((o, j)) ==> sdec_opt_usize(s@, i as int) == Some((o, j as int)) && i < j
            <= n,
{
    match decode_bool(s, n, i) {
        None => None,
        Some((tag, j)) => {
            if !tag {
                Some((None, j))
            } else {
                match decode_u64(s, n, j) {
                    None => None,
                    Some((v, k)) => {
                        if v <= usize::MAX as u64 {
                            Some((Some(v as usize), k))
                        } else {
                            None
                        }
                    },
                }
            }
        },
    }
}

/// Reading back an encoded optional number at its position yields it.
proof fn lemma_opt_usize_round(s: Seq<char>, i: int, o: Option<usize>)
    requires
        0 <= i,
        i + enc_opt_usize(o).len() <= s.len(),
        s.subrange(i, i + enc_opt_usize(o).len()) == enc_opt_usize(o),
    ensures
        sdec_opt_usize(s, i) == Some((o, i + enc_opt_usize(o).len())),
{
    match o {
        None => {
            lemma_bool_round(s, i, false);
        },
        Some(v) => {
            lemma_enc_u64_w_len(v as nat, 16);
            lemma_split_at(s, i, enc_bool(true), enc_u64(v as nat));
            lemma_bool_round(s, i, true);
            assert((v as nat) < pow16(16)) by {
                reveal_with_fuel(pow16, 17);
            }
            lemma_u64_round(s, i + 1, v as nat, 16);
        },
    }
}

/// The mathematical content of a fetched project: each string as its
/// character sequence.
pub ghost struct StudentView {
    pub student_id: Seq<char>,
    pub build_shell: Seq<char>,
    pub run_shell: Seq<char>,
    pub notification: Seq<char>,
    pub report: Option<Seq<char>>,
}

impl View for StudentConfig {
    type V = StudentView;

    open spec fn view(&self) -> StudentView {
        StudentView {
            student_id: self.student_id@,
            build_shell: self.build_shell@,
            run_shell: self.run_shell@,
            notification: self.notification@,
            report: opt_view(self.report),
        }
    }
}

/// Every string of the project is short enough for its length prefix; a
/// machine limit every real record meets.
pub open spec fn student_fits(v: StudentView) -> bool {
    &&& v.student_id.len() < pow16(16)
    &&& v.build_shell.len() < pow16(16)
    &&& v.run_shell.len() < pow16(16)
    &&& v.notification.len() < pow16(16)
    &&& (v.report matches Some(t) ==> t.len() < pow16(16))
}

/// A project as its five fields in order.
pub open spec fn enc_student(v: StudentView) -> Seq<char> {
    enc_str(v.student_id) + enc_str(v.build_shell) + enc_str(v.run_shell) + enc_str(
        v.notification,
    ) + enc_opt_str(v.report)
}

/// Renders a project record.
pub fn encode_student(c: &StudentConfig) -> (r: String)
    ensures
        r@ == enc_student(c@),
{
    let mut r = encode_str(c.student_id.as_str());
    let f2 = encode_str(c.build_shell.as_str());
    r.append(f2.as_str());
    let f3 = encode_str(c.run_shell.as_str());
    r.append(f3.as_str());
    let f4 = encode_str(c.notification.as_str());
    r.append(f4.as_str());
    let f5 = encode_opt_str(&c.report);
    r.append(f5.as_str());
    r
}

/// Reads a project record at `i`.
pub open spec fn sdec_student(s: Seq<char>, i: int) -> Option<(StudentView, int)> {
    match sdec_str(s, i) {
        None => None,
        Some((student_id, i1)) => match sdec_str(s, i1) {
            None => None,
            Some((build_shell, i2)) => match sdec_str(s, i2) {
                None => None,
                Some((run_shell, i3)) => match sdec_str(s, i3) {
                    None => None,
                    Some((notification, i4)) => match sdec_opt_str(s, i4) {
                        None => None,
                        Some((report, i5)) => Some(
                            (
                                StudentView {
                                    student_id,
                                    build_shell,
                                    run_shell,
                                    notification,
                                    report,
                                },
                                i5,
                            ),
                        ),
                    },
                },
            },
        },
    }
}

/// Reads a project record at `i`.
pub fn decode_student(s: &str, n: usize, i: usize) -> (r: Option<(StudentConfig, usize)>)
    requires
        n == s@.len(),
        i <= n,
    ensures
        r.is_some() == sdec_student(s@, i as int).is_some(),
        r matches Some((c, j)) ==> sdec_student(s@, i as int) == Some((c@, j as int)) && i < j
            <= n,
{
    match decode_str(s, n, i) {
        None => None,
        Some((student_id, i1)) => match decode_str(s, n, i1) {
            None => None,
            Some((build_shell, i2)) => match decode_str(s, n, i2) {
                None => None,
                Some((run_shell, i3)) => match decode_str(s, n, i3) {
                    None => None,
                    Some((notification, i4)) => match decode_opt_str(s, n, i4) {
                        None => None,
                        Some((report, i5)) => Some(
                            (
                                StudentConfig {
                                    student_id,
                                    build_shell,
                                    run_shell,
                                    notification,
                                    report,
                                },
                                i5,
                            ),
                        ),
                    },
                },
            },
        },
    }
}

/// Reading back an encoded project at its position yields the project.
proof fn lemma_student_round(s: Seq<char>, i: int, v: StudentView)
    requires
        0 <= i,
        i + enc_student(v).len() <= s.len(),
        student_fits(v),
        s.subrange(i, i + enc_student(v).len()) == enc_student(v),
    ensures
        sdec_student(s, i) == Some((v, i + enc_student(v).len())),
{
    let f1 = enc_str(v.student_id);
    let f2 = enc_str(v.build_shell);
    let f3 = enc_str(v.run_shell);
    let f4 = enc_str(v.notification);
    let f5 = enc_opt_str(v.report);
    lemma_split_at(s, i, f1 + f2 + f3 + f4, f5);
    lemma_split_at(s, i, f1 + f2 + f3, f4);
    lemma_split_at(s, i, f1 + f2, f3);
    lemma_split_at(s, i, f1, f2);
    lemma_str_round(s, i, v.student_id);
    lemma_str_round(s, i + f1.len(), v.build_shell);
    lemma_str_round(s, i + f1.len() + f2.len(), v.run_shell);
    lemma_str_round(s, i + f1.len() + f2.len() + f3.len(), v.notification);
    lemma_opt_str_round(s, i + f1.len() + f2.len() + f3.len() + f4.len(), v.report);
}

/// An optional project: a tag character, then the project when present.
pub open spec fn enc_opt_student(o: Option<StudentView>) -> Seq<char> {
    match o {
        None => enc_bool(false),
        Some(p) => enc_bool(true) + enc_student(p),
    }
}

/// The view of an optional project.
pub open spec fn opt_student_view(o: Option<StudentConfig>) -> Option<StudentView> {
    match o {
        None => None,
        Some(c) => Some(c@),
    }
}

/// Renders an optional project.
pub fn encode_opt_student(o: &Option<StudentConfig>) -> (r: String)
    ensures
        r@ == enc_opt_student(opt_student_view(*o)),
{
    match o {
        None => encode_bool(false),
        Some(c) => {
            let mut r = encode_bool(true);
            let payload = encode_student(c);
            r.append(payload.as_str());
            r
        },
    }
}

/// Reads an optional project at `i`.
pub open spec fn sdec_opt_student(s: Seq<char>, i: int) -> Option<(Option<StudentView>, int)> {
    match sdec_bool(s, i) {
        None => None,
        Some((tag, j)) => if !tag {
            Some((None, j))
        } else {
            match sdec_student(s, j) {
                None => None,
                Some((p, k)) => Some((Some(p), k)),
            }
        },
    }
}

/// Reads an optional project at `i`.
pub fn decode_opt_student(s: &str, n: usize, i: usize) -> (r: Option<
    (Option<StudentConfig>, usize),
>)
    requires
        n == s@.len(),
        i <= n,
    ensures
        r.is_some() == sdec_opt_student(s@, i as int).is_some(),
        r matches Some((o, j)) ==> sdec_opt_student(s@, i as int) == Some(
            (opt_student_view(o), j as int),
        ) && i < j <= n,
{
    match decode_bool(s, n, i) {
        None => None,
        Some((tag, j)) => {
            if !tag {
                Some((None, j))
            } else {
                match decode_student(s, n, j) {
                    None => None,
                    Some((p, k)) => Some((Some(p), k)),
                }
            }
        },
    }
}

/// Reading back an encoded optional project at its position yields it.
proof fn lemma_opt_student_round(s: Seq<char>, i: int, o: Option<StudentView>)
    requires
        0 <= i,
        i + enc_opt_student(o).len() <= s.len(),
        o matches Some(p) ==> student_fits(p),
        s.subrange(i, i + enc_opt_student(o).len()) == enc_opt_student(o),
    ensures
        sdec_opt_student(s, i) == Some((o, i + enc_opt_student(o).len())),
{
    match o {
        None => {
            lemma_bool_round(s, i, false);
        },
        Some(p) => {
            lemma_split_at(s, i, enc_bool(true), enc_student(p));
            lemma_bool_round(s, i, true);
            lemma_student_round(s, i + 1, p);
        },
    }
}

/// The mathematical content of the lifecycle record.
pub ghost struct StatusView {
    pub mount: Option<Seq<char>>,
    pub built: bool,
    pub graded: Option<usize>,
    pub comment: Option<Seq<char>>,
    pub in_progress: Option<StudentView>,
    pub submitted: bool,
    pub image: bool,
    pub mark: bool,
    pub stdout: Option<Seq<char>>,
    pub stderr: Option<Seq<char>>,
    pub build_stdout: Option<Seq<char>>,
    pub build_stderr: Option<Seq<char>>,
}

impl View for Status {
    type V = StatusView;

    open spec fn view(&self) -> StatusView {
        StatusView {
            mount: opt_view(self.mount),
            built: self.built,
            graded: self.graded,
            comment: opt_view(self.comment),
            in_progress: opt_student_view(self.in_progress),
            submitted: self.submitted,
            image: self.image,
            mark: self.mark,
            stdout: opt_view(self.stdout),
            stderr: opt_view(self.stderr),
            build_stdout: opt_view(self.build_stdout),
            build_stderr: opt_view(self.build_stderr),
        }
    }
}

/// Every string of the record is short enough for its length prefix; a
/// machine limit every real record meets.
pub open spec fn status_fits(v: StatusView) -> bool {
    &&& (v.mount matches Some(t) ==> t.len() < pow16(16))
    &&& (v.comment matches Some(t) ==> t.len() < pow16(16))
    &&& (v.in_progress matches Some(p) ==> student_fits(p))
    &&& (v.stdout matches Some(t) ==> t.len() < pow16(16))
    &&& (v.stderr matches Some(t) ==> t.len() < pow16(16))
    &&& (v.build_stdout matches Some(t) ==> t.len() < pow16(16))
    &&& (v.build_stderr matches Some(t) ==> t.len() < pow16(16))
}

/// The record as its twelve fields in order.
pub open spec fn enc_status(v: StatusView) -> Seq<char> {
    enc_opt_str(v.mount) + enc_bool(v.built) + enc_opt_usize(v.graded) + enc_opt_str(v.comment)
        + enc_opt_student(v.in_progress) + enc_bool(v.submitted) + enc_bool(v.image) + enc_bool(
        v.mark,
    ) + enc_opt_str(v.stdout) + enc_opt_str(v.stderr) + enc_opt_str(v.build_stdout) + enc_opt_str(
        v.build_stderr,
    )
}

/// Renders the record into the form the state store persists.
pub fn encode_status(st: &Status) -> (r: String)
    ensures
        r@ == enc_status(st@),
{
    let mut r = encode_opt_str(&st.mount);
    let f2 = encode_bool(st.built);
    r.append(f2.as_str());
    let f3 = encode_opt_usize(&st.graded);
    r.append(f3.as_str());
    let f4 = encode_opt_str(&st.comment);
    r.append(f4.as_str());
    let f5 = encode_opt_student(&st.in_progress);
    r.append(f5.as_str());
    let f6 = encode_bool(st.submitted);
    r.append(f6.as_str());
    let f7 = encode_bool(st.image);
    r.append(f7.as_str());
    let f8 = encode_bool(st.mark);
    r.append(f8.as_str());
    let f9 = encode_opt_str(&st.stdout);
    r.append(f9.as_str());
    let f10 = encode_opt_str(&st.stderr);
    r.append(f10.as_str());
    let f11 = encode_opt_str(&st.build_stdout);
    r.append(f11.as_str());
    let f12 = encode_opt_str(&st.build_stderr);
    r.append(f12.as_str());
    r
}

/// Reads a record at `i`.
pub open spec fn sdec_status(s: Seq<char>, i: int) -> Option<(StatusView, int)> {
    match sdec_opt_str(s, i) {
        None => None,
        Some((mount, i1)) => match sdec_bool(s, i1) {
            None => None,
            Some((built, i2)) => match sdec_opt_usize(s, i2) {
                None => None,
                Some((graded, i3)) => match sdec_opt_str(s, i3) {
                    None => None,
                    Some((comment, i4)) => match sdec_opt_student(s, i4) {
                        None => None,
                        Some((in_progress, i5)) => match sdec_bool(s, i5) {
                            None => None,
                            Some((submitted, i6)) => match sdec_bool(s, i6) {
                                None => None,
                                Some((image, i7)) => match sdec_bool(s, i7) {
                                    None => None,
                                    Some((mark, i8)) => match sdec_opt_str(s, i8) {
                                        None => None,
                                        Some((stdout, i9)) => match sdec_opt_str(s, i9) {
                                            None => None,
                                            Some((stderr, i10)) => match sdec_opt_str(s, i10) {
                                                None => None,
                                                Some((build_stdout, i11)) => match sdec_opt_str(
                                                    s,
                                                    i11,
                                                ) {
                                                    None => None,
                                                    Some((build_stderr, i12)) => Some(
                                                        (
                                                            StatusView {
                                                                mount,
                                                                built,
                                                                graded,
                                                                comment,
                                                                in_progress,
                                                                submitted,
                                                                image,
                                                                mark,
                                                                stdout,
                                                                stderr,
                                                                build_stdout,
                                                                build_stderr,
                                                            },
                                                            i12,
                                                        ),
                                                    ),
                                                },
                                            },
                                        },
                                    },
                                },
                            },
                        },
                    },
                },
            },
        },
    }
}

/// Reads a record at `i`.
fn decode_status_at(s: &str, n: usize, i: usize) -> (r: Option<(Status, usize)>)
    requires
        n == s@.len(),
        i <= n,
    ensures
        r.is_some() == sdec_status(s@, i as int).is_some(),
        r matches Some((st, j)) ==> sdec_status(s@, i as int) == Some((st@, j as int)) && i < j
            <= n,
{
    match decode_opt_str(s, n, i) {
        None => None,
        Some((mount, i1)) => match decode_bool(s, n, i1) {
            None => None,
            Some((built, i2)) => match decode_opt_usize(s, n, i2) {
                None => None,
                Some((graded, i3)) => match decode_opt_str(s, n, i3) {
                    None => None,
                    Some((comment, i4)) => match decode_opt_student(s, n, i4) {
                        None => None,
                        Some((in_progress, i5)) => match decode_bool(s, n, i5) {
                            None => None,
                            Some((submitted, i6)) => match decode_bool(s, n, i6) {
                                None => None,
                                Some((image, i7)) => match decode_bool(s, n, i7) {
                                    None => None,
                                    Some((mark, i8)) => match decode_opt_str(s, n, i8) {
                                        None => None,
                                        Some((stdout, i9)) => match decode_opt_str(s, n, i9) {
                                            None => None,
                                            Some((stderr, i10)) => match decode_opt_str(
                                                s,
                                                n,
                                                i10,
                                            ) {
                                                None => None,
                                                Some((build_stdout, i11)) => match decode_opt_str(
                                                    s,
                                                    n,
                                                    i11,
                                                ) {
                                                    None => None,
                                                    Some((build_stderr, i12)) => Some(
                                                        (
                                                            Status {
                                                                mount,
                                                                built,
                                                                graded,
                                                                comment,
                                                                in_progress,
                                                                submitted,
                                                                image,
                                                                mark,
                                                                stdout,
                                                                stderr,
                                                                build_stdout,
                                                                build_stderr,
                                                            },
                                                            i12,
                                                        ),
                                                    ),
                                                },
                                            },
                                        },
                                    },
                                },
                            },
                        },
                    },
                },
            },
        },
    }
}

/// What the state store's `status` record decodes to: the record it encodes,
/// provided the whole stored text is consumed.
pub open spec fn spec_decode_status(s: Seq<char>) -> Option<StatusView> {
    match sdec_status(s, 0) {
        None => None,
        Some((v, j)) => if j == s.len() {
            Some(v)
        } else {
            None
        },
    }
}

/// Reads a stored record back, rejecting anything but one whole record.
pub fn decode_status(s: &str) -> (r: Option<Status>)
    ensures
        r.is_some() == spec_decode_status(s@).is_some(),
        r matches Some(st) ==> spec_decode_status(s@) == Some(st@),
{
    let n = s.unicode_len();
    match decode_status_at(s, n, 0) {
        None => None,
        Some((st, j)) => {
            if j == n {
                Some(st)
            } else {
                None
            }
        },
    }
}

/// Reading back an encoded record at its position yields the record.
#[verifier::rlimit(100)]
proof fn lemma_status_round(s: Seq<char>, i: int, v: StatusView)
    requires
        0 <= i,
        i + enc_status(v).len() <= s.len(),
        status_fits(v),
        s.subrange(i, i + enc_status(v).len()) == enc_status(v),
    ensures
        sdec_status(s, i) == Some((v, i + enc_status(v).len())),
{
    let f1 = enc_opt_str(v.mount);
    let f2 = enc_bool(v.built);
    let f3 = enc_opt_usize(v.graded);
    let f4 = enc_opt_str(v.comment);
    let f5 = enc_opt_student(v.in_progress);
    let f6 = enc_bool(v.submitted);
    let f7 = enc_bool(v.image);
    let f8 = enc_bool(v.mark);
    let f9 = enc_opt_str(v.stdout);
    let f10 = enc_opt_str(v.stderr);
    let f11 = enc_opt_str(v.build_stdout);
    let f12 = enc_opt_str(v.build_stderr);
    lemma_split_at(s, i, f1 + f2 + f3 + f4 + f5 + f6 + f7 + f8 + f9 + f10 + f11, f12);
    lemma_split_at(s, i, f1 + f2 + f3 + f4 + f5 + f6 + f7 + f8 + f9 + f10, f11);
    lemma_split_at(s, i, f1 + f2 + f3 + f4 + f5 + f6 + f7 + f8 + f9, f10);
    lemma_split_at(s, i, f1 + f2 + f3 + f4 + f5 + f6 + f7 + f8, f9);
    lemma_split_at(s, i, f1 + f2 + f3 + f4 + f5 + f6 + f7, f8);
    lemma_split_at(s, i, f1 + f2 + f3 + f4 + f5 + f6, f7);
    lemma_split_at(s, i, f1 + f2 + f3 + f4 + f5, f6);
    lemma_split_at(s, i, f1 + f2 + f3 + f4, f5);
    lemma_split_at(s, i, f1 + f2 + f3, f4);
    lemma_split_at(s, i, f1 + f2, f3);
    lemma_split_at(s, i, f1, f2);
    lemma_opt_str_round(s, i, v.mount);
    lemma_bool_round(s, i + f1.len(), v.built);
    lemma_opt_usize_round(s, i + f1.len() + f2.len(), v.graded);
    lemma_opt_str_round(s, i + f1.len() + f2.len() + f3.len(), v.comment);
    lemma_opt_student_round(s, i + f1.len() + f2.len() + f3.len() + f4.len(), v.in_progress);
    lemma_bool_round(s, i + f1.len() + f2.len() + f3.len() + f4.len() + f5.len(), v.submitted);
    lemma_bool_round(
        s,
        i + f1.len() + f2.len() + f3.len() + f4.len() + f5.len() + f6.len(),
        v.image,
    );
    lemma_bool_round(
        s,
        i + f1.len() + f2.len() + f3.len() + f4.len() + f5.len() + f6.len() + f7.len(),
        v.mark,
    );
    lemma_opt_str_round(
        s,
        i + f1.len() + f2.len() + f3.len() + f4.len() + f5.len() + f6.len() + f7.len() + f8.len(),
        v.stdout,
    );
    lemma_opt_str_round(
        s,
        i + f1.len() + f2.len() + f3.len() + f4.len() + f5.len() + f6.len() + f7.len() + f8.len()
            + f9.len(),
        v.stderr,
    );
    lemma_opt_str_round(
        s,
        i + f1.len() + f2.len() + f3.len() + f4.len() + f5.len() + f6.len() + f7.len() + f8.len()
            + f9.len() + f10.len(),
        v.build_stdout,
    );
    lemma_opt_str_round(
        s,
        i + f1.len() + f2.len() + f3.len() + f4.len() + f5.len() + f6.len() + f7.len() + f8.len()
            + f9.len() + f10.len() + f11.len(),
        v.build_stderr,
    );
}

/// Persisting the record, reloading it, and re-persisting it without
/// modification yields an identical encoded form: decoding an encoded record
/// succeeds, consumes the whole text, yields the record itself, and so
/// re-encodes to the very text it was decoded from.
pub proof fn lemma_status_round_trip(v: StatusView)
    requires
        status_fits(v),
    ensures
        spec_decode_status(enc_status(v)) == Some(v),
        enc_status(spec_decode_status(enc_status(v)).unwrap()) == enc_status(v),
{
    let s = enc_status(v);
    assert(s.subrange(0, s.len() as int) =~= s);
    lemma_status_round(s, 0, v);
}

} // verus!

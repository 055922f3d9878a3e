//! Small verified building blocks for command-line text: decimal rendering,
//! comma-joined lists, and path concatenation under a root directory.

use vstd::prelude::*;

verus! {

/// The views of a sequence of strings, one character sequence per string.
pub open spec fn views(args: Seq<String>) -> Seq<Seq<char>> {
    args.map_values(|s: String| s@)
}

pub proof fn lemma_views_add(a: Seq<String>, b: Seq<String>)
    ensures
        views(a + b) == views(a) + views(b),
{
    assert(views(a + b) =~= views(a) + views(b));
}

/// The character for one decimal digit.
pub open spec fn digit_char(d: int) -> char {
    if d == 0 {
        '0'
    } else if d == 1 {
        '1'
    } else if d == 2 {
        '2'
    } else if d == 3 {
        '3'
    } else if d == 4 {
        '4'
    } else if d == 5 {
        '5'
    } else if d == 6 {
        '6'
    } else if d == 7 {
        '7'
    } else if d == 8 {
        '8'
    } else {
        '9'
    }
}

/// The decimal rendering of a number, most significant digit first.
pub open spec fn dec(n: nat) -> Seq<char>
    decreases n,
{
    if n < 10 {
        seq![digit_char(n as int)]
    } else {
        dec(n / 10).push(digit_char((n % 10) as int))
    }
}

fn digit_str(d: usize) -> (r: &'static str)
    requires
        d < 10,
    ensures
        r@ == seq![digit_char(d as int)],
{
    let r: &'static str = if d == 0 {
        proof { reveal_strlit("0"); }
        "0"
    } else if d == 1 {
        proof { reveal_strlit("1"); }
        "1"
    } else if d == 2 {
        proof { reveal_strlit("2"); }
        "2"
    } else if d == 3 {
        proof { reveal_strlit("3"); }
        "3"
    } else if d == 4 {
        proof { reveal_strlit("4"); }
        "4"
    } else if d == 5 {
        proof { reveal_strlit("5"); }
        "5"
    } else if d == 6 {
        proof { reveal_strlit("6"); }
        "6"
    } else if d == 7 {
        proof { reveal_strlit("7"); }
        "7"
    } else if d == 8 {
        proof { reveal_strlit("8"); }
        "8"
    } else {
        proof { reveal_strlit("9"); }
        "9"
    };
    proof {
        assert(r@ =~= seq![digit_char(d as int)]);
    }
    r
}

/// Renders `n` in decimal.
pub fn dec_string(n: usize) -> (r: String)
    ensures
        r@ == dec(n as nat),
    decreases n,
{
    if n < 10 {
        String::from_str(digit_str(n))
    } else {
        let mut s = dec_string(n / 10);
        s.append(digit_str(n % 10));
        proof {
            assert(s@ =~= dec((n / 10) as nat).push(digit_char((n % 10) as int)));
        }
        s
    }
}

/// The concatenation of two strings.
pub fn concat_strs(a: &str, b: &str) -> (r: String)
    ensures
        r@ == a@ + b@,
{
    let mut s = String::from_str(a);
    s.append(b);
    s
}

/// The given items joined by single commas, with no leading or trailing comma.
pub open spec fn comma_join(items: Seq<Seq<char>>) -> Seq<char>
    decreases items.len(),
{
    if items.len() == 0 {
        Seq::empty()
    } else if items.len() == 1 {
        items[0]
    } else {
        comma_join(items.drop_last()) + seq![','] + items.last()
    }
}

/// Joins the strings with commas.
pub fn join_comma(items: &Vec<String>) -> (r: String)
    ensures
        r@ == comma_join(views(items@)),
{
    let mut s = String::new();
    let mut i: usize = 0;
    while i < items.len()
        invariant
            i <= items.len(),
            s@ == comma_join(views(items@).take(i as int)),
        decreases items.len() - i,
    {
        if i > 0 {
            proof { reveal_strlit(","); }
            s.append(",");
        }
        s.append(items[i].as_str());
        proof {
            let vs = views(items@);
            assert(vs.take(i + 1).drop_last() =~= vs.take(i as int));
            assert(vs.take(i + 1).last() == items@[i as int]@);
            if i == 0 {
                assert(s@ =~= vs.take(1)[0]);
            } else {
                assert(","@ =~= seq![',']) by {
                    reveal_strlit(",");
                }
                assert(s@ =~= comma_join(vs.take(i as int)) + seq![','] + vs.take(i + 1).last());
            }
        }
        i = i + 1;
    }
    proof {
        assert(views(items@).take(items@.len() as int) =~= views(items@));
    }
    s
}

/// The list `0,1,...,n-1` of the first `n` processor numbers.
pub open spec fn affinity_list(n: nat) -> Seq<char>
    decreases n,
{
    if n == 0 {
        Seq::empty()
    } else if n == 1 {
        dec(0)
    } else {
        affinity_list((n - 1) as nat) + seq![','] + dec((n - 1) as nat)
    }
}

/// Renders the processor list `0,1,...,n-1`.
pub fn affinity_string(n: usize) -> (r: String)
    ensures
        r@ == affinity_list(n as nat),
{
    let mut s = String::new();
    let mut i: usize = 0;
    while i < n
        invariant
            i <= n,
            s@ == affinity_list(i as nat),
        decreases n - i,
    {
        if i > 0 {
            proof { reveal_strlit(","); }
            s.append(",");
        }
        let d = dec_string(i);
        s.append(d.as_str());
        proof {
            if i > 0 {
                assert(","@ =~= seq![',']) by {
                    reveal_strlit(",");
                }
            }
            assert(s@ =~= affinity_list((i + 1) as nat));
        }
        i = i + 1;
    }
    s
}

/// A path placed under a root directory: the two parts joined by exactly one
/// separator, whether or not the inner path already starts with one.
pub open spec fn path_under(root: Seq<char>, target: Seq<char>) -> Seq<char> {
    if target.len() > 0 && target[0] == '/' {
        root + target
    } else {
        root + seq!['/'] + target
    }
}

/// Joins `target` under `root` with exactly one separator between them.
pub fn join_path(root: &str, target: &str) -> (r: String)
    ensures
        r@ == path_under(root@, target@),
{
    let mut s = String::from_str(root);
    let len = target.unicode_len();
    if len == 0 || target.get_char(0) != '/' {
        proof { reveal_strlit("/"); }
        s.append("/");
        proof {
            assert("/"@ =~= seq!['/']) by {
                reveal_strlit("/");
            }
        }
    }
    s.append(target);
    s
}

} // verus!

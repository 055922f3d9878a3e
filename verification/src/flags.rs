//! Shared pieces of the two backend synthesizers: optional flags, numeric
//! flags, repeated prefixed flags, and the syscall-filter name lists.

use vstd::prelude::*;

use crate::policy::Syscall;
use crate::textfmt::{comma_join, concat_strs, dec, dec_string, views};

verus! {

/// A binding source that failed canonicalization; `index` is the position of
/// the first such binding in the policy's list. Fatal: no partially-built
/// command is ever spawned.
#[derive(Debug, Clone, Copy, PartialEq, Eq, Structural)]
pub struct PathError {
    pub index: usize,
}

/// Appends a rendered group of arguments to the list under construction.
pub fn append_args(args: &mut Vec<String>, tail: Vec<String>)
    ensures
        views(final(args)@) == views(old(args)@) + views(tail@),
{
    let mut t = tail;
    let ghost a0 = args@;
    let ghost t0 = t@;
    args.append(&mut t);
    proof {
        crate::textfmt::lemma_views_add(a0, t0);
    }
}

/// One flag, present only when `cond` holds.
pub open spec fn opt_flag(cond: bool, flag: Seq<char>) -> Seq<Seq<char>> {
    if cond {
        seq![flag]
    } else {
        Seq::empty()
    }
}

/// Renders an optional flag.
pub fn opt_flag_args(cond: bool, flag: &str) -> (r: Vec<String>)
    ensures
        views(r@) == opt_flag(cond, flag@),
{
    let mut r: Vec<String> = Vec::new();
    if cond {
        r.push(String::from_str(flag));
    }
    proof {
        assert(views(r@) =~= opt_flag(cond, flag@));
    }
    r
}

/// One `prefix<n>` flag when a ceiling is set, nothing when it is not.
pub open spec fn num_flag(prefix: Seq<char>, v: Option<usize>) -> Seq<Seq<char>> {
    match v {
        None => Seq::empty(),
        Some(n) => seq![prefix + dec(n as nat)],
    }
}

/// Renders an optional numeric flag.
pub fn num_flag_args(prefix: &str, v: &Option<usize>) -> (r: Vec<String>)
    ensures
        views(r@) == num_flag(prefix@, *v),
{
    let mut r: Vec<String> = Vec::new();
    match v {
        None => {},
        Some(n) => {
            let d = dec_string(*n);
            r.push(concat_strs(prefix, d.as_str()));
        },
    }
    proof {
        assert(views(r@) =~= num_flag(prefix@, *v));
    }
    r
}

/// One string flag when the value is set, nothing when it is not.
pub open spec fn opt_value_flag(prefix: Seq<char>, v: Option<String>) -> Seq<Seq<char>> {
    match v {
        None => Seq::empty(),
        Some(s) => seq![prefix + s@],
    }
}

/// Renders an optional `prefix<value>` flag.
pub fn opt_value_flag_args(prefix: &str, v: &Option<String>) -> (r: Vec<String>)
    ensures
        views(r@) == opt_value_flag(prefix@, *v),
{
    let mut r: Vec<String> = Vec::new();
    match v {
        None => {},
        Some(s) => {
            r.push(concat_strs(prefix, s.as_str()));
        },
    }
    proof {
        assert(views(r@) =~= opt_value_flag(prefix@, *v));
    }
    r
}

/// One `prefix<item>` flag for each item, in order.
pub open spec fn prefixed_args(prefix: Seq<char>, items: Seq<String>) -> Seq<Seq<char>>
    decreases items.len(),
{
    if items.len() == 0 {
        Seq::empty()
    } else {
        prefixed_args(prefix, items.drop_last()).push(prefix + items.last()@)
    }
}

/// Renders one `prefix<item>` flag per item.
pub fn prefixed_flag_args(prefix: &str, items: &Vec<String>) -> (r: Vec<String>)
    ensures
        views(r@) == prefixed_args(prefix@, items@),
{
    let mut r: Vec<String> = Vec::new();
    let mut i: usize = 0;
    while i < items.len()
        invariant
            i <= items.len(),
            views(r@) == prefixed_args(prefix@, items@.take(i as int)),
        decreases items.len() - i,
    {
        r.push(concat_strs(prefix, items[i].as_str()));
        proof {
            assert(items@.take(i + 1).drop_last() =~= items@.take(i as int));
            assert(views(r@) =~= prefixed_args(prefix@, items@.take(i + 1)));
        }
        i = i + 1;
    }
    proof {
        assert(items@.take(items@.len() as int) =~= items@);
    }
    r
}

/// The shell the payload runs under: the policy's override, or `/bin/sh`.
pub open spec fn shell_or_default(shell: Option<String>) -> Seq<char> {
    match shell {
        Some(s) => s@,
        None => "/bin/sh"@,
    }
}

/// Resolves the shell override against the default.
pub fn shell_string(shell: &Option<String>) -> (r: String)
    ensures
        r@ == shell_or_default(*shell),
{
    match shell {
        Some(s) => s.clone(),
        None => String::from_str("/bin/sh"),
    }
}

/// The names of the permitted syscalls, in policy order.
pub open spec fn permit_names(s: Seq<Syscall>) -> Seq<Seq<char>>
    decreases s.len(),
{
    if s.len() == 0 {
        Seq::empty()
    } else {
        permit_names(s.drop_last()) + (if s.last().permit {
            seq![s.last().name@]
        } else {
            Seq::empty()
        })
    }
}

/// The names of the denied syscalls, in policy order.
pub open spec fn deny_names(s: Seq<Syscall>) -> Seq<Seq<char>>
    decreases s.len(),
{
    if s.len() == 0 {
        Seq::empty()
    } else {
        deny_names(s.drop_last()) + (if s.last().permit {
            Seq::empty()
        } else {
            seq![s.last().name@]
        })
    }
}

/// Collects the names of the syscall entries matching `permit`.
pub fn filter_names(s: &Vec<Syscall>, permit: bool) -> (r: Vec<String>)
    ensures
        permit ==> views(r@) == permit_names(s@),
        !permit ==> views(r@) == deny_names(s@),
{
    let mut r: Vec<String> = Vec::new();
    let mut i: usize = 0;
    while i < s.len()
        invariant
            i <= s.len(),
            permit ==> views(r@) == permit_names(s@.take(i as int)),
            !permit ==> views(r@) == deny_names(s@.take(i as int)),
        decreases s.len() - i,
    {
        if s[i].permit == permit {
            r.push(s[i].name.clone());
        }
        proof {
            assert(s@.take(i + 1).drop_last() =~= s@.take(i as int));
            if permit {
                assert(views(r@) =~= permit_names(s@.take(i + 1)));
            } else {
                assert(views(r@) =~= deny_names(s@.take(i + 1)));
            }
        }
        i = i + 1;
    }
    proof {
        assert(s@.take(s@.len() as int) =~= s@);
    }
    r
}

/// A comma-joined list flag, suppressed entirely when the joined list is
/// empty: the flag is never emitted with an empty value.
pub open spec fn joined_flag(prefix: Seq<char>, items: Seq<Seq<char>>) -> Seq<Seq<char>> {
    if comma_join(items).len() == 0 {
        Seq::empty()
    } else {
        seq![prefix + comma_join(items)]
    }
}

/// Renders a comma-joined list flag, or nothing when the join is empty.
pub fn joined_flag_args(prefix: &str, items: &Vec<String>) -> (r: Vec<String>)
    ensures
        views(r@) == joined_flag(prefix@, views(items@)),
{
    let joined = crate::textfmt::join_comma(items);
    let mut r: Vec<String> = Vec::new();
    if joined.as_str().unicode_len() > 0 {
        r.push(concat_strs(prefix, joined.as_str()));
    }
    proof {
        assert(views(r@) =~= joined_flag(prefix@, views(items@)));
    }
    r
}

} // verus!

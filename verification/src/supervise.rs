//! The process supervisor's verified half: turning the captured stdout and
//! stderr lines of the sandboxed child into the text persisted on the status
//! record, and deciding each operation's outcome from the child's exit.
//!
//! The unverified half drains the two pipes concurrently, one thread per
//! stream, each draining into its own buffer; the stderr worker returns its
//! buffer through its join result, so each buffer has exactly one writer.

use vstd::prelude::*;

use crate::status::Status;
use crate::textfmt::views;

verus! {

/// A helper or backend process exited nonzero, was killed by a signal, or
/// failed to spawn. Fatal for the calling operation.
#[derive(Debug, Clone, Copy, PartialEq, Eq, Structural)]
pub struct ProcessError {}

/// The captured lines of one stream as persisted text: each line followed by
/// one newline, in arrival order.
pub open spec fn joined_lines(lines: Seq<Seq<char>>) -> Seq<char>
    decreases lines.len(),
{
    if lines.len() == 0 {
        Seq::empty()
    } else {
        joined_lines(lines.drop_last()) + lines.last() + seq!['\n']
    }
}

/// Joins captured lines into the text persisted on the record.
pub fn join_lines(lines: &Vec<String>) -> (r: String)
    ensures
        r@ == joined_lines(views(lines@)),
{
    let mut s = String::new();
    let mut i: usize = 0;
    while i < lines.len()
        invariant
            i <= lines.len(),
            s@ == joined_lines(views(lines@).take(i as int)),
        decreases lines.len() - i,
    {
        s.append(lines[i].as_str());
        s.append("\n");
        proof {
            let vs = views(lines@);
            assert(vs.take(i + 1).drop_last() =~= vs.take(i as int));
            assert("\n"@ =~= seq!['\n']) by {
                reveal_strlit("\n");
            }
            assert(s@ =~= joined_lines(vs.take(i + 1)));
        }
        i = i + 1;
    }
    proof {
        assert(views(lines@).take(lines@.len() as int) =~= views(lines@));
    }
    s
}

/// How often a character occurs in a sequence.
pub open spec fn count_char(s: Seq<char>, c: char) -> nat
    decreases s.len(),
{
    if s.len() == 0 {
        0
    } else {
        count_char(s.drop_last(), c) + (if s.last() == c {
            1nat
        } else {
            0nat
        })
    }
}

/// Occurrences add up over concatenation.
pub proof fn lemma_count_char_add(a: Seq<char>, b: Seq<char>, c: char)
    ensures
        count_char(a + b, c) == count_char(a, c) + count_char(b, c),
    decreases b.len(),
{
    if b.len() == 0 {
        assert(a + b =~= a);
    } else {
        lemma_count_char_add(a, b.drop_last(), c);
        assert((a + b).drop_last() =~= a + b.drop_last());
        assert((a + b).last() == b.last());
    }
}

/// A sequence without the character contains it zero times.
pub proof fn lemma_count_char_none(s: Seq<char>, c: char)
    requires
        forall|j: int| 0 <= j < s.len() ==> s[j] != c,
    ensures
        count_char(s, c) == 0,
    decreases s.len(),
{
    if s.len() > 0 {
        lemma_count_char_none(s.drop_last(), c);
    }
}

/// A capture of N lines, none of which contains a newline itself, joins into
/// text holding exactly N newlines: one terminator per captured line,
/// whatever the arrival interleaving with the other stream was.
pub proof fn lemma_joined_line_count(lines: Seq<Seq<char>>)
    requires
        forall|i: int, j: int|
            0 <= i < lines.len() && 0 <= j < lines[i].len() ==> lines[i][j] != '\n',
    ensures
        count_char(joined_lines(lines), '\n') == lines.len(),
    decreases lines.len(),
{
    if lines.len() > 0 {
        lemma_joined_line_count(lines.drop_last());
        lemma_count_char_add(joined_lines(lines.drop_last()) + lines.last(), seq!['\n'], '\n');
        lemma_count_char_add(joined_lines(lines.drop_last()), lines.last(), '\n');
        lemma_count_char_none(lines.last(), '\n');
        assert(count_char(seq!['\n'], '\n') == 1) by {
            assert(seq!['\n'].drop_last() =~= Seq::<char>::empty());
            assert(count_char(Seq::<char>::empty(), '\n') == 0);
            assert(seq!['\n'].last() == '\n');
        }
    }
}

/// Applies the outcome of a supervised build.
///
/// On a successful exit the record shows the build and both captures, each
/// stream newline-joined in its own arrival order, and the operation
/// succeeds; on a failed exit nothing is recorded — the record is exactly
/// what it was — and the failure is fatal for the operation.
pub fn build_outcome(
    status: &mut Status,
    exit_success: bool,
    out_lines: &Vec<String>,
    err_lines: &Vec<String>,
) -> (r: Result<(), ProcessError>)
    requires
        old(status).mount.is_some(),
    ensures
        r.is_ok() <==> exit_success,
        !exit_success ==> *final(status) == *old(status),
        exit_success ==> *final(status) == (Status {
            built: true,
            stdout: Some(final(status).stdout.unwrap()),
            stderr: Some(final(status).stderr.unwrap()),
            ..*old(status)
        }) && final(status).stdout.unwrap()@ == joined_lines(views(out_lines@))
            && final(status).stderr.unwrap()@ == joined_lines(views(err_lines@)),
        old(status).wf() ==> final(status).wf(),
{
    if !exit_success {
        return Err(ProcessError {});
    }
    let stdout = join_lines(out_lines);
    let stderr = join_lines(err_lines);
    status.record_build(stdout, stderr);
    Ok(())
}

/// Applies the outcome of a supervised run, the same way as a build except
/// that the record's build flag is left alone.
pub fn run_outcome(
    status: &mut Status,
    exit_success: bool,
    out_lines: &Vec<String>,
    err_lines: &Vec<String>,
) -> (r: Result<(), ProcessError>)
    ensures
        r.is_ok() <==> exit_success,
        !exit_success ==> *final(status) == *old(status),
        exit_success ==> *final(status) == (Status {
            stdout: Some(final(status).stdout.unwrap()),
            stderr: Some(final(status).stderr.unwrap()),
            ..*old(status)
        }) && final(status).stdout.unwrap()@ == joined_lines(views(out_lines@))
            && final(status).stderr.unwrap()@ == joined_lines(views(err_lines@)),
        old(status).wf() ==> final(status).wf(),
{
    if !exit_success {
        return Err(ProcessError {});
    }
    let stdout = join_lines(out_lines);
    let stderr = join_lines(err_lines);
    status.record_run(stdout, stderr);
    Ok(())
}

} // verus!

//! Reading a deploy's build output: every line the service streams
//! back is classified and turned into one action for the printing loop,
//! and the lines nobody claimed decide the final verdict.

use vstd::prelude::*;
use vstd::string::{StrSliceExecFns, StringExecFns};
use crate::error::CommandError;
use crate::text;

verus! {

/// Whether `p` is a prefix of `s`.
pub open spec fn spec_starts_with(s: Seq<char>, p: Seq<char>) -> bool {
    p.len() <= s.len() && s.subrange(0, p.len() as int) == p
}

/// `s` with every leading copy of `p` removed.
pub open spec fn spec_strip_prefix_all(s: Seq<char>, p: Seq<char>) -> Seq<char>
    decreases s.len(),
{
    if p.len() == 0 {
        s
    } else if spec_starts_with(s, p) {
        spec_strip_prefix_all(s.skip(p.len() as int), p)
    } else {
        s
    }
}

/// `s` without its leading white space.
pub open spec fn spec_trim_start(s: Seq<char>) -> Seq<char> {
    s.subrange(text::first_non_ws(s, 0), s.len() as int)
}

/// The payload a tagged build line carries: everything after its tags,
/// without leading white space.
pub open spec fn spec_payload(line: Seq<char>, tag: Seq<char>) -> Seq<char> {
    spec_trim_start(spec_strip_prefix_all(line, tag))
}

/// Whether `s` starts with `p`.
pub fn str_starts_with(s: &str, p: &str) -> (r: bool)
    ensures
        r == spec_starts_with(s@, p@),
{
    let sl = s.unicode_len();
    let pl = p.unicode_len();
    if pl > sl {
        return false;
    }
    let mut i: usize = 0;
    while i < pl
        invariant
            sl == s@.len(),
            pl == p@.len(),
            pl <= sl,
            i <= pl,
            forall|j: int| 0 <= j < i ==> s@[j] == p@[j],
        decreases pl - i,
    {
        if s.get_char(i) != p.get_char(i) {
            return false;
        }
        i = i + 1;
    }
    proof {
        assert(s@.subrange(0, pl as int) =~= p@);
    }
    true
}

/// Removes every leading copy of `p` from `s`, the way
/// `trim_start_matches` does.
pub fn strip_prefix_all<'a>(s: &'a str, p: &str) -> (r: &'a str)
    ensures
        r@ == spec_strip_prefix_all(s@, p@),
{
    let pl = p.unicode_len();
    if pl == 0 {
        return s;
    }
    let mut cur: &str = s;
    loop
        invariant
            pl == p@.len(),
            pl > 0,
            spec_strip_prefix_all(s@, p@) == spec_strip_prefix_all(cur@, p@),
        ensures
            !spec_starts_with(cur@, p@),
            spec_strip_prefix_all(s@, p@) == spec_strip_prefix_all(cur@, p@),
        decreases cur@.len(),
    {
        if !str_starts_with(cur, p) {
            break;
        }
        let next = cur.substring_char(pl, cur.unicode_len());
        proof {
            assert(next@ =~= cur@.skip(pl as int));
        }
        cur = next;
    }
    cur
}

/// Removes leading white space.
pub fn trim_start(s: &str) -> (r: &str)
    ensures
        r@ == spec_trim_start(s@),
{
    let len = s.unicode_len();
    let mut a: usize = 0;
    while a < len && text::is_whitespace(s.get_char(a))
        invariant
            len == s@.len(),
            a <= len,
            text::first_non_ws(s@, 0) == text::first_non_ws(s@, a as int),
        decreases len - a,
    {
        a = a + 1;
    }
    assert(text::first_non_ws(s@, 0) == a);
    s.substring_char(a, len)
}

/// What one line of build output asks the printing loop to do.
#[derive(PartialEq, Eq, Debug)]
pub enum BuildAction {
    /// A `[stdout]` line: echo its payload.
    EchoOut(String),
    /// A `[stderr]` line: echo its payload to the error stream.
    EchoErr(String),
    /// A `[result]` line other than `FAILED`: the deploy succeeded.
    Succeed,
    /// A `[result]` line reading `FAILED`: the deploy failed.
    Fail,
    /// An untagged line: remember it for the final verdict.
    Remember(String),
}

/// Classifies one line of streamed build output.
pub fn build_line_action(line: &String) -> (r: BuildAction)
    ensures
        spec_starts_with(line@, "[stdout]"@) ==> (r matches BuildAction::EchoOut(t) && t@
            == spec_payload(line@, "[stdout]"@)),
        !spec_starts_with(line@, "[stdout]"@) && spec_starts_with(line@, "[stderr]"@) ==> (
        r matches BuildAction::EchoErr(t) && t@ == spec_payload(line@, "[stderr]"@)),
        !spec_starts_with(line@, "[stdout]"@) && !spec_starts_with(line@, "[stderr]"@)
            && spec_starts_with(line@, "[result]"@) ==> r == (if spec_payload(line@, "[result]"@)
            == "FAILED"@ {
            BuildAction::Fail
        } else {
            BuildAction::Succeed
        }),
        !spec_starts_with(line@, "[stdout]"@) && !spec_starts_with(line@, "[stderr]"@)
            && !spec_starts_with(line@, "[result]"@) ==> (r matches BuildAction::Remember(t) && t@
            == line@),
{
    if str_starts_with(line.as_str(), "[stdout]") {
        let t = trim_start(strip_prefix_all(line.as_str(), "[stdout]"));
        BuildAction::EchoOut(t.to_owned())
    } else if str_starts_with(line.as_str(), "[stderr]") {
        let t = trim_start(strip_prefix_all(line.as_str(), "[stderr]"));
        BuildAction::EchoErr(t.to_owned())
    } else if str_starts_with(line.as_str(), "[result]") {
        let t = trim_start(strip_prefix_all(line.as_str(), "[result]"));
        if text::str_eq(t, "FAILED") {
            BuildAction::Fail
        } else {
            BuildAction::Succeed
        }
    } else {
        BuildAction::Remember(line.clone())
    }
}

/// The lines joined with newlines, the last one bare.
pub open spec fn spec_join_nl(lines: Seq<Seq<char>>) -> Seq<char>
    decreases lines.len(),
{
    if lines.len() == 0 {
        Seq::empty()
    } else if lines.len() == 1 {
        lines[0]
    } else {
        spec_join_nl(lines.drop_last()) + "\n"@ + lines.last()
    }
}

/// The verdict once the stream has ended: clean output passes, and any
/// unclaimed lines fail the deploy, quoted in order.
pub fn deploy_verdict(error_lines: &Vec<String>) -> (r: Result<(), CommandError>)
    ensures
        error_lines@.len() == 0 ==> r is Ok,
        error_lines@.len() > 0 ==> (r matches Err(e) && e.message@ == "Failed to deploy:\n"@
            + spec_join_nl(error_lines@.map_values(|s: String| s@)) && e.help@ == Seq::<
            char,
        >::empty()),
{
    if error_lines.len() == 0 {
        return Ok(());
    }
    let ghost views = error_lines@.map_values(|s: String| s@);
    let mut joined: String = error_lines[0].clone();
    let mut i: usize = 1;
    while i < error_lines.len()
        invariant
            1 <= i <= error_lines@.len(),
            views == error_lines@.map_values(|s: String| s@),
            joined@ == spec_join_nl(views.take(i as int)),
        decreases error_lines@.len() - i,
    {
        joined = joined.concat("\n").concat(error_lines[i].as_str());
        proof {
            assert(views.take(i + 1).drop_last() =~= views.take(i as int));
            assert(views.take(i + 1).last() == views[i as int]);
        }
        i = i + 1;
    }
    proof {
        assert(views.take(error_lines@.len() as int) =~= views);
    }
    Err(
        CommandError {
            message: "Failed to deploy:\n".to_owned().concat(joined.as_str()),
            help: String::new(),
        },
    )
}

} // verus!

//! The diagnostic a failed resolution reports: one human-readable text that
//! names the environment snapshot and every probed path with its existence
//! flag.

use vstd::prelude::*;
use vstd::string::StringExecFns;

use crate::context::Candidate;
use crate::context::PlatformContext;
use crate::context::spec_os_label;
use crate::pathstr::contains_seq;
use crate::pathstr::lemma_contains_extend_left;
use crate::pathstr::lemma_contains_extend_right;
use crate::pathstr::lemma_contains_self;
use crate::pathstr::lemma_contains_trans;

verus! {

/// The text under which an existence flag is reported.
pub open spec fn spec_bool_label(b: bool) -> Seq<char> {
    if b {
        "true"@
    } else {
        "false"@
    }
}

/// The existence flag, as text.
pub fn bool_label(b: bool) -> (r: &'static str)
    ensures
        r@ == spec_bool_label(b),
{
    if b {
        "true"
    } else {
        "false"
    }
}

/// The diagnostic line reported for one probed candidate.
pub open spec fn spec_candidate_line(c: Candidate) -> Seq<char> {
    "- "@ + c.path@ + " (exists: "@ + spec_bool_label(c.exists) + ")\n"@
}

/// The text reported for an environment variable that may be unset.
pub open spec fn spec_env_text(v: Option<String>, missing: Seq<char>) -> Seq<char> {
    match v {
        Some(s) => s@,
        None => missing,
    }
}

/// The head of the diagnostic: the environment snapshot.
pub open spec fn spec_header(ctx: PlatformContext) -> Seq<char> {
    "CLI tools not found. Debug info:\nCurrent dir: "@ + ctx.cwd@ + "\nExe path: "@
        + ctx.exe_path@ + "\nHOME: "@ + spec_env_text(ctx.home, "HOME_NOT_SET"@)
        + "\nUSERPROFILE: "@ + spec_env_text(ctx.user_profile, "USERPROFILE_NOT_SET"@)
        + "\nPlatform: "@ + spec_os_label(ctx.os) + "\nChecked paths:\n"@
}

/// The tail of the diagnostic: one line per probed candidate, in probe
/// order.
pub open spec fn spec_lines(cands: Seq<Candidate>) -> Seq<char>
    decreases cands.len(),
{
    if cands.len() == 0 {
        Seq::<char>::empty()
    } else {
        spec_lines(cands.drop_last()) + spec_candidate_line(cands.last())
    }
}

/// The whole diagnostic for one failed resolution.
pub open spec fn spec_diagnostic(ctx: PlatformContext, cands: Seq<Candidate>) -> Seq<char> {
    spec_header(ctx) + spec_lines(cands)
}

/// The diagnostic line for one probed candidate, as text.
fn candidate_line(c: &Candidate) -> (r: String)
    ensures
        r@ == spec_candidate_line(*c),
{
    let mut out = String::from_str("- ");
    out.append(c.path.as_str());
    out.append(" (exists: ");
    out.append(bool_label(c.exists));
    out.append(")\n");
    out
}

/// Renders the diagnostic of a failed resolution.
pub fn diagnostic(ctx: &PlatformContext, cands: &Vec<Candidate>) -> (r: String)
    ensures
        r@ == spec_diagnostic(*ctx, cands@),
{
    let mut out = String::from_str("CLI tools not found. Debug info:\nCurrent dir: ");
    out.append(ctx.cwd.as_str());
    out.append("\nExe path: ");
    out.append(ctx.exe_path.as_str());
    out.append("\nHOME: ");
    match &ctx.home {
        Some(h) => out.append(h.as_str()),
        None => out.append("HOME_NOT_SET"),
    }
    out.append("\nUSERPROFILE: ");
    match &ctx.user_profile {
        Some(u) => out.append(u.as_str()),
        None => out.append("USERPROFILE_NOT_SET"),
    }
    out.append("\nPlatform: ");
    out.append(ctx.os.label());
    out.append("\nChecked paths:\n");
    proof {
        assert(out@ =~= spec_header(*ctx) + spec_lines(cands@.subrange(0, 0)));
    }
    let n = cands.len();
    let mut i: usize = 0;
    while i < n
        invariant
            i <= n,
            n == cands@.len(),
            out@ == spec_header(*ctx) + spec_lines(cands@.subrange(0, i as int)),
        decreases n - i,
    {
        let line = candidate_line(&cands[i]);
        out.append(line.as_str());
        proof {
            let pre = cands@.subrange(0, i as int);
            let cur = cands@.subrange(0, i + 1);
            assert(cur.drop_last() =~= pre);
            assert(cur.last() == cands@[i as int]);
            assert(out@ =~= spec_header(*ctx) + spec_lines(cur));
        }
        i = i + 1;
    }
    proof {
        assert(cands@.subrange(0, n as int) =~= cands@);
    }
    out
}

/// Every probed candidate's line stands in the rendered line block.
proof fn lemma_lines_contain(cands: Seq<Candidate>)
    ensures
        forall|i: int|
            0 <= i < cands.len() ==> contains_seq(
                spec_lines(cands),
                #[trigger] spec_candidate_line(cands[i]),
            ),
    decreases cands.len(),
{
    if cands.len() > 0 {
        let front = cands.drop_last();
        let last_line = spec_candidate_line(cands.last());
        lemma_lines_contain(front);
        lemma_contains_self(last_line);
        lemma_contains_extend_left(spec_lines(front), last_line, last_line);
        assert forall|i: int| 0 <= i < cands.len() implies contains_seq(
            spec_lines(cands),
            #[trigger] spec_candidate_line(cands[i]),
        ) by {
            if i < cands.len() - 1 {
                assert(front[i] == cands[i]);
                lemma_contains_extend_right(
                    spec_lines(front),
                    last_line,
                    spec_candidate_line(cands[i]),
                );
            }
        }
    }
}

/// A candidate's line holds the candidate's path.
proof fn lemma_line_contains_path(c: Candidate)
    ensures
        contains_seq(spec_candidate_line(c), c.path@),
{
    let a = "- "@;
    let p1 = a + c.path@;
    let p2 = p1 + " (exists: "@;
    let p3 = p2 + spec_bool_label(c.exists);
    lemma_contains_self(c.path@);
    lemma_contains_extend_left(a, c.path@, c.path@);
    lemma_contains_extend_right(p1, " (exists: "@, c.path@);
    lemma_contains_extend_right(p2, spec_bool_label(c.exists), c.path@);
    lemma_contains_extend_right(p3, ")\n"@, c.path@);
}

/// The diagnostic of a failed resolution names everything that was checked:
/// the working directory, the executable path, each environment variable's
/// value or its placeholder, the platform label, and every probed path with
/// its existence flag.
pub proof fn lemma_diagnostic_mentions_all(ctx: PlatformContext, cands: Seq<Candidate>)
    ensures
        contains_seq(spec_diagnostic(ctx, cands), ctx.cwd@),
        contains_seq(spec_diagnostic(ctx, cands), ctx.exe_path@),
        contains_seq(spec_diagnostic(ctx, cands), spec_env_text(ctx.home, "HOME_NOT_SET"@)),
        contains_seq(
            spec_diagnostic(ctx, cands),
            spec_env_text(ctx.user_profile, "USERPROFILE_NOT_SET"@),
        ),
        contains_seq(spec_diagnostic(ctx, cands), spec_os_label(ctx.os)),
        forall|i: int|
            0 <= i < cands.len() ==> contains_seq(
                spec_diagnostic(ctx, cands),
                #[trigger] cands[i].path@,
            ),
        forall|i: int|
            0 <= i < cands.len() ==> contains_seq(
                spec_diagnostic(ctx, cands),
                #[trigger] spec_candidate_line(cands[i]),
            ),
{
    let h0 = "CLI tools not found. Debug info:\nCurrent dir: "@;
    let s1 = "\nExe path: "@;
    let s2 = "\nHOME: "@;
    let s3 = "\nUSERPROFILE: "@;
    let s4 = "\nPlatform: "@;
    let s5 = "\nChecked paths:\n"@;
    let homev = spec_env_text(ctx.home, "HOME_NOT_SET"@);
    let profv = spec_env_text(ctx.user_profile, "USERPROFILE_NOT_SET"@);
    let osl = spec_os_label(ctx.os);
    let p1 = h0 + ctx.cwd@;
    let p2 = p1 + s1;
    let p3 = p2 + ctx.exe_path@;
    let p4 = p3 + s2;
    let p5 = p4 + homev;
    let p6 = p5 + s3;
    let p7 = p6 + profv;
    let p8 = p7 + s4;
    let p9 = p8 + osl;
    let hd = p9 + s5;
    let lines = spec_lines(cands);
    let diag = spec_diagnostic(ctx, cands);
    assert(hd == spec_header(ctx));
    assert(diag == hd + lines);

    lemma_contains_self(ctx.cwd@);
    lemma_contains_extend_left(h0, ctx.cwd@, ctx.cwd@);
    lemma_contains_extend_right(p1, s1, ctx.cwd@);
    lemma_contains_extend_right(p2, ctx.exe_path@, ctx.cwd@);
    lemma_contains_extend_right(p3, s2, ctx.cwd@);
    lemma_contains_extend_right(p4, homev, ctx.cwd@);
    lemma_contains_extend_right(p5, s3, ctx.cwd@);
    lemma_contains_extend_right(p6, profv, ctx.cwd@);
    lemma_contains_extend_right(p7, s4, ctx.cwd@);
    lemma_contains_extend_right(p8, osl, ctx.cwd@);
    lemma_contains_extend_right(p9, s5, ctx.cwd@);
    lemma_contains_extend_right(hd, lines, ctx.cwd@);

    lemma_contains_self(ctx.exe_path@);
    lemma_contains_extend_left(p2, ctx.exe_path@, ctx.exe_path@);
    lemma_contains_extend_right(p3, s2, ctx.exe_path@);
    lemma_contains_extend_right(p4, homev, ctx.exe_path@);
    lemma_contains_extend_right(p5, s3, ctx.exe_path@);
    lemma_contains_extend_right(p6, profv, ctx.exe_path@);
    lemma_contains_extend_right(p7, s4, ctx.exe_path@);
    lemma_contains_extend_right(p8, osl, ctx.exe_path@);
    lemma_contains_extend_right(p9, s5, ctx.exe_path@);
    lemma_contains_extend_right(hd, lines, ctx.exe_path@);

    lemma_contains_self(homev);
    lemma_contains_extend_left(p4, homev, homev);
    lemma_contains_extend_right(p5, s3, homev);
    lemma_contains_extend_right(p6, profv, homev);
    lemma_contains_extend_right(p7, s4, homev);
    lemma_contains_extend_right(p8, osl, homev);
    lemma_contains_extend_right(p9, s5, homev);
    lemma_contains_extend_right(hd, lines, homev);

    lemma_contains_self(profv);
    lemma_contains_extend_left(p6, profv, profv);
    lemma_contains_extend_right(p7, s4, profv);
    lemma_contains_extend_right(p8, osl, profv);
    lemma_contains_extend_right(p9, s5, profv);
    lemma_contains_extend_right(hd, lines, profv);

    lemma_contains_self(osl);
    lemma_contains_extend_left(p8, osl, osl);
    lemma_contains_extend_right(p9, s5, osl);
    lemma_contains_extend_right(hd, lines, osl);

    lemma_lines_contain(cands);
    assert forall|i: int| 0 <= i < cands.len() implies contains_seq(
        diag,
        #[trigger] spec_candidate_line(cands[i]),
    ) by {
        lemma_contains_extend_left(hd, lines, spec_candidate_line(cands[i]));
    }
    assert forall|i: int| 0 <= i < cands.len() implies contains_seq(
        diag,
        #[trigger] cands[i].path@,
    ) by {
        lemma_line_contains_path(cands[i]);
        lemma_contains_trans(diag, spec_candidate_line(cands[i]), cands[i].path@);
    }
}

} // verus!

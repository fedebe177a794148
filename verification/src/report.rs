//! The result reporter: renders phase records in a stable, tab-separated
//! format, one line per phase per backend, so runs are diff-able.

use crate::runner::{Phase, PhaseResult};
use vstd::prelude::*;
use vstd::string::StringExecFns;

verus! {

/// The decimal digit character of `d`.
pub open spec fn digit_char(d: nat) -> char {
    if d == 0 {
        '0'
    } else if d == 1 {
        '1'
    } else if d == 2 {
        '2'
    } else if d == 3 {
        '3'
    } else if d == 4 {
        '4'
    } else if d == 5 {
        '5'
    } else if d == 6 {
        '6'
    } else if d == 7 {
        '7'
    } else if d == 8 {
        '8'
    } else {
        '9'
    }
}

/// The decimal rendering of a natural number, most significant digit
/// first, with no leading zero except for zero itself.
pub open spec fn dec_spec(n: nat) -> Seq<char>
    decreases n,
{
    if n < 10 {
        seq![digit_char(n)]
    } else {
        dec_spec(n / 10).push(digit_char(n % 10))
    }
}

fn digit_str(d: u64) -> (r: &'static str)
    requires
        d < 10,
    ensures
        r@ == seq![digit_char(d as nat)],
{
    proof {
        reveal_strlit("0");
        reveal_strlit("1");
        reveal_strlit("2");
        reveal_strlit("3");
        reveal_strlit("4");
        reveal_strlit("5");
        reveal_strlit("6");
        reveal_strlit("7");
        reveal_strlit("8");
        reveal_strlit("9");
    }
    if d == 0 {
        "0"
    } else if d == 1 {
        "1"
    } else if d == 2 {
        "2"
    } else if d == 3 {
        "3"
    } else if d == 4 {
        "4"
    } else if d == 5 {
        "5"
    } else if d == 6 {
        "6"
    } else if d == 7 {
        "7"
    } else if d == 8 {
        "8"
    } else {
        "9"
    }
}

/// Render a number in decimal.
pub fn u64_to_string(n: u64) -> (s: String)
    ensures
        s@ == dec_spec(n as nat),
    decreases n,
{
    if n < 10 {
        let mut s = String::new();
        s.append(digit_str(n));
        proof {
            assert(s@ =~= dec_spec(n as nat));
        }
        s
    } else {
        let mut s = u64_to_string(n / 10);
        s.append(digit_str(n % 10));
        proof {
            assert(s@ =~= dec_spec(n as nat));
        }
        s
    }
}

/// The stable report name of a phase.
pub open spec fn phase_name_spec(p: Phase) -> Seq<char> {
    match p {
        Phase::Build => "Build"@,
        Phase::QuerySelf => "QuerySelf"@,
        Phase::QueryCross => "QueryCross"@,
    }
}

pub fn phase_name(p: &Phase) -> (r: &'static str)
    ensures
        r@ == phase_name_spec(*p),
{
    match p {
        Phase::Build => "Build",
        Phase::QuerySelf => "QuerySelf",
        Phase::QueryCross => "QueryCross",
    }
}

/// A match count, or a dash for the build phases that have none.
pub open spec fn count_spec(c: Option<u64>) -> Seq<char> {
    match c {
        Option::None => "-"@,
        Option::Some(v) => dec_spec(v as nat),
    }
}

/// One record's line: backend, phase, elapsed nanoseconds and match
/// count, tab-separated, in that fixed field order.
pub open spec fn line_spec(r: PhaseResult) -> Seq<char> {
    r.backend.name_spec() + "\t"@ + phase_name_spec(r.phase) + "\t"@ + dec_spec(
        r.elapsed_nanos as nat,
    ) + "\t"@ + count_spec(r.match_count) + "\n"@
}

/// The whole report: the records' lines in their given order.
pub open spec fn report_spec(rs: Seq<PhaseResult>) -> Seq<char>
    decreases rs.len(),
{
    if rs.len() == 0 {
        Seq::empty()
    } else {
        report_spec(rs.drop_last()) + line_spec(rs.last())
    }
}

/// Render one phase record.
pub fn render_line(r: &PhaseResult) -> (out: String)
    ensures
        out@ == line_spec(*r),
{
    let mut out = String::new();
    out.append(r.backend.name());
    out.append("\t");
    out.append(phase_name(&r.phase));
    out.append("\t");
    let nanos = u64_to_string(r.elapsed_nanos);
    out.append(nanos.as_str());
    out.append("\t");
    match r.match_count {
        Option::None => out.append("-"),
        Option::Some(c) => {
            let rendered = u64_to_string(c);
            out.append(rendered.as_str());
        },
    }
    out.append("\n");
    proof {
        assert(out@ =~= line_spec(*r));
    }
    out
}

/// Render the whole run: a pure function of the records, no side
/// effects.
pub fn report(results: &Vec<PhaseResult>) -> (out: String)
    ensures
        out@ == report_spec(results@),
{
    let mut out = String::new();
    let n = results.len();
    let mut i: usize = 0;
    proof {
        assert(results@.take(0) =~= Seq::<PhaseResult>::empty());
    }
    while i < n
        invariant
            i <= n,
            n == results@.len(),
            out@ == report_spec(results@.take(i as int)),
        decreases n - i,
    {
        let line = render_line(&results[i]);
        out.append(line.as_str());
        proof {
            assert(results@.take(i + 1).drop_last() =~= results@.take(i as int));
            assert(results@.take(i + 1).last() == results@[i as int]);
        }
        i = i + 1;
    }
    proof {
        assert(results@.take(n as int) =~= results@);
    }
    out
}

} // verus!

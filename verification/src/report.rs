//! Output owed to one completion invocation: the log lines the provider
//! emits through its logging capability, and the bannered block in which
//! the suggestions are rendered.

use vstd::prelude::*;
use crate::complete::completions_of;
use crate::complete::generate_completions;

verus! {

/// An informational log line: the message behind an `[INFO] ` prefix.
pub open spec fn info_line_spec(message: Seq<char>) -> Seq<char> {
    "[INFO] "@ + message
}

/// An error log line: the message behind an `[ERR!] ` prefix.
pub open spec fn error_line_spec(message: Seq<char>) -> Seq<char> {
    "[ERR!] "@ + message
}

/// The first banner line of a completion block.
pub open spec fn block_header() -> Seq<char> {
    "AUTOCOMPLETIONS ====================="@
}

/// The closing banner line of a completion block.
pub open spec fn block_footer() -> Seq<char> {
    "====================================="@
}

/// The rendered completion block: the suggestions, one per line, between
/// the two banner lines.
pub open spec fn block_lines(suggestions: Seq<Seq<char>>) -> Seq<Seq<char>> {
    seq![block_header()] + suggestions + seq![block_footer()]
}

/// The log lines one invocation emits: a report on how many entries are
/// checked, then an error line exactly when nothing matched.
pub open spec fn invocation_logs(completions: Seq<Seq<char>>) -> Seq<Seq<char>> {
    if completions.len() == 0 {
        seq![
            info_line_spec("Checking 8 strings"@),
            error_line_spec("No matches found!"@),
        ]
    } else {
        seq![info_line_spec("Checking 8 strings"@)]
    }
}

/// Everything one completion invocation produces: the suggestions owed to
/// the query and the log lines emitted while computing them.
pub struct InvocationOutput {
    /// The matching reference entries, in reference order.
    pub completions: Vec<String>,
    /// The log lines, in the order they are emitted.
    pub logs: Vec<String>,
}

/// Format an informational log line.
pub fn info_line(message: &str) -> (r: String)
    ensures
        r@ == info_line_spec(message@),
{
    String::from_str("[INFO] ").concat(message)
}

/// Format an error log line.
pub fn error_line(message: &str) -> (r: String)
    ensures
        r@ == error_line_spec(message@),
{
    String::from_str("[ERR!] ").concat(message)
}

/// One full completion invocation: compute the completions for `input`
/// and the log lines that accompany them. A query that matches nothing is
/// not an error: it is reported in the logs and yields an empty list.
pub fn run_invocation(input: &str) -> (r: InvocationOutput)
    ensures
        r.completions@.map_values(|s: String| s@) == completions_of(input@),
        r.logs@.map_values(|s: String| s@) == invocation_logs(completions_of(input@)),
{
    let completions = generate_completions(input);
    let mut logs: Vec<String> = Vec::new();
    logs.push(info_line("Checking 8 strings"));
    if completions.len() == 0 {
        logs.push(error_line("No matches found!"));
        proof {
            assert(completions_of(input@).len() == 0);
            assert(logs@.map_values(|s: String| s@) =~= invocation_logs(completions_of(input@)));
        }
    } else {
        proof {
            assert(completions_of(input@).len() > 0);
            assert(logs@.map_values(|s: String| s@) =~= invocation_logs(completions_of(input@)));
        }
    }
    InvocationOutput { completions, logs }
}

/// Viewing the elements of a sequence of strings commutes with `push`.
proof fn lemma_map_values_push(v: Seq<String>, x: String)
    ensures
        v.push(x).map_values(|s: String| s@) == v.map_values(|s: String| s@).push(x@),
{
    assert(v.push(x).map_values(|s: String| s@) =~= v.map_values(|s: String| s@).push(x@));
}

/// Render a suggestion list as its bannered block, one line per entry.
pub fn completion_block(suggestions: &Vec<String>) -> (r: Vec<String>)
    ensures
        r@.map_values(|s: String| s@) == block_lines(suggestions@.map_values(|s: String| s@)),
{
    let mut out: Vec<String> = Vec::new();
    out.push(String::from_str("AUTOCOMPLETIONS ====================="));
    let n = suggestions.len();
    let mut i: usize = 0;
    while i < n
        invariant
            n == suggestions.len(),
            i <= n,
            out@.map_values(|s: String| s@) == seq![block_header()] + suggestions@.map_values(
                |s: String| s@,
            ).take(i as int),
        decreases n - i,
    {
        let ghost prev = out@;
        out.push(suggestions[i].clone());
        proof {
            let sv = suggestions@.map_values(|s: String| s@);
            assert(out@ == prev.push(suggestions@[i as int]));
            lemma_map_values_push(prev, suggestions@[i as int]);
            assert(sv[i as int] == suggestions@[i as int]@);
            assert(out@.map_values(|s: String| s@) =~= seq![block_header()] + sv.take(i + 1));
        }
        i += 1;
    }
    out.push(String::from_str("====================================="));
    proof {
        assert(suggestions@.map_values(|s: String| s@).take(n as int) =~= suggestions@.map_values(
            |s: String| s@,
        ));
        assert(out@.map_values(|s: String| s@) =~= block_lines(
            suggestions@.map_values(|s: String| s@),
        ));
    }
    out
}

/// A zero-match invocation still answers: its logs end in an error line
/// and its completion block is empty but still bannered.
pub proof fn lemma_zero_match_report(query: Seq<char>)
    requires
        completions_of(query).len() == 0,
    ensures
        invocation_logs(completions_of(query)).len() == 2,
        invocation_logs(completions_of(query))[1] == error_line_spec("No matches found!"@),
        block_lines(completions_of(query)) =~= seq![block_header(), block_footer()],
{
    assert(block_lines(completions_of(query)) =~= seq![block_header(), block_footer()]);
}

} // verus!

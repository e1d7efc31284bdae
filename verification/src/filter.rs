//! Deterministic output filter for middleware introspection listings: the
//! service exclusion set drops auto-generated parameter endpoints by suffix,
//! the topic exclusion set drops internal bookkeeping topics by substring.
//! Order is preserved and nothing else is touched.

use vstd::prelude::*;
use crate::text::{
    contains_seq, ends_with_seq, join_lines, join_lines_spec, split_lines, split_lines_spec,
    str_contains, str_ends_with,
};

verus! {

/// The line names a per-node parameter-administration service: it ends with
/// one of the six reserved suffixes.
pub open spec fn service_excluded(line: Seq<char>) -> bool {
    ||| ends_with_seq(line, "/describe_parameters"@)
    ||| ends_with_seq(line, "/get_parameters"@)
    ||| ends_with_seq(line, "/list_parameters"@)
    ||| ends_with_seq(line, "/set_parameters"@)
    ||| ends_with_seq(line, "/get_parameter_types"@)
    ||| ends_with_seq(line, "/set_parameters_atomically"@)
}

/// The line names an internal bookkeeping topic: it contains one of the four
/// reserved substrings.
pub open spec fn topic_excluded(line: Seq<char>) -> bool {
    ||| contains_seq(line, "/client_count"@)
    ||| contains_seq(line, "/connected_clients"@)
    ||| contains_seq(line, "/parameter_events"@)
    ||| contains_seq(line, "/rosout"@)
}

/// The service listing with every excluded line dropped, order kept.
pub open spec fn filter_service_spec(lines: Seq<Seq<char>>) -> Seq<Seq<char>> {
    lines.filter(|l: Seq<char>| !service_excluded(l))
}

/// The topic listing with every excluded line dropped, order kept.
pub open spec fn filter_topic_spec(lines: Seq<Seq<char>>) -> Seq<Seq<char>> {
    lines.filter(|l: Seq<char>| !topic_excluded(l))
}

/// Whether the service exclusion set drops this line.
pub fn service_line_excluded(line: &str) -> (b: bool)
    ensures
        b == service_excluded(line@),
{
    str_ends_with(line, "/describe_parameters") || str_ends_with(line, "/get_parameters")
        || str_ends_with(line, "/list_parameters") || str_ends_with(line, "/set_parameters")
        || str_ends_with(line, "/get_parameter_types") || str_ends_with(
        line,
        "/set_parameters_atomically",
    )
}

/// Whether the topic exclusion set drops this line.
pub fn topic_line_excluded(line: &str) -> (b: bool)
    ensures
        b == topic_excluded(line@),
{
    str_contains(line, "/client_count") || str_contains(line, "/connected_clients")
        || str_contains(line, "/parameter_events") || str_contains(line, "/rosout")
}

/// Drops every line of the service listing that the exclusion set matches.
pub fn filter_service_lines(lines: &Vec<String>) -> (r: Vec<String>)
    ensures
        r.deep_view() == filter_service_spec(lines.deep_view()),
{
    let mut r: Vec<String> = Vec::new();
    let n: usize = lines.len();
    let mut i: usize = 0;
    proof {
        broadcast use vstd::seq_lib::group_seq_properties;

        reveal(Seq::filter);
        assert(lines.deep_view().take(0) =~= Seq::<Seq<char>>::empty());
    }
    while i < n
        invariant
            n == lines.len(),
            i <= n,
            r.deep_view() == filter_service_spec(lines.deep_view().take(i as int)),
        decreases n - i,
    {
        let keep = !service_line_excluded(lines[i].as_str());
        let ghost old_r = r.deep_view();
        let ghost dv = lines.deep_view();
        if keep {
            r.push(lines[i].clone());
            proof {
                assert(r.deep_view() =~= old_r.push(dv[i as int]));
            }
        }
        proof {
            assert(dv.take(i + 1) =~= dv.take(i as int).push(dv[i as int]));
            dv.take(i as int).lemma_filter_push(dv[i as int], |l: Seq<char>| !service_excluded(l));
        }
        i = i + 1;
    }
    proof {
        assert(lines.deep_view().take(n as int) =~= lines.deep_view());
    }
    r
}

/// Drops every line of the topic listing that the exclusion set matches.
pub fn filter_topic_lines(lines: &Vec<String>) -> (r: Vec<String>)
    ensures
        r.deep_view() == filter_topic_spec(lines.deep_view()),
{
    let mut r: Vec<String> = Vec::new();
    let n: usize = lines.len();
    let mut i: usize = 0;
    proof {
        broadcast use vstd::seq_lib::group_seq_properties;

        reveal(Seq::filter);
        assert(lines.deep_view().take(0) =~= Seq::<Seq<char>>::empty());
    }
    while i < n
        invariant
            n == lines.len(),
            i <= n,
            r.deep_view() == filter_topic_spec(lines.deep_view().take(i as int)),
        decreases n - i,
    {
        let keep = !topic_line_excluded(lines[i].as_str());
        let ghost old_r = r.deep_view();
        let ghost dv = lines.deep_view();
        if keep {
            r.push(lines[i].clone());
            proof {
                assert(r.deep_view() =~= old_r.push(dv[i as int]));
            }
        }
        proof {
            assert(dv.take(i + 1) =~= dv.take(i as int).push(dv[i as int]));
            dv.take(i as int).lemma_filter_push(dv[i as int], |l: Seq<char>| !topic_excluded(l));
        }
        i = i + 1;
    }
    proof {
        assert(lines.deep_view().take(n as int) =~= lines.deep_view());
    }
    r
}

/// Filtering keeps exactly the elements the predicate accepts, and a second
/// pass over an already filtered sequence changes nothing.
proof fn lemma_filter_idempotent<A>(s: Seq<A>, pred: spec_fn(A) -> bool)
    ensures
        s.filter(pred).filter(pred) == s.filter(pred),
    decreases s.len(),
{
    reveal(Seq::filter);
    if s.len() > 0 {
        lemma_filter_idempotent(s.drop_last(), pred);
        if pred(s.last()) {
            s.drop_last().filter(pred).lemma_filter_push(s.last(), pred);
        }
    }
}

/// The service filter output holds exactly the input lines that end in none
/// of the reserved suffixes, in their original order, and applying the filter
/// twice yields the same result.
pub proof fn lemma_service_filter_exact(lines: Seq<Seq<char>>)
    ensures
        forall|i: int|
            0 <= i < filter_service_spec(lines).len() ==> !service_excluded(
                #[trigger] filter_service_spec(lines)[i],
            ),
        forall|i: int|
            0 <= i < lines.len() && !service_excluded(#[trigger] lines[i])
                ==> filter_service_spec(lines).contains(lines[i]),
        filter_service_spec(lines).len() <= lines.len(),
        filter_service_spec(filter_service_spec(lines)) == filter_service_spec(lines),
{
    let pred = |l: Seq<char>| !service_excluded(l);
    broadcast use vstd::seq::Seq::lemma_filter_len;
    broadcast use vstd::seq::Seq::lemma_filter_pred;
    broadcast use vstd::seq::Seq::lemma_filter_contains;

    lemma_filter_idempotent(lines, pred);
}

/// The topic filter output holds exactly the input lines that contain none of
/// the reserved substrings, in their original order, and applying the filter
/// twice yields the same result.
pub proof fn lemma_topic_filter_exact(lines: Seq<Seq<char>>)
    ensures
        forall|i: int|
            0 <= i < filter_topic_spec(lines).len() ==> !topic_excluded(
                #[trigger] filter_topic_spec(lines)[i],
            ),
        forall|i: int|
            0 <= i < lines.len() && !topic_excluded(#[trigger] lines[i]) ==> filter_topic_spec(
                lines,
            ).contains(lines[i]),
        filter_topic_spec(lines).len() <= lines.len(),
        filter_topic_spec(filter_topic_spec(lines)) == filter_topic_spec(lines),
{
    let pred = |l: Seq<char>| !topic_excluded(l);
    broadcast use vstd::seq::Seq::lemma_filter_len;
    broadcast use vstd::seq::Seq::lemma_filter_pred;
    broadcast use vstd::seq::Seq::lemma_filter_contains;

    lemma_filter_idempotent(lines, pred);
}

/// The sanitized service listing: the raw output split on newlines, with the
/// excluded lines dropped, rejoined with newline separators.
pub open spec fn sanitize_services_spec(raw: Seq<char>) -> Seq<char> {
    join_lines_spec(filter_service_spec(split_lines_spec(raw)))
}

/// The sanitized topic listing: the raw output split on newlines, with the
/// excluded lines dropped, rejoined with newline separators.
pub open spec fn sanitize_topics_spec(raw: Seq<char>) -> Seq<char> {
    join_lines_spec(filter_topic_spec(split_lines_spec(raw)))
}

/// Sanitizes a raw service listing for display.
pub fn sanitize_services(raw: &str) -> (r: String)
    ensures
        r@ == sanitize_services_spec(raw@),
{
    let lines = split_lines(raw);
    let kept = filter_service_lines(&lines);
    join_lines(&kept)
}

/// Sanitizes a raw topic listing for display.
pub fn sanitize_topics(raw: &str) -> (r: String)
    ensures
        r@ == sanitize_topics_spec(raw@),
{
    let lines = split_lines(raw);
    let kept = filter_topic_lines(&lines);
    join_lines(&kept)
}

} // verus!

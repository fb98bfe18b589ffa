use vstd::prelude::*;

use rayon::iter::{IntoParallelRefIterator, ParallelIterator};

use crate::error::Error;
use crate::events::{Event, EventModel, spec_parse_one};
use crate::reader::{find_from, lemma_find_from_bounds, EsoLogReaderLine};

verus! {

/// The lines of a text: split on newlines, one trailing carriage return
/// trimmed from each line, and no line after a final newline.
pub open spec fn spec_lines(s: Seq<char>) -> Seq<Seq<char>>
    decreases s.len(),
    via spec_lines_decreases
{
    if s.len() == 0 {
        Seq::empty()
    } else {
        let e = find_from(s, 0, '\n');
        let raw = s.take(e);
        let line = if raw.len() > 0 && raw[raw.len() - 1] == '\r' {
            raw.take(raw.len() - 1)
        } else {
            raw
        };
        if e < s.len() {
            seq![line] + spec_lines(s.skip(e + 1))
        } else {
            seq![line]
        }
    }
}

#[via_fn]
proof fn spec_lines_decreases(s: Seq<char>) {
    if s.len() > 0 {
        lemma_find_from_bounds(s, 0, '\n');
    }
}

/// The outcome of parsing each line of a text, in order.
pub open spec fn spec_line_results(s: Seq<char>) -> Seq<Result<EventModel, Error>> {
    spec_lines(s).map_values(|l: Seq<char>| spec_parse_one(l))
}

/// An executable result matches its modeled outcome.
pub open spec fn res_matches(r: Result<Event, Error>, m: Result<EventModel, Error>) -> bool {
    match m {
        Ok(ev) => r is Ok && r->Ok_0@ == ev,
        Err(e) => r == Err::<Event, Error>(e),
    }
}

/// Splits a text into owned lines.
fn split_lines(s: &str) -> (r: Vec<String>)
    ensures
        r@.map_values(|l: String| l@) == spec_lines(s@),
{
    let mut out: Vec<String> = Vec::new();
    let mut rd = EsoLogReaderLine::new(s);
    proof {
        assert(out@.map_values(|l: String| l@) =~= Seq::<Seq<char>>::empty());
    }
    while rd.rem_len() > 0
        invariant
            rd.wf(),
            spec_lines(s@) == out@.map_values(|l: String| l@) + spec_lines(rd.remaining()),
        decreases rd.remaining().len(),
    {
        let ghost rem = rd.remaining();
        let n = rd.rem_len();
        proof {
            lemma_find_from_bounds(rem, 0, '\n');
        }
        let mut e: usize = 0;
        while e < n && rd.char_at(e) != '\n'
            invariant
                rd.wf(),
                rem == rd.remaining(),
                n == rem.len(),
                0 <= e <= n,
                find_from(rem, 0, '\n') == find_from(rem, e as int, '\n'),
            decreases n - e,
        {
            proof {
                assert(find_from(rem, e as int, '\n') == find_from(rem, e as int + 1, '\n'));
            }
            e = e + 1;
        }
        proof {
            assert(e as int == find_from(rem, 0, '\n'));
        }
        let mut stop = e;
        if stop > 0 && rd.char_at(stop - 1) == '\r' {
            stop = stop - 1;
        }
        let line = rd.take_str(stop);
        out.push(String::from_str(line));
        if e < n {
            rd.advance(e + 1);
        } else {
            rd.advance(e);
        }
        proof {
            let raw = rem.take(e as int);
            if raw.len() > 0 && raw[raw.len() - 1] == '\r' {
                assert(raw.take(raw.len() - 1) =~= rem.take(stop as int));
            } else {
                assert(raw =~= rem.take(stop as int));
            }
            assert(line@ =~= (if raw.len() > 0 && raw[raw.len() - 1] == '\r' {
                raw.take(raw.len() - 1)
            } else {
                raw
            }));
            let lines_now = out@.map_values(|l: String| l@);
            let lines_prev = out@.drop_last().map_values(|l: String| l@);
            assert(lines_now =~= lines_prev.push(line@));
            if e < n {
                assert(rd.remaining() =~= rem.skip(e as int + 1));
                assert(spec_lines(rem) =~= seq![line@] + spec_lines(rd.remaining()));
            } else {
                assert(rd.remaining() =~= rem.skip(e as int));
                assert(rd.remaining().len() == 0);
                assert(spec_lines(rd.remaining()) =~= Seq::<Seq<char>>::empty());
                assert(spec_lines(rem) =~= seq![line@]);
            }
            assert(lines_prev + spec_lines(rem) =~= lines_now + spec_lines(rd.remaining()));
        }
    }
    proof {
        assert(spec_lines(rd.remaining()) =~= Seq::<Seq<char>>::empty());
        assert(out@.map_values(|l: String| l@) + spec_lines(rd.remaining())
            =~= out@.map_values(|l: String| l@));
    }
    out
}

impl Event {
    /// Parses every line of a text, one result per line.
    pub fn parse_many(s: &str) -> (r: Vec<Result<Event, Error>>)
        ensures
            r@.len() == spec_line_results(s@).len(),
            forall|i: int| 0 <= i < r@.len() ==> res_matches(#[trigger] r@[i], spec_line_results(s@)[i]),
    {
        let lines = split_lines(s);
        let mut out: Vec<Result<Event, Error>> = Vec::new();
        let mut i: usize = 0;
        while i < lines.len()
            invariant
                i <= lines@.len(),
                lines@.map_values(|l: String| l@) == spec_lines(s@),
                out@.len() == i,
                forall|j: int| 0 <= j < i ==> res_matches(#[trigger] out@[j], spec_line_results(s@)[j]),
            decreases lines@.len() - i,
        {
            let r = Event::parse(lines[i].as_str());
            out.push(r);
            i = i + 1;
        }
        out
    }

    /// Parses every line of an owned text.
    pub fn parse_many_string(s: &String) -> (r: Vec<Result<Event, Error>>)
        ensures
            r@.len() == spec_line_results(s@).len(),
            forall|i: int| 0 <= i < r@.len() ==> res_matches(#[trigger] r@[i], spec_line_results(s@)[i]),
    {
        Event::parse_many(s.as_str())
    }

    /// Parses every line of a text in parallel. The results come back in
    /// line order, so they are the same — not merely the same multiset —
    /// as the sequential ones.
    pub fn parse_many_par(s: &str) -> (r: Vec<Result<Event, Error>>)
        ensures
            r@.len() == spec_line_results(s@).len(),
            forall|i: int| 0 <= i < r@.len() ==> res_matches(#[trigger] r@[i], spec_line_results(s@)[i]),
    {
        let lines = split_lines(s);
        par_map_parse(lines)
    }

    /// Parses every line of an owned text in parallel.
    pub fn parse_many_string_par(s: &String) -> (r: Vec<Result<Event, Error>>)
        ensures
            r@.len() == spec_line_results(s@).len(),
            forall|i: int| 0 <= i < r@.len() ==> res_matches(#[trigger] r@[i], spec_line_results(s@)[i]),
    {
        Event::parse_many_par(s.as_str())
    }
}

/// Relies on rayon: `par_iter` over a vector is an indexed parallel
/// iterator, `map` applies a pure function to each element, and `collect`
/// into a vector preserves the element order of an indexed iterator. Each
/// element is produced by [`Event::parse`], whose own contract ties it to
/// [`spec_parse_one`] on that line.
#[verifier::external_body]
fn par_map_parse(lines: Vec<String>) -> (r: Vec<Result<Event, Error>>)
    ensures
        r@.len() == lines@.len(),
        forall|i: int| 0 <= i < lines@.len() ==> res_matches(#[trigger] r@[i], spec_parse_one(lines@[i]@)),
{
    lines.par_iter().map(|l| Event::parse(l.as_str())).collect()
}

/// Sequential and parallel bulk parsing agree line by line: both match
/// the same modeled outcome, so they carry the same results in the same
/// order.
pub proof fn lemma_parse_many_agree(s: Seq<char>, a: Seq<Result<Event, Error>>, b: Seq<Result<Event, Error>>)
    requires
        a.len() == spec_line_results(s).len(),
        forall|i: int| 0 <= i < a.len() ==> res_matches(#[trigger] a[i], spec_line_results(s)[i]),
        b.len() == spec_line_results(s).len(),
        forall|i: int| 0 <= i < b.len() ==> res_matches(#[trigger] b[i], spec_line_results(s)[i]),
    ensures
        a.len() == b.len(),
        forall|i: int| 0 <= i < a.len() ==> (#[trigger] a[i] is Ok <==> b[i] is Ok),
        forall|i: int| 0 <= i < a.len() ==> (#[trigger] a[i] is Ok ==> a[i]->Ok_0@ == b[i]->Ok_0@),
        forall|i: int| 0 <= i < a.len() ==> (#[trigger] a[i] is Err ==> a[i] == b[i]),
{
}

} // verus!

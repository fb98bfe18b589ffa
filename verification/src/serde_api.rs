use vstd::prelude::*;

use crate::error::Error;
use crate::events::{Event, EventModel, spec_parse_one};
use crate::reader::EsoLogReaderLine;

verus! {

/// A deserializer over one log line; [`Deserializer::event`] drives the
/// whole parse.
pub struct Deserializer<'a> {
    r: EsoLogReaderLine<'a>,
    line: &'a str,
}

impl<'a> Deserializer<'a> {
    /// The full line being read.
    pub closed spec fn spec_line(&self) -> Seq<char> {
        self.line@
    }

    pub closed spec fn wf(&self) -> bool {
        self.r.wf()
    }

    pub fn new(s: &'a str) -> (r: Deserializer<'a>)
        ensures
            r.wf(),
            r.spec_line() == s@,
    {
        Deserializer { r: EsoLogReaderLine::new(s), line: s }
    }

    /// Whether every token has been consumed.
    pub fn is_depleted(&self) -> (r: bool)
        requires
            self.wf(),
        ensures
            true,
    {
        self.r.is_depleted()
    }

    /// Parses the line as one event.
    pub fn event(&self) -> (res: Result<Event, Error>)
        ensures
            match spec_parse_one(self.spec_line()) {
                Ok(m) => res is Ok && res->Ok_0@ == m,
                Err(e) => res == Err::<Event, Error>(e),
            },
    {
        Event::parse(self.line)
    }
}

/// A growing line buffer with the wire's trailing-comma discipline: each
/// field is pushed with a comma after it, and the final comma is dropped
/// when the line is taken out.
pub struct Serializer {
    out: String,
}

impl Serializer {
    /// What has been pushed so far, trailing commas included.
    pub closed spec fn buffered(&self) -> Seq<char> {
        self.out@
    }

    pub fn new() -> (r: Serializer)
        ensures
            r.buffered() == Seq::<char>::empty(),
    {
        Serializer { out: String::new() }
    }

    /// Pushes one field and a comma after it.
    pub fn push_str(&mut self, s: &str)
        ensures
            final(self).buffered() == old(self).buffered() + s@ + seq![','],
    {
        self.out.append(s);
        self.out.append(",");
        proof {
            reveal_strlit(",");
            assert(","@ =~= seq![',']);
            assert(self.out@ =~= old(self).buffered() + s@ + seq![',']);
        }
    }

    /// The buffered line without its final trailing comma.
    pub fn as_str(&self) -> (r: &str)
        ensures
            r@ == (if self.buffered().len() > 0 {
                self.buffered().take(self.buffered().len() - 1)
            } else {
                self.buffered()
            }),
    {
        let n = self.out.as_str().unicode_len();
        if n > 0 {
            let r = self.out.as_str().substring_char(0, n - 1);
            proof {
                assert(r@ =~= self.buffered().take(self.buffered().len() - 1));
            }
            r
        } else {
            let r = self.out.as_str();
            proof {
                assert(r@ =~= self.buffered());
            }
            r
        }
    }

    /// Takes the line out, dropping the final trailing comma.
    pub fn into_string(self) -> (r: String)
        ensures
            r@ == (if self.buffered().len() > 0 {
                self.buffered().take(self.buffered().len() - 1)
            } else {
                self.buffered()
            }),
    {
        String::from_str(self.as_str())
    }
}

} // verus!

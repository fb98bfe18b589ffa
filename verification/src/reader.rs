use vstd::prelude::*;

verus! {

/// Index of the first occurrence of `c` at or after `i`, or the length of
/// `s` if there is none.
pub open spec fn find_from(s: Seq<char>, i: int, c: char) -> int
    decreases s.len() - i,
{
    if i < 0 || i >= s.len() {
        s.len() as int
    } else if s[i] == c {
        i
    } else {
        find_from(s, i + 1, c)
    }
}

pub proof fn lemma_find_from_bounds(s: Seq<char>, i: int, c: char)
    requires
        0 <= i <= s.len(),
    ensures
        i <= find_from(s, i, c) <= s.len(),
        find_from(s, i, c) < s.len() ==> s[find_from(s, i, c)] == c,
        forall|j: int| i <= j < find_from(s, i, c) ==> s[j] != c,
    decreases s.len() - i,
{
    if i < s.len() && s[i] != c {
        lemma_find_from_bounds(s, i + 1, c);
    }
}

/// One step past the end of a bracketed list that starts inside `s`:
/// the scan keeps a bracket depth and stops one past the character that
/// returns the depth to zero.
pub open spec fn list_end(s: Seq<char>, i: int, depth: int) -> int
    decreases s.len() - i,
{
    if i < 0 || i >= s.len() {
        s.len() as int
    } else {
        let d2 = if s[i] == '[' {
            depth + 1
        } else if s[i] == ']' {
            depth - 1
        } else {
            depth
        };
        if d2 == 0 {
            i + 1
        } else {
            list_end(s, i + 1, d2)
        }
    }
}

pub proof fn lemma_list_end_bounds(s: Seq<char>, i: int, depth: int)
    requires
        0 <= i <= s.len(),
    ensures
        i <= list_end(s, i, depth) <= s.len(),
    decreases s.len() - i,
{
    if i < s.len() {
        let d2 = if s[i] == '[' { depth + 1 } else if s[i] == ']' { depth - 1 } else { depth };
        if d2 != 0 {
            lemma_list_end_bounds(s, i + 1, d2);
        }
    }
}

/// One step past the end of the leading token of `s`: a quoted string up
/// to and including its closing quote, a bracketed list up to and
/// including its balancing bracket, or a plain atom up to the next comma.
pub open spec fn token_end(s: Seq<char>) -> int {
    if s.len() == 0 {
        0
    } else if s[0] == '"' {
        let e = find_from(s, 1, '"');
        if e == s.len() {
            s.len() as int
        } else {
            e + 1
        }
    } else if s[0] == '[' {
        list_end(s, 0, 0)
    } else {
        find_from(s, 0, ',')
    }
}

pub proof fn lemma_token_end_bounds(s: Seq<char>)
    ensures
        0 <= token_end(s) <= s.len(),
        s.len() > 0 && s[0] != ',' ==> token_end(s) > 0,
    decreases s.len(),
{
    if s.len() > 0 {
        if s[0] == '"' {
            lemma_find_from_bounds(s, 1, '"');
        } else if s[0] == '[' {
            lemma_list_end_bounds(s, 0, 0);
            lemma_list_end_bounds(s, 1, 1);
            assert(list_end(s, 0, 0) == list_end(s, 1, 1));
        } else {
            lemma_find_from_bounds(s, 0, ',');
            if s[0] != ',' {
                assert(find_from(s, 0, ',') == find_from(s, 1, ','));
                lemma_find_from_bounds(s, 1, ',');
            }
        }
    }
}

/// The leading token of `s` and what is left after it and after one
/// following separator character, if the token is nonempty.
pub open spec fn spec_next_token(s: Seq<char>) -> Option<(Seq<char>, Seq<char>)> {
    let e = token_end(s);
    if e == 0 {
        None
    } else if e + 1 <= s.len() {
        Some((s.take(e), s.skip(e + 1)))
    } else {
        Some((s.take(e), s.skip(e)))
    }
}

/// Walks one log line left to right and yields tokens: quoted strings,
/// bracketed lists, and plain atoms.
#[derive(Clone)]
pub struct EsoLogReaderLine<'a> {
    line: &'a str,
    pos: usize,
}

impl<'a> EsoLogReaderLine<'a> {
    /// The cursor sits on a character boundary of the line.
    pub closed spec fn wf(&self) -> bool {
        self.pos <= self.line@.len() && self.line@.len() <= usize::MAX
    }

    /// What is left to read.
    pub closed spec fn remaining(&self) -> Seq<char> {
        self.line@.skip(self.pos as int)
    }

    pub fn new(line: &'a str) -> (r: EsoLogReaderLine<'a>)
        ensures
            r.wf(),
            r.remaining() == line@,
    {
        let n = line.unicode_len();
        let r = EsoLogReaderLine { line, pos: 0 };
        proof {
            assert(line@.len() == n);
            assert(r.remaining() =~= line@);
        }
        r
    }

    pub fn is_depleted(&self) -> (r: bool)
        requires
            self.wf(),
        ensures
            r == (self.remaining().len() == 0),
    {
        self.pos == self.line.unicode_len()
    }

    /// The unread tail of the line.
    pub fn inner(&self) -> (r: &'a str)
        requires
            self.wf(),
        ensures
            r@ == self.remaining(),
    {
        self.line.substring_char(self.pos, self.line.unicode_len())
    }

    /// A copy of the cursor for lookahead.
    pub fn clone_reader(&self) -> (r: Self)
        ensures
            r == *self,
    {
        EsoLogReaderLine { line: self.line, pos: self.pos }
    }

    /// Characters left to read.
    pub fn rem_len(&self) -> (r: usize)
        requires
            self.wf(),
        ensures
            r == self.remaining().len(),
    {
        self.line.unicode_len() - self.pos
    }

    /// Character at offset `i` from the cursor.
    pub fn char_at(&self, i: usize) -> (c: char)
        requires
            self.wf(),
            i < self.remaining().len(),
        ensures
            c == self.remaining()[i as int],
    {
        self.line.get_char(self.pos + i)
    }

    /// The first `n` unread characters, without advancing.
    pub fn take_str(&self, n: usize) -> (r: &'a str)
        requires
            self.wf(),
            n <= self.remaining().len(),
        ensures
            r@ == self.remaining().take(n as int),
    {
        let r = self.line.substring_char(self.pos, self.pos + n);
        proof {
            assert(r@ =~= self.remaining().take(n as int));
        }
        r
    }

    /// Moves the cursor forward by `i` characters.
    pub fn advance(&mut self, i: usize)
        requires
            old(self).wf(),
            i <= old(self).remaining().len(),
        ensures
            final(self).wf(),
            final(self).remaining() == old(self).remaining().skip(i as int),
    {
        let ghost rem = self.remaining();
        self.pos = self.pos + i;
        proof {
            assert(self.remaining() =~= rem.skip(i as int));
        }
    }

    /// Index just past the leading token, relative to the cursor.
    fn scan_token_end(&self) -> (r: usize)
        requires
            self.wf(),
        ensures
            r == token_end(self.remaining()),
            self.pos + r <= self.line@.len(),
    {
        proof {
            lemma_token_end_bounds(self.remaining());
        }
        let len = self.line.unicode_len();
        if self.pos == len {
            return 0;
        }
        let first = self.line.get_char(self.pos);
        if first == '"' {
            let e = self.scan_find_from(1, '"');
            proof {
                lemma_find_from_bounds(self.remaining(), 1, '"');
            }
            if self.pos + e == len {
                e
            } else {
                e + 1
            }
        } else if first == '[' {
            self.scan_list_end()
        } else {
            self.scan_find_from(0, ',')
        }
    }

    /// First occurrence of `c` at or after offset `from`, relative to the
    /// cursor.
    fn scan_find_from(&self, from: usize, c: char) -> (r: usize)
        requires
            self.wf(),
            from <= self.remaining().len(),
        ensures
            r == find_from(self.remaining(), from as int, c),
            from <= r <= self.remaining().len(),
    {
        let ghost rem = self.remaining();
        let len = self.line.unicode_len();
        let mut i: usize = from;
        proof {
            lemma_find_from_bounds(rem, from as int, c);
        }
        while self.pos + i < len
            invariant
                self.wf(),
                rem == self.remaining(),
                from <= i,
                self.pos + i <= len,
                len == self.line@.len(),
                find_from(rem, from as int, c) == find_from(rem, i as int, c),
            decreases len - self.pos - i,
        {
            if self.line.get_char(self.pos + i) == c {
                proof {
                    assert(rem[i as int] == self.line@[self.pos + i]);
                }
                return i;
            }
            proof {
                assert(rem[i as int] == self.line@[self.pos + i]);
                assert(find_from(rem, i as int, c) == find_from(rem, i as int + 1, c));
            }
            i = i + 1;
        }
        i
    }

    /// One step past the balancing bracket of the list the cursor sits on,
    /// relative to the cursor.
    fn scan_list_end(&self) -> (r: usize)
        requires
            self.wf(),
            self.remaining().len() > 0,
            self.remaining()[0] == '[',
        ensures
            r == list_end(self.remaining(), 0, 0),
            r <= self.remaining().len(),
    {
        let ghost rem = self.remaining();
        proof {
            lemma_list_end_bounds(rem, 0, 0);
        }
        let len = self.line.unicode_len();
        let mut i: usize = 0;
        let mut depth: u128 = 0;
        while self.pos + i < len
            invariant
                self.wf(),
                rem == self.remaining(),
                self.pos + i <= len,
                len == self.line@.len(),
                i == 0 ==> depth == 0,
                i > 0 ==> depth >= 1,
                i < rem.len() ==> (i == 0 ==> rem[0] == '['),
                depth <= i + 1,
                list_end(rem, 0, 0) == list_end(rem, i as int, depth as int),
            decreases len - self.pos - i,
        {
            let c = self.line.get_char(self.pos + i);
            proof {
                assert(rem[i as int] == self.line@[self.pos + i]);
            }
            let d2: u128 = if c == '[' {
                depth + 1
            } else if c == ']' {
                if depth == 0 { 0 } else { depth - 1 }
            } else {
                depth
            };
            proof {
                assert(i == 0 ==> c == '[');
                assert(d2 == (if rem[i as int] == '[' { depth + 1 } else if rem[i as int] == ']' { depth as int - 1 } else { depth as int }));
            }
            if d2 == 0 {
                return i + 1;
            }
            proof {
                assert(list_end(rem, i as int, depth as int) == list_end(rem, i as int + 1, d2 as int));
            }
            i = i + 1;
            depth = d2;
        }
        i
    }

    /// Yields the next token, advancing past it and one separator.
    /// An empty leading token ends the stream.
    pub fn next(&mut self) -> (r: Option<&'a str>)
        requires
            old(self).wf(),
        ensures
            final(self).wf(),
            match spec_next_token(old(self).remaining()) {
                Some((tok, rest)) => {
                    &&& r is Some
                    &&& r->0@ == tok
                    &&& final(self).remaining() == rest
                },
                None => r is None && *final(self) == *old(self),
            },
    {
        let ghost rem = self.remaining();
        proof {
            lemma_token_end_bounds(rem);
        }
        let e = self.scan_token_end();
        if e == 0 {
            return None;
        }
        let len = self.line.unicode_len();
        let tok = self.line.substring_char(self.pos, self.pos + e);
        if self.pos + e < len {
            self.pos = self.pos + e + 1;
        } else {
            self.pos = self.pos + e;
        }
        proof {
            assert(tok@ =~= rem.take(e as int));
            if (e + 1) as int <= rem.len() {
                assert(self.remaining() =~= rem.skip(e as int + 1));
            } else {
                assert(self.remaining() =~= rem.skip(e as int));
            }
        }
        Some(tok)
    }
}

/// Splits what is left of a line on a single separator character.
#[derive(Clone)]
pub struct EsoLogReaderSplitChar<'a> {
    line: &'a str,
    pos: usize,
    sep: char,
}

/// The leading segment of `s` up to the separator `c`, and what is left
/// after the separator; `None` if the segment is empty.
pub open spec fn spec_next_split(s: Seq<char>, c: char) -> Option<(Seq<char>, Seq<char>)> {
    let e = find_from(s, 0, c);
    if e == 0 {
        None
    } else if e + 1 <= s.len() {
        Some((s.take(e), s.skip(e + 1)))
    } else {
        Some((s.take(e), s.skip(e)))
    }
}

impl<'a> EsoLogReaderSplitChar<'a> {
    pub closed spec fn wf(&self) -> bool {
        self.pos <= self.line@.len() && self.line@.len() <= usize::MAX
    }

    pub closed spec fn remaining(&self) -> Seq<char> {
        self.line@.skip(self.pos as int)
    }

    pub closed spec fn spec_sep(&self) -> char {
        self.sep
    }

    pub fn new(line: &'a str, sep: char) -> (r: EsoLogReaderSplitChar<'a>)
        ensures
            r.wf(),
            r.remaining() == line@,
            r.spec_sep() == sep,
    {
        let n = line.unicode_len();
        let r = EsoLogReaderSplitChar { line, pos: 0, sep };
        proof {
            assert(line@.len() == n);
            assert(r.remaining() =~= line@);
        }
        r
    }

    pub fn is_depleted(&self) -> (r: bool)
        requires
            self.wf(),
        ensures
            r == (self.remaining().len() == 0),
    {
        self.pos == self.line.unicode_len()
    }

    /// The unread tail.
    pub fn inner(&self) -> (r: &'a str)
        requires
            self.wf(),
        ensures
            r@ == self.remaining(),
    {
        self.line.substring_char(self.pos, self.line.unicode_len())
    }

    /// First occurrence of the separator, relative to the cursor.
    fn scan_sep(&self) -> (r: usize)
        requires
            self.wf(),
        ensures
            r == find_from(self.remaining(), 0, self.spec_sep()),
            r <= self.remaining().len(),
    {
        let ghost rem = self.remaining();
        let len = self.line.unicode_len();
        let mut i: usize = 0;
        proof {
            lemma_find_from_bounds(rem, 0, self.sep);
        }
        while self.pos + i < len
            invariant
                self.wf(),
                rem == self.remaining(),
                self.pos + i <= len,
                len == self.line@.len(),
                find_from(rem, 0, self.sep) == find_from(rem, i as int, self.sep),
            decreases len - self.pos - i,
        {
            if self.line.get_char(self.pos + i) == self.sep {
                proof {
                    assert(rem[i as int] == self.line@[self.pos + i]);
                }
                return i;
            }
            proof {
                assert(rem[i as int] == self.line@[self.pos + i]);
                assert(find_from(rem, i as int, self.sep) == find_from(rem, i as int + 1, self.sep));
            }
            i = i + 1;
        }
        i
    }

    /// Yields the next segment, advancing past it and one separator.
    /// An empty leading segment ends the stream.
    pub fn next(&mut self) -> (r: Option<&'a str>)
        requires
            old(self).wf(),
        ensures
            final(self).wf(),
            final(self).spec_sep() == old(self).spec_sep(),
            match spec_next_split(old(self).remaining(), old(self).spec_sep()) {
                Some((tok, rest)) => {
                    &&& r is Some
                    &&& r->0@ == tok
                    &&& final(self).remaining() == rest
                },
                None => r is None && *final(self) == *old(self),
            },
    {
        let ghost rem = self.remaining();
        proof {
            lemma_find_from_bounds(rem, 0, self.sep);
        }
        let len = self.line.unicode_len();
        let e = self.scan_sep();
        if e == 0 {
            return None;
        }
        let tok = self.line.substring_char(self.pos, self.pos + e);
        if self.pos + e < len {
            self.pos = self.pos + e + 1;
        } else {
            self.pos = self.pos + e;
        }
        proof {
            assert(tok@ =~= rem.take(e as int));
            if (e + 1) as int <= rem.len() {
                assert(self.remaining() =~= rem.skip(e as int + 1));
            } else {
                assert(self.remaining() =~= rem.skip(e as int));
            }
        }
        Some(tok)
    }
}

/// Entry points for reading one line of the log.
pub struct EsoLogReader;

impl EsoLogReader {
    pub fn read_line<'a>(s: &'a str) -> (r: EsoLogReaderLine<'a>)
        ensures
            r.wf(),
            r.remaining() == s@,
    {
        EsoLogReaderLine::new(s)
    }

    pub fn new_split<'a>(s: &'a str, c: char) -> (r: EsoLogReaderSplitChar<'a>)
        ensures
            r.wf(),
            r.remaining() == s@,
            r.spec_sep() == c,
    {
        EsoLogReaderSplitChar::new(s, c)
    }

    /// Opens a bracketed list token, dropping the surrounding brackets.
    pub fn read_vec<'a>(s: &'a str) -> (r: EsoLogReaderLine<'a>)
        requires
            s@.len() >= 2,
            s@[0] == '[',
            s@[s@.len() - 1] == ']',
        ensures
            r.wf(),
            r.remaining() == s@.subrange(1, s@.len() - 1),
    {
        let len = s.unicode_len();
        let inner = s.substring_char(1, len - 1);
        EsoLogReaderLine::new(inner)
    }
}

/// The unguarded reader of the original interface is an optimization
/// with the same observable token stream; here both names share one
/// bounds-checked implementation.
pub type UnguardedEsoLogReader = EsoLogReader;

/// See [`UnguardedEsoLogReader`].
pub type UnguardedEsoLogReaderLine<'a> = EsoLogReaderLine<'a>;

/// See [`UnguardedEsoLogReader`].
pub type UnguardedEsoLogReaderSplitChar<'a> = EsoLogReaderSplitChar<'a>;

} // verus!

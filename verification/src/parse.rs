use vstd::prelude::*;
use vstd::string::StringExecFns;
use crate::error::Error;
use crate::stream::{
    append_render_tree, spec_render_tree, CellSpec, Cursor, Literal, TokenStream, TreeSpec,
};
use crate::tokens::{keyword_of, spec_keyword_of, Delimeter, Keyword, Punct, Token};

verus! {

broadcast use vstd::seq::group_seq_axioms, vstd::std_specs::vec::group_vec_axioms;

/// The position reported by a failed parse: the current entry's recorded
/// coordinates, or the origin when there is no entry or no position.
pub open spec fn spec_err_pos(cells: Seq<CellSpec>, i: int) -> (int, int) {
    if 0 <= i < cells.len() && cells[i].pos is Some {
        cells[i].pos->Some_0
    } else {
        (0, 0)
    }
}

/// The diagnostic for a terminal-marker mismatch.
pub open spec fn spec_expected_msg(display: Seq<char>, got: Seq<char>) -> Seq<char> {
    "expected token '"@ + display + "', got '"@ + got + "'"@
}

/// What a mismatch diagnostic quotes as the offending input: the canonical
/// text of the current node, or a note that the buffer has ended.
pub open spec fn spec_got_text(cells: Seq<CellSpec>, i: int) -> Seq<char> {
    if 0 <= i < cells.len() {
        spec_render_tree(cells[i].tree)
    } else {
        "end of buffer"@
    }
}

/// The diagnostic of a failed delimited-group parse.
pub open spec fn spec_expected_delim_msg(d: Delimeter) -> Seq<char> {
    match d {
        Delimeter::Paren => "expected ("@,
        Delimeter::Brace => "expected {"@,
        Delimeter::Bracket => "expected ["@,
    }
}

/// A read-only parse position over a token stream.
pub struct ParseBuffer<'a> {
    pub stream: &'a TokenStream,
    pub cursor: Cursor,
}

impl<'a> ParseBuffer<'a> {
    /// A buffer standing at the start of `stream`.
    pub fn new(stream: &'a TokenStream) -> (r: ParseBuffer<'a>)
        ensures
            r.stream == stream,
            r.cursor.idx == 0,
    {
        ParseBuffer { stream, cursor: Cursor { idx: 0 } }
    }

    /// The current scan position.
    pub fn cursor(&self) -> (r: Cursor)
        ensures
            r == self.cursor,
    {
        self.cursor
    }

    /// Moves the buffer to an arbitrary position, as a committed speculative
    /// advance does.
    pub fn set(&mut self, cursor: Cursor)
        ensures
            final(self).stream == old(self).stream,
            final(self).cursor == cursor,
    {
        self.cursor = cursor;
    }

    /// Advances past the current entry.
    pub fn skip(&mut self)
        requires
            old(self).cursor.idx < old(self).stream@.len(),
        ensures
            final(self).stream == old(self).stream,
            final(self).cursor.idx == old(self).cursor.idx + 1,
    {
        let n = self.stream.entries.len();
        proof {
            assert(self.stream@.len() == n);
        }
        self.cursor = Cursor { idx: self.cursor.idx + 1 };
    }

    /// A parse error carrying `msg` and the current entry's position.
    pub fn error(&self, msg: &str) -> (r: Error)
        ensures
            r.msg@ == msg@,
            r.parent is None,
            (r.pos.row as int, r.pos.col as int) == spec_err_pos(
                self.stream@,
                self.cursor.idx as int,
            ),
    {
        let (col, row) = match self.stream.get(self.cursor) {
            Some(cell) => match cell.pos() {
                Some(p) => (p.col, p.row),
                None => (0, 0),
            },
            None => (0, 0),
        };
        Error::new(String::from_str(msg), None, col, row)
    }

    /// The atomic speculative advance: runs `f` on the current position; on
    /// success commits to the position `f` returns, on failure leaves the
    /// buffer exactly as it was.
    pub fn step<T, F: FnOnce(&'a TokenStream, Cursor) -> Result<(T, Cursor), Error>>(
        &mut self,
        f: F,
    ) -> (r: Result<T, Error>)
        requires
            call_requires(f, (old(self).stream, old(self).cursor)),
        ensures
            final(self).stream == old(self).stream,
            r is Err ==> final(self).cursor == old(self).cursor,
            r matches Ok(v) ==> call_ensures(
                f,
                (old(self).stream, old(self).cursor),
                Ok((v, final(self).cursor)),
            ),
            r matches Err(e) ==> call_ensures(f, (old(self).stream, old(self).cursor), Err(e)),
    {
        match f(self.stream, self.cursor) {
            Ok((v, c2)) => {
                proof {
                    assert(call_ensures(f, (old(self).stream, old(self).cursor), Ok((v, c2))));
                }
                self.cursor = c2;
                Ok(v)
            },
            Err(e) => Err(e),
        }
    }

    /// Consumes the current entry when it satisfies the marker `t`; otherwise
    /// fails without consuming, quoting the marker and the offending node.
    pub fn expect<T: Token>(&mut self, t: &T) -> (r: Result<(), Error>)
        ensures
            final(self).stream == old(self).stream,
            t.token_matches(old(self).stream@, old(self).cursor.idx as int) ==> r is Ok && final(self).cursor.idx == old(self).cursor.idx + 1,
            !t.token_matches(old(self).stream@, old(self).cursor.idx as int) ==> (r matches Err(e)
                && final(self).cursor == old(self).cursor && e.parent is None && e.msg@
                == spec_expected_msg(
                t.display_spec(),
                spec_got_text(old(self).stream@, old(self).cursor.idx as int),
            ) && (e.pos.row as int, e.pos.col as int) == spec_err_pos(
                old(self).stream@,
                old(self).cursor.idx as int,
            )),
    {
        if t.peek(self.stream, self.cursor) {
            proof {
                t.matches_in_range(self.stream@, self.cursor.idx as int);
            }
            self.skip();
            Ok(())
        } else {
            let mut msg = String::new();
            msg.append("expected token '");
            let d = t.display();
            msg.append(d.as_str());
            msg.append("', got '");
            match self.stream.get(self.cursor) {
                Some(cell) => {
                    append_render_tree(&mut msg, &cell.tt);
                },
                None => {
                    msg.append("end of buffer");
                },
            }
            msg.append("'");
            proof {
                assert(msg@ =~= spec_expected_msg(
                    t.display_spec(),
                    spec_got_text(self.stream@, self.cursor.idx as int),
                ));
            }
            let err = self.error("");
            Err(Error { msg, parent: err.parent, pos: err.pos })
        }
    }

    /// Parses any keyword: an identifier entry whose text is a keyword's.
    pub fn parse_keyword(&mut self) -> (r: Result<Keyword, Error>)
        ensures
            final(self).stream == old(self).stream,
            match keyword_at(old(self).stream@, old(self).cursor.idx as int) {
                Some(k) => r == Ok::<Keyword, Error>(k) && final(self).cursor.idx == old(self).cursor.idx + 1,
                None => r matches Err(e) && final(self).cursor == old(self).cursor && e.parent
                    is None && e.msg@ == "expected keyword"@ && (
                e.pos.row as int,
                e.pos.col as int,
                ) == spec_err_pos(old(self).stream@, old(self).cursor.idx as int),
            },
    {
        match self.stream.ident(self.cursor) {
            Some((name, rest)) => match keyword_of(name.as_str()) {
                Some(k) => {
                    self.cursor = rest;
                    Ok(k)
                },
                None => Err(self.error("expected keyword")),
            },
            None => Err(self.error("expected keyword")),
        }
    }

    /// Parses any punctuator entry.
    pub fn parse_punct(&mut self) -> (r: Result<Punct, Error>)
        ensures
            final(self).stream == old(self).stream,
            match punct_at(old(self).stream@, old(self).cursor.idx as int) {
                Some(p) => r == Ok::<Punct, Error>(p) && final(self).cursor.idx == old(self).cursor.idx + 1,
                None => r matches Err(e) && final(self).cursor == old(self).cursor && e.parent
                    is None && e.msg@ == "expected punctuator token"@ && (
                e.pos.row as int,
                e.pos.col as int,
                ) == spec_err_pos(old(self).stream@, old(self).cursor.idx as int),
            },
    {
        match self.stream.punct(self.cursor) {
            Some((p, rest)) => {
                self.cursor = rest;
                Ok(p)
            },
            None => Err(self.error("expected punctuator token")),
        }
    }

    /// Parses any literal entry, copying its payload out.
    pub fn parse_literal(&mut self) -> (r: Result<Literal, Error>)
        ensures
            final(self).stream == old(self).stream,
            match literal_at(old(self).stream@, old(self).cursor.idx as int) {
                Some(l) => r matches Ok(got) && got@ == l && final(self).cursor.idx == old(self).cursor.idx + 1,
                None => r matches Err(e) && final(self).cursor == old(self).cursor && e.parent
                    is None && e.msg@ == "expected literal"@ && (
                e.pos.row as int,
                e.pos.col as int,
                ) == spec_err_pos(old(self).stream@, old(self).cursor.idx as int),
            },
    {
        match self.stream.literal(self.cursor) {
            Some((l, rest)) => {
                let copy = l.clone();
                self.cursor = rest;
                Ok(copy)
            },
            None => Err(self.error("expected literal")),
        }
    }
}

/// The keyword written at entry `i`, if that entry is such an identifier.
pub open spec fn keyword_at(cells: Seq<CellSpec>, i: int) -> Option<Keyword> {
    if 0 <= i < cells.len() {
        match cells[i].tree {
            TreeSpec::Ident(t) => spec_keyword_of(t),
            _ => None,
        }
    } else {
        None
    }
}

/// The punctuator at entry `i`, if that entry is one.
pub open spec fn punct_at(cells: Seq<CellSpec>, i: int) -> Option<Punct> {
    if 0 <= i < cells.len() {
        match cells[i].tree {
            TreeSpec::Punct(p) => Some(p),
            _ => None,
        }
    } else {
        None
    }
}

/// The literal at entry `i`, if that entry is one.
pub open spec fn literal_at(cells: Seq<CellSpec>, i: int) -> Option<crate::stream::LitSpec> {
    if 0 <= i < cells.len() {
        match cells[i].tree {
            TreeSpec::Literal(l) => Some(l),
            _ => None,
        }
    } else {
        None
    }
}

/// A grammar rule: parses a value at the buffer's position. A failed
/// attempt leaves the buffer exactly as it was, which is what makes
/// alternation safe.
pub trait Parse: Sized {
    fn parse<'a>(input: &mut ParseBuffer<'a>) -> (r: Result<Self, Error>)
        ensures
            final(input).stream == old(input).stream,
            r is Err ==> final(input).cursor == old(input).cursor,
    ;
}

impl Parse for Keyword {
    fn parse<'a>(input: &mut ParseBuffer<'a>) -> (r: Result<Self, Error>) {
        input.parse_keyword()
    }
}

impl Parse for Punct {
    fn parse<'a>(input: &mut ParseBuffer<'a>) -> (r: Result<Self, Error>) {
        input.parse_punct()
    }
}

impl Parse for Literal {
    fn parse<'a>(input: &mut ParseBuffer<'a>) -> (r: Result<Self, Error>) {
        input.parse_literal()
    }
}

impl Delimeter {
    /// Parses a group of this delimiter kind: yields a reference to its
    /// nested stream and advances past the whole group; on mismatch fails
    /// without consuming.
    pub fn parse_inner<'a>(self, input: &mut ParseBuffer<'a>) -> (r: Result<
        &'a TokenStream,
        Error,
    >)
        ensures
            final(input).stream == old(input).stream,
            match group_at(old(input).stream@, old(input).cursor.idx as int, self) {
                Some(inner) => r matches Ok(got) && got@ == inner && final(input).cursor.idx == old(input).cursor.idx + 1,
                None => r matches Err(e) && final(input).cursor == old(input).cursor && e.parent
                    is None && e.msg@ == spec_expected_delim_msg(self) && (
                e.pos.row as int,
                e.pos.col as int,
                ) == spec_err_pos(old(input).stream@, old(input).cursor.idx as int),
            },
    {
        match input.stream.group(input.cursor, self) {
            Some((inner, rest)) => {
                input.cursor = rest;
                Ok(inner)
            },
            None => {
                let msg = match self {
                    Delimeter::Paren => "expected (",
                    Delimeter::Brace => "expected {",
                    Delimeter::Bracket => "expected [",
                };
                Err(input.error(msg))
            },
        }
    }
}

/// The nested cells of the group of kind `d` at entry `i`, if it is one.
pub open spec fn group_at(cells: Seq<CellSpec>, i: int, d: Delimeter) -> Option<Seq<CellSpec>> {
    if 0 <= i < cells.len() {
        match cells[i].tree {
            TreeSpec::Group(dd, inner) => if dd == d {
                Some(inner)
            } else {
                None
            },
            _ => None,
        }
    } else {
        None
    }
}

impl TokenStream {
    /// Runs the grammar rule of `T` over this stream, from the start: the
    /// result is a valid outcome of `T::parse` on some buffer.
    pub fn parse_as<T: Parse>(&self) -> (r: Result<T, Error>)
        ensures
            exists|b: &mut ParseBuffer|
                b.stream == self && b.cursor.idx == 0 && #[trigger] call_ensures(
                    T::parse,
                    (b,),
                    r,
                ),
    {
        let mut buf = ParseBuffer::new(self);
        T::parse(&mut buf)
    }
}

} // verus!

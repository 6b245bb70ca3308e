use vstd::prelude::*;
use vstd::pervasive::unreached;
use vstd::string::StringExecFns;
use crate::chars::{char_is_whitespace, chars_to_string, is_ws, push_char, str_to_chars};
use crate::pos::Pos;
use crate::tokens::{spec_punct_text, punct_text, Delimeter, Punct};

verus! {

broadcast use vstd::seq::group_seq_axioms, vstd::std_specs::vec::group_vec_axioms;

/// A literal payload: a string literal's text or a signed 128-bit integer.
/// The scanner only ever produces integers; runs containing `.` are rejected
/// as invalid numeric literals rather than parsed as floating values.
#[derive(Debug)]
pub enum Literal {
    Str(String),
    Int(i128),
}

/// The mathematical value of a literal.
pub enum LitSpec {
    Str(Seq<char>),
    Int(int),
}

impl View for Literal {
    type V = LitSpec;

    open spec fn view(&self) -> LitSpec {
        match self {
            Literal::Str(s) => LitSpec::Str(s@),
            Literal::Int(i) => LitSpec::Int(*i as int),
        }
    }
}

/// One node of the token tree: an identifier, a literal, a punctuator, or a
/// delimited group owning its nested stream.
#[derive(Debug)]
pub enum TokenTree {
    Ident(String),
    Literal(Literal),
    Punct(Punct),
    Group(Delimeter, TokenStream),
}

/// A token-tree node paired with its optional source position, assigned at
/// creation time and never mutated afterward.
#[derive(Debug)]
pub struct TokenCell {
    pub pos: Option<Pos>,
    pub tt: TokenTree,
}

/// An owned, ordered sequence of positioned token cells.
#[derive(Debug)]
pub struct TokenStream {
    pub entries: Vec<TokenCell>,
}

/// The mathematical value of a token-tree node.
pub enum TreeSpec {
    Ident(Seq<char>),
    Literal(LitSpec),
    Punct(Punct),
    Group(Delimeter, Seq<CellSpec>),
}

/// The mathematical value of a positioned cell; the position is `(row, col)`.
pub struct CellSpec {
    pub pos: Option<(int, int)>,
    pub tree: TreeSpec,
}

pub open spec fn pos_view(p: Option<Pos>) -> Option<(int, int)> {
    match p {
        Some(q) => Some((q.row as int, q.col as int)),
        None => None,
    }
}

pub open spec fn tree_view(t: TokenTree) -> TreeSpec
    decreases t,
{
    match t {
        TokenTree::Ident(s) => TreeSpec::Ident(s@),
        TokenTree::Literal(l) => TreeSpec::Literal(l@),
        TokenTree::Punct(p) => TreeSpec::Punct(p),
        TokenTree::Group(d, ts) => TreeSpec::Group(d, cells_view(ts.entries@)),
    }
}

pub open spec fn cell_view(c: TokenCell) -> CellSpec
    decreases c,
{
    CellSpec { pos: pos_view(c.pos), tree: tree_view(c.tt) }
}

pub open spec fn cells_view(v: Seq<TokenCell>) -> Seq<CellSpec>
    decreases v,
{
    Seq::new(
        v.len(),
        |k: int|
            if 0 <= k < v.len() {
                cell_view(v[k])
            } else {
                vstd::pervasive::arbitrary()
            },
    )
}

impl View for TokenTree {
    type V = TreeSpec;

    open spec fn view(&self) -> TreeSpec {
        tree_view(*self)
    }
}

impl View for TokenCell {
    type V = CellSpec;

    open spec fn view(&self) -> CellSpec {
        cell_view(*self)
    }
}

impl View for TokenStream {
    type V = Seq<CellSpec>;

    open spec fn view(&self) -> Seq<CellSpec> {
        cells_view(self.entries@)
    }
}

pub proof fn lemma_cells_view_push(v: Seq<TokenCell>, c: TokenCell)
    ensures
        cells_view(v.push(c)) == cells_view(v).push(cell_view(c)),
{
    assert(cells_view(v.push(c)) =~= cells_view(v).push(cell_view(c)));
}

pub proof fn lemma_cells_view_add(a: Seq<TokenCell>, b: Seq<TokenCell>)
    ensures
        cells_view(a + b) == cells_view(a) + cells_view(b),
{
    assert(cells_view(a + b) =~= cells_view(a) + cells_view(b));
}

impl TokenCell {
    /// A cell without a recorded source position, as emission produces.
    pub fn new(tt: TokenTree) -> (r: TokenCell)
        ensures
            r@ == (CellSpec { pos: None, tree: tt@ }),
    {
        TokenCell { pos: None, tt }
    }

    /// A cell carrying the source position of its first character.
    pub fn new_with_pos(tt: TokenTree, col: usize, row: usize) -> (r: TokenCell)
        ensures
            r@ == (CellSpec { pos: Some((row as int, col as int)), tree: tt@ }),
    {
        TokenCell { pos: Some(Pos { col, row }), tt }
    }

    /// The recorded source position, if any.
    pub fn pos(&self) -> (r: Option<Pos>)
        ensures
            pos_view(r) == self@.pos,
    {
        match &self.pos {
            Some(p) => Some(*p),
            None => None,
        }
    }
}

impl Clone for Literal {
    fn clone(&self) -> (r: Self)
        ensures
            r@ == self@,
    {
        match self {
            Literal::Str(s) => Literal::Str(s.clone()),
            Literal::Int(i) => Literal::Int(*i),
        }
    }
}

/// A deep copy of a token-tree node.
#[verifier::loop_isolation(false)]
pub fn clone_tree(t: &TokenTree) -> (r: TokenTree)
    ensures
        r@ == t@,
    decreases *t,
{
    match t {
        TokenTree::Ident(s) => TokenTree::Ident(s.clone()),
        TokenTree::Literal(l) => TokenTree::Literal(l.clone()),
        TokenTree::Punct(p) => TokenTree::Punct(*p),
        TokenTree::Group(d, ts) => {
            let mut inner: Vec<TokenCell> = Vec::new();
            let n = ts.entries.len();
            let mut i: usize = 0;
            while i < n
                invariant
                    n == ts.entries@.len(),
                    i <= n,
                    cells_view(inner@) == cells_view(ts.entries@).subrange(0, i as int),
                decreases n - i,
                {
                let cell = &ts.entries[i];
                let copy = TokenCell { pos: cell.pos, tt: clone_tree(&cell.tt) };
                proof {
                    lemma_cells_view_push(inner@, copy);
                }
                inner.push(copy);
                i = i + 1;
                proof {
                    assert(cells_view(inner@) =~= cells_view(ts.entries@).subrange(0, i as int));
                }
            }
            proof {
                assert(cells_view(inner@) =~= cells_view(ts.entries@));
            }
            TokenTree::Group(*d, TokenStream { entries: inner })
        },
    }
}

impl Clone for TokenTree {
    fn clone(&self) -> (r: Self)
        ensures
            r@ == self@,
    {
        clone_tree(self)
    }
}

impl Clone for TokenCell {
    fn clone(&self) -> (r: Self)
        ensures
            r@ == self@,
    {
        TokenCell { pos: self.pos, tt: clone_tree(&self.tt) }
    }
}

impl Clone for TokenStream {
    fn clone(&self) -> (r: Self)
        ensures
            r@ == self@,
    {
        let mut entries: Vec<TokenCell> = Vec::new();
        let n = self.entries.len();
        let mut i: usize = 0;
        while i < n
            invariant
                n == self.entries@.len(),
                i <= n,
                cells_view(entries@) == cells_view(self.entries@).subrange(0, i as int),
            decreases n - i,
        {
            let copy = self.entries[i].clone();
            proof {
                lemma_cells_view_push(entries@, copy);
            }
            entries.push(copy);
            i = i + 1;
            proof {
                assert(cells_view(entries@) =~= cells_view(self.entries@).subrange(0, i as int));
            }
        }
        proof {
            assert(cells_view(entries@) =~= cells_view(self.entries@));
        }
        TokenStream { entries }
    }
}

/// A read-only scan position into a token stream's entries.
#[derive(Clone, Copy, Debug, PartialEq, Eq, Structural)]
pub struct Cursor {
    pub idx: usize,
}

impl Cursor {
    /// The position at the start of a stream.
    pub fn start() -> (r: Cursor)
        ensures
            r.idx == 0,
    {
        Cursor { idx: 0 }
    }

    /// The position one entry further on.
    pub fn bump(self) -> (r: Cursor)
        requires
            self.idx < usize::MAX,
        ensures
            r.idx == self.idx + 1,
    {
        Cursor { idx: self.idx + 1 }
    }
}

impl TokenStream {
    /// A stream over the given cells.
    pub fn new(entries: Vec<TokenCell>) -> (r: TokenStream)
        ensures
            r@ == cells_view(entries@),
            r.entries == entries,
    {
        TokenStream { entries }
    }

    /// A stream with no cells.
    pub fn new_empty() -> (r: TokenStream)
        ensures
            r@ == Seq::<CellSpec>::empty(),
    {
        let r = TokenStream { entries: Vec::new() };
        proof {
            assert(r@ =~= Seq::<CellSpec>::empty());
        }
        r
    }

    /// The owned cells of this stream.
    pub fn into_inner(self) -> (r: Vec<TokenCell>)
        ensures
            cells_view(r@) == self@,
    {
        self.entries
    }

    pub fn len(&self) -> (r: usize)
        ensures
            r == self@.len(),
    {
        self.entries.len()
    }

    /// Appends one positioned cell to the end.
    pub fn push_cell(&mut self, cell: TokenCell)
        ensures
            final(self)@ == old(self)@.push(cell@),
    {
        proof {
            lemma_cells_view_push(self.entries@, cell);
        }
        self.entries.push(cell);
    }

    /// Appends one node, without a source position, to the end.
    pub fn extend_one(&mut self, tt: TokenTree)
        ensures
            final(self)@ == old(self)@.push(CellSpec { pos: None, tree: tt@ }),
    {
        let cell = TokenCell { pos: None, tt };
        proof {
            lemma_cells_view_push(self.entries@, cell);
        }
        self.entries.push(cell);
    }

    /// Appends a copy of every cell of `other` to the end.
    pub fn extend(&mut self, other: &TokenStream)
        ensures
            final(self)@ == old(self)@ + other@,
    {
        let n = other.entries.len();
        let mut i: usize = 0;
        while i < n
            invariant
                n == other.entries@.len(),
                self@ == old(self)@ + other@.subrange(0, i as int),
                i <= n,
            decreases n - i,
        {
            let copy = other.entries[i].clone();
            proof {
                lemma_cells_view_push(self.entries@, copy);
                assert(other@[i as int] == cell_view(other.entries@[i as int]));
            }
            self.entries.push(copy);
            i = i + 1;
            proof {
                assert(self@ =~= old(self)@ + other@.subrange(0, i as int));
            }
        }
        proof {
            assert(other@.subrange(0, n as int) =~= other@);
        }
    }

    /// The cell under `cursor`, or nothing at the end of the stream.
    pub fn get(&self, cursor: Cursor) -> (r: Option<&TokenCell>)
        ensures
            match r {
                Some(c) => cursor.idx < self@.len() && c@ == self@[cursor.idx as int],
                None => cursor.idx >= self@.len(),
            },
    {
        if cursor.idx < self.entries.len() {
            Some(&self.entries[cursor.idx])
        } else {
            None
        }
    }

    /// The node under `cursor` with the position past it, or nothing at the
    /// end of the stream.
    pub fn token_tree(&self, cursor: Cursor) -> (r: Option<(&TokenTree, Cursor)>)
        ensures
            match r {
                Some((t, next)) => cursor.idx < self@.len() && t@ == self@[cursor.idx as int].tree
                    && next.idx == cursor.idx + 1,
                None => cursor.idx >= self@.len(),
            },
    {
        if cursor.idx < self.entries.len() {
            Some((&self.entries[cursor.idx].tt, Cursor { idx: cursor.idx + 1 }))
        } else {
            None
        }
    }

    /// The identifier under `cursor`, if the current node is one.
    pub fn ident(&self, cursor: Cursor) -> (r: Option<(&String, Cursor)>)
        ensures
            match r {
                Some((name, next)) => cursor.idx < self@.len()
                    && self@[cursor.idx as int].tree == TreeSpec::Ident(name@)
                    && next.idx == cursor.idx + 1,
                None => !(cursor.idx < self@.len() && self@[cursor.idx as int].tree is Ident),
            },
    {
        if cursor.idx < self.entries.len() {
            match &self.entries[cursor.idx].tt {
                TokenTree::Ident(name) => Some((name, Cursor { idx: cursor.idx + 1 })),
                _ => None,
            }
        } else {
            None
        }
    }

    /// The literal under `cursor`, if the current node is one.
    pub fn literal(&self, cursor: Cursor) -> (r: Option<(&Literal, Cursor)>)
        ensures
            match r {
                Some((lit, next)) => cursor.idx < self@.len()
                    && self@[cursor.idx as int].tree == TreeSpec::Literal(lit@)
                    && next.idx == cursor.idx + 1,
                None => !(cursor.idx < self@.len() && self@[cursor.idx as int].tree is Literal),
            },
    {
        if cursor.idx < self.entries.len() {
            match &self.entries[cursor.idx].tt {
                TokenTree::Literal(lit) => Some((lit, Cursor { idx: cursor.idx + 1 })),
                _ => None,
            }
        } else {
            None
        }
    }

    /// The punctuator under `cursor`, if the current node is one.
    pub fn punct(&self, cursor: Cursor) -> (r: Option<(Punct, Cursor)>)
        ensures
            match r {
                Some((p, next)) => cursor.idx < self@.len()
                    && self@[cursor.idx as int].tree == TreeSpec::Punct(p)
                    && next.idx == cursor.idx + 1,
                None => !(cursor.idx < self@.len() && self@[cursor.idx as int].tree is Punct),
            },
    {
        if cursor.idx < self.entries.len() {
            match &self.entries[cursor.idx].tt {
                TokenTree::Punct(p) => Some((*p, Cursor { idx: cursor.idx + 1 })),
                _ => None,
            }
        } else {
            None
        }
    }

    /// The delimiter kind of the group under `cursor`, if the current node is
    /// a group.
    pub fn delim(&self, cursor: Cursor) -> (r: Option<(Delimeter, Cursor)>)
        ensures
            match r {
                Some((d, next)) => cursor.idx < self@.len()
                    && (self@[cursor.idx as int].tree matches TreeSpec::Group(dd, _) && dd == d)
                    && next.idx == cursor.idx + 1,
                None => !(cursor.idx < self@.len() && self@[cursor.idx as int].tree is Group),
            },
    {
        if cursor.idx < self.entries.len() {
            match &self.entries[cursor.idx].tt {
                TokenTree::Group(d, _) => Some((*d, Cursor { idx: cursor.idx + 1 })),
                _ => None,
            }
        } else {
            None
        }
    }

    /// The nested stream of the group of kind `d` under `cursor`, with the
    /// position past the group, if the current node is such a group.
    pub fn group(&self, cursor: Cursor, d: Delimeter) -> (r: Option<(&TokenStream, Cursor)>)
        ensures
            match r {
                Some((inner, next)) => cursor.idx < self@.len()
                    && self@[cursor.idx as int].tree == TreeSpec::Group(d, inner@)
                    && next.idx == cursor.idx + 1,
                None => !(cursor.idx < self@.len() && (self@[cursor.idx as int].tree matches
                    TreeSpec::Group(dd, _) && dd == d)),
            },
    {
        if cursor.idx < self.entries.len() {
            match &self.entries[cursor.idx].tt {
                TokenTree::Group(dd, inner) => {
                    if *dd == d {
                        Some((inner, Cursor { idx: cursor.idx + 1 }))
                    } else {
                        None
                    }
                },
                _ => None,
            }
        } else {
            None
        }
    }
}

// ---------------------------------------------------------------------------
// Canonical textual rendering.
// ---------------------------------------------------------------------------

pub open spec fn spec_digit_char(d: int) -> char {
    if d == 0 { '0' }
    else if d == 1 { '1' }
    else if d == 2 { '2' }
    else if d == 3 { '3' }
    else if d == 4 { '4' }
    else if d == 5 { '5' }
    else if d == 6 { '6' }
    else if d == 7 { '7' }
    else if d == 8 { '8' }
    else { '9' }
}

/// The decimal digits of a non-negative value.
pub open spec fn spec_dec_mag(n: int) -> Seq<char>
    decreases n when n >= 0
{
    if n < 10 {
        seq![spec_digit_char(n)]
    } else {
        spec_dec_mag(n / 10).push(spec_digit_char(n % 10))
    }
}

/// The canonical decimal rendering of an integer.
pub open spec fn spec_render_int(v: int) -> Seq<char> {
    if v < 0 {
        seq!['-'] + spec_dec_mag(-v)
    } else {
        spec_dec_mag(v)
    }
}

pub open spec fn spec_render_lit(l: LitSpec) -> Seq<char> {
    match l {
        LitSpec::Str(s) => s,
        LitSpec::Int(i) => spec_render_int(i),
    }
}

/// The first index at or after `i` holding a non-whitespace character.
pub open spec fn trim_start_from(s: Seq<char>, i: int) -> int
    decreases s.len() - i when 0 <= i <= s.len()
{
    if i < s.len() && is_ws(s[i]) {
        trim_start_from(s, i + 1)
    } else {
        i
    }
}

/// The index after the last non-whitespace character strictly before `j`.
pub open spec fn trim_end_to(s: Seq<char>, j: int) -> int
    decreases j when 0 <= j <= s.len()
{
    if j > 0 && is_ws(s[j - 1]) {
        trim_end_to(s, j - 1)
    } else {
        j
    }
}

/// `s` without its leading and trailing whitespace.
pub open spec fn spec_trim(s: Seq<char>) -> Seq<char> {
    let a = trim_start_from(s, 0);
    let b = trim_end_to(s, s.len() as int);
    if a <= b {
        s.subrange(a, b)
    } else {
        Seq::empty()
    }
}

/// The canonical text of a node: identifiers and string literals render as
/// their text, integers in decimal, punctuators as their symbol, and groups
/// with a single space after the open and before the close delimiter, the
/// nested content trimmed of surrounding whitespace.
pub open spec fn spec_render_tree(t: TreeSpec) -> Seq<char>
    decreases t,
{
    match t {
        TreeSpec::Ident(s) => s,
        TreeSpec::Literal(l) => spec_render_lit(l),
        TreeSpec::Punct(p) => spec_punct_text(p),
        TreeSpec::Group(d, cells) => {
            let open_text = match d {
                Delimeter::Paren => "( "@,
                Delimeter::Brace => "{ "@,
                Delimeter::Bracket => "[ "@,
            };
            let close_text = match d {
                Delimeter::Paren => " )"@,
                Delimeter::Brace => " }"@,
                Delimeter::Bracket => " ]"@,
            };
            open_text + spec_trim(spec_render_cells_from(cells, 0)) + close_text
        },
    }
}

/// The text of the cells from index `i` on, joined with single spaces.
pub open spec fn spec_render_cells_from(cells: Seq<CellSpec>, i: int) -> Seq<char>
    decreases cells, cells.len() - i when 0 <= i
{
    if i >= cells.len() {
        Seq::<char>::empty()
    } else {
        let sep: Seq<char> = if i == 0 { Seq::<char>::empty() } else { " "@ };
        sep + spec_render_tree(cells[i].tree) + spec_render_cells_from(cells, i + 1)
    }
}

/// The canonical text of a whole stream: entries joined with single spaces.
pub open spec fn spec_render_cells(cells: Seq<CellSpec>) -> Seq<char> {
    spec_render_cells_from(cells, 0)
}

fn digit_char_of(d: u128) -> (r: char)
    requires
        d < 10,
    ensures
        r == spec_digit_char(d as int),
{
    match d {
        0 => '0',
        1 => '1',
        2 => '2',
        3 => '3',
        4 => '4',
        5 => '5',
        6 => '6',
        7 => '7',
        8 => '8',
        9 => '9',
        _ => unreached(),
    }
}

/// Appends the decimal digits of `n` to `out`.
fn append_dec_mag(out: &mut String, n: u128)
    ensures
        final(out)@ == old(out)@ + spec_dec_mag(n as int),
{
    if n == 0 {
        push_char(out, '0');
        proof {
            assert(spec_dec_mag(0) == seq![spec_digit_char(0)]);
            assert(old(out)@.push('0') =~= old(out)@ + spec_dec_mag(0));
        }
        return;
    }
    let mut rev: Vec<char> = Vec::new();
    let mut cur: u128 = n;
    proof {
        assert(rev@.reverse() =~= Seq::<char>::empty());
        assert(spec_dec_mag(n as int) =~= spec_dec_mag(n as int) + rev@.reverse());
    }
    while cur > 0
        invariant
            cur > 0 ==> spec_dec_mag(n as int) == spec_dec_mag(cur as int) + rev@.reverse(),
            cur == 0 ==> spec_dec_mag(n as int) == rev@.reverse(),
        decreases cur,
    {
        let d = cur % 10;
        let next = cur / 10;
        proof {
            assert(next < cur) by (nonlinear_arith)
                requires
                    next == cur / 10,
                    cur > 0,
            ;
            let prev = rev@;
            assert((prev.push(spec_digit_char(d as int))).reverse() =~= seq![
                spec_digit_char(d as int),
            ] + prev.reverse());
            if next > 0 {
                assert(spec_dec_mag(cur as int) == spec_dec_mag(next as int).push(
                    spec_digit_char(cur as int % 10),
                ));
                assert(spec_dec_mag(next as int).push(spec_digit_char(cur as int % 10)) =~= spec_dec_mag(
                    next as int,
                ) + seq![spec_digit_char(cur as int % 10)]);
            } else {
                assert(cur < 10);
                assert(spec_dec_mag(cur as int) == seq![spec_digit_char(cur as int)]);
            }
            assert(d as int == cur as int % 10);
        }
        rev.push(digit_char_of(d));
        cur = next;
        proof {
            if cur > 0 {
                assert(spec_dec_mag(n as int) =~= spec_dec_mag(cur as int) + rev@.reverse());
            } else {
                assert(spec_dec_mag(n as int) =~= rev@.reverse());
            }
        }
    }
    let m = rev.len();
    let mut k: usize = 0;
    proof {
        assert(out@ =~= old(out)@ + rev@.reverse().subrange(0, 0));
    }
    while k < m
        invariant
            m == rev@.len(),
            k <= m,
            out@ == old(out)@ + rev@.reverse().subrange(0, k as int),
        decreases m - k,
    {
        push_char(out, rev[m - 1 - k]);
        k = k + 1;
        proof {
            assert(rev@.reverse()[k - 1] == rev@[m - k]);
            assert(out@ =~= old(out)@ + rev@.reverse().subrange(0, k as int));
        }
    }
    proof {
        assert(rev@.reverse().subrange(0, m as int) =~= rev@.reverse());
    }
}

/// Appends the canonical decimal rendering of `v` to `out`.
fn append_int(out: &mut String, v: i128)
    ensures
        final(out)@ == old(out)@ + spec_render_int(v as int),
{
    if v >= 0 {
        append_dec_mag(out, v as u128);
    } else {
        push_char(out, '-');
        let m = -(v + 1);
        let mag: u128 = (m as u128) + 1;
        proof {
            assert(mag as int == -(v as int));
        }
        append_dec_mag(out, mag);
        proof {
            assert(old(out)@.push('-') + spec_dec_mag(-(v as int)) =~= old(out)@ + (seq!['-']
                + spec_dec_mag(-(v as int))));
        }
    }
}

/// A whitespace prefix ends exactly where its characters stop.
proof fn lemma_trim_start_is(s: Seq<char>, a: int)
    requires
        0 <= a <= s.len(),
        forall|k: int| 0 <= k < a ==> is_ws(s[k]),
        a == s.len() || !is_ws(s[a]),
    ensures
        trim_start_from(s, 0) == a,
{
    lemma_trim_start_is_rec(s, 0, a);
}

proof fn lemma_trim_start_is_rec(s: Seq<char>, i: int, a: int)
    requires
        0 <= i <= a <= s.len(),
        forall|k: int| i <= k < a ==> is_ws(s[k]),
        a == s.len() || !is_ws(s[a]),
    ensures
        trim_start_from(s, i) == a,
    decreases a - i,
{
    if i < a {
        lemma_trim_start_is_rec(s, i + 1, a);
    }
}

/// A whitespace suffix starts exactly where its characters start.
proof fn lemma_trim_end_is(s: Seq<char>, b: int)
    requires
        0 <= b <= s.len(),
        forall|k: int| b <= k < s.len() ==> is_ws(s[k]),
        b == 0 || !is_ws(s[b - 1]),
    ensures
        trim_end_to(s, s.len() as int) == b,
{
    lemma_trim_end_is_rec(s, b, s.len() as int);
}

proof fn lemma_trim_end_is_rec(s: Seq<char>, b: int, j: int)
    requires
        0 <= b <= j <= s.len(),
        forall|k: int| b <= k < j ==> is_ws(s[k]),
        b == 0 || !is_ws(s[b - 1]),
    ensures
        trim_end_to(s, j) == b,
    decreases j - b,
{
    if j > b {
        lemma_trim_end_is_rec(s, b, j - 1);
    }
}

/// Appends `s` without its leading and trailing whitespace to `out`.
#[verifier::loop_isolation(false)]
fn append_trimmed(out: &mut String, s: &str)
    ensures
        final(out)@ == old(out)@ + spec_trim(s@),
{
    let v = str_to_chars(s);
    let n = v.len();
    let mut a: usize = 0;
    let mut stopped: bool = false;
    while a < n && !stopped
        invariant
            a <= n,
            forall|k: int| 0 <= k < a ==> is_ws(v@[k]),
            stopped ==> a < n && !is_ws(v@[a as int]),
        decreases n - a, (if stopped { 0int } else { 1int }),
    {
        if char_is_whitespace(v[a]) {
            a = a + 1;
        } else {
            stopped = true;
        }
    }
    proof {
        lemma_trim_start_is(v@, a as int);
    }
    let mut b: usize = n;
    let mut stopped_back: bool = false;
    while b > 0 && !stopped_back
        invariant
            b <= n,
            forall|k: int| b <= k < n ==> is_ws(v@[k]),
            stopped_back ==> b > 0 && !is_ws(v@[b as int - 1]),
        decreases b, (if stopped_back { 0int } else { 1int }),
    {
        if char_is_whitespace(v[b - 1]) {
            b = b - 1;
        } else {
            stopped_back = true;
        }
    }
    proof {
        lemma_trim_end_is(v@, b as int);
    }
    if a < b {
        let t = chars_to_string(&v, a, b);
        out.append(t.as_str());
    } else {
        proof {
            if a as int <= trim_end_to(v@, v@.len() as int) {
                assert(spec_trim(v@) =~= Seq::<char>::empty());
            }
            assert(out@ =~= old(out)@ + spec_trim(v@));
        }
    }
}

/// Appends the canonical text of a node to `out`.
#[verifier::loop_isolation(false)]
pub fn append_render_tree(out: &mut String, t: &TokenTree)
    ensures
        final(out)@ == old(out)@ + spec_render_tree(t@),
    decreases *t,
{
    match t {
        TokenTree::Ident(s) => {
            out.append(s.as_str());
        },
        TokenTree::Literal(Literal::Str(s)) => {
            out.append(s.as_str());
        },
        TokenTree::Literal(Literal::Int(i)) => {
            append_int(out, *i);
        },
        TokenTree::Punct(p) => {
            out.append(punct_text(*p));
        },
        TokenTree::Group(d, ts) => {
            match d {
                Delimeter::Paren => out.append("( "),
                Delimeter::Brace => out.append("{ "),
                Delimeter::Bracket => out.append("[ "),
            };
            let ghost cells = cells_view(ts.entries@);
            let mut inner_text = String::new();
            let n = ts.entries.len();
            let mut i: usize = 0;
            proof {
                assert(inner_text@ + spec_render_cells_from(cells, 0) =~= spec_render_cells_from(
                    cells,
                    0,
                ));
            }
            while i < n
                invariant
                    n == ts.entries@.len(),
                    cells == cells_view(ts.entries@),
                    i <= n,
                    inner_text@ + spec_render_cells_from(cells, i as int)
                        == spec_render_cells_from(cells, 0),
                decreases n - i,
            {
                let ghost before = inner_text@;
                if i > 0 {
                    inner_text.append(" ");
                }
                proof {
                    assert(cells[i as int] == cell_view(ts.entries@[i as int]));
                }
                append_render_tree(&mut inner_text, &ts.entries[i].tt);
                proof {
                    let sep: Seq<char> = if i == 0 { Seq::<char>::empty() } else { " "@ };
                    assert(inner_text@ =~= before + sep + spec_render_tree(cells[i as int].tree));
                    assert(spec_render_cells_from(cells, i as int) == sep + spec_render_tree(
                        cells[i as int].tree,
                    ) + spec_render_cells_from(cells, i + 1));
                    assert(inner_text@ + spec_render_cells_from(cells, i + 1) =~= before
                        + spec_render_cells_from(cells, i as int));
                }
                i = i + 1;
            }
            proof {
                assert(inner_text@ + spec_render_cells_from(cells, n as int) =~= inner_text@);
                assert(inner_text@ == spec_render_cells_from(cells, 0));
            }
            append_trimmed(out, inner_text.as_str());
            match d {
                Delimeter::Paren => out.append(" )"),
                Delimeter::Brace => out.append(" }"),
                Delimeter::Bracket => out.append(" ]"),
            };
        },
    }
}

impl TokenTree {
    /// The canonical textual form of this node.
    pub fn render(&self) -> (r: String)
        ensures
            r@ == spec_render_tree(self@),
    {
        let mut out = String::new();
        append_render_tree(&mut out, self);
        out
    }
}

impl TokenStream {
    /// The canonical textual form of this stream: entries joined with single
    /// spaces. The rendering is lossy with respect to the source's spacing.
    pub fn render(&self) -> (r: String)
        ensures
            r@ == spec_render_cells(self@),
    {
        let mut out = String::new();
        let ghost cells = self@;
        let n = self.entries.len();
        let mut i: usize = 0;
        proof {
            assert(out@ + spec_render_cells_from(cells, 0) =~= spec_render_cells_from(cells, 0));
        }
        while i < n
            invariant
                n == self.entries@.len(),
                cells == self@,
                i <= n,
                out@ + spec_render_cells_from(cells, i as int) == spec_render_cells_from(cells, 0),
            decreases n - i,
        {
            let ghost before = out@;
            if i > 0 {
                out.append(" ");
            }
            proof {
                assert(cells[i as int] == cell_view(self.entries@[i as int]));
            }
            append_render_tree(&mut out, &self.entries[i].tt);
            proof {
                let sep: Seq<char> = if i == 0 { Seq::<char>::empty() } else { " "@ };
                assert(out@ =~= before + sep + spec_render_tree(cells[i as int].tree));
                assert(spec_render_cells_from(cells, i as int) == sep + spec_render_tree(
                    cells[i as int].tree,
                ) + spec_render_cells_from(cells, i + 1));
                assert(out@ + spec_render_cells_from(cells, i + 1) =~= before
                    + spec_render_cells_from(cells, i as int));
            }
            i = i + 1;
        }
        proof {
            assert(out@ + spec_render_cells_from(cells, n as int) =~= out@);
        }
        out
    }
}

} // verus!

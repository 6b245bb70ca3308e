use vstd::prelude::*;
use vstd::string::StringExecFns;
use crate::chars::{is_alpha, is_ident_char, is_num, is_num_run_char, is_ws};
use crate::stream::{cells_view, CellSpec, Literal, LitSpec, TokenCell, TokenStream, TokenTree, TreeSpec};
use crate::tokens::{spec_is_prefix, spec_punct_match, table_lookup, table_prefix, Delimeter, Punct, PunctMatch};

verus! {

broadcast use vstd::seq::group_seq_axioms, vstd::std_specs::vec::group_vec_axioms;

/// One classified unit of the flat scan, before group nesting.
pub enum UnitKind {
    Ident(Seq<char>),
    IntLit(int),
    StrLit(Seq<char>),
    Punct(Punct),
    Open(Delimeter),
    Close(Delimeter),
}

/// A flat unit together with the 1-based position of its first character.
pub struct UnitSpec {
    pub row: int,
    pub col: int,
    pub kind: UnitKind,
}

/// The ways the flat scan and the tree builder can fail.
pub enum LexErrKind {
    /// A numeric run that is not a plain decimal integer fitting 128 bits.
    BadNumber,
    /// A string literal whose closing quote never comes.
    UnterminatedString,
    /// A character sequence no punctuator starts with; carries the text the
    /// matcher grew before giving up, which the diagnostic quotes.
    BadPunct(Seq<char>),
    /// A group-close marker with no group open.
    UnexpectedClose,
    /// A group-close marker of the wrong delimiter kind.
    MismatchedClose,
    /// Input that ends while a group is still open.
    UnterminatedGroup,
}

/// A failure of the flat scan or the tree builder, with its position.
pub struct ErrSpec {
    pub row: int,
    pub col: int,
    pub kind: LexErrKind,
}

/// The message text reported for each failure kind.
pub open spec fn spec_lex_msg(k: LexErrKind) -> Seq<char> {
    match k {
        LexErrKind::BadNumber => "invalid numeric literal"@,
        LexErrKind::UnterminatedString => "missing closing '\"' for string literal"@,
        LexErrKind::BadPunct(t) => "Expected punctuator, got '"@ + t + "'"@,
        LexErrKind::UnexpectedClose => "unexpected group delimiter"@,
        LexErrKind::MismatchedClose => "mismatched group delimiter"@,
        LexErrKind::UnterminatedGroup => "unterminated group"@,
    }
}

/// The position of the character after a character at `(row, col)`: a newline
/// starts the next row at column 1, anything else moves one column right.
pub open spec fn adv1(row: int, col: int, c: char) -> (int, int) {
    if c == '\n' {
        (row + 1, 1)
    } else {
        (row, col + 1)
    }
}

/// The position after the characters of `s` in the range `[i, j)`.
pub open spec fn adv_range(row: int, col: int, s: Seq<char>, i: int, j: int) -> (int, int)
    decreases j - i,
{
    if i >= j {
        (row, col)
    } else {
        let rc = adv1(row, col, s[i]);
        adv_range(rc.0, rc.1, s, i + 1, j)
    }
}

/// The end of the maximal identifier run starting at `i`.
pub open spec fn ident_end(s: Seq<char>, i: int) -> int
    decreases s.len() - i when 0 <= i <= s.len()
{
    if i < s.len() && is_ident_char(s[i]) {
        ident_end(s, i + 1)
    } else {
        i
    }
}

/// The end of the maximal numeric run starting at `i`.
pub open spec fn num_end(s: Seq<char>, i: int) -> int
    decreases s.len() - i when 0 <= i <= s.len()
{
    if i < s.len() && is_num_run_char(s[i]) {
        num_end(s, i + 1)
    } else {
        i
    }
}

/// The first index at or after `i` holding a double quote, if any.
pub open spec fn quote_end(s: Seq<char>, i: int) -> Option<int>
    decreases s.len() - i when 0 <= i <= s.len()
{
    if i >= s.len() {
        None
    } else if s[i] == '"' {
        Some(i)
    } else {
        quote_end(s, i + 1)
    }
}

/// Whether every character of `[i, j)` is an ASCII decimal digit.
pub open spec fn digits_ok(s: Seq<char>, i: int, j: int) -> bool {
    forall|k: int| i <= k < j ==> crate::chars::ascii_digit(s[k])
}

/// The value of the decimal digits in `[i, j)`.
pub open spec fn digits_val(s: Seq<char>, i: int, j: int) -> int
    decreases j - i,
{
    if j <= i {
        0
    } else {
        digits_val(s, i, j - 1) * 10 + ((s[j - 1] as u32) as int - 48)
    }
}

/// Whether the candidate of length `l` starting at `i` exactly equals a
/// punctuator-table entry.
pub open spec fn has_exact(s: Seq<char>, i: int, l: int) -> bool {
    1 <= l && i + l <= s.len() && table_lookup(s.subrange(i, i + l), 0) is Some
}

/// The largest candidate length no greater than `l` with an exact table
/// match, if any.
pub open spec fn best_upto(s: Seq<char>, i: int, l: int) -> Option<int>
    decreases l,
{
    if l <= 0 {
        None
    } else if has_exact(s, i, l) {
        Some(l)
    } else {
        best_upto(s, i, l - 1)
    }
}

/// The length at which the matcher first answers `NoMatch` while growing a
/// candidate from position `i`, or the whole remaining length when it never
/// does: the text a failed punctuator scan quotes.
pub open spec fn grow_fail_len(s: Seq<char>, i: int, l: int) -> int
    decreases s.len() - i - l when 0 <= l && 0 <= i && i + l <= s.len()
{
    if i + l >= s.len() {
        l
    } else if spec_punct_match(s.subrange(i, i + l + 1)) == PunctMatch::NoMatch {
        l + 1
    } else {
        grow_fail_len(s, i, l + 1)
    }
}

/// Maximal munch at position `i`: the longest candidate with an exact table
/// match, together with its variant.
pub open spec fn munch(s: Seq<char>, i: int) -> Option<(Punct, int)> {
    match best_upto(s, i, s.len() - i) {
        Some(l) => Some((table_lookup(s.subrange(i, i + l), 0)->Some_0, l)),
        None => None,
    }
}

pub open spec fn scan_cons(u: UnitSpec, rest: Result<Seq<UnitSpec>, ErrSpec>) -> Result<
    Seq<UnitSpec>,
    ErrSpec,
> {
    match rest {
        Ok(us) => Ok(seq![u] + us),
        Err(e) => Err(e),
    }
}

pub open spec fn scan_concat(us: Seq<UnitSpec>, rest: Result<Seq<UnitSpec>, ErrSpec>) -> Result<
    Seq<UnitSpec>,
    ErrSpec,
> {
    match rest {
        Ok(v) => Ok(us + v),
        Err(e) => Err(e),
    }
}

/// The flat scan from position `i`, at source coordinates `(row, col)`.
///
/// Classification precedence at each position: alphabetic start opens a
/// maximal identifier run; numeric start opens a maximal digit-or-dot run
/// that must be a plain decimal integer fitting 128 bits; the six delimiter
/// characters become group open and close markers; a double quote opens a
/// string literal running to the next quote; whitespace is consumed and
/// discarded; everything else must start a punctuator, matched maximally.
pub open spec fn spec_scan(s: Seq<char>, i: int, row: int, col: int) -> Result<
    Seq<UnitSpec>,
    ErrSpec,
>
    decreases s.len() - i when 0 <= i <= s.len() via spec_scan_dec
{
    if i >= s.len() {
        Ok(Seq::empty())
    } else {
        let c = s[i];
        if is_alpha(c) {
            let j = ident_end(s, i);
            let rc = adv_range(row, col, s, i, j);
            scan_cons(
                UnitSpec { row, col, kind: UnitKind::Ident(s.subrange(i, j)) },
                spec_scan(s, j, rc.0, rc.1),
            )
        } else if is_num(c) {
            let j = num_end(s, i);
            if digits_ok(s, i, j) && digits_val(s, i, j) <= i128::MAX {
                let rc = adv_range(row, col, s, i, j);
                scan_cons(
                    UnitSpec { row, col, kind: UnitKind::IntLit(digits_val(s, i, j)) },
                    spec_scan(s, j, rc.0, rc.1),
                )
            } else {
                Err(ErrSpec { row, col, kind: LexErrKind::BadNumber })
            }
        } else if c == '(' {
            scan_cons(
                UnitSpec { row, col, kind: UnitKind::Open(Delimeter::Paren) },
                spec_scan(s, i + 1, row, col + 1),
            )
        } else if c == ')' {
            scan_cons(
                UnitSpec { row, col, kind: UnitKind::Close(Delimeter::Paren) },
                spec_scan(s, i + 1, row, col + 1),
            )
        } else if c == '{' {
            scan_cons(
                UnitSpec { row, col, kind: UnitKind::Open(Delimeter::Brace) },
                spec_scan(s, i + 1, row, col + 1),
            )
        } else if c == '}' {
            scan_cons(
                UnitSpec { row, col, kind: UnitKind::Close(Delimeter::Brace) },
                spec_scan(s, i + 1, row, col + 1),
            )
        } else if c == '[' {
            scan_cons(
                UnitSpec { row, col, kind: UnitKind::Open(Delimeter::Bracket) },
                spec_scan(s, i + 1, row, col + 1),
            )
        } else if c == ']' {
            scan_cons(
                UnitSpec { row, col, kind: UnitKind::Close(Delimeter::Bracket) },
                spec_scan(s, i + 1, row, col + 1),
            )
        } else if c == '"' {
            match quote_end(s, i + 1) {
                Some(j) => {
                    let rc = adv_range(row, col, s, i, j + 1);
                    scan_cons(
                        UnitSpec { row, col, kind: UnitKind::StrLit(s.subrange(i + 1, j)) },
                        spec_scan(s, j + 1, rc.0, rc.1),
                    )
                },
                None => Err(ErrSpec { row, col, kind: LexErrKind::UnterminatedString }),
            }
        } else if is_ws(c) {
            let rc = adv1(row, col, c);
            spec_scan(s, i + 1, rc.0, rc.1)
        } else {
            match munch(s, i) {
                Some((p, l)) => {
                    let rc = adv_range(row, col, s, i, i + l);
                    scan_cons(
                        UnitSpec { row, col, kind: UnitKind::Punct(p) },
                        spec_scan(s, i + l, rc.0, rc.1),
                    )
                },
                None => Err(
                    ErrSpec {
                        row,
                        col,
                        kind: LexErrKind::BadPunct(s.subrange(i, i + grow_fail_len(s, i, 0))),
                    },
                ),
            }
        }
    }
}

#[via_fn]
proof fn spec_scan_dec(s: Seq<char>, i: int, row: int, col: int) {
    if 0 <= i < s.len() {
        lemma_ident_end(s, i);
        lemma_num_end(s, i);
        if s[i] == '"' {
            lemma_quote_end(s, i + 1);
        }
        lemma_best_upto_bounds(s, i, s.len() - i);
    }
}

pub proof fn lemma_ident_end(s: Seq<char>, i: int)
    requires
        0 <= i <= s.len(),
    ensures
        i <= ident_end(s, i) <= s.len(),
        i < s.len() && is_ident_char(s[i]) ==> ident_end(s, i) > i,
    decreases s.len() - i,
{
    if i < s.len() && is_ident_char(s[i]) {
        lemma_ident_end(s, i + 1);
    }
}

pub proof fn lemma_num_end(s: Seq<char>, i: int)
    requires
        0 <= i <= s.len(),
    ensures
        i <= num_end(s, i) <= s.len(),
        i < s.len() && is_num_run_char(s[i]) ==> num_end(s, i) > i,
    decreases s.len() - i,
{
    if i < s.len() && is_num_run_char(s[i]) {
        lemma_num_end(s, i + 1);
    }
}

pub proof fn lemma_quote_end(s: Seq<char>, i: int)
    requires
        0 <= i <= s.len(),
    ensures
        quote_end(s, i) matches Some(j) ==> i <= j < s.len() && s[j] == '"',
    decreases s.len() - i,
{
    if i < s.len() && s[i] != '"' {
        lemma_quote_end(s, i + 1);
    }
}

pub proof fn lemma_best_upto_bounds(s: Seq<char>, i: int, l: int)
    ensures
        best_upto(s, i, l) matches Some(m) ==> 1 <= m <= l && i + m <= s.len(),
    decreases l,
{
    if l > 0 && !has_exact(s, i, l) {
        lemma_best_upto_bounds(s, i, l - 1);
    }
}

/// The maximal identifier run ends exactly where its characters stop.
pub proof fn lemma_ident_end_is(s: Seq<char>, i: int, j: int)
    requires
        0 <= i <= j <= s.len(),
        forall|k: int| i <= k < j ==> is_ident_char(s[k]),
        j == s.len() || !is_ident_char(s[j]),
    ensures
        ident_end(s, i) == j,
    decreases j - i,
{
    if i < j {
        lemma_ident_end_is(s, i + 1, j);
    }
}

/// The maximal numeric run ends exactly where its characters stop.
pub proof fn lemma_num_end_is(s: Seq<char>, i: int, j: int)
    requires
        0 <= i <= j <= s.len(),
        forall|k: int| i <= k < j ==> is_num_run_char(s[k]),
        j == s.len() || !is_num_run_char(s[j]),
    ensures
        num_end(s, i) == j,
    decreases j - i,
{
    if i < j {
        lemma_num_end_is(s, i + 1, j);
    }
}

/// The first quote at or after `i` is exactly where the scan stops.
pub proof fn lemma_quote_end_is(s: Seq<char>, i: int, j: int)
    requires
        0 <= i <= j <= s.len(),
        forall|k: int| i <= k < j ==> s[k] != '"',
    ensures
        j == s.len() ==> quote_end(s, i) is None,
        j < s.len() && s[j] == '"' ==> quote_end(s, i) == Some(j),
    decreases j - i,
{
    if i < j {
        lemma_quote_end_is(s, i + 1, j);
    }
}

/// A candidate that exactly matches some entry is a prefix of an entry, so
/// the matcher does not answer `NoMatch` for any of its prefixes.
pub proof fn lemma_lookup_prefix(t: Seq<char>, u: Seq<char>, i: int)
    requires
        0 <= i <= spec_punct_table_len(),
        table_lookup(t, i) is Some,
        spec_is_prefix(u, t),
    ensures
        table_prefix(u, i),
    decreases spec_punct_table_len() - i,
{
    if i < spec_punct_table_len() {
        if crate::tokens::spec_punct_table()[i].0 == t {
            assert(spec_is_prefix(u, crate::tokens::spec_punct_table()[i].0));
        } else {
            lemma_lookup_prefix(t, u, i + 1);
        }
    }
}

pub open spec fn spec_punct_table_len() -> int {
    crate::tokens::spec_punct_table().len() as int
}

/// Once the matcher answers `NoMatch` for a candidate, no extension of that
/// candidate matches exactly: the scanner may stop extending.
pub proof fn lemma_no_match_no_extension(s: Seq<char>, i: int, lbad: int, l2: int)
    requires
        0 <= i,
        1 <= lbad <= l2,
        i + lbad <= s.len(),
        table_lookup(s.subrange(i, i + lbad), 0) is None,
        !table_prefix(s.subrange(i, i + lbad), 0),
    ensures
        i + l2 <= s.len() ==> !has_exact(s, i, l2),
{
    if i + l2 <= s.len() && has_exact(s, i, l2) {
        let t = s.subrange(i, i + l2);
        let u = s.subrange(i, i + lbad);
        assert(u =~= t.subrange(0, lbad));
        assert(spec_is_prefix(u, t));
        lemma_lookup_prefix(t, u, 0);
    }
}

/// Lengths with no exact match do not change the best munch.
pub proof fn lemma_best_upto_stable(s: Seq<char>, i: int, lo: int, hi: int)
    requires
        0 <= lo <= hi,
        forall|l: int| lo < l <= hi ==> !has_exact(s, i, l),
    ensures
        best_upto(s, i, hi) == best_upto(s, i, lo),
    decreases hi - lo,
{
    if hi > lo {
        lemma_best_upto_stable(s, i, lo, hi - 1);
    }
}

/// The digits of a longer run are worth at least those of a shorter prefix.
pub proof fn lemma_digits_val_mono(s: Seq<char>, i: int, k: int, j: int)
    requires
        i <= k <= j,
        digits_ok(s, i, j),
    ensures
        0 <= digits_val(s, i, k) <= digits_val(s, i, j),
    decreases j - k,
{
    lemma_digits_val_nonneg(s, i, k);
    if k < j {
        lemma_digits_val_mono(s, i, k, j - 1);
        let prev = digits_val(s, i, j - 1);
        let d = (s[j - 1] as u32) as int - 48;
        assert(crate::chars::ascii_digit(s[j - 1]));
        assert(d >= 0);
        assert(prev * 10 >= prev) by (nonlinear_arith)
            requires
                prev >= 0,
        ;
    }
}

pub proof fn lemma_digits_val_nonneg(s: Seq<char>, i: int, j: int)
    requires
        i <= j,
        digits_ok(s, i, j),
    ensures
        digits_val(s, i, j) >= 0,
    decreases j - i,
{
    if i < j {
        lemma_digits_val_nonneg(s, i, j - 1);
        let prev = digits_val(s, i, j - 1);
        assert(prev * 10 >= 0) by (nonlinear_arith)
            requires
                prev >= 0,
        ;
        assert(crate::chars::ascii_digit(s[j - 1]));
    }
}

/// A flat unit as the scanner produces it.
pub struct FlatUnit {
    pub row: usize,
    pub col: usize,
    pub kind: FlatKind,
}

pub enum FlatKind {
    Ident(String),
    Lit(Literal),
    Punct(Punct),
    Open(Delimeter),
    Close(Delimeter),
}

impl View for FlatUnit {
    type V = UnitSpec;

    open spec fn view(&self) -> UnitSpec {
        UnitSpec {
            row: self.row as int,
            col: self.col as int,
            kind: match &self.kind {
                FlatKind::Ident(s) => UnitKind::Ident(s@),
                FlatKind::Lit(Literal::Str(s)) => UnitKind::StrLit(s@),
                FlatKind::Lit(Literal::Int(v)) => UnitKind::IntLit(*v as int),
                FlatKind::Punct(p) => UnitKind::Punct(*p),
                FlatKind::Open(d) => UnitKind::Open(*d),
                FlatKind::Close(d) => UnitKind::Close(*d),
            },
        }
    }
}

pub open spec fn units_view(v: Seq<FlatUnit>) -> Seq<UnitSpec> {
    Seq::new(v.len(), |k: int| v[k]@)
}

pub proof fn lemma_units_view_push(v: Seq<FlatUnit>, u: FlatUnit)
    ensures
        units_view(v.push(u)) == units_view(v).push(u@),
{
    assert(units_view(v.push(u)) =~= units_view(v).push(u@));
}

pub proof fn lemma_concat_cons(us: Seq<UnitSpec>, u: UnitSpec, x: Result<Seq<UnitSpec>, ErrSpec>)
    ensures
        scan_concat(us, scan_cons(u, x)) == scan_concat(us.push(u), x),
{
    match x {
        Ok(v) => {
            assert(us + (seq![u] + v) =~= us.push(u) + v);
        },
        Err(_) => {},
    }
}

/// The end of the maximal identifier run of characters starting at `start`.
#[verifier::loop_isolation(false)]
fn ident_run_end(s: &Vec<char>, start: usize) -> (j: usize)
    requires
        start <= s@.len(),
    ensures
        start <= j <= s@.len(),
        j as int == ident_end(s@, start as int),
{
    let n = s.len();
    let mut j = start;
    while j < n
        invariant
            start <= j <= n,
            forall|k: int| start <= k < j ==> is_ident_char(s@[k]),
        decreases n - j,
    {
        let c = s[j];
        let go = crate::chars::char_is_alphanumeric(c) || c == '_';
        if !go {
            proof {
                lemma_ident_end_is(s@, start as int, j as int);
            }
            return j;
        }
        j = j + 1;
    }
    proof {
        lemma_ident_end_is(s@, start as int, j as int);
    }
    j
}

/// The end of the maximal digit-or-dot run starting at `start`.
#[verifier::loop_isolation(false)]
fn num_run_end(s: &Vec<char>, start: usize) -> (j: usize)
    requires
        start <= s@.len(),
    ensures
        start <= j <= s@.len(),
        j as int == num_end(s@, start as int),
{
    let n = s.len();
    let mut j = start;
    while j < n
        invariant
            start <= j <= n,
            forall|k: int| start <= k < j ==> is_num_run_char(s@[k]),
        decreases n - j,
    {
        let c = s[j];
        let go = crate::chars::char_is_numeric(c) || c == '.';
        if !go {
            proof {
                lemma_num_end_is(s@, start as int, j as int);
            }
            return j;
        }
        j = j + 1;
    }
    proof {
        lemma_num_end_is(s@, start as int, j as int);
    }
    j
}

/// The first double quote at or after `start`, if any.
#[verifier::loop_isolation(false)]
fn find_quote(s: &Vec<char>, start: usize) -> (r: Option<usize>)
    requires
        start <= s@.len(),
    ensures
        match r {
            Some(j) => start <= j < s@.len() && quote_end(s@, start as int) == Some(j as int),
            None => quote_end(s@, start as int) is None,
        },
{
    let n = s.len();
    let mut j = start;
    while j < n
        invariant
            start <= j <= n,
            forall|k: int| start <= k < j ==> s@[k] != '"',
        decreases n - j,
    {
        if s[j] == '"' {
            proof {
                lemma_quote_end_is(s@, start as int, j as int);
            }
            return Some(j);
        }
        j = j + 1;
    }
    proof {
        lemma_quote_end_is(s@, start as int, j as int);
    }
    None
}

/// Parses the run `[i, j)` as a decimal integer, if it is one and fits.
#[verifier::loop_isolation(false)]
fn parse_digits(s: &Vec<char>, i: usize, j: usize) -> (r: Option<i128>)
    requires
        i <= j <= s@.len(),
    ensures
        match r {
            Some(v) => digits_ok(s@, i as int, j as int) && digits_val(s@, i as int, j as int)
                <= i128::MAX && v as int == digits_val(s@, i as int, j as int),
            None => !(digits_ok(s@, i as int, j as int) && digits_val(s@, i as int, j as int)
                <= i128::MAX),
        },
{
    let mut acc: i128 = 0;
    let mut k = i;
    while k < j
        invariant
            i <= k <= j,
            digits_ok(s@, i as int, k as int),
            acc >= 0,
            acc as int == digits_val(s@, i as int, k as int),
        decreases j - k,
    {
        let c = s[k];
        let cu = c as u32;
        if cu < 48 || cu > 57 {
            proof {
                assert(!crate::chars::ascii_digit(s@[k as int]));
            }
            return None;
        }
        let d: i128 = ((cu - 48) as u8) as i128;
        proof {
            assert(d as int == (cu as int) - 48);
        }
        let limit = (i128::MAX - d) / 10;
        if acc > limit {
            proof {
                assert(acc * 10 + d > i128::MAX) by (nonlinear_arith)
                    requires
                        acc > (i128::MAX - d) / 10,
                        0 <= d <= 9,
                        acc >= 0,
                ;
                assert(digits_val(s@, i as int, k as int + 1) == acc as int * 10 + d as int);
                if digits_ok(s@, i as int, j as int) {
                    lemma_digits_val_mono(s@, i as int, k as int + 1, j as int);
                }
            }
            return None;
        }
        proof {
            assert(acc * 10 + d <= i128::MAX && acc * 10 >= 0) by (nonlinear_arith)
                requires
                    acc <= (i128::MAX - d) / 10,
                    0 <= d <= 9,
                    acc >= 0,
            ;
        }
        acc = acc * 10 + d;
        k = k + 1;
    }
    Some(acc)
}

/// Maximal munch at position `i`: grows a candidate until the table answers
/// `NoMatch`, then commits the longest exact match seen, if any.
#[verifier::loop_isolation(false)]
fn munch_at(s: &Vec<char>, i: usize) -> (r: Result<(Punct, usize), String>)
    requires
        i < s@.len(),
    ensures
        match r {
            Ok((p, l)) => munch(s@, i as int) == Some((p, l as int)) && 1 <= l && i + l
                <= s@.len(),
            Err(text) => munch(s@, i as int) is None && text@ == s@.subrange(
                i as int,
                i as int + grow_fail_len(s@, i as int, 0),
            ),
        },
{
    let n = s.len();
    let mut l: usize = 0;
    let mut best: Option<(Punct, usize)> = None;
    let mut cand: Vec<char> = Vec::new();
    proof {
        assert(cand@ =~= s@.subrange(i as int, i as int + l as int));
    }
    while i + l < n
        invariant
            l <= n - i,
            cand@ == s@.subrange(i as int, i as int + l as int),
            grow_fail_len(s@, i as int, 0) == grow_fail_len(s@, i as int, l as int),
            match best {
                Some((p, m)) => best_upto(s@, i as int, l as int) == Some(m as int) && 1 <= m <= l
                    && table_lookup(s@.subrange(i as int, i as int + m as int), 0)
                    == Some::<Punct>(p),
                None => best_upto(s@, i as int, l as int) is None,
            },
        decreases n - i - l,
    {
        let ghost old_l = l as int;
        let c2 = s[i + l];
        cand.push(c2);
        l = l + 1;
        proof {
            assert(cand@ =~= s@.subrange(i as int, i as int + l as int));
        }
        let m = crate::tokens::match_punct_chars(&cand);
        match m {
            crate::tokens::PunctMatch::Matched(p) => {
                best = Some((p, l));
                proof {
                    assert(has_exact(s@, i as int, l as int));
                    assert(best_upto(s@, i as int, l as int) == Some(l as int));
                    assert(grow_fail_len(s@, i as int, old_l) == grow_fail_len(
                        s@,
                        i as int,
                        l as int,
                    ));
                }
            },
            crate::tokens::PunctMatch::Partial => {
                proof {
                    assert(!has_exact(s@, i as int, l as int));
                    assert(best_upto(s@, i as int, l as int) == best_upto(s@, i as int, old_l));
                    assert(grow_fail_len(s@, i as int, old_l) == grow_fail_len(
                        s@,
                        i as int,
                        l as int,
                    ));
                }
            },
            crate::tokens::PunctMatch::NoMatch => {
                proof {
                    assert(!has_exact(s@, i as int, l as int));
                    assert(best_upto(s@, i as int, l as int) == best_upto(s@, i as int, old_l));
                    assert forall|l2: int| l as int <= l2 <= n - i implies !has_exact(
                        s@,
                        i as int,
                        l2,
                    ) by {
                        lemma_no_match_no_extension(s@, i as int, l as int, l2);
                    }
                    lemma_best_upto_stable(s@, i as int, l as int, n as int - i as int);
                    assert(grow_fail_len(s@, i as int, old_l) == l as int);
                }
                match best {
                    Some(pl) => {
                        return Ok(pl);
                    },
                    None => {
                        let text = crate::chars::chars_to_string(&cand, 0, cand.len());
                        proof {
                            assert(text@ =~= cand@);
                        }
                        return Err(text);
                    },
                }
            },
        }
    }
    match best {
        Some(pl) => Ok(pl),
        None => {
            let text = crate::chars::chars_to_string(&cand, 0, cand.len());
            proof {
                assert(text@ =~= cand@);
            }
            Err(text)
        },
    }
}

/// Advances `(row, col)` over the characters of `[i, j)`.
#[verifier::loop_isolation(false)]
fn advance_over(s: &Vec<char>, i: usize, j: usize, row: &mut usize, col: &mut usize)
    requires
        i <= j <= s@.len(),
        s@.len() < usize::MAX,
        1 <= *old(row),
        1 <= *old(col),
        *old(row) <= 1 + i,
        *old(col) <= 1 + i,
    ensures
        (*final(row) as int, *final(col) as int) == adv_range(
            *old(row) as int,
            *old(col) as int,
            s@,
            i as int,
            j as int,
        ),
        1 <= *final(row) <= 1 + j,
        1 <= *final(col) <= 1 + j,
{
    let ghost r0 = *row as int;
    let ghost c0 = *col as int;
    let mut k = i;
    while k < j
        invariant
            i <= k <= j,
            1 <= *row <= 1 + k,
            1 <= *col <= 1 + k,
            adv_range(r0, c0, s@, i as int, j as int) == adv_range(
                *row as int,
                *col as int,
                s@,
                k as int,
                j as int,
            ),
        decreases j - k,
    {
        let c = s[k];
        if c == '\n' {
            *row = *row + 1;
            *col = 1;
        } else {
            *col = *col + 1;
        }
        k = k + 1;
    }
}

/// The flat scan: classifies the characters of `s` into position-tagged
/// units, or fails at the first offending position.
#[verifier::loop_isolation(false)]
pub fn split(s: &Vec<char>) -> (r: Result<Vec<FlatUnit>, crate::error::Error>)
    requires
        s@.len() < usize::MAX,
    ensures
        match spec_scan(s@, 0, 1, 1) {
            Ok(us) => r matches Ok(v) && units_view(v@) == us,
            Err(e) => r matches Err(err) && err.pos.row == e.row && err.pos.col == e.col
                && err.msg@ == spec_lex_msg(e.kind) && err.parent is None,
        },
{
    let n = s.len();
    let mut units: Vec<FlatUnit> = Vec::new();
    let mut i: usize = 0;
    let mut row: usize = 1;
    let mut col: usize = 1;
    proof {
        assert(units_view(units@) =~= Seq::<UnitSpec>::empty());
        if spec_scan(s@, 0, 1, 1) is Ok {
            assert(Seq::<UnitSpec>::empty() + spec_scan(s@, 0, 1, 1)->Ok_0 =~= spec_scan(
                s@,
                0,
                1,
                1,
            )->Ok_0);
        }
    }
    while i < n
        invariant
            i <= n,
            1 <= row <= 1 + i,
            1 <= col <= 1 + i,
            scan_concat(units_view(units@), spec_scan(s@, i as int, row as int, col as int))
                == spec_scan(s@, 0, 1, 1),
        decreases n - i,
    {
        let urow = row;
        let ucol = col;
        let ghost us_old = units_view(units@);
        let ghost i0 = i as int;
        let c = s[i];
        if crate::chars::char_is_alphabetic(c) {
            let j = ident_run_end(s, i);
            let name = crate::chars::chars_to_string(s, i, j);
            let unit = FlatUnit { row: urow, col: ucol, kind: FlatKind::Ident(name) };
            proof {
                lemma_ident_end(s@, i as int);
                lemma_units_view_push(units@, unit);
            }
            units.push(unit);
            advance_over(s, i, j, &mut row, &mut col);
            i = j;
            proof {
                lemma_concat_cons(
                    us_old,
                    unit@,
                    spec_scan(s@, i as int, row as int, col as int),
                );
            }
        } else if crate::chars::char_is_numeric(c) {
            let j = num_run_end(s, i);
            match parse_digits(s, i, j) {
                Some(v) => {
                    let unit = FlatUnit {
                        row: urow,
                        col: ucol,
                        kind: FlatKind::Lit(Literal::Int(v)),
                    };
                    proof {
                        lemma_num_end(s@, i as int);
                        lemma_units_view_push(units@, unit);
                    }
                    units.push(unit);
                    advance_over(s, i, j, &mut row, &mut col);
                    i = j;
                    proof {
                        lemma_concat_cons(
                            us_old,
                            unit@,
                            spec_scan(s@, i as int, row as int, col as int),
                        );
                    }
                },
                None => {
                    return Err(crate::error::Error::new(
                        String::from_str("invalid numeric literal"),
                        None,
                        ucol,
                        urow,
                    ));
                },
            }
        } else if c == '(' || c == ')' || c == '{' || c == '}' || c == '[' || c == ']' {
            let kind = if c == '(' {
                FlatKind::Open(Delimeter::Paren)
            } else if c == ')' {
                FlatKind::Close(Delimeter::Paren)
            } else if c == '{' {
                FlatKind::Open(Delimeter::Brace)
            } else if c == '}' {
                FlatKind::Close(Delimeter::Brace)
            } else if c == '[' {
                FlatKind::Open(Delimeter::Bracket)
            } else {
                FlatKind::Close(Delimeter::Bracket)
            };
            let unit = FlatUnit { row: urow, col: ucol, kind };
            proof {
                lemma_units_view_push(units@, unit);
            }
            units.push(unit);
            col = col + 1;
            i = i + 1;
            proof {
                lemma_concat_cons(
                    us_old,
                    unit@,
                    spec_scan(s@, i as int, row as int, col as int),
                );
            }
        } else if c == '"' {
            match find_quote(s, i + 1) {
                Some(j) => {
                    let content = crate::chars::chars_to_string(s, i + 1, j);
                    let unit = FlatUnit {
                        row: urow,
                        col: ucol,
                        kind: FlatKind::Lit(Literal::Str(content)),
                    };
                    proof {
                        lemma_units_view_push(units@, unit);
                    }
                    units.push(unit);
                    advance_over(s, i, j + 1, &mut row, &mut col);
                    i = j + 1;
                    proof {
                        lemma_concat_cons(
                            us_old,
                            unit@,
                            spec_scan(s@, i as int, row as int, col as int),
                        );
                    }
                },
                None => {
                    return Err(crate::error::Error::new(
                        String::from_str("missing closing '\"' for string literal"),
                        None,
                        ucol,
                        urow,
                    ));
                },
            }
        } else if crate::chars::char_is_whitespace(c) {
            if c == '\n' {
                row = row + 1;
                col = 1;
            } else {
                col = col + 1;
            }
            i = i + 1;
        } else {
            match munch_at(s, i) {
                Ok((p, l)) => {
                    let unit = FlatUnit { row: urow, col: ucol, kind: FlatKind::Punct(p) };
                    proof {
                        lemma_units_view_push(units@, unit);
                    }
                    units.push(unit);
                    advance_over(s, i, i + l, &mut row, &mut col);
                    i = i + l;
                    proof {
                        lemma_concat_cons(
                            us_old,
                            unit@,
                            spec_scan(s@, i as int, row as int, col as int),
                        );
                    }
                },
                Err(text) => {
                    let mut msg = String::from_str("Expected punctuator, got '");
                    msg.append(text.as_str());
                    msg.append("'");
                    proof {
                        let quoted = s@.subrange(
                            i as int,
                            i as int + grow_fail_len(s@, i as int, 0),
                        );
                        assert(msg@ =~= "Expected punctuator, got '"@ + quoted + "'"@);
                    }
                    return Err(crate::error::Error::new(msg, None, ucol, urow));
                },
            }
        }
    }
    proof {
        if spec_scan(s@, 0, 1, 1) is Ok {
            assert(units_view(units@) + Seq::<UnitSpec>::empty() =~= units_view(units@));
        }
    }
    Ok(units)
}


// ---------------------------------------------------------------------------
// Token-tree builder: folds the flat units into nested groups.
// ---------------------------------------------------------------------------

/// An open group on the builder's work stack: its delimiter, the position of
/// its open marker, and the cells gathered so far.
pub struct FrameSpec {
    pub delim: Delimeter,
    pub row: int,
    pub col: int,
    pub acc: Seq<CellSpec>,
}

/// The tree node a non-delimiter unit becomes.
pub open spec fn unit_tree(k: UnitKind) -> TreeSpec {
    match k {
        UnitKind::Ident(t) => TreeSpec::Ident(t),
        UnitKind::IntLit(v) => TreeSpec::Literal(LitSpec::Int(v)),
        UnitKind::StrLit(t) => TreeSpec::Literal(LitSpec::Str(t)),
        UnitKind::Punct(p) => TreeSpec::Punct(p),
        UnitKind::Open(_) => vstd::pervasive::arbitrary(),
        UnitKind::Close(_) => vstd::pervasive::arbitrary(),
    }
}

/// One step per unit: an open marker pushes a fresh frame; a close marker
/// must match the innermost open frame and folds it into a group cell; any
/// other unit becomes a cell of the innermost frame. Input that ends with
/// frames still open is an unterminated group; a close with no open frame,
/// or of the wrong kind, is rejected at the close marker's position.
pub open spec fn spec_build_run(
    us: Seq<UnitSpec>,
    i: int,
    base: Seq<CellSpec>,
    frames: Seq<FrameSpec>,
) -> Result<Seq<CellSpec>, ErrSpec>
    decreases us.len() - i when 0 <= i <= us.len()
{
    if i >= us.len() {
        if frames.len() == 0 {
            Ok(base)
        } else {
            Err(
                ErrSpec {
                    row: frames.last().row,
                    col: frames.last().col,
                    kind: LexErrKind::UnterminatedGroup,
                },
            )
        }
    } else {
        let u = us[i];
        match u.kind {
            UnitKind::Open(d) => spec_build_run(
                us,
                i + 1,
                base,
                frames.push(FrameSpec { delim: d, row: u.row, col: u.col, acc: Seq::empty() }),
            ),
            UnitKind::Close(d) => {
                if frames.len() == 0 {
                    Err(ErrSpec { row: u.row, col: u.col, kind: LexErrKind::UnexpectedClose })
                } else {
                    let top = frames.last();
                    if top.delim != d {
                        Err(ErrSpec { row: u.row, col: u.col, kind: LexErrKind::MismatchedClose })
                    } else {
                        let cell = CellSpec {
                            pos: Some((top.row, top.col)),
                            tree: TreeSpec::Group(d, top.acc),
                        };
                        if frames.len() == 1 {
                            spec_build_run(us, i + 1, base.push(cell), frames.drop_last())
                        } else {
                            let k = frames.len() - 2;
                            let below = frames[k];
                            spec_build_run(
                                us,
                                i + 1,
                                base,
                                frames.drop_last().update(
                                    k,
                                    FrameSpec {
                                        delim: below.delim,
                                        row: below.row,
                                        col: below.col,
                                        acc: below.acc.push(cell),
                                    },
                                ),
                            )
                        }
                    }
                }
            },
            _ => {
                let cell = CellSpec { pos: Some((u.row, u.col)), tree: unit_tree(u.kind) };
                if frames.len() == 0 {
                    spec_build_run(us, i + 1, base.push(cell), frames)
                } else {
                    let k = frames.len() - 1;
                    let top = frames[k];
                    spec_build_run(
                        us,
                        i + 1,
                        base,
                        frames.update(
                            k,
                            FrameSpec {
                                delim: top.delim,
                                row: top.row,
                                col: top.col,
                                acc: top.acc.push(cell),
                            },
                        ),
                    )
                }
            },
        }
    }
}

/// The token tree built from a flat unit sequence.
pub open spec fn spec_build(us: Seq<UnitSpec>) -> Result<Seq<CellSpec>, ErrSpec> {
    spec_build_run(us, 0, Seq::empty(), Seq::empty())
}

/// The whole pipeline on characters: flat scan, then group nesting.
pub open spec fn spec_tokenize(s: Seq<char>) -> Result<Seq<CellSpec>, ErrSpec> {
    match spec_scan(s, 0, 1, 1) {
        Ok(us) => spec_build(us),
        Err(e) => Err(e),
    }
}

/// An open group while the builder walks the flat units.
pub struct BuildFrame {
    pub delim: Delimeter,
    pub row: usize,
    pub col: usize,
    pub acc: Vec<TokenCell>,
}

impl View for BuildFrame {
    type V = FrameSpec;

    open spec fn view(&self) -> FrameSpec {
        FrameSpec {
            delim: self.delim,
            row: self.row as int,
            col: self.col as int,
            acc: cells_view(self.acc@),
        }
    }
}

pub open spec fn frames_view(v: Seq<BuildFrame>) -> Seq<FrameSpec> {
    Seq::new(v.len(), |k: int| v[k]@)
}

/// Folds the flat units into nested group cells with an explicit work stack,
/// so that adversarially deep nesting cannot exhaust the call stack.
#[verifier::loop_isolation(false)]
pub fn build_entries(units: &Vec<FlatUnit>) -> (r: Result<Vec<TokenCell>, crate::error::Error>)
    ensures
        match spec_build(units_view(units@)) {
            Ok(cells) => r matches Ok(v) && cells_view(v@) == cells,
            Err(e) => r matches Err(err) && err.pos.row == e.row && err.pos.col == e.col
                && err.msg@ == spec_lex_msg(e.kind) && err.parent is None,
        },
{
    let n = units.len();
    let mut base: Vec<TokenCell> = Vec::new();
    let mut frames: Vec<BuildFrame> = Vec::new();
    let mut i: usize = 0;
    proof {
        assert(cells_view(base@) =~= Seq::<CellSpec>::empty());
        assert(frames_view(frames@) =~= Seq::<FrameSpec>::empty());
    }
    while i < n
        invariant
            i <= n,
            n == units@.len(),
            spec_build_run(
                units_view(units@),
                i as int,
                cells_view(base@),
                frames_view(frames@),
            ) == spec_build(units_view(units@)),
        decreases n - i,
    {
        let ghost us = units_view(units@);
        let ghost base0 = cells_view(base@);
        let ghost frames0 = frames_view(frames@);
        let u = &units[i];
        match &u.kind {
            FlatKind::Open(d) => {
                let frame = BuildFrame { delim: *d, row: u.row, col: u.col, acc: Vec::new() };
                proof {
                    assert(frame@.acc =~= Seq::<CellSpec>::empty());
                    assert(frames_view(frames@.push(frame)) =~= frames0.push(frame@));
                }
                frames.push(frame);
            },
            FlatKind::Close(d) => {
                if frames.len() == 0 {
                    return Err(crate::error::Error::new(
                        String::from_str("unexpected group delimiter"),
                        None,
                        u.col,
                        u.row,
                    ));
                }
                let top = frames.pop().unwrap();
                if top.delim != *d {
                    return Err(crate::error::Error::new(
                        String::from_str("mismatched group delimiter"),
                        None,
                        u.col,
                        u.row,
                    ));
                }
                let cell = TokenCell {
                    pos: Some(crate::pos::Pos { col: top.col, row: top.row }),
                    tt: TokenTree::Group(*d, TokenStream { entries: top.acc }),
                };
                proof {
                    assert(cell@ == (CellSpec {
                        pos: Some((top.row as int, top.col as int)),
                        tree: TreeSpec::Group(*d, frames0.last().acc),
                    }));
                    assert(frames_view(frames@) =~= frames0.drop_last());
                }
                if frames.len() == 0 {
                    proof {
                        crate::stream::lemma_cells_view_push(base@, cell);
                    }
                    base.push(cell);
                } else {
                    let mut below = frames.pop().unwrap();
                    proof {
                        crate::stream::lemma_cells_view_push(below.acc@, cell);
                    }
                    below.acc.push(cell);
                    frames.push(below);
                    proof {
                        let k = frames0.len() - 2;
                        assert(frames_view(frames@) =~= frames0.drop_last().update(
                            k,
                            FrameSpec {
                                delim: frames0[k].delim,
                                row: frames0[k].row,
                                col: frames0[k].col,
                                acc: frames0[k].acc.push(cell@),
                            },
                        ));
                    }
                }
            },
            FlatKind::Ident(name) => {
                let cell = TokenCell {
                    pos: Some(crate::pos::Pos { col: u.col, row: u.row }),
                    tt: TokenTree::Ident(name.clone()),
                };
                push_cell(&mut base, &mut frames, cell);
            },
            FlatKind::Lit(l) => {
                let cell = TokenCell {
                    pos: Some(crate::pos::Pos { col: u.col, row: u.row }),
                    tt: TokenTree::Literal(l.clone()),
                };
                push_cell(&mut base, &mut frames, cell);
            },
            FlatKind::Punct(p) => {
                let cell = TokenCell {
                    pos: Some(crate::pos::Pos { col: u.col, row: u.row }),
                    tt: TokenTree::Punct(*p),
                };
                push_cell(&mut base, &mut frames, cell);
            },
        }
        i = i + 1;
    }
    if frames.len() == 0 {
        return Ok(base);
    }
    let top = &frames[frames.len() - 1];
    proof {
        assert(frames_view(frames@).last() == top@);
    }
    Err(crate::error::Error::new(
        String::from_str("unterminated group"),
        None,
        top.col,
        top.row,
    ))
}

/// Appends a finished cell to the innermost open frame, or to the top level.
#[verifier::loop_isolation(false)]
fn push_cell(base: &mut Vec<TokenCell>, frames: &mut Vec<BuildFrame>, cell: TokenCell)
    ensures
        old(frames)@.len() == 0 ==> final(frames)@ == old(frames)@ && cells_view(final(base)@)
            == cells_view(old(base)@).push(cell@),
        old(frames)@.len() > 0 ==> final(base)@ == old(base)@ && frames_view(final(frames)@)
            == frames_view(old(frames)@).update(
            old(frames)@.len() - 1,
            FrameSpec {
                delim: frames_view(old(frames)@).last().delim,
                row: frames_view(old(frames)@).last().row,
                col: frames_view(old(frames)@).last().col,
                acc: frames_view(old(frames)@).last().acc.push(cell@),
            },
        ),
{
    let ghost frames0 = frames_view(frames@);
    if frames.len() == 0 {
        proof {
            crate::stream::lemma_cells_view_push(base@, cell);
        }
        base.push(cell);
    } else {
        let mut top = frames.pop().unwrap();
        proof {
            crate::stream::lemma_cells_view_push(top.acc@, cell);
        }
        top.acc.push(cell);
        frames.push(top);
        proof {
            let k = frames0.len() - 1;
            assert(frames_view(frames@) =~= frames0.update(
                k,
                FrameSpec {
                    delim: frames0[k].delim,
                    row: frames0[k].row,
                    col: frames0[k].col,
                    acc: frames0[k].acc.push(cell@),
                },
            ));
        }
    }
}


/// Tokenizes source text: the flat scan followed by group nesting. The
/// length bound keeps the position counters within machine range.
pub fn tokenize(source: &str) -> (r: Result<TokenStream, crate::error::Error>)
    requires
        source@.len() < usize::MAX,
    ensures
        match spec_tokenize(source@) {
            Ok(cells) => r matches Ok(ts) && ts@ == cells,
            Err(e) => r matches Err(err) && err.pos.row == e.row && err.pos.col == e.col
                && err.msg@ == spec_lex_msg(e.kind) && err.parent is None,
        },
{
    let chars = crate::chars::str_to_chars(source);
    match split(&chars) {
        Ok(units) => match build_entries(&units) {
            Ok(cells) => Ok(TokenStream { entries: cells }),
            Err(e) => Err(e),
        },
        Err(e) => Err(e),
    }
}

impl TokenStream {
    /// Tokenizes source text into a token tree; the lexer's entry point.
    pub fn from_str(source: &str) -> (r: Result<TokenStream, crate::error::Error>)
        requires
            source@.len() < usize::MAX,
        ensures
            match spec_tokenize(source@) {
                Ok(cells) => r matches Ok(ts) && ts@ == cells,
                Err(e) => r matches Err(err) && err.pos.row == e.row && err.pos.col == e.col
                    && err.msg@ == spec_lex_msg(e.kind) && err.parent is None,
            },
    {
        tokenize(source)
    }
}


/// Every character of the maximal identifier run is an identifier character.
pub proof fn lemma_ident_end_chars(s: Seq<char>, i: int)
    requires
        0 <= i <= s.len(),
    ensures
        forall|k: int| i <= k < ident_end(s, i) ==> is_ident_char(s[k]),
        ident_end(s, i) == s.len() || !is_ident_char(s[ident_end(s, i)]),
    decreases s.len() - i,
{
    lemma_ident_end(s, i);
    if i < s.len() && is_ident_char(s[i]) {
        lemma_ident_end_chars(s, i + 1);
    }
}

/// A length with an exact match never beats the best munch: the committed
/// punctuator covers every exact match, so a longer lexeme is never split.
pub proof fn lemma_maximal_munch(s: Seq<char>, i: int, l: int)
    requires
        has_exact(s, i, l),
    ensures
        munch(s, i) matches Some(pl) && pl.1 >= l,
{
    lemma_best_upto_ge(s, i, l, s.len() - i);
}

proof fn lemma_best_upto_ge(s: Seq<char>, i: int, l: int, hi: int)
    requires
        has_exact(s, i, l),
        l <= hi,
    ensures
        best_upto(s, i, hi) matches Some(m) && m >= l,
    decreases hi,
{
    if hi > l && !has_exact(s, i, hi) {
        lemma_best_upto_ge(s, i, l, hi - 1);
    }
}

/// Identifier classification is maximal: an alphabetic start always takes
/// the whole alphanumeric-or-underscore run as one identifier, so a keyword
/// prefix inside a longer run is never split off.
pub proof fn lemma_ident_maximal(s: Seq<char>, i: int, row: int, col: int)
    requires
        0 <= i < s.len(),
        is_alpha(s[i]),
    ensures
        i < ident_end(s, i) <= s.len(),
        forall|k: int| i <= k < ident_end(s, i) ==> is_ident_char(s[k]),
        ident_end(s, i) == s.len() || !is_ident_char(s[ident_end(s, i)]),
        spec_scan(s, i, row, col) matches Ok(us) ==> us.len() >= 1 && us[0].kind
            == UnitKind::Ident(s.subrange(i, ident_end(s, i))) && us[0].row == row && us[0].col
            == col,
{
    lemma_ident_end(s, i);
    lemma_ident_end_chars(s, i);
    let j = ident_end(s, i);
    let rc = adv_range(row, col, s, i, j);
    if spec_scan(s, i, row, col) is Ok {
        assert(spec_scan(s, i, row, col) == scan_cons(
            UnitSpec { row, col, kind: UnitKind::Ident(s.subrange(i, j)) },
            spec_scan(s, j, rc.0, rc.1),
        ));
    }
}


/// Strict lexicographic order on source positions.
pub open spec fn pos_lt(ar: int, ac: int, br: int, bc: int) -> bool {
    ar < br || (ar == br && ac < bc)
}

/// Non-strict lexicographic order on source positions.
pub open spec fn pos_le(ar: int, ac: int, br: int, bc: int) -> bool {
    ar < br || (ar == br && ac <= bc)
}

proof fn lemma_adv_range_le(row: int, col: int, s: Seq<char>, i: int, j: int)
    requires
        i <= j,
    ensures
        pos_le(row, col, adv_range(row, col, s, i, j).0, adv_range(row, col, s, i, j).1),
        i < j ==> pos_lt(row, col, adv_range(row, col, s, i, j).0, adv_range(row, col, s, i, j).1),
    decreases j - i,
{
    if i < j {
        let rc = adv1(row, col, s[i]);
        lemma_adv_range_le(rc.0, rc.1, s, i + 1, j);
    }
}

/// Position values of the scanned units are strictly increasing in
/// lexicographic row-column order: rows never decrease, and within a row
/// columns strictly grow from unit to unit.
#[verifier::spinoff_prover]
#[verifier::rlimit(60)]
pub proof fn lemma_positions_monotonic(s: Seq<char>, i: int, row: int, col: int)
    requires
        0 <= i <= s.len(),
    ensures
        spec_scan(s, i, row, col) matches Ok(us) ==> {
            &&& forall|k: int|
                0 <= k < us.len() ==> pos_le(row, col, #[trigger] us[k].row, us[k].col)
            &&& forall|k: int|
                0 <= k < us.len() - 1 ==> pos_lt(
                    #[trigger] us[k].row,
                    us[k].col,
                    us[k + 1].row,
                    us[k + 1].col,
                )
        },
    decreases s.len() - i,
{
    if i >= s.len() {
        return;
    }
    if spec_scan(s, i, row, col) is Err {
        return;
    }
    let c = s[i];
    let us = spec_scan(s, i, row, col)->Ok_0;
    if is_alpha(c) || is_num(c) || c == '(' || c == ')' || c == '{' || c == '}' || c == '['
        || c == ']' || c == '"' || !is_ws(c) {
        // A unit is emitted covering the characters up to some j > i.
        let j: int = if is_alpha(c) {
            ident_end(s, i)
        } else if is_num(c) {
            num_end(s, i)
        } else if c == '(' || c == ')' || c == '{' || c == '}' || c == '[' || c == ']' {
            i + 1
        } else if c == '"' {
            quote_end(s, i + 1)->Some_0 + 1
        } else {
            i + munch(s, i)->Some_0.1
        };
        lemma_ident_end(s, i);
        lemma_num_end(s, i);
        if c == '"' {
            lemma_quote_end(s, i + 1);
        }
        lemma_best_upto_bounds(s, i, s.len() - i);
        assert(i < j <= s.len());
        let rc = adv_range(row, col, s, i, j);
        lemma_adv_range_le(row, col, s, i, j);
        lemma_positions_monotonic(s, j, rc.0, rc.1);
        let rest = spec_scan(s, j, rc.0, rc.1)->Ok_0;
        if is_alpha(c) {
            assert(spec_scan(s, i, row, col) == scan_cons(
                UnitSpec { row, col, kind: UnitKind::Ident(s.subrange(i, j)) },
                spec_scan(s, j, rc.0, rc.1),
            ));
        } else if is_num(c) {
            assert(spec_scan(s, i, row, col) == scan_cons(
                UnitSpec { row, col, kind: UnitKind::IntLit(digits_val(s, i, j)) },
                spec_scan(s, j, rc.0, rc.1),
            ));
        } else if c == '(' {
            assert(s[i] == '(');
            assert(s[i] != '\n');
            assert(adv1(row, col, s[i]) == (row, col + 1));
            assert(adv_range(row, col, s, i, i + 1) == adv_range(
                adv1(row, col, s[i]).0,
                adv1(row, col, s[i]).1,
                s,
                i + 1,
                i + 1,
            ));
            assert(adv_range(rc.0, rc.1, s, i + 1, i + 1) == rc);
            assert(rc == (row, col + 1));
            assert(spec_scan(s, i, row, col) == scan_cons(
                UnitSpec { row, col, kind: UnitKind::Open(Delimeter::Paren) },
                spec_scan(s, i + 1, row, col + 1),
            ));
        } else if c == ')' {
            assert(s[i] == ')');
            assert(s[i] != '\n');
            assert(adv1(row, col, s[i]) == (row, col + 1));
            assert(adv_range(row, col, s, i, i + 1) == adv_range(
                adv1(row, col, s[i]).0,
                adv1(row, col, s[i]).1,
                s,
                i + 1,
                i + 1,
            ));
            assert(adv_range(rc.0, rc.1, s, i + 1, i + 1) == rc);
            assert(rc == (row, col + 1));
            assert(spec_scan(s, i, row, col) == scan_cons(
                UnitSpec { row, col, kind: UnitKind::Close(Delimeter::Paren) },
                spec_scan(s, i + 1, row, col + 1),
            ));
        } else if c == '{' {
            assert(s[i] == '{');
            assert(s[i] != '\n');
            assert(adv1(row, col, s[i]) == (row, col + 1));
            assert(adv_range(row, col, s, i, i + 1) == adv_range(
                adv1(row, col, s[i]).0,
                adv1(row, col, s[i]).1,
                s,
                i + 1,
                i + 1,
            ));
            assert(adv_range(rc.0, rc.1, s, i + 1, i + 1) == rc);
            assert(rc == (row, col + 1));
            assert(spec_scan(s, i, row, col) == scan_cons(
                UnitSpec { row, col, kind: UnitKind::Open(Delimeter::Brace) },
                spec_scan(s, i + 1, row, col + 1),
            ));
        } else if c == '}' {
            assert(s[i] == '}');
            assert(s[i] != '\n');
            assert(adv1(row, col, s[i]) == (row, col + 1));
            assert(adv_range(row, col, s, i, i + 1) == adv_range(
                adv1(row, col, s[i]).0,
                adv1(row, col, s[i]).1,
                s,
                i + 1,
                i + 1,
            ));
            assert(adv_range(rc.0, rc.1, s, i + 1, i + 1) == rc);
            assert(rc == (row, col + 1));
            assert(spec_scan(s, i, row, col) == scan_cons(
                UnitSpec { row, col, kind: UnitKind::Close(Delimeter::Brace) },
                spec_scan(s, i + 1, row, col + 1),
            ));
        } else if c == '[' {
            assert(s[i] == '[');
            assert(s[i] != '\n');
            assert(adv1(row, col, s[i]) == (row, col + 1));
            assert(adv_range(row, col, s, i, i + 1) == adv_range(
                adv1(row, col, s[i]).0,
                adv1(row, col, s[i]).1,
                s,
                i + 1,
                i + 1,
            ));
            assert(adv_range(rc.0, rc.1, s, i + 1, i + 1) == rc);
            assert(rc == (row, col + 1));
            assert(spec_scan(s, i, row, col) == scan_cons(
                UnitSpec { row, col, kind: UnitKind::Open(Delimeter::Bracket) },
                spec_scan(s, i + 1, row, col + 1),
            ));
        } else if c == ']' {
            assert(s[i] == ']');
            assert(s[i] != '\n');
            assert(adv1(row, col, s[i]) == (row, col + 1));
            assert(adv_range(row, col, s, i, i + 1) == adv_range(
                adv1(row, col, s[i]).0,
                adv1(row, col, s[i]).1,
                s,
                i + 1,
                i + 1,
            ));
            assert(adv_range(rc.0, rc.1, s, i + 1, i + 1) == rc);
            assert(rc == (row, col + 1));
            assert(spec_scan(s, i, row, col) == scan_cons(
                UnitSpec { row, col, kind: UnitKind::Close(Delimeter::Bracket) },
                spec_scan(s, i + 1, row, col + 1),
            ));
        } else if c == '"' {
            assert(spec_scan(s, i, row, col) == scan_cons(
                UnitSpec { row, col, kind: UnitKind::StrLit(s.subrange(i + 1, j - 1)) },
                spec_scan(s, j, rc.0, rc.1),
            ));
        } else {
            assert(spec_scan(s, i, row, col) == scan_cons(
                UnitSpec { row, col, kind: UnitKind::Punct(munch(s, i)->Some_0.0) },
                spec_scan(s, j, rc.0, rc.1),
            ));
        }
        assert(us == seq![us[0]] + rest);
        assert(us[0].row == row && us[0].col == col);
        assert forall|k: int| 0 <= k < us.len() implies pos_le(
            row,
            col,
            #[trigger] us[k].row,
            us[k].col,
        ) by {
            if k > 0 {
                assert(us[k] == rest[k - 1]);
            }
        }
        assert forall|k: int| 0 <= k < us.len() - 1 implies pos_lt(
            #[trigger] us[k].row,
            us[k].col,
            us[k + 1].row,
            us[k + 1].col,
        ) by {
            if k == 0 {
                if us.len() > 1 {
                    assert(us[1] == rest[0]);
                    assert(pos_le(rc.0, rc.1, rest[0].row, rest[0].col));
                }
            } else {
                assert(us[k] == rest[k - 1]);
                assert(us[k + 1] == rest[k]);
            }
        }
    } else {
        // Whitespace: one character is consumed and no unit is emitted.
        let rc = adv1(row, col, c);
        lemma_adv_range_le(row, col, s, i, i + 1);
        assert(adv_range(rc.0, rc.1, s, i + 1, i + 1) == rc);
        assert(adv_range(row, col, s, i, i + 1) == rc);
        lemma_positions_monotonic(s, i + 1, rc.0, rc.1);
    }
}


/// Scanning text that is exactly one punctuator lexeme yields exactly one
/// punctuator unit at the starting position: the candidate is committed
/// whole and never split into shorter matches. The hypotheses on the first
/// character hold of every entry of the punctuator table — no punctuator
/// starts with a letter, digit, delimiter, quote or whitespace — and are
/// stated here because those Unicode classes are named, not defined, in
/// this crate.
pub proof fn lemma_punct_scans_whole(s: Seq<char>, row: int, col: int)
    requires
        s.len() >= 1,
        table_lookup(s, 0) is Some,
        !is_alpha(s[0]),
        !is_num(s[0]),
        !is_ws(s[0]),
        s[0] != '(',
        s[0] != ')',
        s[0] != '{',
        s[0] != '}',
        s[0] != '[',
        s[0] != ']',
        s[0] != '"',
    ensures
        spec_scan(s, 0, row, col) == Ok::<Seq<UnitSpec>, ErrSpec>(
            seq![
                UnitSpec { row, col, kind: UnitKind::Punct(table_lookup(s, 0)->Some_0) },
            ],
        ),
{
    let n = s.len() as int;
    assert(s.subrange(0, n) =~= s);
    assert(has_exact(s, 0, n));
    lemma_best_upto_ge(s, 0, n, n);
    lemma_best_upto_bounds(s, 0, n);
    assert(best_upto(s, 0, n) == Some(n));
    assert(munch(s, 0) == Some((table_lookup(s, 0)->Some_0, n)));
    let rc = adv_range(row, col, s, 0, n);
    assert(spec_scan(s, n, rc.0, rc.1) == Ok::<Seq<UnitSpec>, ErrSpec>(Seq::<UnitSpec>::empty()));
    let u = UnitSpec { row, col, kind: UnitKind::Punct(table_lookup(s, 0)->Some_0) };
    assert(spec_scan(s, 0, row, col) == scan_cons(u, spec_scan(s, n, rc.0, rc.1)));
    assert(seq![u] + Seq::<UnitSpec>::empty() =~= seq![u]);
}

} // verus!







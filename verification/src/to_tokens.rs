use vstd::prelude::*;
use vstd::string::StringExecFns;
use crate::stream::{CellSpec, TokenCell, TokenStream, TokenTree, TreeSpec};
use crate::tokens::{
    keyword_text, punct_text, spec_keyword_of, spec_keyword_text, spec_punct_text, Delimeter,
    Keyword, Punct, Token,
};

verus! {

broadcast use vstd::seq::group_seq_axioms, vstd::string::group_string_axioms;

/// The emission capability, the inverse of parsing: a value appends its
/// canonical token representation to a target output stream.
pub trait ToTokens {
    /// The canonical token representation of this value.
    spec fn rep(&self) -> Seq<CellSpec>;

    /// Appends the representation of this value to `tokens`.
    fn to_tokens(&self, tokens: &mut TokenStream)
        ensures
            final(tokens)@ == old(tokens)@ + self.rep(),
    ;
}

impl ToTokens for Keyword {
    open spec fn rep(&self) -> Seq<CellSpec> {
        seq![CellSpec { pos: None, tree: TreeSpec::Ident(spec_keyword_text(*self)) }]
    }

    fn to_tokens(&self, tokens: &mut TokenStream) {
        let name = String::from_str(keyword_text(*self));
        tokens.extend_one(TokenTree::Ident(name));
        proof {
            assert(tokens@ =~= old(tokens)@ + self.rep());
        }
    }
}

impl ToTokens for Punct {
    open spec fn rep(&self) -> Seq<CellSpec> {
        seq![CellSpec { pos: None, tree: TreeSpec::Punct(*self) }]
    }

    fn to_tokens(&self, tokens: &mut TokenStream) {
        tokens.extend_one(TokenTree::Punct(*self));
        proof {
            assert(tokens@ =~= old(tokens)@ + self.rep());
        }
    }
}

/// An absent value emits nothing, so optional fields vanish cleanly.
impl<T: ToTokens> ToTokens for Option<T> {
    open spec fn rep(&self) -> Seq<CellSpec> {
        match self {
            Some(v) => v.rep(),
            None => Seq::empty(),
        }
    }

    fn to_tokens(&self, tokens: &mut TokenStream) {
        match self {
            Some(v) => v.to_tokens(tokens),
            None => {
                proof {
                    assert(old(tokens)@ + Seq::<CellSpec>::empty() =~= old(tokens)@);
                }
            },
        }
    }
}

/// A finished group node ready for emission. Its position is synthetic,
/// since it was generated rather than lexed.
pub struct Delimited {
    pub cell: TokenCell,
}

impl ToTokens for Delimited {
    open spec fn rep(&self) -> Seq<CellSpec> {
        seq![self.cell@]
    }

    fn to_tokens(&self, tokens: &mut TokenStream) {
        tokens.push_cell(self.cell.clone());
        proof {
            assert(tokens@ =~= old(tokens)@ + self.rep());
        }
    }
}

/// Emits `inner` into a fresh stream and wraps it in a group of kind
/// `delim`.
fn delimited<T: ToTokens>(inner: &T, delim: Delimeter) -> (r: Delimited)
    ensures
        r.cell@ == (CellSpec { pos: None, tree: TreeSpec::Group(delim, inner.rep()) }),
{
    let mut ts = TokenStream::new_empty();
    inner.to_tokens(&mut ts);
    proof {
        assert(ts@ =~= inner.rep());
    }
    Delimited { cell: TokenCell::new(TokenTree::Group(delim, ts)) }
}

/// Wraps the emission of `inner` in parentheses.
pub fn parenthesized<T: ToTokens>(inner: &T) -> (r: Delimited)
    ensures
        r.cell@ == (CellSpec { pos: None, tree: TreeSpec::Group(Delimeter::Paren, inner.rep()) }),
{
    delimited(inner, Delimeter::Paren)
}

/// Wraps the emission of `inner` in brackets.
pub fn bracketed<T: ToTokens>(inner: &T) -> (r: Delimited)
    ensures
        r.cell@ == (CellSpec {
            pos: None,
            tree: TreeSpec::Group(Delimeter::Bracket, inner.rep()),
        }),
{
    delimited(inner, Delimeter::Bracket)
}

/// Wraps the emission of `inner` in braces.
pub fn braced<T: ToTokens>(inner: &T) -> (r: Delimited)
    ensures
        r.cell@ == (CellSpec { pos: None, tree: TreeSpec::Group(Delimeter::Brace, inner.rep()) }),
{
    delimited(inner, Delimeter::Brace)
}

/// A sequence of already-emitted cells that replays them on emission.
pub struct Multiple {
    pub ts: TokenStream,
}

impl ToTokens for Multiple {
    open spec fn rep(&self) -> Seq<CellSpec> {
        self.ts@
    }

    fn to_tokens(&self, tokens: &mut TokenStream) {
        tokens.extend(&self.ts);
    }
}

/// Builds a composite emission: `f` receives a fresh stream and appends any
/// number of values to it in order.
pub fn multiple<F: FnOnce(TokenStream) -> TokenStream>(f: F) -> (r: Multiple)
    requires
        forall|ts: TokenStream| ts@ == Seq::<CellSpec>::empty() ==> call_requires(f, (ts,)),
    ensures
        exists|ts0: TokenStream, out: TokenStream|
            ts0@ == Seq::<CellSpec>::empty() && #[trigger] call_ensures(f, (ts0,), out) && r.ts
                == out,
{
    let ts = TokenStream::new_empty();
    let ghost t0 = ts;
    let out = f(ts);
    proof {
        assert(call_ensures(f, (t0,), out));
    }
    Multiple { ts: out }
}

/// Emits `v` into a fresh stream: the entry point of emission.
pub fn to_tokens<T: ToTokens>(v: &T) -> (r: TokenStream)
    ensures
        r@ == v.rep(),
{
    let mut ts = TokenStream::new_empty();
    v.to_tokens(&mut ts);
    proof {
        assert(ts@ =~= v.rep());
    }
    ts
}

/// Emission inverse for keyword markers: the one cell a keyword emits
/// satisfies that same keyword's match test, so consuming it parses back
/// the keyword that was emitted.
pub proof fn lemma_emit_parse_keyword(k: Keyword)
    ensures
        k.token_matches(k.rep(), 0),
        crate::parse::keyword_at(k.rep(), 0) == Some(k),
{
    lemma_keyword_text_roundtrip(k);
}

/// Emission inverse for punctuator markers: the one cell a punctuator emits
/// satisfies that same punctuator's match test, so consuming it parses back
/// the punctuator that was emitted.
pub proof fn lemma_emit_parse_punct(p: Punct)
    ensures
        p.token_matches(p.rep(), 0),
        crate::parse::punct_at(p.rep(), 0) == Some(p),
{
}

/// A keyword's display text maps back to that keyword and no other.
#[verifier::rlimit(100)]
pub proof fn lemma_keyword_text_roundtrip(k: Keyword)
    ensures
        spec_keyword_of(spec_keyword_text(k)) == Some(k),
{
    reveal_strlit("auto");
    assert("auto"@ =~= seq!['a', 'u', 't', 'o']);
    reveal_strlit("extern");
    assert("extern"@ =~= seq!['e', 'x', 't', 'e', 'r', 'n']);
    reveal_strlit("short");
    assert("short"@ =~= seq!['s', 'h', 'o', 'r', 't']);
    reveal_strlit("while");
    assert("while"@ =~= seq!['w', 'h', 'i', 'l', 'e']);
    reveal_strlit("break");
    assert("break"@ =~= seq!['b', 'r', 'e', 'a', 'k']);
    reveal_strlit("float");
    assert("float"@ =~= seq!['f', 'l', 'o', 'a', 't']);
    reveal_strlit("signed");
    assert("signed"@ =~= seq!['s', 'i', 'g', 'n', 'e', 'd']);
    reveal_strlit("_Alignas");
    assert("_Alignas"@ =~= seq!['_', 'A', 'l', 'i', 'g', 'n', 'a', 's']);
    reveal_strlit("case");
    assert("case"@ =~= seq!['c', 'a', 's', 'e']);
    reveal_strlit("for");
    assert("for"@ =~= seq!['f', 'o', 'r']);
    reveal_strlit("sizeof");
    assert("sizeof"@ =~= seq!['s', 'i', 'z', 'e', 'o', 'f']);
    reveal_strlit("_Alignof");
    assert("_Alignof"@ =~= seq!['_', 'A', 'l', 'i', 'g', 'n', 'o', 'f']);
    reveal_strlit("char");
    assert("char"@ =~= seq!['c', 'h', 'a', 'r']);
    reveal_strlit("goto");
    assert("goto"@ =~= seq!['g', 'o', 't', 'o']);
    reveal_strlit("static");
    assert("static"@ =~= seq!['s', 't', 'a', 't', 'i', 'c']);
    reveal_strlit("_Atomic");
    assert("_Atomic"@ =~= seq!['_', 'A', 't', 'o', 'm', 'i', 'c']);
    reveal_strlit("const");
    assert("const"@ =~= seq!['c', 'o', 'n', 's', 't']);
    reveal_strlit("if");
    assert("if"@ =~= seq!['i', 'f']);
    reveal_strlit("struct");
    assert("struct"@ =~= seq!['s', 't', 'r', 'u', 'c', 't']);
    reveal_strlit("_Bool");
    assert("_Bool"@ =~= seq!['_', 'B', 'o', 'o', 'l']);
    reveal_strlit("Continue");
    assert("Continue"@ =~= seq!['C', 'o', 'n', 't', 'i', 'n', 'u', 'e']);
    reveal_strlit("inline");
    assert("inline"@ =~= seq!['i', 'n', 'l', 'i', 'n', 'e']);
    reveal_strlit("switch");
    assert("switch"@ =~= seq!['s', 'w', 'i', 't', 'c', 'h']);
    reveal_strlit("_Complex");
    assert("_Complex"@ =~= seq!['_', 'C', 'o', 'm', 'p', 'l', 'e', 'x']);
    reveal_strlit("default");
    assert("default"@ =~= seq!['d', 'e', 'f', 'a', 'u', 'l', 't']);
    reveal_strlit("int");
    assert("int"@ =~= seq!['i', 'n', 't']);
    reveal_strlit("typedef");
    assert("typedef"@ =~= seq!['t', 'y', 'p', 'e', 'd', 'e', 'f']);
    reveal_strlit("_Generic");
    assert("_Generic"@ =~= seq!['_', 'G', 'e', 'n', 'e', 'r', 'i', 'c']);
    reveal_strlit("do");
    assert("do"@ =~= seq!['d', 'o']);
    reveal_strlit("long");
    assert("long"@ =~= seq!['l', 'o', 'n', 'g']);
    reveal_strlit("union");
    assert("union"@ =~= seq!['u', 'n', 'i', 'o', 'n']);
    reveal_strlit("_Imaginary");
    assert("_Imaginary"@ =~= seq!['_', 'I', 'm', 'a', 'g', 'i', 'n', 'a', 'r', 'y']);
    reveal_strlit("double");
    assert("double"@ =~= seq!['d', 'o', 'u', 'b', 'l', 'e']);
    reveal_strlit("register");
    assert("register"@ =~= seq!['r', 'e', 'g', 'i', 's', 't', 'e', 'r']);
    reveal_strlit("unsigned");
    assert("unsigned"@ =~= seq!['u', 'n', 's', 'i', 'g', 'n', 'e', 'd']);
    reveal_strlit("_Noreturn");
    assert("_Noreturn"@ =~= seq!['_', 'N', 'o', 'r', 'e', 't', 'u', 'r', 'n']);
    reveal_strlit("else");
    assert("else"@ =~= seq!['e', 'l', 's', 'e']);
    reveal_strlit("restrict");
    assert("restrict"@ =~= seq!['r', 'e', 's', 't', 'r', 'i', 'c', 't']);
    reveal_strlit("void");
    assert("void"@ =~= seq!['v', 'o', 'i', 'd']);
    reveal_strlit("_Static_assert");
    assert("_Static_assert"@ =~= seq!['_', 'S', 't', 'a', 't', 'i', 'c', '_', 'a', 's', 's', 'e', 'r', 't']);
    reveal_strlit("enum");
    assert("enum"@ =~= seq!['e', 'n', 'u', 'm']);
    reveal_strlit("return");
    assert("return"@ =~= seq!['r', 'e', 't', 'u', 'r', 'n']);
    reveal_strlit("volatile");
    assert("volatile"@ =~= seq!['v', 'o', 'l', 'a', 't', 'i', 'l', 'e']);
    reveal_strlit("_Thread_local");
    assert("_Thread_local"@ =~= seq!['_', 'T', 'h', 'r', 'e', 'a', 'd', '_', 'l', 'o', 'c', 'a', 'l']);
}

} // verus!

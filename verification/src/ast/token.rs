//! Names, places in the source, and tokens that are carried by handle.
use vstd::prelude::*;
use vstd::utf8::{encode_utf8, encode_utf8_decode_utf8};

verus! {

/// A place in the source text. The caller chooses the numbering, but for 0,
/// which is the place of the invocation; the library only copies spans around
/// and hands them back in errors.
#[derive(Clone, Copy, Debug, PartialEq, Eq, Structural)]
pub struct Span {
    pub id: u64,
}

impl Span {
    /// The span of tokens that the transformation makes up itself.
    pub open spec fn spec_call_site() -> Span {
        Span { id: 0 }
    }

    #[verifier::when_used_as_spec(spec_call_site)]
    pub fn call_site() -> (s: Span)
        ensures
            s == Span::spec_call_site(),
    {
        Span { id: 0 }
    }
}

/// Source tokens that the transformation never looks into. The caller keeps
/// the tokens and hands out the handle; the handle 0 stands for no tokens.
#[derive(Clone, Copy, Debug, PartialEq, Eq, Structural)]
pub struct Tokens {
    pub id: u64,
}

impl Tokens {
    /// The handle that stands for no tokens at all.
    pub open spec fn spec_none() -> Tokens {
        Tokens { id: 0 }
    }

    #[verifier::when_used_as_spec(spec_none)]
    pub fn none() -> (t: Tokens)
        ensures
            t == Tokens::spec_none(),
    {
        Tokens { id: 0 }
    }
}

/// A name with the place it was written at.
#[derive(Debug, PartialEq, Eq)]
pub struct Ident {
    pub name: String,
    pub span: Span,
}

pub struct IdentView {
    pub name: Seq<char>,
    pub span: Span,
}

impl View for Ident {
    type V = IdentView;

    open spec fn view(&self) -> IdentView {
        IdentView { name: self.name@, span: self.span }
    }
}

impl Clone for Ident {
    fn clone(&self) -> (r: Self)
        ensures
            r@ == self@,
    {
        Ident { name: self.name.clone(), span: self.span }
    }
}

impl Ident {
    pub fn new(name: &str, span: Span) -> (r: Ident)
        ensures
            r@ == (IdentView { name: name@, span }),
    {
        Ident { name: name.to_owned(), span }
    }

    /// Two identifiers are the same name when their text is equal; where they
    /// were written plays no part.
    pub fn same_name(&self, other: &Ident) -> (r: bool)
        ensures
            r == (self@.name == other@.name),
    {
        self.name == other.name
    }

    /// Whether the text of the identifier is `name`.
    pub fn is(&self, name: &str) -> (r: bool)
        ensures
            r == (self@.name == name@),
    {
        str_eq(self.name.as_str(), name)
    }
}

/// The views of a list of identifiers.
pub open spec fn idents_view(v: Seq<Ident>) -> Seq<IdentView> {
    Seq::new(v.len(), |i: int| v[i]@)
}

pub fn clone_idents(v: &Vec<Ident>) -> (r: Vec<Ident>)
    ensures
        idents_view(r@) == idents_view(v@),
{
    let mut out: Vec<Ident> = Vec::new();
    let mut i: usize = 0;
    while i < v.len()
        invariant
            i <= v.len(),
            out.len() == i,
            forall|j: int| 0 <= j < i ==> out[j]@ == v[j]@,
        decreases v.len() - i,
    {
        out.push(v[i].clone());
        i += 1;
    }
    assert(idents_view(out@) =~= idents_view(v@));
    out
}

/// Whether two byte strings hold the same bytes.
pub fn bytes_eq(a: &[u8], b: &[u8]) -> (r: bool)
    ensures
        r == (a@ == b@),
{
    if a.len() != b.len() {
        return false;
    }
    let mut i: usize = 0;
    while i < a.len()
        invariant
            i <= a.len(),
            a.len() == b.len(),
            forall|j: int| 0 <= j < i ==> a@[j] == b@[j],
        decreases a.len() - i,
    {
        if a[i] != b[i] {
            return false;
        }
        i += 1;
    }
    assert(a@ =~= b@);
    true
}

/// Text is equal exactly when its UTF-8 bytes are.
pub proof fn lemma_utf8_injective(a: Seq<char>, b: Seq<char>)
    ensures
        (encode_utf8(a) == encode_utf8(b)) == (a == b),
{
    encode_utf8_decode_utf8(a);
    encode_utf8_decode_utf8(b);
}

/// Whether two pieces of text are equal.
pub fn str_eq(a: &str, b: &str) -> (r: bool)
    ensures
        r == (a@ == b@),
{
    proof {
        lemma_utf8_injective(a@, b@);
    }
    bytes_eq(a.as_bytes(), b.as_bytes())
}

} // verus!

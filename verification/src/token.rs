use vstd::prelude::*;
use vstd::string::StringExecFns;

verus! {

/// The four sorts of token.
#[derive(Clone, Copy, Debug, PartialEq, Eq, Structural)]
pub enum TokenKind {
    /// An identifier or a keyword.
    Ident,
    /// One character of punctuation.
    Punct,
    /// A literal, in its source form.
    Literal,
    /// A delimited group, in its source form with its delimiters.
    Group,
}

/// One token of a directive or of a bound expression.
#[derive(Clone, Debug, PartialEq, Eq)]
pub struct Token {
    pub kind: TokenKind,
    /// The token as written in source.
    pub text: String,
    /// For punctuation: whether the next token follows with nothing in between, as the
    /// first `:` of `::` does.
    pub joint: bool,
}

/// A token as a mathematical value.
pub struct TokenSpec {
    pub kind: TokenKind,
    pub text: Seq<char>,
    pub joint: bool,
}

impl DeepView for Token {
    type V = TokenSpec;

    open spec fn deep_view(&self) -> TokenSpec {
        TokenSpec { kind: self.kind, text: self.text@, joint: self.joint }
    }
}

impl TokenSpec {
    /// Punctuation written as the one character `c`.
    pub open spec fn is_punct(self, c: char) -> bool {
        self.kind == TokenKind::Punct && self.text == seq![c]
    }

    /// Whether the text of the next token is written directly behind this one.
    pub open spec fn glued(self) -> bool {
        self.kind == TokenKind::Punct && self.joint
    }
}

/// Whether a string holds exactly the characters of `other`.
pub fn text_is(s: &str, other: &str) -> (r: bool)
    ensures
        r == (s@ == other@),
{
    let a = String::from_str(s);
    let b = String::from_str(other);
    a == b
}

impl Token {
    /// A token of the given sort, written as `text`.
    pub fn new(kind: TokenKind, text: &str, joint: bool) -> (t: Token)
        ensures
            t.deep_view() == (TokenSpec { kind, text: text@, joint }),
    {
        Token { kind, text: String::from_str(text), joint }
    }

    /// A copy of the token.
    pub fn duplicate(&self) -> (t: Token)
        ensures
            t.deep_view() == self.deep_view(),
    {
        Token { kind: self.kind, text: self.text.clone(), joint: self.joint }
    }

    /// Whether the token is punctuation written as the one character `c`.
    pub fn is_punct(&self, c: char) -> (r: bool)
        ensures
            r == self.deep_view().is_punct(c),
    {
        match self.kind {
            TokenKind::Punct => {
                let s = self.text.as_str();
                let n = s.unicode_len();
                let r = n == 1 && s.get_char(0) == c;
                assert(r == (self.text@ =~= seq![c]));
                r
            },
            _ => false,
        }
    }
}

/// Pushing onto a vector pushes the element's model onto the vector's model.
pub proof fn lemma_deep_view_push<T: DeepView>(before: Vec<T>, after: Vec<T>, last: T)
    requires
        after@ == before@.push(last),
    ensures
        after.deep_view() == before.deep_view().push(last.deep_view()),
{
    assert forall|k: int| 0 <= k < after@.len() implies #[trigger] after.deep_view()[k]
        == before.deep_view().push(last.deep_view())[k] by {
        if k < before@.len() {
            assert(after@[k] == before@[k]);
        }
    }
    assert(after.deep_view() =~= before.deep_view().push(last.deep_view()));
}

/// A copy of the tokens from position `from` on; of none, where there are no more
/// than `from`.
pub fn tokens_from(tokens: &Vec<Token>, from: usize) -> (out: Vec<Token>)
    ensures
        out.deep_view() == if from <= tokens.len() {
            tokens.deep_view().skip(from as int)
        } else {
            Seq::empty()
        },
{
    let mut out: Vec<Token> = Vec::new();
    if from > tokens.len() {
        assert(out.deep_view() =~= Seq::<TokenSpec>::empty());
        return out;
    }
    let mut i: usize = from;
    while i < tokens.len()
        invariant
            from <= i <= tokens.len(),
            out.deep_view() == tokens.deep_view().subrange(from as int, i as int),
        decreases tokens.len() - i,
    {
        let ghost before = out;
        let t = tokens[i].duplicate();
        out.push(t);
        proof {
            lemma_deep_view_push(before, out, t);
        }
        i += 1;
        assert(out.deep_view() =~= tokens.deep_view().subrange(from as int, i as int));
    }
    assert(tokens.deep_view().subrange(from as int, i as int) =~= tokens.deep_view().skip(
        from as int,
    ));
    out
}

/// A copy of the names.
pub fn copy_names(names: &Vec<String>) -> (out: Vec<String>)
    ensures
        out.deep_view() == names.deep_view(),
{
    let mut out: Vec<String> = Vec::new();
    let mut i: usize = 0;
    while i < names.len()
        invariant
            i <= names.len(),
            out.deep_view() == names.deep_view().take(i as int),
        decreases names.len() - i,
    {
        let ghost before = out;
        let name = names[i].clone();
        out.push(name);
        proof {
            lemma_deep_view_push(before, out, name);
        }
        i += 1;
        assert(out.deep_view() =~= names.deep_view().take(i as int));
    }
    assert(names.deep_view().take(i as int) =~= names.deep_view());
    out
}

/// What stands between a token and the one after it.
pub open spec fn gap_after(t: TokenSpec) -> Seq<char> {
    if t.glued() {
        Seq::empty()
    } else {
        seq![' ']
    }
}

/// The tokens written out in order: one space between two of them, except behind
/// punctuation that is joined to what follows.
pub open spec fn tokens_text(ts: Seq<TokenSpec>) -> Seq<char>
    decreases ts.len(),
{
    if ts.len() == 0 {
        Seq::empty()
    } else if ts.len() == 1 {
        ts[0].text
    } else {
        tokens_text(ts.drop_last()) + gap_after(ts[ts.len() - 2]) + ts.last().text
    }
}

/// Writes the tokens out as source text.
pub fn render_tokens(tokens: &Vec<Token>) -> (out: String)
    ensures
        out@ == tokens_text(tokens.deep_view()),
{
    let mut out = String::new();
    let mut i: usize = 0;
    while i < tokens.len()
        invariant
            i <= tokens.len(),
            out@ == tokens_text(tokens.deep_view().take(i as int)),
        decreases tokens.len() - i,
    {
        let ghost done = tokens.deep_view().take(i as int);
        let ghost next = tokens.deep_view().take(i + 1);
        proof {
            assert(next.drop_last() =~= done);
            assert(next.last() == tokens[i as int].deep_view());
        }
        if i > 0 {
            let prev = &tokens[i - 1];
            let glued = match prev.kind {
                TokenKind::Punct => prev.joint,
                _ => false,
            };
            proof {
                reveal_strlit(" ");
                assert(" "@ =~= seq![' ']);
                assert(next[next.len() - 2] == prev.deep_view());
            }
            if !glued {
                out.append(" ");
            }
        }
        out.append(tokens[i].text.as_str());
        i += 1;
    }
    assert(tokens.deep_view().take(i as int) =~= tokens.deep_view());
    out
}

} // verus!

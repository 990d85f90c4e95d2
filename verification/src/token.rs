//! Model of the token trees that attribute annotations are made of.
//!
//! An annotation such as `get(pub(crate), skip)` reaches the library as a
//! sequence of tokens: identifiers, punctuation, literals and delimited
//! groups whose content is again a token sequence.  The host runtime
//! converts its own token representation into this model at the boundary;
//! everything the library does with tokens is verified against the
//! mathematical view [`TokenView`].

use vstd::prelude::*;

verus! {

/// The delimiter of a token group.  `Implicit` stands for a group with no
/// visible delimiter.
#[derive(Clone, Copy, PartialEq, Eq, Structural, Debug)]
pub enum Delim {
    Paren,
    Bracket,
    Brace,
    Implicit,
}

/// One token of an attribute annotation.
#[derive(Debug, PartialEq, Eq)]
pub enum Token {
    /// An identifier or keyword, e.g. `get`, `pub`, `skip`.
    Ident(String),
    /// A delimited group of tokens, e.g. `(crate)`.
    Group(Delim, Vec<Token>),
    /// A punctuation character, e.g. `,` or `#`.
    Punct(char),
    /// A literal token, e.g. `"text"` or `7`, kept as its source text.
    Literal(String),
}

/// The mathematical view of a [`Token`]: the same tree over `Seq<char>`
/// and `Seq<TokenView>`.
pub enum TokenView {
    Ident(Seq<char>),
    Group(Delim, Seq<TokenView>),
    Punct(char),
    Literal(Seq<char>),
}

/// The view of a token: strings become character sequences, group
/// contents become sequences of views.
pub open spec fn token_view(t: Token) -> TokenView
    decreases t,
{
    match t {
        Token::Ident(s) => TokenView::Ident(s@),
        Token::Group(d, _ts) => TokenView::Group(d, tokens_view(t->Group_1@)),
        Token::Punct(c) => TokenView::Punct(c),
        Token::Literal(s) => TokenView::Literal(s@),
    }
}

impl View for Token {
    type V = TokenView;

    open spec fn view(&self) -> TokenView {
        token_view(*self)
    }
}

/// The view of a token sequence, element by element.
pub open spec fn tokens_view(ts: Seq<Token>) -> Seq<TokenView>
    decreases ts,
{
    if ts.len() == 0 {
        Seq::<TokenView>::empty()
    } else {
        seq![token_view(ts[0])] + tokens_view(ts.drop_first())
    }
}

/// A token sequence and its view have the same length.
pub broadcast proof fn lemma_tokens_view_len(ts: Seq<Token>)
    ensures
        (#[trigger] tokens_view(ts)).len() == ts.len(),
    decreases ts,
{
    if ts.len() > 0 {
        lemma_tokens_view_len(ts.drop_first());
    }
}

/// The view of a token sequence is the view of its tokens, position by
/// position.
pub broadcast proof fn lemma_tokens_view_index(ts: Seq<Token>, i: int)
    requires
        0 <= i < ts.len(),
    ensures
        #[trigger] tokens_view(ts)[i] == token_view(ts[i]),
    decreases ts,
{
    lemma_tokens_view_len(ts);
    if i > 0 {
        lemma_tokens_view_index(ts.drop_first(), i - 1);
    }
}

/// One attribute annotation attached to a field or to a whole
/// definition: the token sequence found inside the annotation's outer
/// brackets, e.g. `get (pub(crate), skip)` as two tokens.
#[derive(Debug, PartialEq, Eq)]
pub struct Attr {
    pub tokens: Vec<Token>,
}

impl View for Attr {
    type V = Seq<TokenView>;

    open spec fn view(&self) -> Seq<TokenView> {
        tokens_view(self.tokens@)
    }
}

/// Whether a token renders as a word, so that two adjacent word tokens
/// need a separating space in the canonical text.
pub open spec fn spec_wordy(t: TokenView) -> bool {
    match t {
        TokenView::Ident(_) => true,
        TokenView::Literal(_) => true,
        _ => false,
    }
}

/// The opening text of a delimiter.
pub open spec fn open_delim_text(d: Delim) -> Seq<char> {
    match d {
        Delim::Paren => "("@,
        Delim::Bracket => "["@,
        Delim::Brace => "{"@,
        Delim::Implicit => Seq::<char>::empty(),
    }
}

/// The closing text of a delimiter.
pub open spec fn close_delim_text(d: Delim) -> Seq<char> {
    match d {
        Delim::Paren => ")"@,
        Delim::Bracket => "]"@,
        Delim::Brace => "}"@,
        Delim::Implicit => Seq::<char>::empty(),
    }
}

/// The canonical text of one token.  Groups render as their delimiters
/// around the text of their content.
pub open spec fn token_text(t: TokenView) -> Seq<char>
    decreases t,
{
    match t {
        TokenView::Ident(s) => s,
        TokenView::Group(d, ts) => open_delim_text(d) + tokens_text(ts) + close_delim_text(d),
        TokenView::Punct(c) => seq![c],
        TokenView::Literal(s) => s,
    }
}

/// The canonical text of a token sequence: token texts in order, with a
/// single space between two adjacent word tokens and nothing else
/// inserted.
pub open spec fn tokens_text(ts: Seq<TokenView>) -> Seq<char>
    decreases ts,
{
    if ts.len() == 0 {
        Seq::<char>::empty()
    } else if ts.len() == 1 {
        token_text(ts[0])
    } else {
        token_text(ts[0]) + sep_text(ts[0], ts[1]) + tokens_text(ts.drop_first())
    }
}

/// The separator between two adjacent tokens in the canonical text.
pub open spec fn sep_text(a: TokenView, b: TokenView) -> Seq<char> {
    if spec_wordy(a) && spec_wordy(b) {
        " "@
    } else {
        Seq::<char>::empty()
    }
}

/// Whether a token renders as a word (executable form of [`spec_wordy`]).
pub fn wordy(t: &Token) -> (r: bool)
    ensures
        r == spec_wordy(t@),
{
    match t {
        Token::Ident(_) => true,
        Token::Literal(_) => true,
        _ => false,
    }
}

/// Appends the canonical text of one token to `out`.
pub fn render_token_into(t: &Token, out: &mut String)
    ensures
        final(out)@ == old(out)@ + token_text(t@),
    decreases t,
{
    broadcast use lemma_tokens_view_len, lemma_tokens_view_index;

    match t {
        Token::Ident(s) => {
            out.append(s.as_str());
        }
        Token::Group(d, ts) => {
            match d {
                Delim::Paren => out.append("("),
                Delim::Bracket => out.append("["),
                Delim::Brace => out.append("{"),
                Delim::Implicit => (),
            }
            proof {
                assert(decreases_to!(*t => ts@));
            }
            render_tokens_into(ts, out);
            match d {
                Delim::Paren => out.append(")"),
                Delim::Bracket => out.append("]"),
                Delim::Brace => out.append("}"),
                Delim::Implicit => (),
            }
            proof {
                assert(t@->Group_1 =~= tokens_view(ts@));
                assert(out@ =~= old(out)@ + token_text(t@));
            }
        }
        Token::Punct(c) => {
            out.push(*c);
        }
        Token::Literal(s) => {
            out.append(s.as_str());
        }
    }
}

/// Appends the canonical text of a token sequence to `out`.
pub fn render_tokens_into(ts: &Vec<Token>, out: &mut String)
    ensures
        final(out)@ == old(out)@ + tokens_text(tokens_view(ts@)),
    decreases ts@,
{
    broadcast use lemma_tokens_view_len, lemma_tokens_view_index;

    let ghost views = tokens_view(ts@);
    proof {
        lemma_tokens_view_len(ts@);
        assert(views.skip(0) =~= views);
    }
    let n = ts.len();
    let mut i: usize = 0;
    while i < n
        invariant
            n == ts.len(),
            i <= n,
            views == tokens_view(ts@),
            views.len() == n,
            old(out)@ + tokens_text(views) == out@ + tokens_text(views.skip(i as int)),
        decreases n - i,
    {
        proof {
            lemma_tokens_view_index(ts@, i as int);
            if i + 1 < n {
                lemma_tokens_view_index(ts@, i as int + 1);
            }
            assert(views.skip(i as int).len() == n - i);
            assert(views.skip(i as int)[0] == views[i as int]);
            if i + 1 < n {
                assert(views.skip(i as int).drop_first() =~= views.skip(i as int + 1));
                assert(views.skip(i as int)[1] == views[i as int + 1]);
            }
            assert(decreases_to!(ts@ => ts@[i as int]));
        }
        let ghost prev = out@;
        render_token_into(&ts[i], out);
        if i + 1 < n {
            let needs_space = wordy(&ts[i]) && wordy(&ts[i + 1]);
            if needs_space {
                out.append(" ");
            }
            proof {
                assert(out@ =~= prev + token_text(views[i as int]) + sep_text(
                    views[i as int],
                    views[i as int + 1],
                ));
                assert(prev + tokens_text(views.skip(i as int)) =~= out@ + tokens_text(
                    views.skip(i as int + 1),
                ));
            }
        } else {
            proof {
                assert(prev + tokens_text(views.skip(i as int)) =~= out@ + tokens_text(
                    views.skip(i as int + 1),
                ));
            }
        }
        i = i + 1;
    }
    proof {
        assert(views.skip(n as int) =~= Seq::<TokenView>::empty());
    }
}

/// The canonical text of a token sequence, as a fresh string.
pub fn render_tokens(ts: &Vec<Token>) -> (r: String)
    ensures
        r@ == tokens_text(tokens_view(ts@)),
{
    let mut out = String::new();
    render_tokens_into(ts, &mut out);
    out
}

} // verus!

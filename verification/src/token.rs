//! The token model: the raw form in which a declaration arrives and in which
//! a generated fragment leaves. A token is an identifier, a single
//! punctuation character, or a string literal.
use vstd::prelude::*;

verus! {

/// One lexical token of the declaration language.
#[derive(Debug, Clone)]
pub enum Token {
    /// An identifier or keyword, e.g. `struct`, `Mountain`, `u32`.
    Ident(String),
    /// A single punctuation character, e.g. `;`, `{`, `(`, `,`.
    Punct(char),
    /// A string literal; the field holds the text between the quotes.
    Lit(String),
}

/// The mathematical form of a token: identifier and literal text as
/// character sequences.
pub enum TokenV {
    Ident(Seq<char>),
    Punct(char),
    Lit(Seq<char>),
}

impl View for Token {
    type V = TokenV;

    open spec fn view(&self) -> TokenV {
        match self {
            Token::Ident(s) => TokenV::Ident(s@),
            Token::Punct(c) => TokenV::Punct(*c),
            Token::Lit(s) => TokenV::Lit(s@),
        }
    }
}

impl DeepView for Token {
    type V = TokenV;

    open spec fn deep_view(&self) -> TokenV {
        self@
    }
}

impl PartialEq for Token {
    /// Two tokens are equal when they are the same kind with the same text.
    fn eq(&self, other: &Token) -> (r: bool) {
        match (self, other) {
            (Token::Ident(a), Token::Ident(b)) => *a == *b,
            (Token::Punct(a), Token::Punct(b)) => *a == *b,
            (Token::Lit(a), Token::Lit(b)) => *a == *b,
            _ => false,
        }
    }
}

impl vstd::std_specs::cmp::PartialEqSpecImpl for Token {
    open spec fn obeys_eq_spec() -> bool {
        true
    }

    open spec fn eq_spec(&self, other: &Token) -> bool {
        self@ == other@
    }
}

/// Characters that may begin an identifier: a letter or an underscore.
pub open spec fn is_ident_start_char(c: char) -> bool {
    ||| c == '_'
    ||| 'a' <= c && c <= 'z'
    ||| 'A' <= c && c <= 'Z'
}

/// Characters that may continue an identifier: a letter, a digit or an
/// underscore.
pub open spec fn is_ident_cont_char(c: char) -> bool {
    ||| is_ident_start_char(c)
    ||| '0' <= c && c <= '9'
}

/// A well-formed identifier: non-empty, starting with a letter or an
/// underscore, continuing with letters, digits or underscores.
pub open spec fn wf_ident(s: Seq<char>) -> bool {
    &&& s.len() > 0
    &&& is_ident_start_char(s[0])
    &&& forall|i: int| 1 <= i < s.len() ==> is_ident_cont_char(#[trigger] s[i])
}

/// Whitespace characters, which a token may not contain outside a literal.
pub open spec fn is_ws_char(c: char) -> bool {
    c == ' ' || c == '\t' || c == '\n' || c == '\r'
}

/// Characters acceptable as punctuation tokens: anything that could not be
/// mistaken for whitespace, part of an identifier, or a literal delimiter.
pub open spec fn is_punct_char(c: char) -> bool {
    &&& !is_ws_char(c)
    &&& !is_ident_cont_char(c)
    &&& c != '"'
}

/// A well-formed token. Identifier tokens must carry a well-formed
/// identifier; punctuation tokens must carry a genuine punctuation
/// character.
pub open spec fn wf_token(t: TokenV) -> bool {
    match t {
        TokenV::Ident(s) => wf_ident(s),
        TokenV::Punct(c) => is_punct_char(c),
        TokenV::Lit(_) => true,
    }
}

/// Every token of the sequence is well-formed.
pub open spec fn wf_tokens(ts: Seq<TokenV>) -> bool {
    forall|i: int| 0 <= i < ts.len() ==> wf_token(#[trigger] ts[i])
}

/// The rendered text of one token: identifiers as they stand, punctuation
/// as its single character, literals between their quotes.
pub open spec fn token_text(t: TokenV) -> Seq<char> {
    match t {
        TokenV::Ident(s) => s,
        TokenV::Punct(c) => seq![c],
        TokenV::Lit(s) => seq!['"'] + s + seq!['"'],
    }
}

/// The rendered text of a token sequence: the tokens' texts joined by
/// single spaces.
pub open spec fn spec_render(ts: Seq<TokenV>) -> Seq<char>
    decreases ts.len(),
{
    if ts.len() == 0 {
        Seq::empty()
    } else if ts.len() == 1 {
        token_text(ts[0])
    } else {
        token_text(ts[0]) + seq![' '] + spec_render(ts.subrange(1, ts.len() as int))
    }
}

/// Appending one token to a sequence appends its text (after a separating
/// space, when the sequence was non-empty) to the rendering.
pub proof fn lemma_render_snoc(ts: Seq<TokenV>, t: TokenV)
    ensures
        spec_render(ts.push(t)) == if ts.len() == 0 {
            token_text(t)
        } else {
            spec_render(ts) + seq![' '] + token_text(t)
        },
    decreases ts.len(),
{
    let whole = ts.push(t);
    if ts.len() == 0 {
        assert(whole.len() == 1);
        assert(whole[0] == t);
    } else {
        lemma_render_snoc(ts.subrange(1, ts.len() as int), t);
        assert(whole.subrange(1, whole.len() as int) =~= ts.subrange(1, ts.len() as int).push(t));
        if ts.len() == 1 {
            assert(spec_render(whole) =~= spec_render(ts) + seq![' '] + token_text(t));
        } else {
            assert(spec_render(whole) =~= spec_render(ts) + seq![' '] + token_text(t));
        }
    }
}

/// Relies on `String::push`: appends exactly the one character to the end
/// of the string.
#[verifier::external_body]
fn push_char(s: &mut String, c: char)
    ensures
        final(s)@ == old(s)@ + seq![c],
{
    s.push(c)
}

/// Serializes a token sequence as source text: the tokens' texts joined by
/// single spaces.
pub fn render(ts: &Vec<Token>) -> (r: String)
    ensures
        r@ == spec_render(ts.deep_view()),
{
    let ghost whole = ts.deep_view();
    let mut out = String::new();
    let n: usize = ts.len();
    let mut i: usize = 0;
    while i < n
        invariant
            0 <= i <= n,
            n == ts.len(),
            whole == ts.deep_view(),
            whole.len() == n,
            out@ == spec_render(whole.take(i as int)),
        decreases n - i,
    {
        if i > 0 {
            push_char(&mut out, ' ');
        }
        match &ts[i] {
            Token::Ident(s) => {
                out.append(s.as_str());
            },
            Token::Punct(c) => {
                push_char(&mut out, *c);
            },
            Token::Lit(s) => {
                push_char(&mut out, '"');
                out.append(s.as_str());
                push_char(&mut out, '"');
            },
        }
        proof {
            lemma_render_snoc(whole.take(i as int), whole[i as int]);
            assert(whole.take(i as int + 1) =~= whole.take(i as int).push(whole[i as int]));
            assert(out@ =~= spec_render(whole.take(i as int + 1)));
        }
        i = i + 1;
    }
    proof {
        assert(whole.take(n as int) =~= whole);
    }
    out
}

/// The closing delimiter matching an opening one.
pub open spec fn closer_of(c: char) -> char {
    if c == '(' {
        ')'
    } else if c == '{' {
        '}'
    } else if c == '[' {
        ']'
    } else {
        c
    }
}

/// Opening delimiter characters.
pub open spec fn is_open_delim(c: char) -> bool {
    c == '(' || c == '{' || c == '['
}

/// Closing delimiter characters.
pub open spec fn is_close_delim(c: char) -> bool {
    c == ')' || c == '}' || c == ']'
}

/// Walks `ts` from position `i` with the stack of closing delimiters still
/// owed; holds when every delimiter closes in the right order and nothing
/// stays open.
pub open spec fn balanced_from(ts: Seq<TokenV>, i: int, pending: Seq<char>) -> bool
    decreases ts.len() - i,
{
    if i < 0 || i >= ts.len() {
        pending.len() == 0
    } else {
        match ts[i] {
            TokenV::Punct(c) => {
                if is_open_delim(c) {
                    balanced_from(ts, i + 1, pending.push(closer_of(c)))
                } else if is_close_delim(c) {
                    &&& pending.len() > 0
                    &&& pending.last() == c
                    &&& balanced_from(ts, i + 1, pending.drop_last())
                } else {
                    balanced_from(ts, i + 1, pending)
                }
            },
            _ => balanced_from(ts, i + 1, pending),
        }
    }
}

/// The sequence's delimiters are matched in kind and in order.
pub open spec fn balanced(ts: Seq<TokenV>) -> bool {
    balanced_from(ts, 0, Seq::empty())
}

/// Runtime check matching [`is_ident_start_char`].
pub fn check_ident_start_char(c: char) -> (r: bool)
    ensures
        r == is_ident_start_char(c),
{
    c == '_' || ('a' <= c && c <= 'z') || ('A' <= c && c <= 'Z')
}

/// Runtime check matching [`is_ident_cont_char`].
pub fn check_ident_cont_char(c: char) -> (r: bool)
    ensures
        r == is_ident_cont_char(c),
{
    check_ident_start_char(c) || ('0' <= c && c <= '9')
}

/// Runtime check matching [`wf_ident`]: is `s` a well-formed identifier?
pub fn check_ident(s: &String) -> (r: bool)
    ensures
        r == wf_ident(s@),
{
    let st: &str = s.as_str();
    let n: usize = st.unicode_len();
    if n == 0 {
        return false;
    }
    if !check_ident_start_char(st.get_char(0)) {
        return false;
    }
    let mut i: usize = 1;
    while i < n
        invariant
            1 <= i <= n,
            n == s@.len(),
            st@ == s@,
            is_ident_start_char(s@[0]),
            forall|j: int| 1 <= j < i ==> is_ident_cont_char(#[trigger] s@[j]),
        decreases n - i,
    {
        if !check_ident_cont_char(st.get_char(i)) {
            return false;
        }
        i = i + 1;
    }
    true
}

} // verus!

//! Splitting one line of text into tokens: quote contexts, escapes and the
//! spellings of the redirection operators.
use vstd::prelude::*;

use crate::text::{chars_of, lemma_texts_push, push_char, texts};

verus! {

/// The quoting mode in force at a point of the line.
#[derive(Clone, Copy, Debug, PartialEq, Eq, Structural)]
pub enum Quote {
    Unquoted,
    Single,
    Double,
}

/// One token of a line: its text, and whether it is a redirection operator
/// met outside any quote.
#[derive(Clone, Debug)]
pub struct Token {
    pub text: String,
    pub operator: bool,
}

impl View for Token {
    type V = (Seq<char>, bool);

    open spec fn view(&self) -> (Seq<char>, bool) {
        (self.text@, self.operator)
    }
}

pub open spec fn token_views(ts: Seq<Token>) -> Seq<(Seq<char>, bool)> {
    ts.map_values(|t: Token| t@)
}

pub open spec fn is_blank(c: char) -> bool {
    c == ' ' || c == '\t'
}

/// The length of the redirection operator spelled at `i` (`>`, `>>`, `1>`,
/// `1>>`, `2>`, `2>>`, the longest that matches), or zero where none is.
pub open spec fn operator_len(s: Seq<char>, i: int) -> int {
    if s[i] == '>' {
        if i + 1 < s.len() && s[i + 1] == '>' {
            2
        } else {
            1
        }
    } else if (s[i] == '1' || s[i] == '2') && i + 1 < s.len() && s[i + 1] == '>' {
        if i + 2 < s.len() && s[i + 2] == '>' {
            3
        } else {
            2
        }
    } else {
        0
    }
}

/// Ends the token being built: it is emitted only where it is not empty.
pub open spec fn flush(toks: Seq<(Seq<char>, bool)>, cur: Seq<char>) -> Seq<(Seq<char>, bool)> {
    if cur.len() > 0 {
        toks.push((cur, false))
    } else {
        toks
    }
}

/// The tokens of `s`, from position `i` on, given the tokens emitted so far,
/// the token being built and the quote context in force.
pub open spec fn scan(
    s: Seq<char>,
    i: int,
    toks: Seq<(Seq<char>, bool)>,
    cur: Seq<char>,
    q: Quote,
) -> Seq<(Seq<char>, bool)>
    decreases s.len() - i,
{
    if i >= s.len() {
        flush(toks, cur)
    } else {
        let c = s[i];
        match q {
            Quote::Unquoted => {
                if c == '\\' {
                    if i + 1 < s.len() {
                        scan(s, i + 2, toks, cur.push(s[i + 1]), q)
                    } else {
                        scan(s, i + 1, toks, cur, q)
                    }
                } else if c == '\'' {
                    scan(s, i + 1, toks, cur, Quote::Single)
                } else if c == '"' {
                    scan(s, i + 1, toks, cur, Quote::Double)
                } else if is_blank(c) {
                    scan(s, i + 1, flush(toks, cur), Seq::empty(), q)
                } else if operator_len(s, i) > 0 {
                    let k = operator_len(s, i);
                    scan(s, i + k, flush(toks, cur).push((s.subrange(i, i + k), true)), Seq::empty(), q)
                } else {
                    scan(s, i + 1, toks, cur.push(c), q)
                }
            },
            Quote::Single => {
                if c == '\'' {
                    scan(s, i + 1, toks, cur, Quote::Unquoted)
                } else {
                    scan(s, i + 1, toks, cur.push(c), q)
                }
            },
            Quote::Double => {
                if c == '\\' {
                    if i + 1 < s.len() {
                        let d = s[i + 1];
                        if d == '"' || d == '\\' {
                            scan(s, i + 2, toks, cur.push(d), q)
                        } else {
                            scan(s, i + 2, toks, cur.push('\\').push(d), q)
                        }
                    } else {
                        scan(s, i + 1, toks, cur, q)
                    }
                } else if c == '"' {
                    scan(s, i + 1, toks, cur, Quote::Unquoted)
                } else {
                    scan(s, i + 1, toks, cur.push(c), q)
                }
            },
        }
    }
}

/// The tokens of a whole line.
pub open spec fn lex_spec(s: Seq<char>) -> Seq<(Seq<char>, bool)> {
    scan(s, 0, Seq::empty(), Seq::empty(), Quote::Unquoted)
}

/// The texts of a token sequence.
pub open spec fn words(ts: Seq<(Seq<char>, bool)>) -> Seq<Seq<char>> {
    ts.map_values(|t: (Seq<char>, bool)| t.0)
}

proof fn lemma_token_views_push(v: Seq<Token>, t: Token)
    ensures
        token_views(v.push(t)) == token_views(v).push(t@),
{
    assert(token_views(v.push(t)) =~= token_views(v).push(t@));
}

/// Emits the token being built, if it is not empty, and starts a new one.
fn flush_token(current: &mut String, tokens: &mut Vec<Token>)
    ensures
        token_views(final(tokens)@) == flush(token_views(old(tokens)@), old(current)@),
        final(current)@ == Seq::<char>::empty(),
{
    let mut text = String::new();
    std::mem::swap(current, &mut text);
    if !text.as_str().is_empty() {
        let t = Token { text, operator: false };
        proof {
            lemma_token_views_push(tokens@, t);
        }
        tokens.push(t);
    }
}

/// Recognizes a redirection operator at position `i` of `chars`. Where one is
/// spelled there, the token being built is ended, the operator is emitted as
/// a token of its own, and its length is returned; otherwise nothing changes
/// and zero is returned.
pub fn handle_redirection_operator(
    chars: &Vec<char>,
    i: usize,
    current: &mut String,
    tokens: &mut Vec<Token>,
) -> (k: usize)
    requires
        i < chars@.len(),
    ensures
        k == operator_len(chars@, i as int),
        k > 0 ==> token_views(final(tokens)@) == flush(token_views(old(tokens)@), old(current)@).push(
            (chars@.subrange(i as int, i + k), true),
        ),
        k > 0 ==> final(current)@ == Seq::<char>::empty(),
        k == 0 ==> *final(tokens) == *old(tokens) && *final(current) == *old(current),
{
    let n = chars.len();
    let c = chars[i];
    let k: usize = if c == '>' {
        if i + 1 < n && chars[i + 1] == '>' {
            2
        } else {
            1
        }
    } else if (c == '1' || c == '2') && i + 1 < n && chars[i + 1] == '>' {
        if i + 2 < n && chars[i + 2] == '>' {
            3
        } else {
            2
        }
    } else {
        0
    };
    if k == 0 {
        return 0;
    }
    flush_token(current, tokens);
    let mut text = String::new();
    let mut j: usize = i;
    while j < i + k
        invariant
            i + k <= n,
            n == chars@.len(),
            i <= j <= i + k,
            text@ == chars@.subrange(i as int, j as int),
        decreases i + k - j,
    {
        push_char(&mut text, chars[j]);
        j += 1;
        assert(text@ =~= chars@.subrange(i as int, j as int));
    }
    let t = Token { text, operator: true };
    proof {
        lemma_token_views_push(tokens@, t);
    }
    tokens.push(t);
    k
}

/// The tokens of a line: words and redirection operators, in order.
pub fn lex(input: &str) -> (r: Vec<Token>)
    ensures
        token_views(r@) == lex_spec(input@),
{
    let s = chars_of(input);
    let n = s.len();
    let mut tokens: Vec<Token> = Vec::new();
    let mut current = String::new();
    let mut quote = Quote::Unquoted;
    let mut i: usize = 0;
    assert(token_views(tokens@) =~= Seq::<(Seq<char>, bool)>::empty());
    while i < n
        invariant
            n == s@.len(),
            s@ == input@,
            i <= n,
            scan(s@, i as int, token_views(tokens@), current@, quote) == lex_spec(s@),
        decreases n - i,
    {
        let c = s[i];
        match quote {
            Quote::Unquoted => {
                if c == '\\' {
                    if i + 1 < n {
                        push_char(&mut current, s[i + 1]);
                        i += 2;
                    } else {
                        i += 1;
                    }
                } else if c == '\'' {
                    quote = Quote::Single;
                    i += 1;
                } else if c == '"' {
                    quote = Quote::Double;
                    i += 1;
                } else if c == ' ' || c == '\t' {
                    flush_token(&mut current, &mut tokens);
                    i += 1;
                } else {
                    let k = handle_redirection_operator(&s, i, &mut current, &mut tokens);
                    if k > 0 {
                        i += k;
                    } else {
                        push_char(&mut current, c);
                        i += 1;
                    }
                }
            },
            Quote::Single => {
                if c == '\'' {
                    quote = Quote::Unquoted;
                } else {
                    push_char(&mut current, c);
                }
                i += 1;
            },
            Quote::Double => {
                if c == '\\' {
                    if i + 1 < n {
                        let d = s[i + 1];
                        if d == '"' || d == '\\' {
                            push_char(&mut current, d);
                        } else {
                            push_char(&mut current, '\\');
                            push_char(&mut current, d);
                        }
                        i += 2;
                    } else {
                        i += 1;
                    }
                } else if c == '"' {
                    quote = Quote::Unquoted;
                    i += 1;
                } else {
                    push_char(&mut current, c);
                    i += 1;
                }
            },
        }
    }
    flush_token(&mut current, &mut tokens);
    tokens
}

/// The texts of the tokens of a line, operators spelled as written.
pub fn tokenize(input: &str) -> (r: Vec<String>)
    ensures
        texts(r@) == words(lex_spec(input@)),
{
    let tokens = lex(input);
    let mut r: Vec<String> = Vec::new();
    let mut i: usize = 0;
    while i < tokens.len()
        invariant
            i <= tokens@.len(),
            token_views(tokens@) == lex_spec(input@),
            texts(r@) == words(token_views(tokens@)).subrange(0, i as int),
        decreases tokens@.len() - i,
    {
        let t = tokens[i].text.clone();
        proof {
            lemma_texts_push(r@, t);
        }
        r.push(t);
        i += 1;
        assert(texts(r@) =~= words(token_views(tokens@)).subrange(0, i as int));
    }
    assert(texts(r@) =~= words(token_views(tokens@)));
    r
}

} // verus!

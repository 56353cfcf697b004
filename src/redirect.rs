//! Separating redirection directives from the argument vector.
use vstd::prelude::*;

use crate::lexer::{lex, lex_spec, token_views, Token};
use crate::text::{lemma_texts_push, same_text, texts};

verus! {

/// The four redirection operators.
#[derive(Clone, Copy, Debug, PartialEq, Eq, Structural)]
pub enum RedirOp {
    StdoutTruncate,
    StdoutAppend,
    StderrTruncate,
    StderrAppend,
}

impl RedirOp {
    pub open spec fn is_stdout(self) -> bool {
        self is StdoutTruncate || self is StdoutAppend
    }

    pub open spec fn appends(self) -> bool {
        self is StdoutAppend || self is StderrAppend
    }
}

/// The operator that a spelling names, if any.
pub open spec fn op_of_spelling(t: Seq<char>) -> Option<RedirOp> {
    if t == ">"@ || t == "1>"@ {
        Some(RedirOp::StdoutTruncate)
    } else if t == ">>"@ || t == "1>>"@ {
        Some(RedirOp::StdoutAppend)
    } else if t == "2>"@ {
        Some(RedirOp::StderrTruncate)
    } else if t == "2>>"@ {
        Some(RedirOp::StderrAppend)
    } else {
        None
    }
}

/// The operator that a token stands for: only a token that the lexer marked
/// as an operator stands for one.
pub open spec fn op_of(t: (Seq<char>, bool)) -> Option<RedirOp> {
    if t.1 {
        op_of_spelling(t.0)
    } else {
        None
    }
}

/// Where one stream goes: a file path, opened to append or to truncate.
#[derive(Clone, Debug)]
pub struct Target {
    pub path: String,
    pub append: bool,
}

impl View for Target {
    type V = (Seq<char>, bool);

    open spec fn view(&self) -> (Seq<char>, bool) {
        (self.path@, self.append)
    }
}

pub open spec fn target_view(t: Option<Target>) -> Option<(Seq<char>, bool)> {
    match t {
        Some(t) => Some(t@),
        None => None,
    }
}

/// At most one target for standard output and one for standard error.
#[derive(Clone, Debug)]
pub struct Redirection {
    pub stdout: Option<Target>,
    pub stderr: Option<Target>,
}

pub struct RedirectionView {
    pub stdout: Option<(Seq<char>, bool)>,
    pub stderr: Option<(Seq<char>, bool)>,
}

impl RedirectionView {
    /// Where standard output (`out`) or standard error goes.
    pub open spec fn stream(self, out: bool) -> Option<(Seq<char>, bool)> {
        if out {
            self.stdout
        } else {
            self.stderr
        }
    }

    /// Records `op` with its target, replacing what the same stream had.
    pub open spec fn record(self, op: RedirOp, path: Seq<char>) -> RedirectionView {
        if op.is_stdout() {
            RedirectionView { stdout: Some((path, op.appends())), ..self }
        } else {
            RedirectionView { stderr: Some((path, op.appends())), ..self }
        }
    }
}

impl View for Redirection {
    type V = RedirectionView;

    open spec fn view(&self) -> RedirectionView {
        RedirectionView { stdout: target_view(self.stdout), stderr: target_view(self.stderr) }
    }
}

impl Redirection {
    /// No redirection at all.
    pub fn none() -> (r: Redirection)
        ensures
            r@.stdout is None,
            r@.stderr is None,
    {
        Redirection { stdout: None, stderr: None }
    }

    /// Records `op` with its target path, replacing what the same stream had.
    pub fn record(&mut self, op: RedirOp, path: String)
        ensures
            final(self)@ == old(self)@.record(op, path@),
    {
        let append = op == RedirOp::StdoutAppend || op == RedirOp::StderrAppend;
        let t = Target { path, append };
        match op {
            RedirOp::StdoutTruncate | RedirOp::StdoutAppend => self.stdout = Some(t),
            RedirOp::StderrTruncate | RedirOp::StderrAppend => self.stderr = Some(t),
        }
    }
}

/// A command line: its argument vector, redirections removed, and the
/// redirections themselves.
#[derive(Clone, Debug)]
pub struct ParsedCommand {
    pub parts: Vec<String>,
    pub redirection: Redirection,
}

pub struct ParsedView {
    pub argv: Seq<Seq<char>>,
    pub redirection: RedirectionView,
}

impl View for ParsedCommand {
    type V = ParsedView;

    open spec fn view(&self) -> ParsedView {
        ParsedView { argv: texts(self.parts@), redirection: self.redirection@ }
    }
}

/// The result of scanning `toks` from position `i` on, given the arguments
/// and the redirections collected so far. An operator takes the token after
/// it as its target; an operator with nothing after it is dropped.
pub open spec fn extract_from(
    toks: Seq<(Seq<char>, bool)>,
    i: int,
    argv: Seq<Seq<char>>,
    r: RedirectionView,
) -> ParsedView
    decreases toks.len() - i,
{
    if i >= toks.len() {
        ParsedView { argv, redirection: r }
    } else {
        match op_of(toks[i]) {
            Some(op) => {
                if i + 1 < toks.len() {
                    extract_from(toks, i + 2, argv, r.record(op, toks[i + 1].0))
                } else {
                    extract_from(toks, i + 1, argv, r)
                }
            },
            None => extract_from(toks, i + 1, argv.push(toks[i].0), r),
        }
    }
}

pub open spec fn no_redirection() -> RedirectionView {
    RedirectionView { stdout: None, stderr: None }
}

/// The command that a token sequence describes.
pub open spec fn extract_spec(toks: Seq<(Seq<char>, bool)>) -> ParsedView {
    extract_from(toks, 0, Seq::empty(), no_redirection())
}

/// The command that a line describes.
pub open spec fn parse_spec(line: Seq<char>) -> ParsedView {
    extract_spec(lex_spec(line))
}

/// The operator that a token stands for, if any.
fn operator_of(t: &Token) -> (r: Option<RedirOp>)
    ensures
        r == op_of(t@),
{
    if !t.operator {
        return None;
    }
    let s = t.text.as_str();
    if same_text(s, ">") || same_text(s, "1>") {
        Some(RedirOp::StdoutTruncate)
    } else if same_text(s, ">>") || same_text(s, "1>>") {
        Some(RedirOp::StdoutAppend)
    } else if same_text(s, "2>") {
        Some(RedirOp::StderrTruncate)
    } else if same_text(s, "2>>") {
        Some(RedirOp::StderrAppend)
    } else {
        None
    }
}

/// Splits a token sequence into the argument vector and the redirections.
pub fn extract_redirection(tokens: Vec<Token>) -> (r: ParsedCommand)
    ensures
        r@ == extract_spec(token_views(tokens@)),
{
    let ghost toks = token_views(tokens@);
    let mut redirection = Redirection::none();
    let mut parts: Vec<String> = Vec::new();
    let mut i: usize = 0;
    assert(texts(parts@) =~= Seq::<Seq<char>>::empty());
    while i < tokens.len()
        invariant
            toks == token_views(tokens@),
            i <= tokens@.len(),
            extract_from(toks, i as int, texts(parts@), redirection@) == extract_spec(toks),
        decreases tokens@.len() - i,
    {
        match operator_of(&tokens[i]) {
            Some(op) => {
                if i + 1 < tokens.len() {
                    redirection.record(op, tokens[i + 1].text.clone());
                    i += 2;
                } else {
                    i += 1;
                }
            },
            None => {
                let t = tokens[i].text.clone();
                proof {
                    lemma_texts_push(parts@, t);
                }
                parts.push(t);
                i += 1;
            },
        }
    }
    ParsedCommand { parts, redirection }
}

/// Tokenizes a line and splits it into arguments and redirections.
pub fn parse(line: &str) -> (r: ParsedCommand)
    ensures
        r@ == parse_spec(line@),
{
    extract_redirection(lex(line))
}

proof fn lemma_stream_kept(
    toks: Seq<(Seq<char>, bool)>,
    i: int,
    argv: Seq<Seq<char>>,
    r: RedirectionView,
    out: bool,
)
    requires
        0 <= i,
        forall|j: int|
            i <= j < toks.len() ==> !(op_of(#[trigger] toks[j]) matches Some(op) && op.is_stdout()
                == out),
    ensures
        extract_from(toks, i, argv, r).redirection.stream(out) == r.stream(out),
    decreases toks.len() - i,
{
    if i < toks.len() {
        match op_of(toks[i]) {
            Some(op) => {
                if i + 1 < toks.len() {
                    lemma_stream_kept(toks, i + 2, argv, r.record(op, toks[i + 1].0), out);
                } else {
                    lemma_stream_kept(toks, i + 1, argv, r, out);
                }
            },
            None => lemma_stream_kept(toks, i + 1, argv.push(toks[i].0), r, out),
        }
    }
}

/// The last redirection of a stream wins: where the scan meets an operator
/// of a stream (`out` for standard output, else standard error) with a
/// target, and no later token is an operator of that stream, that target and
/// that mode are where the stream goes, whatever came before.
pub proof fn lemma_last_redirection_wins(
    toks: Seq<(Seq<char>, bool)>,
    i: int,
    argv: Seq<Seq<char>>,
    r: RedirectionView,
    out: bool,
)
    requires
        0 <= i,
        i + 1 < toks.len(),
        op_of(toks[i]) matches Some(op) && op.is_stdout() == out,
        forall|j: int|
            i + 1 < j < toks.len() ==> !(op_of(#[trigger] toks[j]) matches Some(op) && op.is_stdout()
                == out),
    ensures
        extract_from(toks, i, argv, r).redirection.stream(out) == Some(
            (toks[i + 1].0, op_of(toks[i])->0.appends()),
        ),
{
    let op = op_of(toks[i])->0;
    lemma_stream_kept(toks, i + 2, argv, r.record(op, toks[i + 1].0), out);
}

} // verus!

//! Deciding what one input line asks for, and the texts that the builtins
//! and the interpreter print.
use vstd::prelude::*;
use vstd::string::StringExecFns;

use crate::redirect::{parse, parse_spec, ParsedView, Redirection, RedirectionView};
use crate::resolve::{builtin_named, builtin_of, Builtin};
use crate::text::{push_char, same_text, texts};

verus! {

/// What one input line asks the interpreter to do. The arguments are those
/// after the command name.
#[derive(Clone, Debug)]
pub enum Action {
    /// The line holds no command.
    Nothing,
    /// Leave the read-evaluate loop: the line is a bare `exit`.
    Exit,
    Echo { args: Vec<String>, redirection: Redirection },
    Type { args: Vec<String> },
    Cd { args: Vec<String> },
    Pwd,
    /// Run the program found for `name` on the search path.
    External { name: String, args: Vec<String>, redirection: Redirection },
}

pub enum ActionView {
    Nothing,
    Exit,
    Echo { args: Seq<Seq<char>>, redirection: RedirectionView },
    Type { args: Seq<Seq<char>> },
    Cd { args: Seq<Seq<char>> },
    Pwd,
    External { name: Seq<char>, args: Seq<Seq<char>>, redirection: RedirectionView },
}

impl View for Action {
    type V = ActionView;

    open spec fn view(&self) -> ActionView {
        match self {
            Action::Nothing => ActionView::Nothing,
            Action::Exit => ActionView::Exit,
            Action::Echo { args, redirection } => ActionView::Echo {
                args: texts(args@),
                redirection: redirection@,
            },
            Action::Type { args } => ActionView::Type { args: texts(args@) },
            Action::Cd { args } => ActionView::Cd { args: texts(args@) },
            Action::Pwd => ActionView::Pwd,
            Action::External { name, args, redirection } => ActionView::External {
                name: name@,
                args: texts(args@),
                redirection: redirection@,
            },
        }
    }
}

/// What a parsed command asks for. A builtin name selects the builtin,
/// whatever the search path holds; `pwd` ignores any arguments. The one
/// exception is `exit`: only a bare `exit` ends the loop, and `exit` with
/// arguments is looked up as an external program.
pub open spec fn plan(p: ParsedView) -> ActionView {
    if p.argv.len() == 0 {
        ActionView::Nothing
    } else {
        let args = p.argv.drop_first();
        match builtin_of(p.argv[0]) {
            Some(Builtin::Exit) => if args.len() == 0 {
                ActionView::Exit
            } else {
                ActionView::External { name: p.argv[0], args, redirection: p.redirection }
            },
            Some(Builtin::Echo) => ActionView::Echo { args, redirection: p.redirection },
            Some(Builtin::Type) => ActionView::Type { args },
            Some(Builtin::Cd) => ActionView::Cd { args },
            Some(Builtin::Pwd) => ActionView::Pwd,
            None => ActionView::External { name: p.argv[0], args, redirection: p.redirection },
        }
    }
}

/// Decides what one input line asks for.
pub fn execute_command(command: &str) -> (r: Action)
    ensures
        r@ == plan(parse_spec(command@)),
{
    let parsed = parse(command);
    let mut parts = parsed.parts;
    let redirection = parsed.redirection;
    if parts.len() == 0 {
        return Action::Nothing;
    }
    let ghost argv = texts(parts@);
    let name = parts.remove(0);
    assert(texts(parts@) =~= argv.drop_first());
    match builtin_named(name.as_str()) {
        Some(Builtin::Exit) => if parts.len() == 0 {
            Action::Exit
        } else {
            Action::External { name, args: parts, redirection }
        },
        Some(Builtin::Echo) => Action::Echo { args: parts, redirection },
        Some(Builtin::Type) => Action::Type { args: parts },
        Some(Builtin::Cd) => Action::Cd { args: parts },
        Some(Builtin::Pwd) => Action::Pwd,
        None => Action::External { name, args: parts, redirection },
    }
}

/// A builtin name selects the builtin, never an external program (but for
/// `exit` with arguments): `echo` is always dispatched to the builtin,
/// whatever the search path holds.
pub proof fn lemma_builtin_precedence(line: Seq<char>)
    requires
        parse_spec(line).argv.len() > 0,
        builtin_of(parse_spec(line).argv[0]) is Some,
        !(parse_spec(line).argv[0] == "exit"@ && parse_spec(line).argv.len() > 1),
    ensures
        !(plan(parse_spec(line)) is External),
        parse_spec(line).argv[0] == "echo"@ ==> plan(parse_spec(line)) is Echo,
{
}

/// The words joined by single spaces.
pub open spec fn join_words(ws: Seq<Seq<char>>) -> Seq<char>
    decreases ws.len(),
{
    if ws.len() == 0 {
        Seq::empty()
    } else if ws.len() == 1 {
        ws[0]
    } else {
        join_words(ws.drop_last()).push(' ') + ws.last()
    }
}

/// What `echo` prints: its arguments joined by single spaces.
pub fn echo_output(args: &Vec<String>) -> (r: String)
    ensures
        r@ == join_words(texts(args@)),
{
    let ghost ws = texts(args@);
    let mut r = String::new();
    let mut i: usize = 0;
    while i < args.len()
        invariant
            ws == texts(args@),
            i <= args@.len(),
            r@ == join_words(ws.subrange(0, i as int)),
        decreases args@.len() - i,
    {
        assert(ws.subrange(0, i + 1).drop_last() =~= ws.subrange(0, i as int));
        if i > 0 {
            push_char(&mut r, ' ');
        }
        r.append(args[i].as_str());
        i += 1;
    }
    assert(ws.subrange(0, args@.len() as int) =~= ws);
    r
}

/// The directory that `cd` changes to: its first argument, or the home
/// directory where there is none or it is `~`, and `/` where the home
/// directory is not known.
pub open spec fn cd_target_spec(args: Seq<Seq<char>>, home: Option<Seq<char>>) -> Seq<char> {
    if args.len() == 0 || args[0] == "~"@ {
        match home {
            Some(h) => h,
            None => "/"@,
        }
    } else {
        args[0]
    }
}

/// The directory that `cd` changes to, given its arguments and the home
/// directory, if one is set.
pub fn cd_target(args: &Vec<String>, home: Option<String>) -> (r: String)
    ensures
        r@ == cd_target_spec(
            texts(args@),
            match home {
                Some(h) => Some(h@),
                None => None,
            },
        ),
{
    if args.len() == 0 || same_text(args[0].as_str(), "~") {
        match home {
            Some(h) => h,
            None => String::from_str("/"),
        }
    } else {
        args[0].clone()
    }
}

/// The line that `type` prints for `name`: a builtin is reported as such,
/// otherwise the path it resolved to, or that it was not found.
pub open spec fn type_report_spec(name: Seq<char>, resolved: Option<Seq<char>>) -> Seq<char> {
    if builtin_of(name) is Some {
        name + " is a shell builtin"@
    } else {
        match resolved {
            Some(p) => name + " is "@ + p,
            None => name + ": not found"@,
        }
    }
}

/// The line that `type` prints for `name`, given the path that the search
/// for it found, if any.
pub fn type_report(name: &str, resolved: Option<String>) -> (r: String)
    ensures
        r@ == type_report_spec(
            name@,
            match resolved {
                Some(p) => Some(p@),
                None => None,
            },
        ),
{
    let mut r = String::from_str(name);
    if builtin_named(name).is_some() {
        r.append(" is a shell builtin");
    } else {
        match resolved {
            Some(p) => {
                r.append(" is ");
                r.append(p.as_str());
            },
            None => r.append(": not found"),
        }
    }
    r
}

/// The report for a command that is neither a builtin nor found.
pub fn command_not_found(name: &str) -> (r: String)
    ensures
        r@ == name@ + ": command not found"@,
{
    let mut r = String::from_str(name);
    r.append(": command not found");
    r
}

/// The report for a directory that `cd` could not change to.
pub fn cd_failure(target: &str) -> (r: String)
    ensures
        r@ == "cd: "@ + target@ + ": No such file or directory"@,
{
    let mut r = String::from_str("cd: ");
    r.append(target);
    r.append(": No such file or directory");
    r
}

} // verus!

//! Telling builtins from external programs, and finding an external program
//! on the search path.
use vstd::prelude::*;
use vstd::string::{StrSliceExecFns, StringExecFns};

use crate::text::{chars_of, push_char, same_text, texts};

verus! {

/// The commands that the interpreter runs itself.
#[derive(Clone, Copy, Debug, PartialEq, Eq, Structural)]
pub enum Builtin {
    Echo,
    Exit,
    Type,
    Pwd,
    Cd,
}

/// The builtin that a name names, by exact equality.
pub open spec fn builtin_of(name: Seq<char>) -> Option<Builtin> {
    if name == "echo"@ {
        Some(Builtin::Echo)
    } else if name == "exit"@ {
        Some(Builtin::Exit)
    } else if name == "type"@ {
        Some(Builtin::Type)
    } else if name == "pwd"@ {
        Some(Builtin::Pwd)
    } else if name == "cd"@ {
        Some(Builtin::Cd)
    } else {
        None
    }
}

/// The builtin that `name` names, if any.
pub fn builtin_named(name: &str) -> (r: Option<Builtin>)
    ensures
        r == builtin_of(name@),
{
    if same_text(name, "echo") {
        Some(Builtin::Echo)
    } else if same_text(name, "exit") {
        Some(Builtin::Exit)
    } else if same_text(name, "type") {
        Some(Builtin::Type)
    } else if same_text(name, "pwd") {
        Some(Builtin::Pwd)
    } else if same_text(name, "cd") {
        Some(Builtin::Cd)
    } else {
        None
    }
}

/// Whether `cmd` is the name of a builtin.
pub fn is_builtin(cmd: &str) -> (r: bool)
    ensures
        r == builtin_of(cmd@) is Some,
{
    builtin_named(cmd).is_some()
}

/// Whether a file mode has an execute bit set for owner, group or other.
pub fn is_executable(mode: u32) -> (r: bool)
    ensures
        r == (mode & 0o111 != 0),
{
    mode & 0o111 != 0
}

/// The fields of `s` between colons, in order: one more than there are
/// colons, empty ones included.
pub open spec fn split_colons(s: Seq<char>) -> Seq<Seq<char>>
    decreases s.len(),
{
    if s.len() == 0 {
        seq![Seq::empty()]
    } else {
        let p = split_colons(s.drop_last());
        if s.last() == ':' {
            p.push(Seq::empty())
        } else {
            p.update(p.len() - 1, p.last().push(s.last()))
        }
    }
}

/// The path of a file named `name` in directory `dir`: a name that starts at
/// the root stands for itself, an empty directory adds nothing, and a
/// separator is put between the two where `dir` does not end in one.
pub open spec fn join_path(dir: Seq<char>, name: Seq<char>) -> Seq<char> {
    if name.len() > 0 && name[0] == '/' {
        name
    } else if dir.len() == 0 {
        name
    } else if dir.last() == '/' {
        dir + name
    } else {
        dir.push('/') + name
    }
}

/// The paths at which `name` is looked for, in the order of the search path
/// `path_var`; none where the search path is empty.
pub open spec fn candidates(path_var: Seq<char>, name: Seq<char>) -> Seq<Seq<char>> {
    if path_var.len() == 0 {
        Seq::empty()
    } else {
        split_colons(path_var).map_values(|d: Seq<char>| join_path(d, name))
    }
}

/// The path of `name` in directory `dir`.
fn join_dir(dir: &Vec<char>, name: &str) -> (r: String)
    ensures
        r@ == join_path(dir@, name@),
{
    let first_is_root = name.unicode_len() > 0 && name.get_char(0) == '/';
    let n = dir.len();
    let mut r = String::new();
    if !first_is_root {
        let mut i: usize = 0;
        while i < n
            invariant
                n == dir@.len(),
                i <= n,
                r@ == dir@.subrange(0, i as int),
            decreases n - i,
        {
            push_char(&mut r, dir[i]);
            i += 1;
            assert(r@ =~= dir@.subrange(0, i as int));
        }
        assert(r@ =~= dir@);
        if n > 0 && dir[n - 1] != '/' {
            push_char(&mut r, '/');
        }
    }
    r.append(name);
    r
}

/// The paths at which `cmd` is looked for, one for each directory of the
/// colon-separated search path `path_var`, in order.
pub fn search_candidates(path_var: &str, cmd: &str) -> (r: Vec<String>)
    ensures
        texts(r@) == candidates(path_var@, cmd@),
{
    let s = chars_of(path_var);
    let n = s.len();
    let mut r: Vec<String> = Vec::new();
    if n == 0 {
        assert(texts(r@) =~= candidates(path_var@, cmd@));
        return r;
    }
    let mut dir: Vec<char> = Vec::new();
    let mut i: usize = 0;
    assert(s@.subrange(0, 0) =~= Seq::<char>::empty());
    while i < n
        invariant
            n == s@.len(),
            s@ == path_var@,
            i <= n,
            split_colons(s@.subrange(0, i as int)).len() == r@.len() + 1,
            forall|j: int|
                0 <= j < r@.len() ==> (#[trigger] r@[j])@ == join_path(
                    split_colons(s@.subrange(0, i as int))[j],
                    cmd@,
                ),
            split_colons(s@.subrange(0, i as int)).last() == dir@,
        decreases n - i,
    {
        let ghost prev = s@.subrange(0, i as int);
        assert(s@.subrange(0, i + 1).drop_last() =~= prev);
        if s[i] == ':' {
            let p = join_dir(&dir, cmd);
            r.push(p);
            dir = Vec::new();
        } else {
            dir.push(s[i]);
        }
        i += 1;
    }
    let p = join_dir(&dir, cmd);
    r.push(p);
    assert(s@.subrange(0, n as int) =~= s@);
    assert(texts(r@) =~= candidates(path_var@, cmd@));
    r
}

/// The first candidate path that qualifies (a regular file with an execute
/// bit), in search order; `qualifies[j]` tells whether `candidates[j]` does.
/// Candidates without a verdict do not qualify.
pub fn find_in_path(candidates: &Vec<String>, qualifies: &Vec<bool>) -> (r: Option<String>)
    ensures
        r is None <==> forall|j: int|
            0 <= j < candidates@.len() && j < qualifies@.len() ==> !qualifies@[j],
        r matches Some(p) ==> exists|j: int|
            0 <= j < candidates@.len() && j < qualifies@.len() && qualifies@[j] && (forall|k: int|
                0 <= k < j ==> !qualifies@[k]) && p@ == candidates@[j]@,
{
    let mut i: usize = 0;
    while i < candidates.len() && i < qualifies.len()
        invariant
            i <= candidates@.len(),
            i <= qualifies@.len(),
            forall|k: int| 0 <= k < i ==> !qualifies@[k],
        decreases candidates@.len() - i,
    {
        if qualifies[i] {
            return Some(candidates[i].clone());
        }
        i += 1;
    }
    None
}

} // verus!

//! The command data model: the whitelist of recognized actions, the arity
//! class of each action family, the `CmdArgs` record built from a validated
//! line, and the dispatch table that routes a command to one operation.

use vstd::prelude::*;
use crate::text::lower;
use crate::text::lowercase_ascii;
use crate::text::str_eq;
use crate::tokenize::views_of;

verus! {

/// One recognized action family; each has a short and a long token.
#[derive(Clone, Copy, PartialEq, Eq, Debug, Structural)]
pub enum Action {
    /// `h` / `help`: list the commands.
    Help,
    /// `o` / `open`: open a file with the platform's default application.
    Open,
    /// `w` / `write`: overwrite a file with the joined payload.
    Write,
    /// `wo` / `writeover`: the declared but unimplemented append-write mode.
    WriteOver,
    /// `cls` / `clear`: clear the console.
    Clear,
    /// `del` / `delete`: remove a file.
    Delete,
    /// `new` / `create`: create an empty file.
    Create,
    /// `close` / `exit`: terminate the shell.
    Exit,
    /// `ren` / `rename`: whitelisted, but routed to no operation.
    Rename,
}

/// How many tokens a line with a given action must have.
#[derive(Clone, Copy, PartialEq, Eq, Debug, Structural)]
pub enum ArityClass {
    /// Exactly one token: the action alone.
    Niladic,
    /// Exactly two tokens: the action and a filename.
    Dyadic,
    /// At least two tokens: the action, a filename, and free-form payload.
    Variadic,
}

/// The operation the front end performs for one validated command.
#[derive(Clone, Copy, PartialEq, Eq, Debug, Structural)]
pub enum Op {
    /// Print the list of recognized commands.
    Help,
    /// Open `filename` with the platform's default application.
    Open,
    /// Overwrite `filename` with the joined payload.
    Write,
    /// Clear the console.
    Clear,
    /// Remove `filename`.
    Delete,
    /// Create an empty file at `filename`.
    Create,
    /// Terminate the process with success status.
    Exit,
}

/// Why a validated command still routes to no operation.
#[derive(Clone, Copy, PartialEq, Eq, Debug, Structural)]
pub enum DispatchError {
    /// The action is not one the dispatch table routes.
    InvalidAction,
    /// The append-write mode is declared but not implemented.
    Unimplemented,
}

/// The action family a token selects, compared case-insensitively,
/// or `None` for a token outside the whitelist.
pub open spec fn action_of(tok: Seq<char>) -> Option<Action> {
    let t = lower(tok);
    if t == "h"@ || t == "help"@ {
        Some(Action::Help)
    } else if t == "o"@ || t == "open"@ {
        Some(Action::Open)
    } else if t == "w"@ || t == "write"@ {
        Some(Action::Write)
    } else if t == "wo"@ || t == "writeover"@ {
        Some(Action::WriteOver)
    } else if t == "cls"@ || t == "clear"@ {
        Some(Action::Clear)
    } else if t == "del"@ || t == "delete"@ {
        Some(Action::Delete)
    } else if t == "new"@ || t == "create"@ {
        Some(Action::Create)
    } else if t == "close"@ || t == "exit"@ {
        Some(Action::Exit)
    } else if t == "ren"@ || t == "rename"@ {
        Some(Action::Rename)
    } else {
        None
    }
}

/// The arity class of each action family.
pub open spec fn arity_of(a: Action) -> ArityClass {
    match a {
        Action::Help | Action::Clear | Action::Exit => ArityClass::Niladic,
        Action::Write | Action::WriteOver => ArityClass::Variadic,
        Action::Open | Action::Delete | Action::Create | Action::Rename => ArityClass::Dyadic,
    }
}

/// Whether a line of `n` tokens satisfies the arity rule of action `a`.
pub open spec fn arity_ok(a: Action, n: nat) -> bool {
    match arity_of(a) {
        ArityClass::Niladic => n == 1,
        ArityClass::Dyadic => n == 2,
        ArityClass::Variadic => n >= 2,
    }
}

/// Classifies one token against the action whitelist, case-insensitively.
pub fn classify_action(tok: &str) -> (r: Option<Action>)
    ensures
        r == action_of(tok@),
{
    let lc = lowercase_ascii(tok);
    let t = lc.as_str();
    if str_eq(t, "h") || str_eq(t, "help") {
        Some(Action::Help)
    } else if str_eq(t, "o") || str_eq(t, "open") {
        Some(Action::Open)
    } else if str_eq(t, "w") || str_eq(t, "write") {
        Some(Action::Write)
    } else if str_eq(t, "wo") || str_eq(t, "writeover") {
        Some(Action::WriteOver)
    } else if str_eq(t, "cls") || str_eq(t, "clear") {
        Some(Action::Clear)
    } else if str_eq(t, "del") || str_eq(t, "delete") {
        Some(Action::Delete)
    } else if str_eq(t, "new") || str_eq(t, "create") {
        Some(Action::Create)
    } else if str_eq(t, "close") || str_eq(t, "exit") {
        Some(Action::Exit)
    } else if str_eq(t, "ren") || str_eq(t, "rename") {
        Some(Action::Rename)
    } else {
        None
    }
}

/// The arity class of an action family, as executable code.
pub fn arity_class_of(a: Action) -> (r: ArityClass)
    ensures
        r == arity_of(a),
{
    match a {
        Action::Help | Action::Clear | Action::Exit => ArityClass::Niladic,
        Action::Write | Action::WriteOver => ArityClass::Variadic,
        Action::Open | Action::Delete | Action::Create | Action::Rename => ArityClass::Dyadic,
    }
}

/// Whether some entry of `list` is the lower-casing of `tok`.
pub open spec fn contains_lowered(list: Seq<&str>, tok: Seq<char>) -> bool {
    exists|k: int| 0 <= k < list.len() && list[k]@ == lower(tok)
}

/// The arity rule as a standalone check: if the first argument, lower-cased,
/// is in the given action list, says whether the line has exactly `len`
/// tokens; a first argument outside the list fails as well.
pub fn has_same_arg_len(args: &Vec<&str>, arr_to_check: &Vec<&str>, len: usize) -> (r: Option<
    (),
>)
    requires
        args@.len() > 0,
    ensures
        r is Some <==> (contains_lowered(arr_to_check@, args@[0]@) && args@.len() == len),
{
    let target = lowercase_ascii(args[0]);
    let mut j: usize = 0;
    while j < arr_to_check.len()
        invariant
            j <= arr_to_check@.len(),
            target@ == lower(args@[0]@),
            forall|k: int| 0 <= k < j ==> arr_to_check@[k]@ != lower(args@[0]@),
        decreases arr_to_check@.len() - j,
    {
        if str_eq(target.as_str(), arr_to_check[j]) {
            if args.len() != len {
                return None;
            }
            return Some(());
        }
        j = j + 1;
    }
    None
}

/// One command, built from a validated input line and consumed by one
/// dispatch: the (lower-cased) action, the target filename — a placeholder
/// for niladic actions — and, for variadic actions, the payload tokens,
/// each carrying its trailing separator space.
#[derive(Debug, PartialEq, Eq)]
pub struct CmdArgs {
    pub action: String,
    pub filename: String,
    pub extra_args: Vec<String>,
}

/// The mathematical content of a `CmdArgs`.
pub struct CmdModel {
    pub action: Seq<char>,
    pub filename: Seq<char>,
    pub payload: Seq<Seq<char>>,
}

impl View for CmdArgs {
    type V = CmdModel;

    open spec fn view(&self) -> CmdModel {
        CmdModel {
            action: self.action@,
            filename: self.filename@,
            payload: views_of(self.extra_args@),
        }
    }
}

/// Copies a vector of strings, keeping every element's characters.
fn clone_strings(v: &Vec<String>) -> (r: Vec<String>)
    ensures
        views_of(r@) == views_of(v@),
{
    let mut r: Vec<String> = Vec::new();
    let mut i: usize = 0;
    while i < v.len()
        invariant
            i <= v.len(),
            r@.len() == i,
            forall|k: int| 0 <= k < i ==> r@[k]@ == v@[k]@,
        decreases v.len() - i,
    {
        r.push(v[i].clone());
        i = i + 1;
    }
    proof {
        assert(views_of(r@) =~= views_of(v@));
    }
    r
}

impl CmdArgs {
    /// Builds a command record from its parts.
    pub fn new(action: &str, filename: &str, extra_args: &Vec<String>) -> (r: CmdArgs)
        ensures
            r@.action == action@,
            r@.filename == filename@,
            r@.payload == views_of(extra_args@),
    {
        CmdArgs {
            action: String::from_str(action),
            filename: String::from_str(filename),
            extra_args: clone_strings(extra_args),
        }
    }

    /// Whether the stored action is on the whitelist of recognized actions,
    /// compared case-insensitively.
    pub fn check_arg_is_valid(&self) -> (r: bool)
        ensures
            r == (action_of(self@.action) is Some),
    {
        classify_action(self.action.as_str()).is_some()
    }

    /// Routes this command to the single operation its action selects.
    /// The append-write family is declared but unimplemented and fails with
    /// a distinct signal; a whitelisted action outside the dispatch table
    /// (the rename family) and an unrecognized action route to no operation.
    pub fn dispatch(&self) -> (r: Result<Op, DispatchError>)
        ensures
            r == dispatch_of(self@.action),
    {
        match classify_action(self.action.as_str()) {
            Some(Action::Help) => Ok(Op::Help),
            Some(Action::Open) => Ok(Op::Open),
            Some(Action::Write) => Ok(Op::Write),
            Some(Action::Clear) => Ok(Op::Clear),
            Some(Action::Delete) => Ok(Op::Delete),
            Some(Action::Create) => Ok(Op::Create),
            Some(Action::Exit) => Ok(Op::Exit),
            Some(Action::WriteOver) => Err(DispatchError::Unimplemented),
            Some(Action::Rename) => Err(DispatchError::InvalidAction),
            None => Err(DispatchError::InvalidAction),
        }
    }

    /// The payload tokens concatenated, in order: the exact string that the
    /// write operation stores in the file.
    pub fn write_data(&self) -> (r: String)
        ensures
            r@ == joined(self@.payload),
    {
        let ghost vs = views_of(self.extra_args@);
        let mut out = String::new();
        let mut i: usize = 0;
        proof {
            assert(vs.take(0) =~= Seq::<Seq<char>>::empty());
        }
        while i < self.extra_args.len()
            invariant
                i <= self.extra_args.len(),
                vs == views_of(self.extra_args@),
                out@ == joined(vs.take(i as int)),
            decreases self.extra_args.len() - i,
        {
            out.append(self.extra_args[i].as_str());
            proof {
                lemma_joined_push(vs.take(i as int), vs[i as int]);
                assert(vs.take(i as int).push(vs[i as int]) =~= vs.take(i as int + 1));
            }
            i = i + 1;
        }
        proof {
            assert(vs.take(self.extra_args@.len() as int) =~= vs);
        }
        out
    }
}

/// The operation selected by an action token, or why none is.
pub open spec fn dispatch_of(action: Seq<char>) -> Result<Op, DispatchError> {
    match action_of(action) {
        Some(Action::Help) => Ok(Op::Help),
        Some(Action::Open) => Ok(Op::Open),
        Some(Action::Write) => Ok(Op::Write),
        Some(Action::Clear) => Ok(Op::Clear),
        Some(Action::Delete) => Ok(Op::Delete),
        Some(Action::Create) => Ok(Op::Create),
        Some(Action::Exit) => Ok(Op::Exit),
        Some(Action::WriteOver) => Err(DispatchError::Unimplemented),
        Some(Action::Rename) => Err(DispatchError::InvalidAction),
        None => Err(DispatchError::InvalidAction),
    }
}

/// The concatenation of a sequence of strings, in order.
pub open spec fn joined(parts: Seq<Seq<char>>) -> Seq<char>
    decreases parts.len(),
{
    if parts.len() == 0 {
        Seq::empty()
    } else {
        parts[0] + joined(parts.skip(1))
    }
}

/// Appending one more part extends the concatenation at the end.
pub proof fn lemma_joined_push(parts: Seq<Seq<char>>, x: Seq<char>)
    ensures
        joined(parts.push(x)) == joined(parts) + x,
    decreases parts.len(),
{
    if parts.len() == 0 {
        assert(parts.push(x).skip(1) =~= Seq::<Seq<char>>::empty());
        assert(joined(Seq::<Seq<char>>::empty()) == Seq::<char>::empty());
        assert(parts.push(x)[0] == x);
        assert(joined(parts.push(x)) == x + Seq::<char>::empty());
        assert(x + Seq::<char>::empty() =~= x);
        assert(Seq::<char>::empty() + x =~= x);
    } else {
        assert(parts.push(x).skip(1) =~= parts.skip(1).push(x));
        lemma_joined_push(parts.skip(1), x);
        assert(parts.push(x)[0] == parts[0]);
        assert(joined(parts.push(x)) == parts[0] + joined(parts.skip(1).push(x)));
        assert((parts[0] + joined(parts.skip(1))) + x
            =~= parts[0] + (joined(parts.skip(1)) + x));
        assert(joined(parts) == parts[0] + joined(parts.skip(1)));
    }
}

} // verus!

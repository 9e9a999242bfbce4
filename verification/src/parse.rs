//! Turning one raw input line into a validated command, or into the error
//! that names the violated rule: the line is tokenized, the first token is
//! held to the action whitelist, and the token count is held to the action's
//! arity class. Laws about the parser and the dispatch table close the file.

use vstd::prelude::*;
use crate::text::lower;
use crate::text::lower_char;
use crate::text::lowercase_ascii;
use crate::tokenize::tokenize;
use crate::tokenize::tokens_of;
use crate::tokenize::views_of;
use crate::command::Action;
use crate::command::ArityClass;
use crate::command::CmdArgs;
use crate::command::CmdModel;
use crate::command::DispatchError;
use crate::command::Op;
use crate::command::action_of;
use crate::command::arity_class_of;
use crate::command::arity_of;
use crate::command::arity_ok;
use crate::command::classify_action;
use crate::command::dispatch_of;

verus! {

/// Why an input line was rejected before any operation ran.
#[derive(Clone, Copy, PartialEq, Eq, Debug, Structural)]
pub enum ParseError {
    /// The line held no token at all.
    EmptyInput,
    /// The first token is not on the action whitelist.
    InvalidAction,
    /// The token count does not fit the arity class of the action.
    Arity(ArityClass),
}

/// The placeholder filename of a command whose action takes none.
pub open spec fn no_filename() -> Seq<char> {
    "none"@
}

/// The payload of a variadic command: every token past the filename, each
/// with one separator space appended.
pub open spec fn payload_of(toks: Seq<Seq<char>>) -> Seq<Seq<char>> {
    toks.skip(2).map_values(|t: Seq<char>| t.push(' '))
}

/// What a sequence of tokens parses to: the command record, or the first
/// violated rule. The stored action is the lower-cased first token.
pub open spec fn parse_tokens(toks: Seq<Seq<char>>) -> Result<CmdModel, ParseError> {
    if toks.len() == 0 {
        Err(ParseError::EmptyInput)
    } else {
        match action_of(toks[0]) {
            None => Err(ParseError::InvalidAction),
            Some(a) => if !arity_ok(a, toks.len()) {
                Err(ParseError::Arity(arity_of(a)))
            } else {
                match arity_of(a) {
                    ArityClass::Niladic => Ok(
                        CmdModel {
                            action: lower(toks[0]),
                            filename: no_filename(),
                            payload: Seq::empty(),
                        },
                    ),
                    ArityClass::Dyadic => Ok(
                        CmdModel { action: lower(toks[0]), filename: toks[1], payload: Seq::empty() },
                    ),
                    ArityClass::Variadic => Ok(
                        CmdModel {
                            action: lower(toks[0]),
                            filename: toks[1],
                            payload: payload_of(toks),
                        },
                    ),
                }
            },
        }
    }
}

/// What one raw input line parses to.
pub open spec fn parse_of(line: Seq<char>) -> Result<CmdModel, ParseError> {
    parse_tokens(tokens_of(line))
}

/// Reads one line into a validated command: tokenizes it, checks the first
/// token against the whitelist and the token count against the action's
/// arity, and returns the command record or the first violated rule.
pub fn parse_line(line: &str) -> (r: Result<CmdArgs, ParseError>)
    ensures
        match r {
            Ok(cmd) => parse_of(line@) == Ok::<CmdModel, ParseError>(cmd@),
            Err(e) => parse_of(line@) == Err::<CmdModel, ParseError>(e),
        },
{
    let toks = tokenize(line);
    let ghost tv = tokens_of(line@);
    if toks.len() == 0 {
        return Err(ParseError::EmptyInput);
    }
    let action = match classify_action(toks[0].as_str()) {
        None => {
            return Err(ParseError::InvalidAction);
        },
        Some(a) => a,
    };
    let lc_action = lowercase_ascii(toks[0].as_str());
    match arity_class_of(action) {
        ArityClass::Niladic => {
            if toks.len() != 1 {
                return Err(ParseError::Arity(ArityClass::Niladic));
            }
            let extra: Vec<String> = Vec::new();
            proof {
                assert(views_of(extra@) =~= Seq::<Seq<char>>::empty());
            }
            Ok(CmdArgs { action: lc_action, filename: String::from_str("none"), extra_args: extra })
        },
        ArityClass::Dyadic => {
            if toks.len() != 2 {
                return Err(ParseError::Arity(ArityClass::Dyadic));
            }
            let extra: Vec<String> = Vec::new();
            proof {
                assert(views_of(extra@) =~= Seq::<Seq<char>>::empty());
            }
            Ok(CmdArgs { action: lc_action, filename: toks[1].clone(), extra_args: extra })
        },
        ArityClass::Variadic => {
            if toks.len() < 2 {
                return Err(ParseError::Arity(ArityClass::Variadic));
            }
            let filename = toks[1].clone();
            let mut extra: Vec<String> = Vec::new();
            let mut i: usize = 2;
            while i < toks.len()
                invariant
                    2 <= i <= toks.len(),
                    tv == views_of(toks@),
                    extra@.len() == i - 2,
                    forall|k: int| 0 <= k < i - 2 ==> extra@[k]@ == tv[k + 2].push(' '),
                decreases toks.len() - i,
            {
                let padded = toks[i].clone().concat(" ");
                proof {
                    reveal_strlit(" ");
                    assert(" "@ =~= seq![' ']);
                    assert(padded@ =~= tv[i as int].push(' '));
                }
                extra.push(padded);
                i = i + 1;
            }
            proof {
                assert(views_of(extra@) =~= payload_of(tv));
            }
            Ok(CmdArgs { action: lc_action, filename, extra_args: extra })
        },
    }
}

/// Lower-casing a character twice is the same as doing it once.
proof fn lemma_lower_char_idempotent(c: char)
    ensures
        lower_char(lower_char(c)) == lower_char(c),
{
}

/// Lower-casing a string twice is the same as doing it once.
pub proof fn lemma_lower_idempotent(s: Seq<char>)
    ensures
        lower(lower(s)) == lower(s),
{
    assert forall|i: int| 0 <= i < s.len() implies lower_char(lower_char(s[i])) == lower_char(
        s[i],
    ) by {
        lemma_lower_char_idempotent(s[i]);
    }
    assert(lower(lower(s)) =~= lower(s));
}

/// The action a token selects does not change when the token is lower-cased;
/// in particular the action stored in a parsed command selects the same
/// operation as the raw token the user typed.
pub proof fn lemma_action_of_lower(tok: Seq<char>)
    ensures
        action_of(lower(tok)) == action_of(tok),
{
    lemma_lower_idempotent(tok);
}

/// A recognized niladic action (help, clear, exit) dispatches exactly when
/// the line is that one token alone; any other token count is rejected with
/// the niladic arity error, so no command exists and no operation — and so
/// no filesystem effect — can follow.
pub proof fn lemma_niladic_arity(line: Seq<char>, a: Action)
    requires
        tokens_of(line).len() > 0,
        action_of(tokens_of(line)[0]) == Some(a),
        arity_of(a) is Niladic,
    ensures
        parse_of(line) is Ok <==> tokens_of(line).len() == 1,
        tokens_of(line).len() != 1 ==> parse_of(line) == Err::<CmdModel, ParseError>(
            ParseError::Arity(ArityClass::Niladic),
        ),
{
}

/// A recognized dyadic action (open, create, delete) dispatches exactly when
/// the line has two tokens, and then the second token is the filename; one
/// token or three or more are rejected with the dyadic arity error.
pub proof fn lemma_dyadic_arity(line: Seq<char>, a: Action)
    requires
        tokens_of(line).len() > 0,
        action_of(tokens_of(line)[0]) == Some(a),
        arity_of(a) is Dyadic,
    ensures
        parse_of(line) is Ok <==> tokens_of(line).len() == 2,
        tokens_of(line).len() == 2 ==> parse_of(line) == Ok::<CmdModel, ParseError>(
            CmdModel {
                action: lower(tokens_of(line)[0]),
                filename: tokens_of(line)[1],
                payload: Seq::empty(),
            },
        ),
        tokens_of(line).len() != 2 ==> parse_of(line) == Err::<CmdModel, ParseError>(
            ParseError::Arity(ArityClass::Dyadic),
        ),
{
}

/// A recognized variadic action (the write family) dispatches exactly when
/// the line has at least two tokens; then the second token is the filename
/// and every later token, with one separator space appended, is payload —
/// so the string written for `w f a b` is the payload tokens joined, each
/// with its trailing space. A lone write token is rejected with the variadic
/// arity error.
pub proof fn lemma_variadic_arity(line: Seq<char>, a: Action)
    requires
        tokens_of(line).len() > 0,
        action_of(tokens_of(line)[0]) == Some(a),
        arity_of(a) is Variadic,
    ensures
        parse_of(line) is Ok <==> tokens_of(line).len() >= 2,
        tokens_of(line).len() >= 2 ==> parse_of(line) == Ok::<CmdModel, ParseError>(
            CmdModel {
                action: lower(tokens_of(line)[0]),
                filename: tokens_of(line)[1],
                payload: payload_of(tokens_of(line)),
            },
        ),
        tokens_of(line).len() < 2 ==> parse_of(line) == Err::<CmdModel, ParseError>(
            ParseError::Arity(ArityClass::Variadic),
        ),
{
}

/// A line whose first token is not on the whitelist never becomes a command:
/// it is rejected as an invalid action, so nothing is dispatched, the
/// filesystem is untouched, and the loop goes on to read the next line.
pub proof fn lemma_unknown_action_rejected(line: Seq<char>)
    requires
        tokens_of(line).len() > 0,
        action_of(tokens_of(line)[0]) is None,
    ensures
        parse_of(line) == Err::<CmdModel, ParseError>(ParseError::InvalidAction),
{
}

/// A line holding exactly one exit token always parses, and its command
/// always routes to the exit operation — whatever was typed before, the
/// shell can always be told to terminate.
pub proof fn lemma_exit_dispatches(line: Seq<char>)
    requires
        tokens_of(line).len() == 1,
        action_of(tokens_of(line)[0]) == Some(Action::Exit),
    ensures
        parse_of(line) matches Ok(m) && dispatch_of(m.action) == Ok::<Op, DispatchError>(Op::Exit),
{
    lemma_action_of_lower(tokens_of(line)[0]);
}

} // verus!

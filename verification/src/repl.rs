//! The interactive prompt: what each line typed at it asks for.
use vstd::prelude::*;

use crate::util::text::{chars_of, string_of_range};

verus! {

/// What a line typed at the prompt asks for.
#[derive(Debug, PartialEq, Eq)]
pub enum ReplAction {
    /// `\q`: leave the prompt
    Quit,
    /// `\ddm`: print the DBMS and its schemas
    DebugPrintDbms,
    /// `\ss`: save the schemas of all databases
    SaveSchemas,
    /// A backslash command that is none of these, without its backslash
    UnknownCommand(String),
    /// Anything else: queries to run
    Query(String),
}

/// The mathematical form of a [`ReplAction`].
pub enum ReplActionV {
    Quit,
    DebugPrintDbms,
    SaveSchemas,
    UnknownCommand(Seq<char>),
    Query(Seq<char>),
}

impl View for ReplAction {
    type V = ReplActionV;

    open spec fn view(&self) -> ReplActionV {
        match self {
            ReplAction::Quit => ReplActionV::Quit,
            ReplAction::DebugPrintDbms => ReplActionV::DebugPrintDbms,
            ReplAction::SaveSchemas => ReplActionV::SaveSchemas,
            ReplAction::UnknownCommand(c) => ReplActionV::UnknownCommand(c@),
            ReplAction::Query(q) => ReplActionV::Query(q@),
        }
    }
}

/// What the line `line` asks for: a line that starts with a backslash is a
/// command, any other line holds queries.
pub open spec fn action_of(line: Seq<char>) -> ReplActionV {
    if line.len() > 0 && line[0] == '\\' {
        let command = line.skip(1);
        if command == seq!['q'] {
            ReplActionV::Quit
        } else if command == seq!['d', 'd', 'm'] {
            ReplActionV::DebugPrintDbms
        } else if command == seq!['s', 's'] {
            ReplActionV::SaveSchemas
        } else {
            ReplActionV::UnknownCommand(command)
        }
    } else {
        ReplActionV::Query(line)
    }
}

/// Whether the characters of `s` after the first are `expected`.
fn rest_is(s: &Vec<char>, expected: &[char]) -> (r: bool)
    requires
        s@.len() >= 1,
    ensures
        r == (s@.skip(1) == expected@),
{
    if s.len() - 1 != expected.len() {
        assert(s@.skip(1).len() != expected@.len());
        return false;
    }
    let mut i: usize = 0;
    while i < expected.len()
        invariant
            i <= expected@.len() == s@.len() - 1,
            forall|j: int| 0 <= j < i ==> s@[j + 1] == expected@[j],
        decreases expected@.len() - i,
    {
        if s[i + 1] != expected[i] {
            assert(s@.skip(1)[i as int] != expected@[i as int]);
            return false;
        }
        i += 1;
    }
    assert(s@.skip(1) =~= expected@);
    true
}

/// What the line `line` typed at the prompt asks for.
pub fn repl_action(line: String) -> (r: ReplAction)
    ensures
        r@ == action_of(line@),
{
    let chars = chars_of(line.as_str());
    if chars.len() == 0 || chars[0] != '\\' {
        return ReplAction::Query(line);
    }
    let quit: [char; 1] = ['q'];
    assert(quit@ =~= seq!['q']);
    let print_dbms: [char; 3] = ['d', 'd', 'm'];
    assert(print_dbms@ =~= seq!['d', 'd', 'm']);
    let save: [char; 2] = ['s', 's'];
    assert(save@ =~= seq!['s', 's']);
    if rest_is(&chars, &quit) {
        ReplAction::Quit
    } else if rest_is(&chars, &print_dbms) {
        ReplAction::DebugPrintDbms
    } else if rest_is(&chars, &save) {
        ReplAction::SaveSchemas
    } else {
        let command = string_of_range(&chars, 1, chars.len());
        assert(chars@.subrange(1, chars@.len() as int) =~= chars@.skip(1));
        ReplAction::UnknownCommand(command)
    }
}

} // verus!

//! Whole bootstrap scripts.
use vstd::prelude::*;

use super::{
    command_from_parts, split_header_spec, BootstrapCommand, BootstrapError, BootstrapErrorKind, CommandView,
};
use crate::json::{json_leading_value, scan_json_value, JsonLead, JsonLeadView};
use crate::text::{chars_of, string_of, sub_chars, trim, trim_chars};

verus! {

/// `i` is the position of the first newline of `s`.
pub open spec fn is_first_newline(s: Seq<char>, i: int) -> bool {
    &&& 0 <= i < s.len()
    &&& s[i] == '\n'
    &&& forall|j: int| 0 <= j < i ==> #[trigger] s[j] != '\n'
}

/// A line without the `\r` of a `\r\n` line ending.
pub open spec fn strip_cr(s: Seq<char>) -> Seq<char> {
    if s.len() > 0 && s.last() == '\r' {
        s.drop_last()
    } else {
        s
    }
}

/// `str::lines`: the text split at `\n` and `\r\n`; a final line ending adds no empty line.
pub open spec fn lines_of(s: Seq<char>) -> Seq<Seq<char>>
    decreases s.len(),
{
    if s.len() == 0 {
        Seq::empty()
    } else if exists|i: int| is_first_newline(s, i) {
        let i = choose|i: int| is_first_newline(s, i);
        seq![strip_cr(s.subrange(0, i))] + lines_of(s.subrange(i + 1, s.len() as int))
    } else {
        seq![s]
    }
}

proof fn lemma_first_newline_unique(s: Seq<char>, i: int, j: int)
    requires
        is_first_newline(s, i),
        is_first_newline(s, j),
    ensures
        i == j,
{
    if i < j {
        assert(s[i] != '\n');
    } else if j < i {
        assert(s[j] != '\n');
    }
}

fn strip_cr_chars(s: Vec<char>) -> (v: Vec<char>)
    ensures
        v@ == strip_cr(s@),
{
    if s.len() > 0 && s[s.len() - 1] == '\r' {
        sub_chars(&s, 0, s.len() - 1)
    } else {
        s
    }
}

/// The lines of a text, as `str::lines` yields them.
pub fn split_lines(text: &[char]) -> (lines: Vec<Vec<char>>)
    ensures
        lines@.map_values(|l: Vec<char>| l@) == lines_of(text@),
{
    let mut lines: Vec<Vec<char>> = Vec::new();
    let mut start: usize = 0;
    let mut i: usize = 0;
    proof {
        assert(text@.subrange(0, text@.len() as int) =~= text@);
        assert(lines@.map_values(|l: Vec<char>| l@) + lines_of(text@) =~= lines_of(text@));
    }
    while i < text.len()
        invariant
            start <= i <= text@.len(),
            forall|j: int| start <= j < i ==> #[trigger] text@[j] != '\n',
            lines_of(text@) == lines@.map_values(|l: Vec<char>| l@) + lines_of(
                text@.subrange(start as int, text@.len() as int),
            ),
        decreases text@.len() - i,
    {
        if text[i] == '\n' {
            let ghost rest = text@.subrange(start as int, text@.len() as int);
            proof {
                let k = (i - start) as int;
                assert(is_first_newline(rest, k));
                let c = choose|c: int| is_first_newline(rest, c);
                lemma_first_newline_unique(rest, k, c);
                assert(rest.subrange(0, k) =~= text@.subrange(start as int, i as int));
                assert(rest.subrange(k + 1, rest.len() as int) =~= text@.subrange(i + 1, text@.len() as int));
            }
            let line = strip_cr_chars(sub_chars(text, start, i));
            let ghost before = lines@.map_values(|l: Vec<char>| l@);
            let ghost lv = line@;
            lines.push(line);
            proof {
                assert(lines@.map_values(|l: Vec<char>| l@) =~= before.push(lv));
                assert(before.push(lv) + lines_of(text@.subrange(i + 1, text@.len() as int)) =~= before + (
                seq![lv] + lines_of(text@.subrange(i + 1, text@.len() as int))));
            }
            start = i + 1;
        }
        i = i + 1;
    }
    let ghost rest = text@.subrange(start as int, text@.len() as int);
    if start < text.len() {
        proof {
            assert forall|c: int| !is_first_newline(rest, c) by {
                if 0 <= c < rest.len() {
                    assert(rest[c] == text@[start + c]);
                }
            }
        }
        let line = sub_chars(text, start, text.len());
        let ghost before = lines@.map_values(|l: Vec<char>| l@);
        let ghost lv = line@;
        lines.push(line);
        proof {
            assert(lines@.map_values(|l: Vec<char>| l@) =~= before.push(lv));
            assert(lines_of(rest) == seq![rest]);
            assert(before + seq![rest] =~= before.push(lv));
        }
    } else {
        proof {
            assert(rest.len() == 0);
            assert(lines@.map_values(|l: Vec<char>| l@) + lines_of(rest) =~= lines@.map_values(|l: Vec<char>| l@));
        }
    }
    lines
}


/// A command whose JSON payload is still being read.
pub struct PendingCommand {
    pub module: Seq<char>,
    pub resource: Seq<char>,
    pub action: Seq<char>,
    /// The JSON text read so far.
    pub json: Seq<char>,
    /// The 1-based line the command starts on.
    pub line: int,
}

pub open spec fn line_error(kind: BootstrapErrorKind, line: int) -> BootstrapError {
    BootstrapError { kind, line: Some(line as usize) }
}

/// Blank lines and lines starting with `#` hold no command.
pub open spec fn is_skipped(line: Seq<char>) -> bool {
    trim(line).len() == 0 || trim(line)[0] == '#'
}

/// The commands of a script, from line `i` on, while `pending` awaits the rest of its JSON.
///
/// A command's JSON starts after its action and, until serde_json finds a complete value
/// in it, takes in the following lines, joined with newlines; text after that value is
/// ignored.
pub open spec fn parse_script(
    lines: Seq<Seq<char>>,
    i: int,
    pending: Option<PendingCommand>,
) -> Result<Seq<CommandView>, BootstrapError>
    decreases lines.len() - i, (if pending is Some { 1int } else { 0int }),
{
    match pending {
        Some(p) => match json_leading_value(p.json) {
            JsonLeadView::Complete(json) => match command_from_parts(p.module, p.resource, p.action, json) {
                Err(kind) => Err(line_error(kind, p.line)),
                Ok(c) => match parse_script(lines, i, None) {
                    Ok(rest) => Ok(seq![c] + rest),
                    Err(e) => Err(e),
                },
            },
            JsonLeadView::Incomplete => if 0 <= i < lines.len() {
                parse_script(
                    lines,
                    i + 1,
                    Some(PendingCommand { json: p.json + seq!['\n'] + lines[i], ..p }),
                )
            } else {
                Err(line_error(BootstrapErrorKind::UnterminatedJson, p.line))
            },
            JsonLeadView::Invalid => Err(line_error(BootstrapErrorKind::InvalidJson, p.line)),
            JsonLeadView::Empty => Err(line_error(BootstrapErrorKind::ExpectedJson, p.line)),
        },
        None => if !(0 <= i < lines.len()) {
            Ok(Seq::empty())
        } else if is_skipped(lines[i]) {
            parse_script(lines, i + 1, None)
        } else {
            match split_header_spec(trim(lines[i])) {
                None => Err(line_error(BootstrapErrorKind::MalformedHeader, i + 1)),
                Some((module, resource, action, json)) => parse_script(
                    lines,
                    i + 1,
                    Some(PendingCommand { module, resource, action, json: trim(json), line: i + 1 }),
                ),
            }
        },
    }
}

/// The commands of a whole script.
pub open spec fn script_commands(content: Seq<char>) -> Result<Seq<CommandView>, BootstrapError> {
    parse_script(lines_of(content), 0, None)
}

pub open spec fn prepend(
    done: Seq<CommandView>,
    r: Result<Seq<CommandView>, BootstrapError>,
) -> Result<Seq<CommandView>, BootstrapError> {
    match r {
        Ok(rest) => Ok(done + rest),
        Err(e) => Err(e),
    }
}

struct Pending {
    module: Vec<char>,
    resource: Vec<char>,
    action: Vec<char>,
    json: Vec<char>,
    line: usize,
}

impl View for Pending {
    type V = PendingCommand;

    closed spec fn view(&self) -> PendingCommand {
        PendingCommand {
            module: self.module@,
            resource: self.resource@,
            action: self.action@,
            json: self.json@,
            line: self.line as int,
        }
    }
}

/// Parses a bootstrap script into its commands.
pub fn parse_bootstrap(content: &str) -> (r: Result<Vec<BootstrapCommand>, BootstrapError>)
    ensures
        r matches Ok(cmds) ==> script_commands(content@) == Ok::<Seq<CommandView>, BootstrapError>(
            cmds@.map_values(|c: BootstrapCommand| c@),
        ),
        r matches Err(e) ==> script_commands(content@) == Err::<Seq<CommandView>, BootstrapError>(e),
{
    let chars = chars_of(content);
    let lines = split_lines(&chars);
    let ghost lv = lines@.map_values(|l: Vec<char>| l@);
    let mut commands: Vec<BootstrapCommand> = Vec::new();
    let mut pending: Option<Pending> = None;
    let mut i: usize = 0;
    proof {
        assert(commands@.map_values(|c: BootstrapCommand| c@) + Seq::<CommandView>::empty() =~= Seq::<CommandView>::empty());
        assert(prepend(commands@.map_values(|c: BootstrapCommand| c@), parse_script(lv, 0, None)) =~= parse_script(lv, 0, None)) by {
            match parse_script(lv, 0, None) {
                Ok(rest) => {
                    assert(commands@.map_values(|c: BootstrapCommand| c@) + rest =~= rest);
                },
                Err(_) => {},
            }
        }
    }
    loop
        invariant
            lv == lines@.map_values(|l: Vec<char>| l@),
            lv == lines_of(content@),
            i <= lv.len(),
            pending matches Some(p) ==> p.line <= i,
            parse_script(lv, 0, None) == prepend(
                commands@.map_values(|c: BootstrapCommand| c@),
                parse_script(lv, i as int, (match pending {
                    Some(p) => Some(p@),
                    None => None::<PendingCommand>,
                })),
            ),
        decreases lv.len() - i, (if pending is Some { 1int } else { 0int }),
    {
        let ghost done = commands@.map_values(|c: BootstrapCommand| c@);
        match pending {
            Some(p) => {
                let json_text = string_of(&p.json);
                match scan_json_value(json_text.as_str()) {
                    JsonLead::Complete(json) => {
                        let module = string_of(&p.module);
                        let resource = string_of(&p.resource);
                        let action = string_of(&p.action);
                        match BootstrapCommand::from_parts(module.as_str(), resource.as_str(), action.as_str(), json.as_str()) {
                            Err(kind) => {
                                return Err(BootstrapError { kind, line: Some(p.line) });
                            },
                            Ok(c) => {
                                let ghost cv = c@;
                                commands.push(c);
                                pending = None;
                                proof {
                                    assert(commands@.map_values(|c: BootstrapCommand| c@) =~= done.push(cv));
                                    match parse_script(lv, i as int, None) {
                                        Ok(rest) => {
                                            assert(done + (seq![cv] + rest) =~= done.push(cv) + rest);
                                        },
                                        Err(_) => {},
                                    }
                                }
                            },
                        }
                    },
                    JsonLead::Incomplete => {
                        if i < lines.len() {
                            let mut json = p.json;
                            json.push('\n');
                            json.extend_from_slice(lines[i].as_slice());
                            proof {
                                assert(json@ =~= p.json@ + seq!['\n'] + lv[i as int]);
                            }
                            pending = Some(Pending { module: p.module, resource: p.resource, action: p.action, json, line: p.line });
                            i = i + 1;
                        } else {
                            return Err(BootstrapError { kind: BootstrapErrorKind::UnterminatedJson, line: Some(p.line) });
                        }
                    },
                    JsonLead::Invalid => {
                        return Err(BootstrapError { kind: BootstrapErrorKind::InvalidJson, line: Some(p.line) });
                    },
                    JsonLead::Empty => {
                        return Err(BootstrapError { kind: BootstrapErrorKind::ExpectedJson, line: Some(p.line) });
                    },
                }
            },
            None => {
                if i >= lines.len() {
                    proof {
                        assert(done + Seq::<CommandView>::empty() =~= done);
                    }
                    return Ok(commands);
                }
                let t = trim_chars(lines[i].as_slice());
                if t.len() == 0 || t[0] == '#' {
                    i = i + 1;
                } else {
                    match BootstrapCommand::split_header(&t) {
                        None => {
                            return Err(BootstrapError { kind: BootstrapErrorKind::MalformedHeader, line: Some(i + 1) });
                        },
                        Some((module, resource, action, json)) => {
                            let json = trim_chars(&json);
                            pending = Some(Pending { module, resource, action, json, line: i + 1 });
                            i = i + 1;
                        },
                    }
                }
            },
        }
    }
}

} // verus!

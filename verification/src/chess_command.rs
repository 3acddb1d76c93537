//! A small registry-driven command parser: commands are registered with
//! aliases, an argument count and an argument type, and an input line is
//! matched against the first registered command one of whose aliases
//! equals its first token.

use vstd::prelude::*;
use vstd::string::StrSliceExecFns;
use vstd::string::StringExecFns;
use crate::text::{
    dec_digits, is_ws, is_ws_char, leading_ws_end, find_ws, parse_u32_spec, parse_u32_range,
    push_char, u64_to_string,
};

verus! {

broadcast use vstd::seq::group_seq_axioms;

/// The type of a command's arguments.
#[allow(non_camel_case_types)]
#[derive(Clone, Copy, Debug, PartialEq, Eq, Structural)]
pub enum ArgType {
    ArgType_String,
    ArgType_u32,
}

/// The argument values carried by a parsed command.
#[derive(Clone, Debug)]
pub struct ArgContainer {
    pub args_string: Vec<String>,
    pub args_u32: Vec<u32>,
}

impl ArgContainer {
    pub fn new() -> (r: ArgContainer)
        ensures
            r.args_string@ == Seq::<String>::empty(),
            r.args_u32@ == Seq::<u32>::empty(),
    {
        ArgContainer { args_string: Vec::new(), args_u32: Vec::new() }
    }
}

/// Why an input line was rejected.
#[derive(Clone, Copy, Debug, PartialEq, Eq, Structural)]
pub enum CommandError {
    NoCommandRecieved,
    CommandNotFound,
    IncorrectNumberOfArguments,
    InvalidArgumentType,
}

/// One registered command: its aliases, identifier, and argument
/// expectations.
#[derive(Debug)]
pub struct RegisteredCommand<T: Copy> {
    pub cmd_aliases: Vec<String>,
    pub cmd_id: T,
    pub num_args: u32,
    pub arg_type: Option<ArgType>,
    pub help_str: String,
    pub default_args: Option<ArgContainer>,
}

/// A token equals one of the command's aliases.
pub open spec fn is_cmd_spec<T: Copy>(rc: RegisteredCommand<T>, s: Seq<char>) -> bool {
    exists|i: int| 0 <= i < rc.cmd_aliases@.len() && (#[trigger] rc.cmd_aliases@[i])@ == s
}

impl<T: Copy> RegisteredCommand<T> {
    /// Starts registering a command with the given identifier.
    pub fn new(id: T) -> (b: RegisteredCommandBuilder<T>)
        ensures
            b.cmd_aliases@ == Seq::<String>::empty(),
            b.cmd_id == id,
            b.num_args == 0,
            b.arg_type is None,
            b.help_str@ == Seq::<char>::empty(),
            b.default_args is None,
    {
        RegisteredCommandBuilder::new(id)
    }

    /// Whether the given token names this command.
    pub fn is_cmd(&self, other_str: &String) -> (b: bool)
        ensures
            b == is_cmd_spec(*self, other_str@),
    {
        let n = self.cmd_aliases.len();
        let mut i: usize = 0;
        while i < n
            invariant
                0 <= i <= n,
                n == self.cmd_aliases@.len(),
                forall|j: int| 0 <= j < i ==> (#[trigger] self.cmd_aliases@[j])@ != other_str@,
            decreases n - i,
        {
            if self.cmd_aliases[i] == *other_str {
                return true;
            }
            i += 1;
        }
        false
    }

    pub fn get_default_arguments(&self) -> (d: &Option<ArgContainer>)
        ensures
            d == &self.default_args,
    {
        &self.default_args
    }

    /// The help entry of this command: its aliases, argument count and
    /// type when it takes any, and its help line.
    pub fn to_text(&self) -> (r: String)
        ensures
            r@ == registered_command_text(*self),
    {
        let mut out = String::new();
        out.append("Command aliases: [");
        let n = self.cmd_aliases.len();
        let mut i: usize = 0;
        let ghost header = "Command aliases: ["@;
        while i < n
            invariant
                0 <= i <= n,
                n == self.cmd_aliases@.len(),
                out@ == header + aliases_text(self.cmd_aliases.deep_view().take(i as int)),
            decreases n - i,
        {
            let ghost pre = self.cmd_aliases.deep_view().take(i as int);
            let ghost pre1 = self.cmd_aliases.deep_view().take((i + 1) as int);
            if i > 0 {
                push_char(&mut out, ',');
            }
            out.append(self.cmd_aliases[i].as_str());
            proof {
                assert(pre1.drop_last() =~= pre);
                assert(pre1.last() == self.cmd_aliases.deep_view()[i as int]);
                assert(out@ =~= header + aliases_text(pre1));
            }
            i += 1;
        }
        proof {
            assert(self.cmd_aliases.deep_view().take(n as int) =~= self.cmd_aliases.deep_view());
        }
        out.append("]\n");
        let ghost part1 = out@;
        assert(part1 =~= header + aliases_text(self.cmd_aliases.deep_view()) + "]\n"@);
        if self.num_args > 0 {
            out.append("Number of arguments: ");
            let digits = u64_to_string(self.num_args as u64);
            out.append(digits.as_str());
            out.append("\n");
        }
        let ghost part2 = out@;
        assert(part2 =~= part1 + (if self.num_args > 0 {
            "Number of arguments: "@ + dec_digits(self.num_args as int) + "\n"@
        } else {
            Seq::<char>::empty()
        }));
        match &self.arg_type {
            Some(arg_type) => {
                out.append("Argument Type: ");
                match arg_type {
                    ArgType::ArgType_String => {
                        out.append("String");
                    },
                    ArgType::ArgType_u32 => {
                        out.append("u32");
                    },
                }
                out.append("\n");
            },
            None => {},
        }
        let ghost part3 = out@;
        assert(part3 =~= part2 + (match self.arg_type {
            Some(a) => "Argument Type: "@ + arg_type_name(a) + "\n"@,
            None => Seq::<char>::empty(),
        }));
        out.append(self.help_str.as_str());
        out.append("\n");
        assert(out@ =~= registered_command_text(*self));
        out
    }
}

/// The name of an argument type in help text.
pub open spec fn arg_type_name(a: ArgType) -> Seq<char> {
    match a {
        ArgType::ArgType_String => "String"@,
        ArgType::ArgType_u32 => "u32"@,
    }
}

/// Aliases joined by commas.
pub open spec fn aliases_text(aliases: Seq<Seq<char>>) -> Seq<char>
    decreases aliases.len(),
{
    if aliases.len() == 0 {
        Seq::empty()
    } else if aliases.len() == 1 {
        aliases[0]
    } else {
        aliases_text(aliases.drop_last()) + seq![','] + aliases.last()
    }
}

/// The help entry of one registered command.
pub open spec fn registered_command_text<T: Copy>(rc: RegisteredCommand<T>) -> Seq<char> {
    "Command aliases: ["@ + aliases_text(rc.cmd_aliases.deep_view()) + "]\n"@ + (if rc.num_args
        > 0 {
        "Number of arguments: "@ + dec_digits(rc.num_args as int) + "\n"@
    } else {
        Seq::<char>::empty()
    }) + (match rc.arg_type {
        Some(a) => "Argument Type: "@ + arg_type_name(a) + "\n"@,
        None => Seq::<char>::empty(),
    }) + rc.help_str@ + "\n"@
}

/// A successfully parsed command: the matched identifier and the
/// argument values that came with it.
#[derive(Debug)]
pub struct ParsedCommand<T: Copy> {
    pub cmd_id: T,
    pub arg_type: Option<ArgType>,
    pub args: Option<ArgContainer>,
}

impl<T: Copy> ParsedCommand<T> {
    pub fn new(cmd_id: T, arg_type: Option<ArgType>, args: Option<ArgContainer>) -> (r:
        ParsedCommand<T>)
        ensures
            r.cmd_id == cmd_id,
            r.arg_type == arg_type,
            r.args == args,
    {
        ParsedCommand { cmd_id, arg_type, args }
    }

    pub fn get_id(&self) -> (id: &T)
        ensures
            id == &self.cmd_id,
    {
        &self.cmd_id
    }

    pub fn get_arg_type(&self) -> (a: &Option<ArgType>)
        ensures
            a == &self.arg_type,
    {
        &self.arg_type
    }

    pub fn get_args_string(&self) -> (r: Option<&Vec<String>>)
        ensures
            match r {
                Some(v) => self.args is Some && v == &self.args->0.args_string,
                None => self.args is None,
            },
    {
        match &self.args {
            Some(arg_container) => Some(&arg_container.args_string),
            None => None,
        }
    }

    pub fn get_args_u32(&self) -> (r: Option<&Vec<u32>>)
        ensures
            match r {
                Some(v) => self.args is Some && v == &self.args->0.args_u32,
                None => self.args is None,
            },
    {
        match &self.args {
            Some(arg_container) => Some(&arg_container.args_u32),
            None => None,
        }
    }
}

/// What a successful parse of `rc` against the given argument tokens
/// holds.
pub open spec fn parse_cmd_ok<T: Copy>(
    rc: RegisteredCommand<T>,
    args: Seq<Seq<char>>,
    p: ParsedCommand<T>,
) -> bool {
    &&& p.cmd_id == rc.cmd_id
    &&& if args.len() >= rc.num_args {
        match rc.arg_type {
            None => p.arg_type is None && p.args is None,
            Some(ArgType::ArgType_String) => p.arg_type == rc.arg_type && p.args is Some
                && p.args->0.args_string.deep_view() == args.take(rc.num_args as int)
                && p.args->0.args_u32@ == Seq::<u32>::empty(),
            Some(ArgType::ArgType_u32) => p.arg_type == rc.arg_type && p.args is Some
                && p.args->0.args_string@ == Seq::<String>::empty()
                && p.args->0.args_u32@.len() == rc.num_args && (forall|i: int|
                0 <= i < rc.num_args ==> Some(#[trigger] p.args->0.args_u32@[i])
                    == parse_u32_spec(args[i])),
        }
    } else {
        p.arg_type == rc.arg_type && match rc.default_args {
            Some(d) => p.args is Some && p.args->0.args_string.deep_view()
                == d.args_string.deep_view() && p.args->0.args_u32@ == d.args_u32@,
            None => false,
        }
    }
}

/// When a parse of `rc` against the given argument tokens fails, and
/// with which error.
pub open spec fn parse_cmd_err<T: Copy>(
    rc: RegisteredCommand<T>,
    args: Seq<Seq<char>>,
    e: CommandError,
) -> bool {
    if args.len() >= rc.num_args {
        &&& rc.arg_type == Some(ArgType::ArgType_u32)
        &&& e == CommandError::InvalidArgumentType
        &&& exists|i: int| 0 <= i < rc.num_args && parse_u32_spec(#[trigger] args[i]) is None
    } else if args.len() != 0 {
        e == CommandError::IncorrectNumberOfArguments
    } else {
        rc.default_args is None && e == CommandError::IncorrectNumberOfArguments
    }
}

/// The index of the first registered command one of whose aliases is
/// `s`, or the count if none matches.
pub open spec fn first_match<T: Copy>(cmds: Seq<RegisteredCommand<T>>, s: Seq<char>, i: int) -> int
    decreases cmds.len() - i,
{
    if i < 0 || i >= cmds.len() {
        cmds.len() as int
    } else if is_cmd_spec(cmds[i], s) {
        i
    } else {
        first_match(cmds, s, i + 1)
    }
}

/// The registry of commands an input line is matched against.
#[derive(Debug)]
pub struct CommandParser<T: Copy> {
    pub registered_cmds: Vec<RegisteredCommand<T>>,
    pub description: String,
}

impl<T: Copy> CommandParser<T> {
    pub fn new() -> (p: CommandParser<T>)
        ensures
            p.registered_cmds@ == Seq::<RegisteredCommand<T>>::empty(),
            p.description@ == Seq::<char>::empty(),
    {
        CommandParser { registered_cmds: Vec::new(), description: String::new() }
    }

    pub fn from(cmds: Vec<RegisteredCommand<T>>) -> (p: CommandParser<T>)
        ensures
            p.registered_cmds == cmds,
            p.description@ == Seq::<char>::empty(),
    {
        CommandParser { registered_cmds: cmds, description: String::new() }
    }

    pub fn register_cmd(&mut self, cmd: RegisteredCommand<T>)
        ensures
            final(self).registered_cmds@ == old(self).registered_cmds@.push(cmd),
            final(self).description == old(self).description,
    {
        self.registered_cmds.push(cmd)
    }

    /// Replaces the whole registry.
    pub fn register_cmds(&mut self, cmds: Vec<RegisteredCommand<T>>)
        ensures
            final(self).registered_cmds == cmds,
            final(self).description == old(self).description,
    {
        self.registered_cmds = cmds
    }

    pub fn set_description(&mut self, description: String)
        ensures
            final(self).description == description,
            final(self).registered_cmds == old(self).registered_cmds,
    {
        self.description = description;
    }

    /// The description followed by each command's help entry, blank
    /// lines between.
    pub fn get_help_text(&self) -> (r: String)
        ensures
            r@ == help_text_spec(*self),
    {
        let mut output = String::new();
        output.append(self.description.as_str());
        output.append("\n\n");
        let ghost header = self.description@ + "\n\n"@;
        let n = self.registered_cmds.len();
        let mut i: usize = 0;
        while i < n
            invariant
                0 <= i <= n,
                n == self.registered_cmds@.len(),
                output@ == header + command_entries_text(self.registered_cmds@.take(i as int)),
            decreases n - i,
        {
            let ghost pre = self.registered_cmds@.take(i as int);
            let ghost pre1 = self.registered_cmds@.take((i + 1) as int);
            let entry = self.registered_cmds[i].to_text();
            output.append(entry.as_str());
            output.append("\n\n");
            proof {
                assert(pre1.drop_last() =~= pre);
                assert(pre1.last() == self.registered_cmds@[i as int]);
                assert(output@ =~= header + command_entries_text(pre1));
            }
            i += 1;
        }
        proof {
            assert(self.registered_cmds@.take(n as int) =~= self.registered_cmds@);
        }
        output
    }

    /// Splits an input line on whitespace and parses the tokens.
    pub fn parse_string(&self, string_input: String) -> (r: Result<ParsedCommand<T>, CommandError>)
        ensures
            parse_vec_result(*self, split_ws_spec(string_input@, 0), r),
    {
        let tokens = split_ws(string_input.as_str());
        self.parse_vec(tokens)
    }

    /// Matches the first token against the registered aliases and
    /// parses the remaining tokens as that command's arguments.
    pub fn parse_vec(&self, vec_input: Vec<String>) -> (r: Result<ParsedCommand<T>, CommandError>)
        ensures
            parse_vec_result(*self, vec_input.deep_view(), r),
    {
        let ghost dv = vec_input.deep_view();
        if vec_input.len() > 0 {
            let n = self.registered_cmds.len();
            let mut i: usize = 0;
            while i < n
                invariant
                    0 <= i <= n,
                    n == self.registered_cmds@.len(),
                    dv == vec_input.deep_view(),
                    vec_input@.len() > 0,
                    dv[0] == vec_input@[0]@,
                    first_match(self.registered_cmds@, dv[0], 0) == first_match(
                        self.registered_cmds@,
                        dv[0],
                        i as int,
                    ),
                decreases n - i,
            {
                if self.registered_cmds[i].is_cmd(&vec_input[0]) {
                    assert(first_match(self.registered_cmds@, dv[0], 0) == i as int);
                    let r = self.parse_cmd(i, &vec_input);
                    proof {
                        assert(dv.subrange(1, dv.len() as int) =~~= vec_input.deep_view()
                            .subrange(1, vec_input.deep_view().len() as int));
                    }
                    return r;
                }
                i += 1;
            }
            assert(first_match(self.registered_cmds@, dv[0], 0) == n as int);
            Err(CommandError::CommandNotFound)
        } else {
            Err(CommandError::NoCommandRecieved)
        }
    }

    /// Parses the tokens after the command name as the matched
    /// command's arguments.
    fn parse_cmd(&self, which: usize, vec_input: &Vec<String>) -> (r: Result<
        ParsedCommand<T>,
        CommandError,
    >)
        requires
            which < self.registered_cmds@.len(),
            vec_input@.len() >= 1,
        ensures
            ({
                let rc = self.registered_cmds@[which as int];
                let args = vec_input.deep_view().subrange(1, vec_input@.len() as int);
                match r {
                    Ok(p) => parse_cmd_ok(rc, args, p),
                    Err(e) => parse_cmd_err(rc, args, e),
                }
            }),
    {
        let rcmd = &self.registered_cmds[which];
        let ghost args = vec_input.deep_view().subrange(1, vec_input@.len() as int);
        let arg_count = vec_input.len() - 1;
        assert(args.len() == arg_count);
        if arg_count >= rcmd.num_args as usize {
            let mut arg_container = ArgContainer::new();
            let want = rcmd.num_args as usize;
            match rcmd.arg_type {
                Some(ArgType::ArgType_String) => {
                            let mut i: usize = 0;
                            while i < want
                                invariant
                                    0 <= i <= want,
                                    want <= arg_count,
                                    arg_count + 1 == vec_input@.len(),
                                    args == vec_input.deep_view().subrange(
                                        1,
                                        vec_input@.len() as int,
                                    ),
                                    arg_container.args_string.deep_view() =~~= args.take(
                                        i as int,
                                    ),
                                    arg_container.args_u32@ == Seq::<u32>::empty(),
                                decreases want - i,
                            {
                                let ghost pre = args.take(i as int);
                                arg_container.args_string.push(vec_input[i + 1].clone());
                                proof {
                                    assert(args.take((i + 1) as int).drop_last() =~= pre);
                                    assert(vec_input[i + 1 as int]@ == args[i as int]);
                                    assert(arg_container.args_string.deep_view() =~~= args.take(
                                        (i + 1) as int,
                                    ));
                                }
                                i += 1;
                            }
                            return Ok(
                                ParsedCommand::new(
                                    rcmd.cmd_id,
                                    rcmd.arg_type,
                                    Some(arg_container),
                                ),
                            );
                },
                Some(ArgType::ArgType_u32) => {
                    let mut i: usize = 0;
                            while i < want
                                invariant
                                    0 <= i <= want,
                                    want <= arg_count,
                                    arg_count + 1 == vec_input@.len(),
                                    which < self.registered_cmds@.len(),
                                    *rcmd == self.registered_cmds@[which as int],
                                    rcmd.arg_type == Some(ArgType::ArgType_u32),
                                    want == rcmd.num_args,
                                    args == vec_input.deep_view().subrange(
                                        1,
                                        vec_input@.len() as int,
                                    ),
                                    arg_container.args_string@ == Seq::<String>::empty(),
                                    arg_container.args_u32@.len() == i,
                                    forall|j: int|
                                        0 <= j < i ==> Some(
                                            #[trigger] arg_container.args_u32@[j],
                                        ) == parse_u32_spec(args[j]),
                                decreases want - i,
                            {
                                let tok = &vec_input[i + 1];
                                let tok_len = tok.as_str().unicode_len();
                                assert(tok@ == args[i as int]);
                                match parse_u32_range(tok.as_str(), 0, tok_len) {
                                    Some(v) => {
                                        proof {
                                            assert(tok@.subrange(0, tok@.len() as int) =~= tok@);
                                        }
                                        arg_container.args_u32.push(v);
                                    },
                                    None => {
                                        proof {
                                            assert(tok@.subrange(0, tok@.len() as int) =~= tok@);
                                            assert(parse_u32_spec(args[i as int]) is None);
                                            let rc = self.registered_cmds@[which as int];
                                            assert(rc.arg_type == Some(ArgType::ArgType_u32));
                                            assert(exists|j: int|
                                                0 <= j < rc.num_args && parse_u32_spec(
                                                    #[trigger] args[j],
                                                ) is None);
                                        }
                                        return Err(CommandError::InvalidArgumentType);
                                    },
                                }
                                i += 1;
                            }
                            return Ok(
                                ParsedCommand::new(
                                    rcmd.cmd_id,
                                    rcmd.arg_type,
                                    Some(arg_container),
                                ),
                            );
                },
                None => {
                    return Ok(ParsedCommand::new(rcmd.cmd_id, None, None));
                },
            }
        } else {
            if arg_count != 0 {
                return Err(CommandError::IncorrectNumberOfArguments);
            }
            match &rcmd.default_args {
                Some(def_args) => {
                    let copied = ArgContainer {
                        args_string: clone_string_vec(&def_args.args_string),
                        args_u32: clone_u32_vec(&def_args.args_u32),
                    };
                    return Ok(ParsedCommand::new(rcmd.cmd_id, rcmd.arg_type, Some(copied)));
                },
                None => {
                    return Err(CommandError::IncorrectNumberOfArguments);
                },
            }
        }
    }
}

/// What parsing a token list yields: an empty line and an unknown
/// command are rejected; otherwise the first matching registration
/// decides.
pub open spec fn parse_vec_result<T: Copy>(
    parser: CommandParser<T>,
    tokens: Seq<Seq<char>>,
    r: Result<ParsedCommand<T>, CommandError>,
) -> bool {
    if tokens.len() == 0 {
        r == Err::<ParsedCommand<T>, CommandError>(CommandError::NoCommandRecieved)
    } else {
        let k = first_match(parser.registered_cmds@, tokens[0], 0);
        if k == parser.registered_cmds@.len() {
            r == Err::<ParsedCommand<T>, CommandError>(CommandError::CommandNotFound)
        } else {
            let rc = parser.registered_cmds@[k];
            let args = tokens.subrange(1, tokens.len() as int);
            match r {
                Ok(p) => parse_cmd_ok(rc, args, p),
                Err(e) => parse_cmd_err(rc, args, e),
            }
        }
    }
}

/// The help text: the description, then every command's entry.
pub open spec fn help_text_spec<T: Copy>(parser: CommandParser<T>) -> Seq<char> {
    parser.description@ + "\n\n"@ + command_entries_text(parser.registered_cmds@)
}

pub open spec fn command_entries_text<T: Copy>(cmds: Seq<RegisteredCommand<T>>) -> Seq<char>
    decreases cmds.len(),
{
    if cmds.len() == 0 {
        Seq::empty()
    } else {
        command_entries_text(cmds.drop_last()) + registered_command_text(cmds.last()) + "\n\n"@
    }
}

fn clone_string_vec(v: &Vec<String>) -> (r: Vec<String>)
    ensures
        r.deep_view() == v.deep_view(),
{
    let mut r: Vec<String> = Vec::new();
    let n = v.len();
    let mut i: usize = 0;
    while i < n
        invariant
            0 <= i <= n,
            n == v@.len(),
            r.deep_view() =~~= v.deep_view().take(i as int),
        decreases n - i,
    {
        r.push(v[i].clone());
        proof {
            assert(v.deep_view().take((i + 1) as int).drop_last() =~= v.deep_view().take(
                i as int,
            ));
            assert(r.deep_view() =~~= v.deep_view().take((i + 1) as int));
        }
        i += 1;
    }
    proof {
        assert(v.deep_view().take(n as int) =~= v.deep_view());
    }
    r
}

fn clone_u32_vec(v: &Vec<u32>) -> (r: Vec<u32>)
    ensures
        r@ == v@,
{
    let mut r: Vec<u32> = Vec::new();
    let n = v.len();
    let mut i: usize = 0;
    while i < n
        invariant
            0 <= i <= n,
            n == v@.len(),
            r@ =~= v@.take(i as int),
        decreases n - i,
    {
        r.push(v[i]);
        assert(r@ =~= v@.take((i + 1) as int));
        i += 1;
    }
    assert(v@.take(n as int) =~= v@);
    r
}

/// The whitespace-separated tokens of a line, from index `i` on.
pub open spec fn split_ws_spec(s: Seq<char>, i: int) -> Seq<Seq<char>>
    decreases s.len() - i,
    via split_ws_spec_decreases
{
    if !(0 <= i <= s.len()) {
        Seq::empty()
    } else {
        let a = leading_ws_end(s, i);
        if a >= s.len() {
            Seq::empty()
        } else {
            let b = find_ws(s, a);
            seq![s.subrange(a, b)] + split_ws_spec(s, b)
        }
    }
}

#[via_fn]
proof fn split_ws_spec_decreases(s: Seq<char>, i: int) {
    if 0 <= i <= s.len() {
        crate::text::lemma_leading_ws_end_bounds(s, i);
        crate::text::lemma_leading_ws_end_stops(s, i);
        let a = leading_ws_end(s, i);
        if a < s.len() {
            crate::text::lemma_find_ws_bounds(s, a + 1);
            assert(find_ws(s, a) == find_ws(s, a + 1));
        }
    }
}

/// Splits a line into its whitespace-separated tokens.
pub fn split_ws(s: &str) -> (r: Vec<String>)
    ensures
        r.deep_view() == split_ws_spec(s@, 0),
{
    let len = s.unicode_len();
    let mut out: Vec<String> = Vec::new();
    let mut i: usize = 0;
    loop
        invariant
            0 <= i <= len,
            len == s@.len(),
            split_ws_spec(s@, 0) == (out.deep_view() + split_ws_spec(s@, i as int)),
        decreases len - i,
    {
        // skip whitespace
        let mut a = i;
        while a < len && is_ws(s.get_char(a))
            invariant
                i <= a <= len,
                len == s@.len(),
                leading_ws_end(s@, i as int) == leading_ws_end(s@, a as int),
            decreases len - a,
        {
            a += 1;
        }
        assert(leading_ws_end(s@, i as int) == a as int);
        if a >= len {
            proof {
                assert(out.deep_view() + split_ws_spec(s@, i as int) =~~= out.deep_view());
            }
            return out;
        }
        // take the token
        let mut b = a;
        let mut stop = false;
        while b < len && !stop
            invariant
                a <= b <= len,
                len == s@.len(),
                find_ws(s@, a as int) == find_ws(s@, b as int),
                stop ==> find_ws(s@, b as int) == b as int,
            decreases len - b, (if stop { 0int } else { 1int }),
        {
            if is_ws(s.get_char(b)) {
                stop = true;
            } else {
                b += 1;
            }
        }
        assert(find_ws(s@, a as int) == b as int);
        let tok = s.substring_char(a, b);
        out.push(tok.to_owned());
        proof {
            let ghost pre = out.deep_view().drop_last();
            assert(out.deep_view() =~~= pre + seq![s@.subrange(a as int, b as int)]);
            let rest = split_ws_spec(s@, b as int);
            assert(pre + (seq![s@.subrange(a as int, b as int)] + rest) =~~= out.deep_view()
                + rest);
        }
        i = b;
    }
}

/// Builds one command registration, field by field.
#[derive(Debug)]
pub struct RegisteredCommandBuilder<T: Copy> {
    pub cmd_aliases: Vec<String>,
    pub cmd_id: T,
    pub num_args: u32,
    pub arg_type: Option<ArgType>,
    pub help_str: String,
    pub default_args: Option<ArgContainer>,
}

impl<T: Copy> RegisteredCommandBuilder<T> {
    pub fn new(id: T) -> (b: RegisteredCommandBuilder<T>)
        ensures
            b.cmd_aliases@ == Seq::<String>::empty(),
            b.cmd_id == id,
            b.num_args == 0,
            b.arg_type is None,
            b.help_str@ == Seq::<char>::empty(),
            b.default_args is None,
    {
        RegisteredCommandBuilder {
            cmd_aliases: Vec::new(),
            cmd_id: id,
            num_args: 0,
            arg_type: None,
            help_str: String::new(),
            default_args: None,
        }
    }

    /// Adds aliases under which the command is found.
    pub fn add_aliases(self, cmd_aliases: &[&str]) -> (r: RegisteredCommandBuilder<T>)
        ensures
            r.cmd_aliases.deep_view() == self.cmd_aliases.deep_view() + cmd_aliases.deep_view(),
            r.cmd_id == self.cmd_id,
            r.num_args == self.num_args,
            r.arg_type == self.arg_type,
            r.help_str == self.help_str,
            r.default_args == self.default_args,
    {
        let mut aliases = self.cmd_aliases;
        let ghost base = aliases.deep_view();
        let ghost dv = cmd_aliases.deep_view();
        let n = cmd_aliases.len();
        let mut i: usize = 0;
        while i < n
            invariant
                0 <= i <= n,
                n == cmd_aliases@.len(),
                dv == cmd_aliases.deep_view(),
                aliases.deep_view() == base + dv.take(i as int),
            decreases n - i,
        {
            let ghost prev = aliases.deep_view();
            aliases.push(cmd_aliases[i].to_owned());
            proof {
                assert(aliases.deep_view() =~~= prev.push(dv[i as int]));
                assert(dv.take((i + 1) as int) =~= dv.take(i as int).push(dv[i as int]));
                assert((base + dv.take(i as int)).push(dv[i as int]) =~= base + dv.take(
                    (i + 1) as int,
                ));
            }
            i += 1;
        }
        proof {
            assert(dv.take(n as int) =~= dv);
        }
        RegisteredCommandBuilder { cmd_aliases: aliases, ..self }
    }

    pub fn add_num_args(self, n: u32) -> (r: RegisteredCommandBuilder<T>)
        ensures
            r == (RegisteredCommandBuilder { num_args: n, ..self }),
    {
        RegisteredCommandBuilder { num_args: n, ..self }
    }

    pub fn add_arg_type(self, arg_type: ArgType) -> (r: RegisteredCommandBuilder<T>)
        ensures
            r == (RegisteredCommandBuilder { arg_type: Some(arg_type), ..self }),
    {
        RegisteredCommandBuilder { arg_type: Some(arg_type), ..self }
    }

    pub fn add_help_str(self, help: &str) -> (r: RegisteredCommandBuilder<T>)
        ensures
            r.help_str@ == help@,
            r.cmd_aliases == self.cmd_aliases,
            r.cmd_id == self.cmd_id,
            r.num_args == self.num_args,
            r.arg_type == self.arg_type,
            r.default_args == self.default_args,
    {
        RegisteredCommandBuilder { help_str: help.to_owned(), ..self }
    }

    pub fn add_help_string(self, help: String) -> (r: RegisteredCommandBuilder<T>)
        ensures
            r == (RegisteredCommandBuilder { help_str: help, ..self }),
    {
        RegisteredCommandBuilder { help_str: help, ..self }
    }

    /// Default arguments used when the command comes without any.
    pub fn add_default_args_string(self, def: Vec<String>) -> (r: RegisteredCommandBuilder<T>)
        ensures
            r.default_args is Some,
            r.default_args->0.args_string == def,
            r.default_args->0.args_u32@ == Seq::<u32>::empty(),
            r.cmd_aliases == self.cmd_aliases,
            r.cmd_id == self.cmd_id,
            r.num_args == self.num_args,
            r.arg_type == self.arg_type,
            r.help_str == self.help_str,
    {
        let mut arg_container = ArgContainer::new();
        arg_container.args_string = def;
        RegisteredCommandBuilder { default_args: Some(arg_container), ..self }
    }

    pub fn add_default_args_u32(self, def: Vec<u32>) -> (r: RegisteredCommandBuilder<T>)
        ensures
            r.default_args is Some,
            r.default_args->0.args_u32 == def,
            r.default_args->0.args_string@ == Seq::<String>::empty(),
            r.cmd_aliases == self.cmd_aliases,
            r.cmd_id == self.cmd_id,
            r.num_args == self.num_args,
            r.arg_type == self.arg_type,
            r.help_str == self.help_str,
    {
        let mut arg_container = ArgContainer::new();
        arg_container.args_u32 = def;
        RegisteredCommandBuilder { default_args: Some(arg_container), ..self }
    }

    /// Finishes the registration.
    pub fn build(self) -> (r: Option<RegisteredCommand<T>>)
        ensures
            r is Some,
            r->0.cmd_aliases == self.cmd_aliases,
            r->0.cmd_id == self.cmd_id,
            r->0.num_args == self.num_args,
            r->0.arg_type == self.arg_type,
            r->0.help_str == self.help_str,
            r->0.default_args == self.default_args,
    {
        Some(
            RegisteredCommand {
                cmd_aliases: self.cmd_aliases,
                cmd_id: self.cmd_id,
                num_args: self.num_args,
                arg_type: self.arg_type,
                help_str: self.help_str,
                default_args: self.default_args,
            },
        )
    }
}

} // verus!

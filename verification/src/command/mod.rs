//! Commands: their arguments, their failures, and the registry that runs
//! them by name.

pub mod command_registry;
pub mod default_commands;

use crate::buffer::Mode;
use crate::parse::{
    chars_of, contains_char, decimal_text, eq_ignore_ascii_case, first_index_of, parse_i64,
    parse_usize, push_decimal, same_ignoring_ascii_case, signed_decimal, unsigned_decimal,
};
use crate::strings::lowercase_of;
use vstd::prelude::*;

verus! {

/// A value handed to a command.
#[derive(Debug, Clone)]
pub enum CommandArg {
    Str(String),
    Int(i64),
    Bool(bool),
    Mode(Mode),
    Position { row: usize, col: usize },
    Path(String),
}

/// What a [`CommandArg`] stands for.
#[verifier::ext_equal]
pub enum ArgView {
    Str(Seq<char>),
    Int(i64),
    Bool(bool),
    Mode(Mode),
    Position { row: usize, col: usize },
    Path(Seq<char>),
}

impl View for CommandArg {
    type V = ArgView;

    open spec fn view(&self) -> ArgView {
        match self {
            CommandArg::Str(s) => ArgView::Str(s@),
            CommandArg::Int(i) => ArgView::Int(*i),
            CommandArg::Bool(b) => ArgView::Bool(*b),
            CommandArg::Mode(m) => ArgView::Mode(*m),
            CommandArg::Position { row, col } => ArgView::Position { row: *row, col: *col },
            CommandArg::Path(p) => ArgView::Path(p@),
        }
    }
}

/// The views of a list of arguments.
pub open spec fn arg_views(args: Seq<CommandArg>) -> Seq<ArgView> {
    args.map_values(|a: CommandArg| a@)
}

/// The views of a list of arguments that may be missing.
pub open spec fn args_view(args: Option<Vec<CommandArg>>) -> Option<Seq<ArgView>> {
    match args {
        Some(list) => Some(arg_views(list@)),
        None => None,
    }
}

/// The position that `token` writes as a row and a column with a comma
/// between them.
pub open spec fn position_of(token: Seq<char>) -> Option<(usize, usize)> {
    let comma = first_index_of(token, ',', 0);
    if comma < token.len() {
        match (
            unsigned_decimal(token.subrange(0, comma), usize::MAX as nat),
            unsigned_decimal(token.subrange(comma + 1, token.len() as int), usize::MAX as nat),
        ) {
            (Some(row), Some(col)) => Some((row as usize, col as usize)),
            _ => None,
        }
    } else {
        None
    }
}

/// The argument that a word of a command line stands for. The readings are
/// tried in a fixed order: a path, a position, a mode, a number, a truth
/// value, and at last the word itself.
pub open spec fn arg_of_token(token: Seq<char>) -> ArgView {
    if token.contains('/') || token.contains('.') {
        ArgView::Path(token)
    } else if let Some((row, col)) = position_of(token) {
        ArgView::Position { row, col }
    } else if Mode::of_lowercase(lowercase_of(token)) is Some {
        ArgView::Mode(Mode::of_lowercase(lowercase_of(token))->0)
    } else if signed_decimal(token) is Some {
        ArgView::Int(signed_decimal(token)->0 as i64)
    } else if same_ignoring_ascii_case(token, "true"@) {
        ArgView::Bool(true)
    } else if same_ignoring_ascii_case(token, "false"@) {
        ArgView::Bool(false)
    } else {
        ArgView::Str(token)
    }
}

impl CommandArg {
    /// A copy of the argument.
    pub fn duplicate(&self) -> (copy: CommandArg)
        ensures
            copy@ == self@,
    {
        match self {
            CommandArg::Str(s) => CommandArg::Str(s.clone()),
            CommandArg::Int(i) => CommandArg::Int(*i),
            CommandArg::Bool(b) => CommandArg::Bool(*b),
            CommandArg::Mode(m) => CommandArg::Mode(*m),
            CommandArg::Position { row, col } => CommandArg::Position { row: *row, col: *col },
            CommandArg::Path(p) => CommandArg::Path(p.clone()),
        }
    }

    /// Reads the position that `chars` writes, if it writes one.
    pub fn parse_position(chars: &Vec<char>) -> (position: Option<(usize, usize)>)
        ensures
            position == position_of(chars@),
    {
        let mut comma: usize = 0;
        while comma < chars.len() && chars[comma] != ','
            invariant
                comma <= chars.len(),
                first_index_of(chars@, ',', comma as int) == first_index_of(chars@, ',', 0),
            decreases chars.len() - comma,
        {
            comma = comma + 1;
        }
        if comma >= chars.len() {
            return None;
        }
        let mut row_chars: Vec<char> = Vec::new();
        let mut i: usize = 0;
        while i < comma
            invariant
                i <= comma < chars.len(),
                row_chars@ == chars@.subrange(0, i as int),
            decreases comma - i,
        {
            row_chars.push(chars[i]);
            assert(chars@.subrange(0, i + 1) =~= chars@.subrange(0, i as int).push(chars@[i as int]));
            i = i + 1;
        }
        let mut col_chars: Vec<char> = Vec::new();
        let mut j: usize = comma + 1;
        while j < chars.len()
            invariant
                comma < j <= chars.len(),
                col_chars@ == chars@.subrange(comma + 1, j as int),
            decreases chars.len() - j,
        {
            col_chars.push(chars[j]);
            assert(chars@.subrange(comma + 1, j + 1) =~= chars@.subrange(comma + 1, j as int).push(
                chars@[j as int],
            ));
            j = j + 1;
        }
        match (parse_usize(&row_chars), parse_usize(&col_chars)) {
            (Some(row), Some(col)) => Some((row, col)),
            _ => None,
        }
    }

    /// Reads one word of a command line.
    pub fn parse_arg(token: &str) -> (arg: CommandArg)
        ensures
            arg@ == arg_of_token(token@),
    {
        let chars = chars_of(token);
        if contains_char(&chars, '/') || contains_char(&chars, '.') {
            return CommandArg::Path(String::from_str(token));
        }
        match CommandArg::parse_position(&chars) {
            Some((row, col)) => {
                return CommandArg::Position { row, col };
            },
            None => {},
        }
        let lower = token.to_lowercase();
        match Mode::from_lowercase(lower.as_str()) {
            Some(mode) => {
                return CommandArg::Mode(mode);
            },
            None => {},
        }
        match parse_i64(&chars) {
            Some(i) => {
                return CommandArg::Int(i);
            },
            None => {},
        }
        if eq_ignore_ascii_case(&chars, "true") {
            return CommandArg::Bool(true);
        }
        if eq_ignore_ascii_case(&chars, "false") {
            return CommandArg::Bool(false);
        }
        CommandArg::Str(String::from_str(token))
    }
}

/// A copy of a list of arguments.
pub fn duplicate_args(args: &Vec<CommandArg>) -> (copy: Vec<CommandArg>)
    ensures
        arg_views(copy@) == arg_views(args@),
{
    let mut copy: Vec<CommandArg> = Vec::new();
    let mut i: usize = 0;
    while i < args.len()
        invariant
            i <= args.len(),
            copy.len() == i,
            forall|k: int| 0 <= k < i ==> copy[k]@ == args[k]@,
        decreases args.len() - i,
    {
        copy.push(args[i].duplicate());
        i = i + 1;
    }
    assert(arg_views(copy@) =~= arg_views(args@));
    copy
}

/// A copy of a list of arguments that may be missing.
pub fn duplicate_optional_args(args: &Option<Vec<CommandArg>>) -> (copy: Option<Vec<CommandArg>>)
    ensures
        args_view(copy) == args_view(*args),
{
    match args {
        Some(list) => Some(duplicate_args(list)),
        None => None,
    }
}

/// Why a command failed.
#[derive(Debug, Clone)]
pub enum CommandError {
    /// The command takes arguments and got none.
    NoArguments,
    /// There is no argument at this place.
    MissingArgument(usize),
    /// The argument at this place is of another type.
    WrongType(usize),
    /// Commands ran commands deeper than the registry allows.
    NestedTooDeep,
    /// Any other failure, in words.
    Message(String),
}

/// What a [`CommandError`] stands for.
#[verifier::ext_equal]
pub enum ErrorView {
    NoArguments,
    MissingArgument(usize),
    WrongType(usize),
    NestedTooDeep,
    Message(Seq<char>),
}

impl View for CommandError {
    type V = ErrorView;

    open spec fn view(&self) -> ErrorView {
        match self {
            CommandError::NoArguments => ErrorView::NoArguments,
            CommandError::MissingArgument(i) => ErrorView::MissingArgument(*i),
            CommandError::WrongType(i) => ErrorView::WrongType(*i),
            CommandError::NestedTooDeep => ErrorView::NestedTooDeep,
            CommandError::Message(m) => ErrorView::Message(m@),
        }
    }
}

impl ErrorView {
    /// The words of the error.
    pub open spec fn message(self) -> Seq<char> {
        match self {
            ErrorView::NoArguments => "No arguments provided"@,
            ErrorView::MissingArgument(i) => "Missing argument '"@ + decimal_text(i as nat) + "'"@,
            ErrorView::WrongType(i) => "Argument '"@ + decimal_text(i as nat)
                + "' has wrong type"@,
            ErrorView::NestedTooDeep => "Commands nested too deep"@,
            ErrorView::Message(m) => m,
        }
    }
}

impl CommandError {
    /// The words of the error.
    pub fn message(&self) -> (text: String)
        ensures
            text@ == self@.message(),
    {
        match self {
            CommandError::NoArguments => String::from_str("No arguments provided"),
            CommandError::MissingArgument(i) => {
                let mut text = String::from_str("Missing argument '");
                push_decimal(&mut text, *i as u64);
                text.append("'");
                text
            },
            CommandError::WrongType(i) => {
                let mut text = String::from_str("Argument '");
                push_decimal(&mut text, *i as u64);
                text.append("' has wrong type");
                text
            },
            CommandError::NestedTooDeep => String::from_str("Commands nested too deep"),
            CommandError::Message(m) => m.clone(),
        }
    }
}

/// The view of what a command gave back.
pub open spec fn result_view(result: Result<(), CommandError>) -> Result<(), ErrorView> {
    match result {
        Ok(_) => Ok(()),
        Err(e) => Err(e@),
    }
}

/// The argument at place `index`, or why there is none.
pub open spec fn arg_at(args: Option<Seq<ArgView>>, index: usize) -> Result<ArgView, ErrorView> {
    match args {
        None => Err(ErrorView::NoArguments),
        Some(list) => if index < list.len() {
            Ok(list[index as int])
        } else {
            Err(ErrorView::MissingArgument(index))
        },
    }
}

/// The text at place `index`: an argument that is a string.
pub open spec fn str_arg(args: Option<Seq<ArgView>>, index: usize) -> Result<Seq<char>, ErrorView> {
    match arg_at(args, index) {
        Ok(ArgView::Str(s)) => Ok(s),
        Ok(_) => Err(ErrorView::WrongType(index)),
        Err(e) => Err(e),
    }
}

/// The mode at place `index`.
pub open spec fn mode_arg(args: Option<Seq<ArgView>>, index: usize) -> Result<Mode, ErrorView> {
    match arg_at(args, index) {
        Ok(ArgView::Mode(m)) => Ok(m),
        Ok(_) => Err(ErrorView::WrongType(index)),
        Err(e) => Err(e),
    }
}

/// The argument at place `index` of the list, or the failure that says why
/// there is none.
pub fn get_arg(args: &Option<Vec<CommandArg>>, index: usize) -> (arg: Result<&CommandArg, CommandError>)
    ensures
        match arg {
            Ok(a) => arg_at(args_view(*args), index) == Ok::<ArgView, ErrorView>(a@),
            Err(e) => arg_at(args_view(*args), index) == Err::<ArgView, ErrorView>(e@),
        },
{
    match args {
        None => Err(CommandError::NoArguments),
        Some(list) => {
            if index < list.len() {
                Ok(&list[index])
            } else {
                Err(CommandError::MissingArgument(index))
            }
        },
    }
}

/// The string at place `index`.
pub fn get_str_arg(args: &Option<Vec<CommandArg>>, index: usize) -> (arg: Result<String, CommandError>)
    ensures
        match arg {
            Ok(s) => str_arg(args_view(*args), index) == Ok::<Seq<char>, ErrorView>(s@),
            Err(e) => str_arg(args_view(*args), index) == Err::<Seq<char>, ErrorView>(e@),
        },
{
    match get_arg(args, index) {
        Ok(CommandArg::Str(s)) => Ok(s.clone()),
        Ok(_) => Err(CommandError::WrongType(index)),
        Err(e) => Err(e),
    }
}

/// The mode at place `index`.
pub fn get_mode_arg(args: &Option<Vec<CommandArg>>, index: usize) -> (arg: Result<Mode, CommandError>)
    ensures
        match arg {
            Ok(m) => mode_arg(args_view(*args), index) == Ok::<Mode, ErrorView>(m),
            Err(e) => mode_arg(args_view(*args), index) == Err::<Mode, ErrorView>(e@),
        },
{
    match get_arg(args, index) {
        Ok(CommandArg::Mode(m)) => Ok(*m),
        Ok(_) => Err(CommandError::WrongType(index)),
        Err(e) => Err(e),
    }
}

/// Reading an argument as a value of type `T`.
pub trait ArgAsOwned<T> {
    /// The value, where the argument is of that type.
    spec fn spec_as_type(&self) -> Option<T>;

    fn as_type_owned(&self) -> (value: Option<T>)
        ensures
            value == self.spec_as_type(),
    ;
}

impl ArgAsOwned<i64> for CommandArg {
    open spec fn spec_as_type(&self) -> Option<i64> {
        match self {
            CommandArg::Int(i) => Some(*i),
            _ => None,
        }
    }

    fn as_type_owned(&self) -> (value: Option<i64>) {
        match self {
            CommandArg::Int(i) => Some(*i),
            _ => None,
        }
    }
}

impl ArgAsOwned<bool> for CommandArg {
    open spec fn spec_as_type(&self) -> Option<bool> {
        match self {
            CommandArg::Bool(b) => Some(*b),
            _ => None,
        }
    }

    fn as_type_owned(&self) -> (value: Option<bool>) {
        match self {
            CommandArg::Bool(b) => Some(*b),
            _ => None,
        }
    }
}

impl ArgAsOwned<Mode> for CommandArg {
    open spec fn spec_as_type(&self) -> Option<Mode> {
        match self {
            CommandArg::Mode(m) => Some(*m),
            _ => None,
        }
    }

    fn as_type_owned(&self) -> (value: Option<Mode>) {
        match self {
            CommandArg::Mode(m) => Some(*m),
            _ => None,
        }
    }
}

impl ArgAsOwned<(usize, usize)> for CommandArg {
    open spec fn spec_as_type(&self) -> Option<(usize, usize)> {
        match self {
            CommandArg::Position { row, col } => Some((*row, *col)),
            _ => None,
        }
    }

    fn as_type_owned(&self) -> (value: Option<(usize, usize)>) {
        match self {
            CommandArg::Position { row, col } => Some((*row, *col)),
            _ => None,
        }
    }
}

impl ArgAsOwned<String> for CommandArg {
    open spec fn spec_as_type(&self) -> Option<String> {
        match self {
            CommandArg::Str(s) => Some(*s),
            _ => None,
        }
    }

    fn as_type_owned(&self) -> (value: Option<String>) {
        match self {
            CommandArg::Str(s) => Some(s.clone()),
            _ => None,
        }
    }
}

/// Why a key press or a command line was not carried out.
#[derive(Debug, Clone)]
pub enum HandleKeyError {
    KeyNotFound,
    CommandNotFound(String),
    ExecutionFailed(CommandError),
}

impl HandleKeyError {
    /// The words of the error.
    pub fn message(&self) -> (text: String)
        ensures
            text@ == match self {
                HandleKeyError::KeyNotFound => "Key not found in keymap"@,
                HandleKeyError::CommandNotFound(name) => "Command not found: "@ + name@,
                HandleKeyError::ExecutionFailed(e) => "Command execution failed: "@
                    + e@.message(),
            },
    {
        match self {
            HandleKeyError::KeyNotFound => String::from_str("Key not found in keymap"),
            HandleKeyError::CommandNotFound(name) => String::from_str("Command not found: ").concat(
                name.as_str(),
            ),
            HandleKeyError::ExecutionFailed(e) => String::from_str(
                "Command execution failed: ",
            ).concat(e.message().as_str()),
        }
    }
}

} // verus!

//! The three commands and what each decides. Reading and writing the
//! history file, arithmetic on the value and printing are left to the
//! caller: `run` says what to do next, and `handle_convert` records a
//! finished conversion.

use vstd::prelude::*;
use crate::converter::{conversion_plan, spec_plan, ConvertError, Plan};
use crate::history::{spec_history_listing, EmptyHistory, History};
use crate::text::{normalize_decimal, spec_tidy};
use crate::units::{
    get_enum, lower_of, spec_unit_line, spec_unit_named, Unit, UnitError, UnitType,
};

verus! {

/// A command as given by the user.
#[derive(PartialEq, Eq, Clone, Debug)]
pub enum Command {
    /// Convert a value between the units named `from` and `to`.
    Convert { from: String, to: String },
    /// Show the supported units.
    List,
    /// Show the recorded conversions.
    History,
}

/// What a command asks of the caller.
#[derive(PartialEq, Eq, Clone, Debug)]
pub enum Reply {
    /// Show these lines.
    Print(Vec<String>),
    /// Apply `plan` to the value in `from`, then pass the result to
    /// `handle_convert`.
    Evaluate { from: Unit, to: Unit, plan: Plan },
}

/// Every way a command can fail.
#[derive(PartialEq, Eq, Clone, Debug)]
pub enum AppError {
    UnrecognizedUnit(UnitError),
    IncompatibleDimensions(ConvertError),
    EmptyHistory(EmptyHistory),
}

impl AppError {
    pub open spec fn spec_message(self) -> Seq<char> {
        match self {
            AppError::UnrecognizedUnit(e) => e.spec_message(),
            AppError::IncompatibleDimensions(e) => e.spec_message(),
            AppError::EmptyHistory(e) => e.spec_message(),
        }
    }

    /// The message shown to the user.
    pub fn message(&self) -> (r: String)
        ensures
            r@ == self.spec_message(),
    {
        match self {
            AppError::UnrecognizedUnit(e) => e.message(),
            AppError::IncompatibleDimensions(e) => e.message(),
            AppError::EmptyHistory(e) => e.message(),
        }
    }
}

pub open spec fn lines_view(lines: Vec<String>) -> Seq<Seq<char>> {
    lines@.map_values(|l: String| l@)
}

/// The line shown and recorded for a conversion, from the rendered source
/// and target values.
pub open spec fn spec_conversion_line(
    source: Seq<char>,
    from: Unit,
    target: Seq<char>,
    to: Unit,
) -> Seq<char> {
    spec_tidy(source) + " "@ + from.spec_symbol() + " = "@ + spec_tidy(target) + " "@
        + to.spec_symbol()
}

/// The outcome of a conversion command between the units named `from` and
/// `to`.
pub open spec fn spec_convert_reply(r: Result<Reply, AppError>, from: String, to: String) -> bool {
    match spec_unit_named(lower_of(from@)) {
        None => r matches Err(AppError::UnrecognizedUnit(e)) && e.role == UnitType::Source
            && e.input@ == from@,
        Some(u) => match spec_unit_named(lower_of(to@)) {
            None => r matches Err(AppError::UnrecognizedUnit(e)) && e.role == UnitType::Target
                && e.input@ == to@,
            Some(v) => match spec_plan(u, v) {
                Ok(plan) => r == Ok::<Reply, AppError>(Reply::Evaluate { from: u, to: v, plan }),
                Err(e) => r == Err::<Reply, AppError>(AppError::IncompatibleDimensions(e)),
            },
        },
    }
}

/// Decides what `command` does. The history is only read: no command changes
/// it here.
pub fn run(command: Command, history: &History) -> (r: Result<Reply, AppError>)
    ensures
        command matches Command::Convert { from, to } ==> spec_convert_reply(r, from, to),
        command is List ==> (r matches Ok(Reply::Print(lines)) && lines@.len() == 7 && forall|
            i: int,
        |
            0 <= i < 7 ==> #[trigger] lines@[i]@ == spec_unit_line(i, Unit::spec_all()[i])),
        command is History ==> (r is Err <==> history@.len() == 0),
        command is History && history@.len() == 0 ==> r == Err::<Reply, AppError>(
            AppError::EmptyHistory(EmptyHistory),
        ),
        command is History && history@.len() > 0 ==> (r matches Ok(Reply::Print(lines))
            && lines_view(lines) == spec_history_listing(history@)),
{
    match command {
        Command::Convert { from, to } => {
            let from_unit = match get_enum(from, UnitType::Source) {
                Ok(u) => u,
                Err(e) => return Err(AppError::UnrecognizedUnit(e)),
            };
            let to_unit = match get_enum(to, UnitType::Target) {
                Ok(u) => u,
                Err(e) => return Err(AppError::UnrecognizedUnit(e)),
            };
            match conversion_plan(&from_unit, &to_unit) {
                Ok(plan) => Ok(Reply::Evaluate { from: from_unit, to: to_unit, plan }),
                Err(e) => Err(AppError::IncompatibleDimensions(e)),
            }
        },
        Command::List => Ok(Reply::Print(Unit::listing())),
        Command::History => match history.render() {
            Ok(lines) => Ok(Reply::Print(lines)),
            Err(e) => Err(AppError::EmptyHistory(e)),
        },
    }
}

/// Records a finished conversion: builds its line from the rendered source
/// and target values, appends it to `history`, sets `updated` and returns the
/// line.
pub fn handle_convert(
    from: Unit,
    source: &str,
    to: Unit,
    target: &str,
    history: &mut History,
    updated: &mut bool,
) -> (r: String)
    ensures
        r@ == spec_conversion_line(source@, from, target@, to),
        final(history)@ == old(history)@.push(r@),
        *final(updated),
{
    let mut line = normalize_decimal(source);
    line.append(" ");
    line.append(from.symbol().as_str());
    line.append(" = ");
    line.append(normalize_decimal(target).as_str());
    line.append(" ");
    line.append(to.symbol().as_str());
    history.add(line.clone());
    *updated = true;
    line
}

} // verus!

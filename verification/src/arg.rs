//! Parse the command-line arguments into an action and an output format.

use crate::text;
use vstd::prelude::*;

verus! {

/// An action to be executed by the tool.
#[derive(Debug)]
pub enum Action {
    /// Find something in Salesforce.
    Find(String),
    /// Open the config file.
    Config,
    /// Print help and exit.
    Help,
    /// Print an error and exit.
    Invalid(String),
}

/// The mathematical value of an [`Action`].
pub enum ActionView {
    Find(Seq<char>),
    Config,
    Help,
    Invalid(Seq<char>),
}

impl View for Action {
    type V = ActionView;

    open spec fn view(&self) -> ActionView {
        match self {
            Action::Find(q) => ActionView::Find(q@),
            Action::Config => ActionView::Config,
            Action::Help => ActionView::Help,
            Action::Invalid(m) => ActionView::Invalid(m@),
        }
    }
}

impl PartialEq for Action {
    fn eq(&self, other: &Action) -> (r: bool) {
        match (self, other) {
            (Action::Find(a), Action::Find(b)) => text::str_eq(a.as_str(), b.as_str()),
            (Action::Config, Action::Config) => true,
            (Action::Help, Action::Help) => true,
            (Action::Invalid(a), Action::Invalid(b)) => text::str_eq(a.as_str(), b.as_str()),
            _ => false,
        }
    }
}

impl vstd::std_specs::cmp::PartialEqSpecImpl for Action {
    open spec fn obeys_eq_spec() -> bool {
        true
    }

    open spec fn eq_spec(&self, other: &Action) -> bool {
        match (self, other) {
            (Action::Find(a), Action::Find(b)) => a@ == b@,
            (Action::Config, Action::Config) => true,
            (Action::Help, Action::Help) => true,
            (Action::Invalid(a), Action::Invalid(b)) => a@ == b@,
            _ => false,
        }
    }
}

/// Format represents how to format the returned information.
#[derive(Debug, PartialEq, Eq, Structural)]
pub enum Format {
    Tabular,
    JSON,
}

/// The message shown when the arguments cannot be understood.
pub open spec fn spec_usage_message() -> Seq<char> {
    "usage: sfind <arg>: see sfind help"@
}

/// The action the argument list asks for. The first argument is the program
/// name; the second picks the action; a third argument may only be
/// "--json". Anything else is the usage error.
pub open spec fn spec_action(args: Seq<Seq<char>>) -> ActionView {
    if args.len() < 2 {
        ActionView::Invalid(spec_usage_message())
    } else if args.len() >= 3 && args[2] != "--json"@ {
        ActionView::Invalid(spec_usage_message())
    } else if args[1] == "config"@ {
        ActionView::Config
    } else if args[1] == "help"@ {
        ActionView::Help
    } else {
        ActionView::Find(args[1])
    }
}

/// The output format the argument list asks for.
pub open spec fn spec_format(args: Seq<Seq<char>>) -> Format {
    if args.len() >= 3 && args[2] == "--json"@ {
        Format::JSON
    } else {
        Format::Tabular
    }
}

/// Parse the given args and return the action to be taken by the tool, and
/// the output format.
pub fn parse(args: Vec<String>) -> (r: (Action, Format))
    ensures
        r.0@ == spec_action(args.deep_view()),
        r.1 == spec_format(args.deep_view()),
{
    if args.len() < 2 {
        return (
            Action::Invalid("usage: sfind <arg>: see sfind help".to_owned()),
            Format::Tabular,
        );
    }
    let format = if args.len() >= 3 {
        if text::str_eq(args[2].as_str(), "--json") {
            Format::JSON
        } else {
            return (
                Action::Invalid("usage: sfind <arg>: see sfind help".to_owned()),
                Format::Tabular,
            );
        }
    } else {
        Format::Tabular
    };
    let action = if text::str_eq(args[1].as_str(), "config") {
        Action::Config
    } else if text::str_eq(args[1].as_str(), "help") {
        Action::Help
    } else {
        Action::Find(args[1].clone())
    };
    (action, format)
}

} // verus!

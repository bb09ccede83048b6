//! Status codes of the channels to the collaborators.
//!
//! Besides the simulation itself, a foreign caller reaches the formula
//! editor, the writers of exports and reports and the parametric-study
//! driver through channels that carry JSON.  A channel that answers with a
//! status reports `0` for a success and, for a failure, a negative number
//! that tells the failures of that channel apart.

use vstd::prelude::*;

verus! {

/// The channels that answer with a status.
#[derive(Clone, Copy, Debug, PartialEq, Eq, Structural)]
pub enum Channel {
    /// Writes the report of a validation; takes the output path.
    ValidationReport,
    /// Saves a formula; takes the formula as JSON.
    SaveFormula,
    /// Deletes a formula; takes its identifier.
    DeleteFormula,
    /// Binds a formula to a function; takes the function type and the
    /// identifier of the formula.
    SetFormulaForFunction,
    /// Exports the results; takes the options as JSON.
    ExportResults,
    /// Writes the report of the simulation; takes the output path.
    GenerateReport,
    /// Writes the report of a parametric study; takes the result as JSON
    /// and the output path.
    ParametricStudyReport,
}

/// What can go wrong on a channel.
#[derive(Clone, Copy, Debug, PartialEq, Eq, Structural)]
pub enum ChannelFailure {
    /// The pointer to argument number `argument`, counted from zero, was
    /// null.
    NullArgument { argument: usize },
    /// Argument number `argument`, counted from zero, is not UTF-8.
    InvalidText { argument: usize },
    /// The JSON of the argument does not parse.
    Malformed,
    /// There is no simulation.
    NotInitialized,
    /// The simulation has no results, or there is nothing to report on.
    NothingToWorkOn,
    /// The lock around the simulation is poisoned.
    Poisoned,
    /// The collaborator failed.
    Collaborator,
}

/// Number of arguments that a channel takes.
pub open spec fn arity(channel: Channel) -> nat {
    match channel {
        Channel::SetFormulaForFunction => 2,
        Channel::ParametricStudyReport => 2,
        _ => 1,
    }
}

/// The number by which `channel` reports `failure`.
///
/// A channel numbers its failures in the order in which it meets them: null
/// pointers first, argument by argument, then texts that are not UTF-8,
/// then what lies behind.
pub open spec fn channel_code(channel: Channel, failure: ChannelFailure) -> i32 {
    let second = arity(channel) == 2;
    match failure {
        ChannelFailure::NullArgument { argument } => if second && argument >= 1 {
            -2i32
        } else {
            -1i32
        },
        ChannelFailure::InvalidText { argument } => if second {
            if argument >= 1 {
                -4i32
            } else {
                -3i32
            }
        } else {
            -2i32
        },
        ChannelFailure::Malformed => match channel {
            Channel::SaveFormula => -4i32,
            Channel::ParametricStudyReport => -5i32,
            _ => -3i32,
        },
        ChannelFailure::NotInitialized => match channel {
            Channel::ExportResults => -4i32,
            _ => -3i32,
        },
        ChannelFailure::NothingToWorkOn => match channel {
            Channel::ExportResults => -6i32,
            Channel::GenerateReport => -5i32,
            _ => -4i32,
        },
        ChannelFailure::Poisoned => match channel {
            Channel::ExportResults => -7i32,
            _ => -6i32,
        },
        ChannelFailure::Collaborator => match channel {
            Channel::SetFormulaForFunction => -5i32,
            Channel::ExportResults => -5i32,
            Channel::GenerateReport => -4i32,
            Channel::ParametricStudyReport => -6i32,
            _ => -3i32,
        },
    }
}

/// The number by which `channel` reports `failure`.
pub fn channel_status(channel: Channel, failure: ChannelFailure) -> (code: i32)
    ensures
        code == channel_code(channel, failure),
        -7 <= code < 0,
{
    let second = match channel {
        Channel::SetFormulaForFunction | Channel::ParametricStudyReport => true,
        _ => false,
    };
    match failure {
        ChannelFailure::NullArgument { argument } => if second && argument >= 1 {
            -2
        } else {
            -1
        },
        ChannelFailure::InvalidText { argument } => if second {
            if argument >= 1 {
                -4
            } else {
                -3
            }
        } else {
            -2
        },
        ChannelFailure::Malformed => match channel {
            Channel::SaveFormula => -4,
            Channel::ParametricStudyReport => -5,
            _ => -3,
        },
        ChannelFailure::NotInitialized => match channel {
            Channel::ExportResults => -4,
            _ => -3,
        },
        ChannelFailure::NothingToWorkOn => match channel {
            Channel::ExportResults => -6,
            Channel::GenerateReport => -5,
            _ => -4,
        },
        ChannelFailure::Poisoned => match channel {
            Channel::ExportResults => -7,
            _ => -6,
        },
        ChannelFailure::Collaborator => match channel {
            Channel::SetFormulaForFunction => -5,
            Channel::ExportResults => -5,
            Channel::GenerateReport => -4,
            Channel::ParametricStudyReport => -6,
            _ => -3,
        },
    }
}

/// The failures that `channel` can meet.
pub open spec fn meets(channel: Channel, failure: ChannelFailure) -> bool {
    match failure {
        ChannelFailure::NullArgument { argument } => argument < arity(channel),
        ChannelFailure::InvalidText { argument } => argument < arity(channel),
        ChannelFailure::Malformed => channel == Channel::SaveFormula || channel
            == Channel::ExportResults || channel == Channel::ParametricStudyReport,
        ChannelFailure::NotInitialized => channel == Channel::ExportResults || channel
            == Channel::GenerateReport,
        ChannelFailure::NothingToWorkOn => channel == Channel::ExportResults || channel
            == Channel::GenerateReport || channel == Channel::ValidationReport,
        ChannelFailure::Poisoned => channel == Channel::ExportResults || channel
            == Channel::GenerateReport,
        ChannelFailure::Collaborator => true,
    }
}

/// A channel tells its failures apart: two failures that it can meet and
/// reports by the same number are failures of the same kind, on the same
/// argument.
pub proof fn codes_tell_failures_apart(channel: Channel, a: ChannelFailure, b: ChannelFailure)
    requires
        meets(channel, a),
        meets(channel, b),
        channel_code(channel, a) == channel_code(channel, b),
    ensures
        a == b,
{
}

} // verus!

use vstd::prelude::*;

verus! {

/// What can go wrong while answering an interaction. Every variant is shown
/// to the person who triggered it.
#[derive(Debug, Clone, Copy, PartialEq, Eq, Structural)]
pub enum Error {
    UnrecognizedCommand,
    NoInvoker,
    NoTarget,
    NoResolvedData,
    NoMessageTargetId,
    WrongInteractionData,
    NoInteractionData,
    NoGuildId,
    NoUsersForPage,
    NoModalActionRow,
    NoFormField,
    NoDestinationInComponent,
    InvalidPageOffset,
    InteractionExpired,
}

/// The text shown to the user for an error.
pub open spec fn error_text(e: Error) -> Seq<char> {
    match e {
        Error::UnrecognizedCommand => "Discord sent a command that is not known!"@,
        Error::NoInvoker => "Discord did not send a user object for the command invoker when it was required!"@,
        Error::NoTarget => "Discord did not send a user object for the command target when it was required!"@,
        Error::NoResolvedData => "Discord did not send part of the Resolved Data!"@,
        Error::NoMessageTargetId => "Discord did not send target ID for message!"@,
        Error::WrongInteractionData => "Discord sent interaction data for an unsupported interaction type!"@,
        Error::NoInteractionData => "Discord did not send any interaction data!"@,
        Error::NoGuildId => "Discord did not send a guild ID!"@,
        Error::NoUsersForPage => "This page does not exist!"@,
        Error::NoModalActionRow => "This modal did not contain any action rows!"@,
        Error::NoFormField => "This modal did not contain the required form field!"@,
        Error::NoDestinationInComponent => "This modal did not contain the required form data!"@,
        Error::InvalidPageOffset => "This page number is not valid!"@,
        Error::InteractionExpired => "This interaction has expired!"@,
    }
}

impl Error {
    /// The text shown to the user for this error.
    pub fn message(&self) -> (r: &'static str)
        ensures
            r@ == error_text(*self),
    {
        match self {
            Error::UnrecognizedCommand => "Discord sent a command that is not known!",
            Error::NoInvoker => "Discord did not send a user object for the command invoker when it was required!",
            Error::NoTarget => "Discord did not send a user object for the command target when it was required!",
            Error::NoResolvedData => "Discord did not send part of the Resolved Data!",
            Error::NoMessageTargetId => "Discord did not send target ID for message!",
            Error::WrongInteractionData => "Discord sent interaction data for an unsupported interaction type!",
            Error::NoInteractionData => "Discord did not send any interaction data!",
            Error::NoGuildId => "Discord did not send a guild ID!",
            Error::NoUsersForPage => "This page does not exist!",
            Error::NoModalActionRow => "This modal did not contain any action rows!",
            Error::NoFormField => "This modal did not contain the required form field!",
            Error::NoDestinationInComponent => "This modal did not contain the required form data!",
            Error::InvalidPageOffset => "This page number is not valid!",
            Error::InteractionExpired => "This interaction has expired!",
        }
    }
}

} // verus!

//! The errors of the voice core and the texts they are shown with.
use vstd::prelude::*;
use vstd::string::*;

use crate::text::joined;

verus! {

/// What can go wrong. Failures of outside services are carried as the text they reported.
#[derive(Debug, PartialEq, Eq)]
pub enum VoiceError {
    /// A file operation failed.
    Io(String),
    /// The Opus codec failed.
    Opus(String),
    /// The audio devices cannot be used.
    Audio(String),
    /// A ticket cannot be read.
    Ticket(String),
    /// The other end of a channel is gone.
    ChannelClosed,
    /// The request does not fit the current state.
    InvalidState(String),
    /// Anything else, shown as it is.
    Other(String),
}

/// The mathematical value of a [`VoiceError`].
pub enum ErrorView {
    Io(Seq<char>),
    Opus(Seq<char>),
    Audio(Seq<char>),
    Ticket(Seq<char>),
    ChannelClosed,
    InvalidState(Seq<char>),
    Other(Seq<char>),
}

impl View for VoiceError {
    type V = ErrorView;

    open spec fn view(&self) -> ErrorView {
        match self {
            VoiceError::Io(text) => ErrorView::Io(text@),
            VoiceError::Opus(text) => ErrorView::Opus(text@),
            VoiceError::Audio(text) => ErrorView::Audio(text@),
            VoiceError::Ticket(text) => ErrorView::Ticket(text@),
            VoiceError::ChannelClosed => ErrorView::ChannelClosed,
            VoiceError::InvalidState(text) => ErrorView::InvalidState(text@),
            VoiceError::Other(text) => ErrorView::Other(text@),
        }
    }
}

/// The text an error is shown with.
pub open spec fn error_text(error: ErrorView) -> Seq<char> {
    match error {
        ErrorView::Io(text) => "I/O error: "@ + text,
        ErrorView::Opus(text) => "Opus error: "@ + text,
        ErrorView::Audio(text) => "Audio error: "@ + text,
        ErrorView::Ticket(text) => "Ticket error: "@ + text,
        ErrorView::ChannelClosed => "Channel closed"@,
        ErrorView::InvalidState(text) => "Invalid state: "@ + text,
        ErrorView::Other(text) => text,
    }
}

impl VoiceError {
    /// The text the error is shown with.
    pub fn message(&self) -> (r: String)
        ensures
            r@ == error_text(self@),
    {
        match self {
            VoiceError::Io(text) => joined("I/O error: ", text.as_str()),
            VoiceError::Opus(text) => joined("Opus error: ", text.as_str()),
            VoiceError::Audio(text) => joined("Audio error: ", text.as_str()),
            VoiceError::Ticket(text) => joined("Ticket error: ", text.as_str()),
            VoiceError::ChannelClosed => "Channel closed".to_owned(),
            VoiceError::InvalidState(text) => joined("Invalid state: ", text.as_str()),
            VoiceError::Other(text) => text.clone(),
        }
    }
}

/// The text of an error is its cause in full, behind the kind of the error.
pub proof fn error_text_holds_the_cause(cause: Seq<char>)
    ensures
        error_text(ErrorView::Io(cause)) == "I/O error: "@ + cause,
        error_text(ErrorView::Opus(cause)) == "Opus error: "@ + cause,
        error_text(ErrorView::Audio(cause)) == "Audio error: "@ + cause,
        error_text(ErrorView::Ticket(cause)) == "Ticket error: "@ + cause,
        error_text(ErrorView::ChannelClosed) == "Channel closed"@,
        error_text(ErrorView::InvalidState(cause)) == "Invalid state: "@ + cause,
        error_text(ErrorView::Other(cause)) == cause,
{
}

/// The value of an error tells its kind and its cause.
pub proof fn values_tell_errors_apart(error: VoiceError)
    ensures
        match error {
            VoiceError::Io(text) => error@ == ErrorView::Io(text@),
            VoiceError::Opus(text) => error@ == ErrorView::Opus(text@),
            VoiceError::Audio(text) => error@ == ErrorView::Audio(text@),
            VoiceError::Ticket(text) => error@ == ErrorView::Ticket(text@),
            VoiceError::ChannelClosed => error@ is ChannelClosed,
            VoiceError::InvalidState(text) => error@ == ErrorView::InvalidState(text@),
            VoiceError::Other(text) => error@ == ErrorView::Other(text@),
        },
{
}

}

//! Errors of a button press, and the texts that show them to the user.

use vstd::prelude::*;
use vstd::string::StringExecFns;
use crate::query_command::DownloadTarget;

verus! {

/// A failed request to the chat platform, carried through unread.
#[verifier::external_type_specification]
#[verifier::external_body]
pub struct ExRequestError(teloxide::RequestError);

/// An error that is either shown to the user, or a failed platform request
/// handed back to the dispatcher.
pub enum Error<E> {
    Show(E),
    Req(teloxide::RequestError),
}

/// The job for this message is already running.
pub struct AlreadyDownloading(pub DownloadTarget);

/// The finished file could not be delivered; holds the platform's text.
pub struct SendDocumentError(pub String);

pub enum CallbackQueryError {
    InvalidButtonData { data: String },
    NoMessage,
    EmptyReply,
    ReplyIsNotSticker,
    AnimatedStickerNotSupported,
    VideoStickerNotSupported,
    AlreadyDownloading(AlreadyDownloading),
    /// Fetching failed; holds the platform's text.
    Download(String),
    SendDocument(SendDocumentError),
    /// The deliverable could not be built; holds the archiver's text.
    Package(String),
}

impl CallbackQueryError {
    /// Errors that happen after the button press was answered, and so are
    /// shown in the status message instead of an alert.
    pub open spec fn spec_is_post(&self) -> bool {
        self is Download || self is SendDocument || self is Package
    }

    pub fn is_post(&self) -> (r: bool)
        ensures
            r == self.spec_is_post(),
    {
        match self {
            CallbackQueryError::InvalidButtonData { .. }
            | CallbackQueryError::NoMessage
            | CallbackQueryError::EmptyReply
            | CallbackQueryError::ReplyIsNotSticker
            | CallbackQueryError::AnimatedStickerNotSupported
            | CallbackQueryError::VideoStickerNotSupported
            | CallbackQueryError::AlreadyDownloading(_) => false,
            CallbackQueryError::Download(_)
            | CallbackQueryError::SendDocument(_)
            | CallbackQueryError::Package(_) => true,
        }
    }

    /// The text shown to the user.
    pub open spec fn spec_message(&self) -> Seq<char> {
        match self {
            CallbackQueryError::InvalidButtonData { data } => "Invalid button data: `"@ + data@
                + "`"@,
            CallbackQueryError::NoMessage => "No message? :c"@,
            CallbackQueryError::EmptyReply => "Reply is empty"@,
            CallbackQueryError::ReplyIsNotSticker => "Reply is not a sticker"@,
            CallbackQueryError::AnimatedStickerNotSupported => "Animated stickers are not yet supported"@,
            CallbackQueryError::VideoStickerNotSupported => "Video stickers are not yet supported"@,
            CallbackQueryError::AlreadyDownloading(AlreadyDownloading(t)) => "This "@ + match t {
                DownloadTarget::Single => "sticker"@,
                DownloadTarget::All => "set"@,
            } + " is already being downloaded"@,
            CallbackQueryError::Download(e) => "An error happened while downloading sticker(s): <code>"@
                + e@ + "</code> :(\n\nTry again later."@,
            CallbackQueryError::SendDocument(SendDocumentError(e)) => "Couldn't send the document: "@
                + e@ + ".\n Try again later."@,
            CallbackQueryError::Package(e) => "Couldn't build the archive: "@ + e@
                + ".\n Try again later."@,
        }
    }

    pub fn message(&self) -> (r: String)
        ensures
            r@ == self.spec_message(),
    {
        match self {
            CallbackQueryError::InvalidButtonData { data } => {
                let mut s = String::from_str("Invalid button data: `");
                s.append(data.as_str());
                s.append("`");
                s
            },
            CallbackQueryError::NoMessage => String::from_str("No message? :c"),
            CallbackQueryError::EmptyReply => String::from_str("Reply is empty"),
            CallbackQueryError::ReplyIsNotSticker => String::from_str("Reply is not a sticker"),
            CallbackQueryError::AnimatedStickerNotSupported => String::from_str(
                "Animated stickers are not yet supported",
            ),
            CallbackQueryError::VideoStickerNotSupported => String::from_str(
                "Video stickers are not yet supported",
            ),
            CallbackQueryError::AlreadyDownloading(AlreadyDownloading(t)) => {
                let mut s = String::from_str("This ");
                match t {
                    DownloadTarget::Single => s.append("sticker"),
                    DownloadTarget::All => s.append("set"),
                }
                s.append(" is already being downloaded");
                s
            },
            CallbackQueryError::Download(e) => {
                let mut s = String::from_str("An error happened while downloading sticker(s): <code>");
                s.append(e.as_str());
                s.append("</code> :(\n\nTry again later.");
                s
            },
            CallbackQueryError::SendDocument(SendDocumentError(e)) => {
                let mut s = String::from_str("Couldn't send the document: ");
                s.append(e.as_str());
                s.append(".\n Try again later.");
                s
            },
            CallbackQueryError::Package(e) => {
                let mut s = String::from_str("Couldn't build the archive: ");
                s.append(e.as_str());
                s.append(".\n Try again later.");
                s
            },
        }
    }
}

/// The button carried a token that does not decode.
pub fn invalid_button_data(data: &str) -> (r: Result<(), Error<CallbackQueryError>>)
    ensures
        r matches Err(Error::Show(CallbackQueryError::InvalidButtonData { data: d })) && d@
            == data@,
{
    let data = String::from_str(data);
    Err(Error::Show(CallbackQueryError::InvalidButtonData { data }))
}

pub fn no_message() -> (r: Error<CallbackQueryError>)
    ensures
        r matches Error::Show(CallbackQueryError::NoMessage),
{
    Error::Show(CallbackQueryError::NoMessage)
}

pub fn empty_reply() -> (r: Error<CallbackQueryError>)
    ensures
        r matches Error::Show(CallbackQueryError::EmptyReply),
{
    Error::Show(CallbackQueryError::EmptyReply)
}

pub fn reply_is_not_sticker() -> (r: Error<CallbackQueryError>)
    ensures
        r matches Error::Show(CallbackQueryError::ReplyIsNotSticker),
{
    Error::Show(CallbackQueryError::ReplyIsNotSticker)
}

pub fn animated_sticker_not_supported() -> (r: Error<CallbackQueryError>)
    ensures
        r matches Error::Show(CallbackQueryError::AnimatedStickerNotSupported),
{
    Error::Show(CallbackQueryError::AnimatedStickerNotSupported)
}

pub fn video_sticker_not_supported() -> (r: Error<CallbackQueryError>)
    ensures
        r matches Error::Show(CallbackQueryError::VideoStickerNotSupported),
{
    Error::Show(CallbackQueryError::VideoStickerNotSupported)
}

impl<E> From<teloxide::RequestError> for Error<E> {
    fn from(req: teloxide::RequestError) -> (r: Self) {
        Error::Req(req)
    }
}

impl<E> vstd::std_specs::convert::FromSpecImpl<teloxide::RequestError> for Error<E> {
    open spec fn obeys_from_spec() -> bool {
        true
    }

    open spec fn from_spec(req: teloxide::RequestError) -> Self {
        Error::Req(req)
    }
}

impl From<AlreadyDownloading> for Error<CallbackQueryError> {
    fn from(ad: AlreadyDownloading) -> (r: Self) {
        Error::Show(CallbackQueryError::AlreadyDownloading(ad))
    }
}

impl vstd::std_specs::convert::FromSpecImpl<AlreadyDownloading> for Error<CallbackQueryError> {
    open spec fn obeys_from_spec() -> bool {
        true
    }

    open spec fn from_spec(ad: AlreadyDownloading) -> Self {
        Error::Show(CallbackQueryError::AlreadyDownloading(ad))
    }
}

impl From<SendDocumentError> for Error<CallbackQueryError> {
    fn from(sd: SendDocumentError) -> (r: Self) {
        Error::Show(CallbackQueryError::SendDocument(sd))
    }
}

impl vstd::std_specs::convert::FromSpecImpl<SendDocumentError> for Error<CallbackQueryError> {
    open spec fn obeys_from_spec() -> bool {
        true
    }

    open spec fn from_spec(sd: SendDocumentError) -> Self {
        Error::Show(CallbackQueryError::SendDocument(sd))
    }
}

} // verus!

//! What is sent to the notification endpoint after a detection, and how the
//! answer is read.

use vstd::prelude::*;

use crate::error::CatCamError;

verus! {

/// Where notifications are posted.
pub const NOTIFY_ENDPOINT: &'static str = "https://notify-api.line.me/api/notify";

/// The form field that carries the message text.
pub const MESSAGE_FIELD: &'static str = "message";

/// The form field that carries the image.
pub const IMAGE_FIELD: &'static str = "imageFile";

/// The message that goes with an image.
pub open spec fn detected_text() -> Seq<char> {
    "Detected"@
}

/// The body sent when no image could be captured.
pub open spec fn capture_failed_text() -> Seq<char> {
    "detected, but failed to capture"@
}

/// The body sent when the captured image could not be attached.
pub open spec fn attachment_failed_text() -> Seq<char> {
    "detected someone but something failed with creating request form."@
}

/// One notification, ready to be posted.
#[derive(Clone, Debug, PartialEq, Eq)]
pub enum Notification {
    /// A multipart form: the message text and the image file at `path`.
    Image { message: String, path: String },
    /// A plain text body, no attachment.
    Text(String),
}

/// A notification over sequences of characters.
pub enum NotificationView {
    Image { message: Seq<char>, path: Seq<char> },
    Text(Seq<char>),
}

impl View for Notification {
    type V = NotificationView;

    open spec fn view(&self) -> NotificationView {
        match self {
            Notification::Image { message, path } => NotificationView::Image {
                message: message@,
                path: path@,
            },
            Notification::Text(body) => NotificationView::Text(body@),
        }
    }
}

/// The notification that follows a capture: the image where it was captured
/// and could be attached, else the text that says which of the two failed.
pub open spec fn notification_for(captured: bool, attached: bool, path: Seq<char>)
    -> NotificationView {
    if !captured {
        NotificationView::Text(capture_failed_text())
    } else if !attached {
        NotificationView::Text(attachment_failed_text())
    } else {
        NotificationView::Image { message: detected_text(), path }
    }
}

/// Chooses the notification for the image at `path`, given whether the
/// capture succeeded and whether the file could be attached.
pub fn choose_notification(captured: bool, attached: bool, path: &str) -> (chosen: Notification)
    ensures
        chosen@ == notification_for(captured, attached, path@),
{
    if !captured {
        Notification::Text("detected, but failed to capture".to_owned())
    } else if !attached {
        Notification::Text(
            "detected someone but something failed with creating request form.".to_owned(),
        )
    } else {
        Notification::Image { message: "Detected".to_owned(), path: path.to_owned() }
    }
}

impl Notification {
    /// Whether this notification carries an image.
    pub fn has_attachment(&self) -> (yes: bool)
        ensures
            yes == (self@ is Image),
    {
        match self {
            Notification::Image { .. } => true,
            Notification::Text(_) => false,
        }
    }
}

/// How a notification attempt ended.
#[derive(Clone, Copy, Debug, PartialEq, Eq, Structural)]
pub enum SendReport {
    /// The endpoint answered with this HTTP status.
    Answered(u16),
    /// No answer arrived.
    Failed,
}

/// Reads the end of a notification attempt: any answer of the endpoint is
/// passed on with its status, the lack of one is an error.
pub fn send_result(report: SendReport) -> (result: Result<u16, CatCamError>)
    ensures
        result == (match report {
            SendReport::Answered(status) => Ok::<u16, CatCamError>(status),
            SendReport::Failed => Err::<u16, CatCamError>(CatCamError::SendRequest),
        }),
{
    match report {
        SendReport::Answered(status) => Ok(status),
        SendReport::Failed => Err(CatCamError::SendRequest),
    }
}

} // verus!

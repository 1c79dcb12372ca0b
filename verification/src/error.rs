//! The two tiers of failure: those that end the process and those that one
//! handling cycle survives.

use vstd::prelude::*;

verus! {

/// A failure inside one handling cycle. It is reported and the loop goes on.
#[derive(Clone, Copy, Debug, PartialEq, Eq, Structural)]
pub enum CatCamError {
    /// The notification request did not reach the endpoint.
    SendRequest,
    /// The capture utility could not be started or did not exit cleanly.
    FailureLibcamera,
}

impl CatCamError {
    /// The text shown for this error.
    pub open spec fn message_text(self) -> Seq<char> {
        match self {
            CatCamError::SendRequest => "Failed to send a request."@,
            CatCamError::FailureLibcamera => "Failed to libcamera."@,
        }
    }

    /// Renders the error for a log line.
    pub fn message(&self) -> (text: String)
        ensures
            text@ == self.message_text(),
    {
        match self {
            CatCamError::SendRequest => "Failed to send a request.".to_owned(),
            CatCamError::FailureLibcamera => "Failed to libcamera.".to_owned(),
        }
    }
}

/// A failure that ends the process.
#[derive(Clone, Copy, Debug, PartialEq, Eq, Structural)]
pub enum FatalError {
    /// The sensor line could not be opened or armed.
    SensorUnavailable,
    /// No access token was supplied at startup.
    MissingToken,
    /// The capture directory could not be created and did not exist already.
    CaptureDirectory,
    /// Waiting for the sensor failed while the loop was running.
    Polling,
}

impl FatalError {
    /// The exit status that belongs to this failure.
    pub open spec fn exit_status(self) -> int {
        match self {
            FatalError::SensorUnavailable => 1,
            FatalError::CaptureDirectory => 1,
            FatalError::MissingToken => 101,
            FatalError::Polling => 101,
        }
    }

    /// The text shown for this failure.
    pub open spec fn message_text(self) -> Seq<char> {
        match self {
            FatalError::SensorUnavailable => "The motion sensor is not available."@,
            FatalError::MissingToken => "LINE_TOKEN is empty. Set the access token to LINE_TOKEN"@,
            FatalError::CaptureDirectory => "The capture directory could not be created."@,
            FatalError::Polling => "Waiting for the motion sensor failed."@,
        }
    }

    /// The process exit status for this failure: never zero.
    pub fn exit_code(&self) -> (code: u8)
        ensures
            code == self.exit_status(),
            code != 0,
    {
        match self {
            FatalError::SensorUnavailable => 1,
            FatalError::CaptureDirectory => 1,
            FatalError::MissingToken => 101,
            FatalError::Polling => 101,
        }
    }

    /// Renders the failure for the last log line of the process.
    pub fn message(&self) -> (text: String)
        ensures
            text@ == self.message_text(),
    {
        match self {
            FatalError::SensorUnavailable => "The motion sensor is not available.".to_owned(),
            FatalError::MissingToken => {
                "LINE_TOKEN is empty. Set the access token to LINE_TOKEN".to_owned()
            },
            FatalError::CaptureDirectory => {
                "The capture directory could not be created.".to_owned()
            },
            FatalError::Polling => "Waiting for the motion sensor failed.".to_owned(),
        }
    }
}

} // verus!

//! The fixed settings of the notifier and the checks made before the loop
//! starts.

use vstd::prelude::*;

use crate::capture::{standard_options, CaptureOptions};
use crate::error::FatalError;

verus! {

/// The logical number of the sensor pin.
pub const SENSOR_PIN: u8 = 17;

/// The environment variable that holds the access token.
pub const TOKEN_VARIABLE: &'static str = "LINE_TOKEN";

/// The directory that captured images are written to.
pub const CAPTURE_DIRECTORY: &'static str = "/tmp/cat-sv";

/// A transition of the sensor line.
#[derive(Clone, Copy, Debug, PartialEq, Eq, Structural)]
pub enum Edge {
    /// Low to high: motion begins.
    Rising,
    /// High to low: motion ends.
    Falling,
}

/// Which transitions of the sensor line start a capture.
#[derive(Clone, Copy, Debug, PartialEq, Eq, Structural)]
pub enum EdgePolicy {
    Rising,
    Falling,
    Both,
}

/// Whether `edge` starts a capture under `policy`.
pub open spec fn qualifies(policy: EdgePolicy, edge: Edge) -> bool {
    match policy {
        EdgePolicy::Rising => edge == Edge::Rising,
        EdgePolicy::Falling => edge == Edge::Falling,
        EdgePolicy::Both => true,
    }
}

impl EdgePolicy {
    /// Whether `edge` starts a capture under this policy.
    pub fn admits(&self, edge: Edge) -> (yes: bool)
        ensures
            yes == qualifies(*self, edge),
    {
        match self {
            EdgePolicy::Rising => edge == Edge::Rising,
            EdgePolicy::Falling => edge == Edge::Falling,
            EdgePolicy::Both => true,
        }
    }
}

/// The settings that the detection loop runs with.
#[derive(Clone, Debug, PartialEq, Eq)]
pub struct Config {
    /// Which sensor transitions start a capture.
    pub trigger: EdgePolicy,
    /// The directory that images are written to.
    pub image_dir: String,
    /// The parameters of each capture.
    pub options: CaptureOptions,
}

impl Config {
    /// The settings of the notifier as it is deployed: rising edges, the
    /// fixed capture directory and the standard capture options.
    pub fn standard() -> (config: Config)
        ensures
            config.trigger == EdgePolicy::Rising,
            config.image_dir@ == CAPTURE_DIRECTORY@,
            config.options == standard_options(),
    {
        Config {
            trigger: EdgePolicy::Rising,
            image_dir: CAPTURE_DIRECTORY.to_owned(),
            options: CaptureOptions::standard(),
        }
    }
}

/// Takes what the environment held under the token variable: the token, or
/// nothing. An absent token ends the process; an empty one is passed on.
pub fn require_token(found: Option<String>) -> (token: Result<String, FatalError>)
    ensures
        token == (match found {
            Some(t) => Ok::<String, FatalError>(t),
            None => Err::<String, FatalError>(FatalError::MissingToken),
        }),
{
    match found {
        Some(t) => Ok(t),
        None => Err(FatalError::MissingToken),
    }
}

/// How the attempt to create the capture directory ended.
#[derive(Clone, Copy, Debug, PartialEq, Eq, Structural)]
pub enum DirectoryOutcome {
    /// The directory was created.
    Created,
    /// The directory was there already.
    AlreadyExists,
    /// The directory is not there and could not be created.
    Failed,
}

/// Whether the loop may start after `outcome`.
pub open spec fn directory_usable(outcome: DirectoryOutcome) -> bool {
    outcome != DirectoryOutcome::Failed
}

/// Reads the end of directory preparation: a directory that existed before
/// counts like one just created, any other failure ends the process.
pub fn directory_ready(outcome: DirectoryOutcome) -> (ready: Result<(), FatalError>)
    ensures
        ready is Ok <==> directory_usable(outcome),
        ready is Err ==> ready == Err::<(), FatalError>(FatalError::CaptureDirectory),
{
    match outcome {
        DirectoryOutcome::Failed => Err(FatalError::CaptureDirectory),
        _ => Ok(()),
    }
}

/// Preparing the directory a second time changes nothing: whenever a first
/// preparation let the loop start, the second, which finds the directory in
/// place, lets it start as well.
pub proof fn lemma_directory_preparation_idempotent(first: DirectoryOutcome)
    requires
        directory_usable(first),
    ensures
        directory_usable(DirectoryOutcome::AlreadyExists) == directory_usable(first),
{
}

} // verus!

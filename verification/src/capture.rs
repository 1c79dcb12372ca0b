//! The command line of the capture utility and the reading of its exit.

use vstd::prelude::*;

use crate::error::CatCamError;
use crate::text::{decimal, decimal_string, lemma_concat_parts, tenths, tenths_string};
use crate::timestamp::{
    lemma_stamp_injective, lemma_stamp_length, stamp_text, valid_moment, Moment, Timestamp,
};

verus! {

/// The name of the capture utility.
pub const CAPTURE_PROGRAM: &'static str = "libcamera-jpeg";

/// The path of the image captured at moment `at` under the directory `dir`:
/// the directory, `/image_`, the fourteen digits of the moment, `.jpg`.
pub open spec fn image_path_text(dir: Seq<char>, at: Moment) -> Seq<char> {
    dir + "/image_"@ + stamp_text(at) + ".jpg"@
}

/// Under one directory, captures at different seconds get different paths.
pub proof fn lemma_image_path_injective(dir: Seq<char>, a: Moment, b: Moment)
    requires
        valid_moment(a),
        valid_moment(b),
        image_path_text(dir, a) == image_path_text(dir, b),
    ensures
        a == b,
{
    lemma_stamp_length(a);
    lemma_stamp_length(b);
    let head = dir + "/image_"@;
    lemma_concat_parts(head + stamp_text(a), ".jpg"@, head + stamp_text(b), ".jpg"@);
    lemma_concat_parts(head, stamp_text(a), head, stamp_text(b));
    lemma_stamp_injective(a, b);
}

/// Names the image file for a capture at `at` under the directory `dir`.
pub fn image_path(dir: &str, at: &Timestamp) -> (path: String)
    ensures
        path@ == image_path_text(dir@, at@),
{
    let mut path: String = dir.to_owned();
    path.append("/image_");
    let stamp = at.stamp();
    path.append(stamp.as_str());
    path.append(".jpg");
    path
}

/// The parameters of one still capture.
#[derive(Clone, Copy, Debug, PartialEq, Eq, Structural)]
pub struct CaptureOptions {
    /// Whether the utility opens its preview window.
    pub preview: bool,
    /// Exposure compensation, in tenths of a stop.
    pub ev_tenths: i32,
    /// Shutter time in microseconds.
    pub shutter_us: u32,
    /// Image width in pixels.
    pub width: u32,
    /// Image height in pixels.
    pub height: u32,
    /// Brightness adjustment in tenths, if one is passed at all.
    pub brightness_tenths: Option<i32>,
}

/// The options that the notifier captures with.
pub open spec fn standard_options() -> CaptureOptions {
    CaptureOptions {
        preview: false,
        ev_tenths: 5,
        shutter_us: 2000000,
        width: 1600,
        height: 900,
        brightness_tenths: Some(2),
    }
}

/// The arguments that carry `options` to the capture utility.
pub open spec fn option_args(options: CaptureOptions) -> Seq<Seq<char>> {
    let preview: Seq<Seq<char>> = if options.preview {
        seq![]
    } else {
        seq!["--nopreview"@]
    };
    let brightness: Seq<Seq<char>> = match options.brightness_tenths {
        Some(b) => seq!["--brightness"@, tenths(b as int)],
        None => seq![],
    };
    preview + seq![
        "--ev"@,
        tenths(options.ev_tenths as int),
        "--shutter"@,
        decimal(options.shutter_us as nat),
        "--width"@,
        decimal(options.width as nat),
        "--height"@,
        decimal(options.height as nat),
    ] + brightness
}

/// The arguments of the standard options, written out.
pub open spec fn standard_args() -> Seq<Seq<char>> {
    seq![
        "--nopreview"@,
        "--ev"@,
        "0.5"@,
        "--shutter"@,
        "2000000"@,
        "--width"@,
        "1600"@,
        "--height"@,
        "900"@,
        "--brightness"@,
        "0.2"@,
    ]
}

/// The whole argument list of one capture: the output path, then the options.
pub open spec fn capture_args(path: Seq<char>, options: CaptureOptions) -> Seq<Seq<char>> {
    seq!["-o"@, path] + option_args(options)
}

/// The standard options produce the standard arguments.
pub proof fn lemma_standard_args()
    ensures
        option_args(standard_options()) == standard_args(),
{
    reveal_strlit("0.5");
    reveal_strlit("2000000");
    reveal_strlit("1600");
    reveal_strlit("900");
    reveal_strlit("0.2");
    reveal_with_fuel(decimal, 8);
    assert(tenths(5) =~= "0.5"@);
    assert(tenths(2) =~= "0.2"@);
    assert(decimal(2000000) =~= "2000000"@);
    assert(decimal(1600) =~= "1600"@);
    assert(decimal(900) =~= "900"@);
    assert(option_args(standard_options()) =~= standard_args());
}

impl CaptureOptions {
    /// The options that the notifier captures with.
    pub fn standard() -> (options: CaptureOptions)
        ensures
            options == standard_options(),
    {
        CaptureOptions {
            preview: false,
            ev_tenths: 5,
            shutter_us: 2000000,
            width: 1600,
            height: 900,
            brightness_tenths: Some(2),
        }
    }

    /// Writes the options as arguments of the capture utility.
    pub fn to_args(&self) -> (args: Vec<String>)
        ensures
            args.deep_view() == option_args(*self),
    {
        let mut args: Vec<String> = Vec::new();
        if !self.preview {
            args.push("--nopreview".to_owned());
        }
        args.push("--ev".to_owned());
        args.push(tenths_string(self.ev_tenths));
        args.push("--shutter".to_owned());
        args.push(decimal_string(self.shutter_us));
        args.push("--width".to_owned());
        args.push(decimal_string(self.width));
        args.push("--height".to_owned());
        args.push(decimal_string(self.height));
        match self.brightness_tenths {
            Some(b) => {
                args.push("--brightness".to_owned());
                args.push(tenths_string(b));
            },
            None => {},
        }
        assert(args.deep_view() =~= option_args(*self));
        args
    }
}

/// The arguments of the standard capture, without the output path.
pub fn get_options() -> (args: Vec<String>)
    ensures
        args.deep_view() == standard_args(),
        args.deep_view() == option_args(standard_options()),
{
    proof {
        lemma_standard_args();
    }
    CaptureOptions::standard().to_args()
}

/// The whole argument list for a capture that writes to `path`.
pub fn capture_command(path: &str, options: &CaptureOptions) -> (args: Vec<String>)
    ensures
        args.deep_view() == capture_args(path@, *options),
{
    let mut args: Vec<String> = Vec::new();
    args.push("-o".to_owned());
    args.push(path.to_owned());
    let mut rest: Vec<String> = options.to_args();
    assert(args.deep_view() =~= seq!["-o"@, path@]);
    let ghost head = args.deep_view();
    let ghost tail = rest.deep_view();
    args.append(&mut rest);
    assert(args.deep_view() =~= head + tail);
    args
}

/// How a run of the capture utility ended.
#[derive(Clone, Copy, Debug, PartialEq, Eq, Structural)]
pub enum CaptureReport {
    /// The utility could not be started.
    NotStarted,
    /// The utility ran and exited with this status.
    Exited(i32),
    /// The utility ran and was ended by a signal.
    Killed,
}

/// A capture has succeeded exactly when the utility exited with status zero.
pub open spec fn capture_succeeded(report: CaptureReport) -> bool {
    report == CaptureReport::Exited(0)
}

/// Reads the end of a capture run as success or failure.
pub fn capture_result(report: CaptureReport) -> (result: Result<(), CatCamError>)
    ensures
        result is Ok <==> capture_succeeded(report),
        result is Err ==> result == Err::<(), CatCamError>(CatCamError::FailureLibcamera),
{
    match report {
        CaptureReport::Exited(status) => {
            if status == 0 {
                Ok(())
            } else {
                Err(CatCamError::FailureLibcamera)
            }
        },
        _ => Err(CatCamError::FailureLibcamera),
    }
}

} // verus!

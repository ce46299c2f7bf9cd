//! The external encoder: how it is called and how it is told apart whether it did its work.
use crate::errors::{is_message, RsnipError};
use crate::recording::{EffectiveRecordingConfig, RecordingTimingMetrics};
use crate::screen::capture::CaptureRegion;
use crate::text::{append_u64, decimal, decimal_u64};
use vstd::prelude::*;

verus! {

/// The program that is run, and its arguments.
#[derive(Debug, Clone, PartialEq, Eq)]
pub struct FfmpegCommandSpec {
    pub executable: String,
    pub args: Vec<String>,
}

/// How the encoder ended. The status is held as its text.
#[derive(Debug, Clone, PartialEq, Eq)]
pub struct FfmpegEncoderResult {
    pub output_path: String,
    pub status: String,
    pub stderr: String,
    pub timing: Option<RecordingTimingMetrics>,
}

/// The texts of a list of strings.
pub open spec fn texts(strings: Seq<String>) -> Seq<Seq<char>> {
    Seq::new(strings.len(), |i: int| strings[i]@)
}

/// The arguments of the encoder: raw frames of the given size and rate come in on its standard
/// input, and a video goes out to a file.
pub open spec fn ffmpeg_args(
    region: CaptureRegion,
    config: EffectiveRecordingConfig,
    output_path: Seq<char>,
) -> Seq<Seq<char>> {
    seq![
        "-y"@,
        "-f"@,
        "rawvideo"@,
        "-pixel_format"@,
        "bgra"@,
        "-video_size"@,
        decimal(region.width as nat) + "x"@ + decimal(region.height as nat),
        "-framerate"@,
        decimal(config.fps as nat),
        "-i"@,
        "-"@,
        "-c:v"@,
        config.codec@,
        "-crf"@,
        decimal(config.crf as nat),
        "-preset"@,
        config.preset@,
        "-pix_fmt"@,
        "yuv420p"@,
        output_path,
    ]
}

/// Whether an option is among arguments, with a value behind it.
pub open spec fn gives_option(args: Seq<Seq<char>>, option: Seq<char>, value: Seq<char>) -> bool {
    exists|i: int| 0 <= i < args.len() - 1 && #[trigger] args[i] == option && args[i + 1] == value
}

/// The encoder is told all that the recording was set to: frames of the size of the region, four
/// bytes a pixel with the blue one first, from its input, as many a second as the settings say, and
/// the codec, quality and preset of the settings. The file is its last argument, and it may replace
/// one that is there.
pub proof fn law_encoder_is_told_the_settings(
    region: CaptureRegion,
    config: EffectiveRecordingConfig,
    output_path: Seq<char>,
)
    ensures
        ({
            let args = ffmpeg_args(region, config, output_path);
            &&& gives_option(args, "-f"@, "rawvideo"@)
            &&& gives_option(args, "-pixel_format"@, "bgra"@)
            &&& gives_option(
                args,
                "-video_size"@,
                decimal(region.width as nat) + "x"@ + decimal(region.height as nat),
            )
            &&& gives_option(args, "-framerate"@, decimal(config.fps as nat))
            &&& gives_option(args, "-i"@, "-"@)
            &&& gives_option(args, "-c:v"@, config.codec@)
            &&& gives_option(args, "-crf"@, decimal(config.crf as nat))
            &&& gives_option(args, "-preset"@, config.preset@)
            &&& gives_option(args, "-pix_fmt"@, "yuv420p"@)
            &&& args.last() == output_path
            &&& args.contains("-y"@)
        }),
{
    let args = ffmpeg_args(region, config, output_path);
    assert(args[0] == "-y"@);
    assert(args[1] == "-f"@ && args[2] == "rawvideo"@);
    assert(args[3] == "-pixel_format"@ && args[4] == "bgra"@);
    assert(args[5] == "-video_size"@ && args[6] == decimal(region.width as nat) + "x"@ + decimal(
        region.height as nat,
    ));
    assert(args[7] == "-framerate"@ && args[8] == decimal(config.fps as nat));
    assert(args[9] == "-i"@ && args[10] == "-"@);
    assert(args[11] == "-c:v"@ && args[12] == config.codec@);
    assert(args[13] == "-crf"@ && args[14] == decimal(config.crf as nat));
    assert(args[15] == "-preset"@ && args[16] == config.preset@);
    assert(args[17] == "-pix_fmt"@ && args[18] == "yuv420p"@);
}

impl FfmpegCommandSpec {
    /// The call of the encoder for a recording.
    pub fn new(region: CaptureRegion, config: &EffectiveRecordingConfig, output_path: &str) -> (r:
        Self)
        ensures
            r.executable@ == match config.ffmpeg_path {
                Some(path) => path@,
                None => "ffmpeg.exe"@,
            },
            texts(r.args@) == ffmpeg_args(region, *config, output_path@),
    {
        let executable = match &config.ffmpeg_path {
            Some(path) => path.clone(),
            None => "ffmpeg.exe".to_owned(),
        };
        let mut size = decimal_u64(region.width as u64);
        size.append("x");
        append_u64(&mut size, region.height as u64);
        let mut args: Vec<String> = Vec::new();
        args.push("-y".to_owned());
        args.push("-f".to_owned());
        args.push("rawvideo".to_owned());
        args.push("-pixel_format".to_owned());
        args.push("bgra".to_owned());
        args.push("-video_size".to_owned());
        args.push(size);
        args.push("-framerate".to_owned());
        args.push(decimal_u64(config.fps as u64));
        args.push("-i".to_owned());
        args.push("-".to_owned());
        args.push("-c:v".to_owned());
        args.push(config.codec.clone());
        args.push("-crf".to_owned());
        args.push(decimal_u64(config.crf as u64));
        args.push("-preset".to_owned());
        args.push(config.preset.clone());
        args.push("-pix_fmt".to_owned());
        args.push("yuv420p".to_owned());
        args.push(output_path.to_owned());
        assert(texts(args@) =~= ffmpeg_args(region, *config, output_path@));
        FfmpegCommandSpec { executable, args }
    }
}

/// Whether an error tells that a frame has the wrong number of bytes.
pub open spec fn wrong_frame_size(error: RsnipError, region: CaptureRegion, len: nat) -> bool {
    is_message(
        error,
        "invalid recording frame size: expected "@ + decimal(
            (4 * region.width * region.height) as nat,
        ) + " bytes, got "@ + decimal(len),
    )
}

/// Checks that a frame has as many bytes as the region has pixels, four a pixel.
pub fn check_frame_size(region: CaptureRegion, frame_len: usize) -> (r: Result<(), RsnipError>)
    requires
        4 * region.width * region.height <= usize::MAX,
    ensures
        match r {
            Ok(()) => frame_len == 4 * region.width * region.height,
            Err(error) => frame_len != 4 * region.width * region.height && wrong_frame_size(
                error,
                region,
                frame_len as nat,
            ),
        },
{
    proof {
        assert(4 * region.width * region.height == 4 * (region.width * region.height))
            by (nonlinear_arith);
        assert(0 <= region.width * region.height) by (nonlinear_arith)
            requires
                0 <= region.width,
                0 <= region.height,
        ;
    }
    let pixels: usize = region.width as usize * region.height as usize;
    let expected: usize = pixels * 4;
    if frame_len != expected {
        let mut message = "invalid recording frame size: expected ".to_owned();
        append_u64(&mut message, expected as u64);
        message.append(" bytes, got ");
        append_u64(&mut message, frame_len as u64);
        return Err(RsnipError::Message(message));
    }
    Ok(())
}

/// The result of an encoder that ended: an error that tells its messages, unless it succeeded.
pub fn finish_result(
    success: bool,
    status: String,
    stderr: String,
    output_path: String,
    timing: Option<RecordingTimingMetrics>,
) -> (r: Result<FfmpegEncoderResult, RsnipError>)
    ensures
        match r {
            Ok(result) => success && result.output_path@ == output_path@ && result.status@
                == status@ && result.stderr@ == stderr@ && result.timing == timing,
            Err(error) => !success && is_message(
                error,
                "ffmpeg failed with status "@ + status@ + ": "@ + stderr@,
            ),
        },
{
    if !success {
        let mut message = "ffmpeg failed with status ".to_owned();
        message.append(status.as_str());
        message.append(": ");
        message.append(stderr.as_str());
        return Err(RsnipError::Message(message));
    }
    Ok(FfmpegEncoderResult { output_path, status, stderr, timing })
}

} // verus!

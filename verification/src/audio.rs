//! The audio-extraction stage: the argument contract of the external
//! transcoding process and the decision of what its observed outcome means.
//! The process itself runs outside this crate; extraction is all-or-nothing,
//! with no partial result.

use vstd::prelude::*;

use crate::errors::ExtractionError;
use crate::text::decimal_string;
use crate::text::spec_decimal;

verus! {

/// The sample encodings the pipeline can request from the transcoder.
#[derive(Debug, Clone, Copy, PartialEq, Eq, Structural)]
pub enum SampleFormat {
    /// 16-bit signed little-endian linear PCM.
    LinearPcm16,
}

/// Declared encoding metadata of an audio asset: the rate/channels/format
/// triplet is a single atomic contract between extraction and submission,
/// never partially overridden.
#[derive(Debug, Clone, Copy, PartialEq, Eq, Structural)]
pub struct AudioFormat {
    pub sample_rate_hz: u32,
    pub channels: u32,
    pub sample_format: SampleFormat,
}

impl AudioFormat {
    /// The fixed target format of the pipeline: 16-bit linear PCM, 16 kHz,
    /// mono.
    pub fn pcm16_mono_16khz() -> (f: AudioFormat)
        ensures
            f == (AudioFormat {
                sample_rate_hz: 16000u32,
                channels: 1u32,
                sample_format: SampleFormat::LinearPcm16,
            }),
    {
        AudioFormat { sample_rate_hz: 16000, channels: 1, sample_format: SampleFormat::LinearPcm16 }
    }
}

/// An immutable audio payload together with its declared encoding metadata.
/// Created once by extraction, consumed read-only by submission.
#[derive(Debug, Clone, PartialEq, Eq)]
pub struct AudioAsset {
    pub data: Vec<u8>,
    pub format: AudioFormat,
}

/// The codec flag that selects `f` in the external transcoder.
pub open spec fn spec_codec_flag(f: SampleFormat) -> Seq<char> {
    match f {
        SampleFormat::LinearPcm16 => "pcm_s16le"@,
    }
}

fn codec_flag(f: SampleFormat) -> (r: &'static str)
    ensures
        r@ == spec_codec_flag(f),
{
    match f {
        SampleFormat::LinearPcm16 => "pcm_s16le",
    }
}

/// The fixed argument contract of the external transcoding process: input
/// path, forced codec / sample-rate / channel-count flags, output path.
pub open spec fn spec_extraction_args(
    video_path: Seq<char>,
    audio_path: Seq<char>,
    format: AudioFormat,
) -> Seq<Seq<char>> {
    seq![
        "-i"@,
        video_path,
        "-acodec"@,
        spec_codec_flag(format.sample_format),
        "-ar"@,
        spec_decimal(format.sample_rate_hz as nat),
        "-ac"@,
        spec_decimal(format.channels as nat),
        audio_path,
    ]
}

/// Builds the argument list for one invocation of the external transcoding
/// process.
pub fn extraction_args(video_path: &str, audio_path: &str, format: AudioFormat) -> (args: Vec<
    String,
>)
    ensures
        args@.map_values(|s: String| s@) == spec_extraction_args(video_path@, audio_path@, format),
{
    let mut args: Vec<String> = Vec::new();
    args.push(String::from_str("-i"));
    args.push(String::from_str(video_path));
    args.push(String::from_str("-acodec"));
    args.push(String::from_str(codec_flag(format.sample_format)));
    args.push(String::from_str("-ar"));
    args.push(decimal_string(format.sample_rate_hz));
    args.push(String::from_str("-ac"));
    args.push(decimal_string(format.channels));
    args.push(String::from_str(audio_path));
    proof {
        assert(args@.map_values(|s: String| s@) =~= spec_extraction_args(
            video_path@,
            audio_path@,
            format,
        ));
    }
    args
}

/// What the observed end of the extraction stage means: success exactly when
/// the external process exited with status 0 and the output file was
/// readable; the asset then carries exactly the file's bytes, tagged with
/// the requested format. Extraction is all-or-nothing: any other exit code
/// (or none at all) fails, and so does a missing or unreadable output file.
pub open spec fn spec_extraction_decision(
    exit_code: Option<i32>,
    output: Option<Vec<u8>>,
    format: AudioFormat,
) -> Result<AudioAsset, ExtractionError> {
    match exit_code {
        Option::Some(code) => {
            if code == 0 {
                match output {
                    Option::Some(bytes) => Ok(AudioAsset { data: bytes, format }),
                    Option::None => Err(ExtractionError::OutputUnreadable),
                }
            } else {
                Err(ExtractionError::ProcessFailed { exit_code: Option::Some(code) })
            }
        },
        Option::None => Err(ExtractionError::ProcessFailed { exit_code: Option::None }),
    }
}

/// Decides the outcome of the extraction stage from what the I/O layer
/// observed: the exit code of the external process (`None` when it
/// terminated without one or could not be run at all) and the bytes of the
/// produced file (`None` when it was missing or unreadable).
pub fn extraction_outcome(
    exit_code: Option<i32>,
    output: Option<Vec<u8>>,
    format: AudioFormat,
) -> (r: Result<AudioAsset, ExtractionError>)
    ensures
        r == spec_extraction_decision(exit_code, output, format),
{
    match exit_code {
        Option::Some(code) => {
            if code == 0 {
                match output {
                    Option::Some(bytes) => Ok(AudioAsset { data: bytes, format }),
                    Option::None => Err(ExtractionError::OutputUnreadable),
                }
            } else {
                Err(ExtractionError::ProcessFailed { exit_code: Option::Some(code) })
            }
        },
        Option::None => Err(ExtractionError::ProcessFailed { exit_code: Option::None }),
    }
}

} // verus!

//! Stand-in transcripts: what the engine hands out when the `whisper`
//! program cannot be had. Which transcript it is depends on the name of the
//! audio file alone.
//!
//! Times are in milliseconds and confidences in percent.

use vstd::prelude::*;
use vstd::string::StringExecFns;

use crate::text::{chars_of, lowercase_of, mentions, occurs_in, to_lowercase};
use crate::whisper::WhisperEngine;

verus! {

/// A stretch of a transcript.
#[derive(Debug)]
pub struct TranscriptionSegment {
    pub start_ms: u64,
    pub end_ms: u64,
    pub text: String,
    /// In percent.
    pub confidence: u8,
}

/// A `TranscriptionSegment` with its text as a character sequence.
#[verifier::ext_equal]
pub struct SegmentView {
    pub start_ms: u64,
    pub end_ms: u64,
    pub text: Seq<char>,
    pub confidence: u8,
}

impl View for TranscriptionSegment {
    type V = SegmentView;

    open spec fn view(&self) -> SegmentView {
        SegmentView {
            start_ms: self.start_ms,
            end_ms: self.end_ms,
            text: self.text@,
            confidence: self.confidence,
        }
    }
}

/// A transcript of one audio file.
#[derive(Debug)]
pub struct TranscriptionResult {
    pub text: String,
    pub segments: Vec<TranscriptionSegment>,
    pub language: String,
    pub processing_time_ms: u64,
    /// In percent.
    pub confidence: u8,
}

/// A `TranscriptionResult` with its texts as character sequences.
#[verifier::ext_equal]
pub struct TranscriptView {
    pub text: Seq<char>,
    pub segments: Seq<SegmentView>,
    pub language: Seq<char>,
    pub processing_time_ms: u64,
    pub confidence: u8,
}

impl View for TranscriptionResult {
    type V = TranscriptView;

    open spec fn view(&self) -> TranscriptView {
        TranscriptView {
            text: self.text@,
            segments: self.segments@.map_values(|segment: TranscriptionSegment| segment@),
            language: self.language@,
            processing_time_ms: self.processing_time_ms,
            confidence: self.confidence,
        }
    }
}

/// The confidence, in percent, of every stand-in transcript.
pub const SIMULATED_CONFIDENCE: u8 = 82;

/// What a file name says about the recording.
pub enum Scene {
    Conversation,
    Security,
    Other,
}

/// The scene that a lower-cased file name stands for: a conversation if it
/// says so, else security if it says so, else neither.
pub open spec fn scene_of(lowered_name: Seq<char>) -> Scene {
    if occurs_in("conversation"@, lowered_name) {
        Scene::Conversation
    } else if occurs_in("security"@, lowered_name) {
        Scene::Security
    } else {
        Scene::Other
    }
}

/// The text of the stand-in conversation.
pub open spec fn conversation_text() -> Seq<char> {
    "Speaker 1: Hello, how are you today?\nSpeaker 2: I'm doing well, thanks for asking. How about you?\nSpeaker 1: Pretty good, just working on some audio analysis projects.\nSpeaker 2: That sounds interesting. What kind of analysis are you doing?"@
}

/// The segments of the stand-in conversation.
pub open spec fn conversation_segments() -> Seq<SegmentView> {
    seq![
        SegmentView {
            start_ms: 0,
            end_ms: 2500,
            text: "Hello, how are you today?"@,
            confidence: 92,
        },
        SegmentView {
            start_ms: 3000,
            end_ms: 6800,
            text: "I'm doing well, thanks for asking. How about you?"@,
            confidence: 88,
        },
        SegmentView {
            start_ms: 7200,
            end_ms: 11100,
            text: "Pretty good, just working on some audio analysis projects."@,
            confidence: 90,
        },
        SegmentView {
            start_ms: 11500,
            end_ms: 14800,
            text: "That sounds interesting. What kind of analysis are you doing?"@,
            confidence: 87,
        },
    ]
}

/// The text of the stand-in security recording.
pub open spec fn security_text() -> Seq<char> {
    "Radio chatter detected. Multiple voices discussing checkpoint procedures. Keywords: security, perimeter, all clear, proceed with caution."@
}

/// The segments of the stand-in security recording.
pub open spec fn security_segments() -> Seq<SegmentView> {
    seq![
        SegmentView {
            start_ms: 0,
            end_ms: 5200,
            text: "Radio chatter detected. Multiple voices discussing checkpoint procedures."@,
            confidence: 79,
        },
        SegmentView {
            start_ms: 5500,
            end_ms: 9800,
            text: "Keywords: security, perimeter, all clear, proceed with caution."@,
            confidence: 82,
        },
    ]
}

/// The text said of any other file: it names the file as it was given.
pub open spec fn other_text(file_name: Seq<char>) -> Seq<char> {
    "Transcription of audio file: "@ + file_name
        + "\n\nThis is a simulated transcription demonstrating Dwight's advanced audio processing capabilities. Real implementation uses Whisper C++ for accurate speech recognition."@
}

/// The one segment given for any other file.
pub open spec fn other_segments() -> Seq<SegmentView> {
    seq![
        SegmentView {
            start_ms: 0,
            end_ms: 3000,
            text: "Transcription of audio file"@,
            confidence: 85,
        },
    ]
}

/// The stand-in transcript of the file called `file_name`, whose lower-cased
/// name is `lowered_name`, made in `elapsed_ms` milliseconds.
pub open spec fn simulated_transcript(
    file_name: Seq<char>,
    lowered_name: Seq<char>,
    elapsed_ms: u64,
) -> TranscriptView {
    TranscriptView {
        text: match scene_of(lowered_name) {
            Scene::Conversation => conversation_text(),
            Scene::Security => security_text(),
            Scene::Other => other_text(file_name),
        },
        segments: match scene_of(lowered_name) {
            Scene::Conversation => conversation_segments(),
            Scene::Security => security_segments(),
            Scene::Other => other_segments(),
        },
        language: "en"@,
        processing_time_ms: elapsed_ms,
        confidence: SIMULATED_CONFIDENCE,
    }
}

/// The scene that the lower-cased file name `lowered_name` stands for.
pub fn recognise_scene(lowered_name: &str) -> (scene: Scene)
    ensures
        scene == scene_of(lowered_name@),
{
    let name = chars_of(lowered_name);
    if mentions(name.as_slice(), "conversation") {
        Scene::Conversation
    } else if mentions(name.as_slice(), "security") {
        Scene::Security
    } else {
        Scene::Other
    }
}

/// One segment.
fn segment(start_ms: u64, end_ms: u64, text: &str, confidence: u8) -> (made: TranscriptionSegment)
    ensures
        made@ == (SegmentView { start_ms, end_ms, text: text@, confidence }),
{
    TranscriptionSegment { start_ms, end_ms, text: String::from_str(text), confidence }
}

/// The stand-in transcript of the file called `file_name`, whose lower-cased
/// name is `lowered_name`, made in `elapsed_ms` milliseconds.
pub fn transcript_for(file_name: &str, lowered_name: &str, elapsed_ms: u64) -> (transcript:
    TranscriptionResult)
    ensures
        transcript@ == simulated_transcript(file_name@, lowered_name@, elapsed_ms),
{
    let mut segments: Vec<TranscriptionSegment> = Vec::new();
    let text = match recognise_scene(lowered_name) {
        Scene::Conversation => {
            segments.push(segment(0, 2500, "Hello, how are you today?", 92));
            segments.push(
                segment(3000, 6800, "I'm doing well, thanks for asking. How about you?", 88),
            );
            segments.push(
                segment(
                    7200,
                    11100,
                    "Pretty good, just working on some audio analysis projects.",
                    90,
                ),
            );
            segments.push(
                segment(
                    11500,
                    14800,
                    "That sounds interesting. What kind of analysis are you doing?",
                    87,
                ),
            );
            String::from_str(
                "Speaker 1: Hello, how are you today?\nSpeaker 2: I'm doing well, thanks for asking. How about you?\nSpeaker 1: Pretty good, just working on some audio analysis projects.\nSpeaker 2: That sounds interesting. What kind of analysis are you doing?",
            )
        },
        Scene::Security => {
            segments.push(
                segment(
                    0,
                    5200,
                    "Radio chatter detected. Multiple voices discussing checkpoint procedures.",
                    79,
                ),
            );
            segments.push(
                segment(
                    5500,
                    9800,
                    "Keywords: security, perimeter, all clear, proceed with caution.",
                    82,
                ),
            );
            String::from_str(
                "Radio chatter detected. Multiple voices discussing checkpoint procedures. Keywords: security, perimeter, all clear, proceed with caution.",
            )
        },
        Scene::Other => {
            segments.push(segment(0, 3000, "Transcription of audio file", 85));
            let mut text = String::from_str("Transcription of audio file: ");
            text.append(file_name);
            text.append(
                "\n\nThis is a simulated transcription demonstrating Dwight's advanced audio processing capabilities. Real implementation uses Whisper C++ for accurate speech recognition.",
            );
            text
        },
    };
    let transcript = TranscriptionResult {
        text,
        segments,
        language: String::from_str("en"),
        processing_time_ms: elapsed_ms,
        confidence: SIMULATED_CONFIDENCE,
    };
    assert(transcript@.segments =~= simulated_transcript(
        file_name@,
        lowered_name@,
        elapsed_ms,
    ).segments);
    transcript
}

impl WhisperEngine {
    /// The stand-in transcript of the file called `file_name`, made in
    /// `elapsed_ms` milliseconds. The name is read without regard to case.
    pub fn simulate_transcription(&self, file_name: &str, elapsed_ms: u64) -> (transcript:
        TranscriptionResult)
        ensures
            transcript@ == simulated_transcript(file_name@, lowercase_of(file_name@), elapsed_ms),
    {
        let lowered_name = to_lowercase(file_name);
        transcript_for(file_name, lowered_name.as_str(), elapsed_ms)
    }
}

} // verus!

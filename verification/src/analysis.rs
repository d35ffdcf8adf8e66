//! Stand-in audio analyses: what the engine says of a recording when no
//! real analysis is to be had. Which analysis it is depends on the name of
//! the audio file alone.
//!
//! Times are in milliseconds, confidences and other scores in percent, and
//! the signal-to-noise ratio in tenths of a decibel.

use vstd::prelude::*;
use vstd::string::StringExecFns;

use crate::text::{chars_of, lowercase_of, mentions, occurs_in, to_lowercase};
use crate::whisper::WhisperEngine;

verus! {

/// A stretch of speech.
#[derive(Debug)]
pub struct SpeechSegment {
    pub start_ms: u64,
    pub end_ms: u64,
    /// In percent.
    pub confidence: u8,
    pub speaker: String,
    pub language: String,
}

/// A `SpeechSegment` with its texts as character sequences.
#[verifier::ext_equal]
pub struct SpeechView {
    pub start_ms: u64,
    pub end_ms: u64,
    pub confidence: u8,
    pub speaker: Seq<char>,
    pub language: Seq<char>,
}

impl View for SpeechSegment {
    type V = SpeechView;

    open spec fn view(&self) -> SpeechView {
        SpeechView {
            start_ms: self.start_ms,
            end_ms: self.end_ms,
            confidence: self.confidence,
            speaker: self.speaker@,
            language: self.language@,
        }
    }
}

/// A sound that is not speech.
#[derive(Debug)]
pub struct NonSpeechEvent {
    pub start_ms: u64,
    pub end_ms: u64,
    pub event_type: String,
    /// In percent.
    pub confidence: u8,
}

/// A `NonSpeechEvent` with its text as a character sequence.
#[verifier::ext_equal]
pub struct EventView {
    pub start_ms: u64,
    pub end_ms: u64,
    pub event_type: Seq<char>,
    pub confidence: u8,
}

impl View for NonSpeechEvent {
    type V = EventView;

    open spec fn view(&self) -> EventView {
        EventView {
            start_ms: self.start_ms,
            end_ms: self.end_ms,
            event_type: self.event_type@,
            confidence: self.confidence,
        }
    }
}

/// How good a recording is.
#[derive(Debug, Clone, Copy)]
pub struct AudioQuality {
    /// Signal-to-noise ratio, in tenths of a decibel.
    pub snr_tenths_db: u16,
    /// In percent.
    pub clarity_score: u8,
    /// In percent.
    pub background_noise_level: u8,
}

/// How the speakers sound, each score in percent.
#[derive(Debug, Clone, Copy)]
pub struct EmotionalTone {
    pub urgency: u8,
    pub stress: u8,
    pub confidence: u8,
}

/// What is known of a recording.
#[derive(Debug)]
pub struct AudioAnalysis {
    pub duration_ms: u64,
    pub sample_rate: u32,
    pub channels: u16,
    pub speech_segments: Vec<SpeechSegment>,
    pub non_speech_events: Vec<NonSpeechEvent>,
    pub audio_quality: AudioQuality,
    pub keywords_detected: Vec<String>,
    pub emotional_tone: EmotionalTone,
}

/// An `AudioAnalysis` with its texts as character sequences.
#[verifier::ext_equal]
pub struct AnalysisView {
    pub duration_ms: u64,
    pub sample_rate: u32,
    pub channels: u16,
    pub speech_segments: Seq<SpeechView>,
    pub non_speech_events: Seq<EventView>,
    pub audio_quality: AudioQuality,
    pub keywords_detected: Seq<Seq<char>>,
    pub emotional_tone: EmotionalTone,
}

impl View for AudioAnalysis {
    type V = AnalysisView;

    open spec fn view(&self) -> AnalysisView {
        AnalysisView {
            duration_ms: self.duration_ms,
            sample_rate: self.sample_rate,
            channels: self.channels,
            speech_segments: self.speech_segments@.map_values(|segment: SpeechSegment| segment@),
            non_speech_events: self.non_speech_events@.map_values(|event: NonSpeechEvent| event@),
            audio_quality: self.audio_quality,
            keywords_detected: self.keywords_detected.deep_view(),
            emotional_tone: self.emotional_tone,
        }
    }
}

/// The stand-in analysis of a security recording.
pub open spec fn security_analysis() -> AnalysisView {
    AnalysisView {
        duration_ms: 125600,
        sample_rate: 44100,
        channels: 2,
        speech_segments: seq![
            SpeechView {
                start_ms: 0,
                end_ms: 45200,
                confidence: 94,
                speaker: "Security Officer 1"@,
                language: "en"@,
            },
            SpeechView {
                start_ms: 45500,
                end_ms: 89100,
                confidence: 87,
                speaker: "Security Officer 2"@,
                language: "en"@,
            },
        ],
        non_speech_events: seq![
            EventView { start_ms: 14200, end_ms: 16800, event_type: "footsteps"@, confidence: 78 },
            EventView { start_ms: 22100, end_ms: 24300, event_type: "door_slam"@, confidence: 92 },
            EventView {
                start_ms: 49700,
                end_ms: 52100,
                event_type: "vehicle_engine"@,
                confidence: 85,
            },
        ],
        audio_quality: AudioQuality {
            snr_tenths_db: 284,
            clarity_score: 82,
            background_noise_level: 15,
        },
        keywords_detected: seq!["security"@, "checkpoint"@, "perimeter"@, "all clear"@],
        emotional_tone: EmotionalTone { urgency: 23, stress: 31, confidence: 76 },
    }
}

/// The stand-in analysis of any other recording.
pub open spec fn general_analysis() -> AnalysisView {
    AnalysisView {
        duration_ms: 67300,
        sample_rate: 44100,
        channels: 2,
        speech_segments: seq![
            SpeechView {
                start_ms: 0,
                end_ms: 30500,
                confidence: 89,
                speaker: "Speaker 1"@,
                language: "en"@,
            },
        ],
        non_speech_events: seq![
            EventView {
                start_ms: 5200,
                end_ms: 6100,
                event_type: "background_music"@,
                confidence: 65,
            },
        ],
        audio_quality: AudioQuality {
            snr_tenths_db: 321,
            clarity_score: 91,
            background_noise_level: 8,
        },
        keywords_detected: seq!["analysis"@, "audio"@, "processing"@],
        emotional_tone: EmotionalTone { urgency: 12, stress: 8, confidence: 88 },
    }
}

/// The stand-in analysis of the file whose lower-cased name is
/// `lowered_name`: that of a security recording if the name says so, else
/// the general one.
pub open spec fn simulated_analysis(lowered_name: Seq<char>) -> AnalysisView {
    if occurs_in("security"@, lowered_name) {
        security_analysis()
    } else {
        general_analysis()
    }
}

/// One stretch of speech, in English.
fn speech(start_ms: u64, end_ms: u64, confidence: u8, speaker: &str) -> (made: SpeechSegment)
    ensures
        made@ == (SpeechView { start_ms, end_ms, confidence, speaker: speaker@, language: "en"@ }),
{
    SpeechSegment {
        start_ms,
        end_ms,
        confidence,
        speaker: String::from_str(speaker),
        language: String::from_str("en"),
    }
}

/// One sound that is not speech.
fn event(start_ms: u64, end_ms: u64, event_type: &str, confidence: u8) -> (made: NonSpeechEvent)
    ensures
        made@ == (EventView { start_ms, end_ms, event_type: event_type@, confidence }),
{
    NonSpeechEvent { start_ms, end_ms, event_type: String::from_str(event_type), confidence }
}

/// The stand-in analysis of a security recording.
fn analysis_of_security() -> (analysis: AudioAnalysis)
    ensures
        analysis@ == security_analysis(),
{
    let mut speech_segments: Vec<SpeechSegment> = Vec::new();
    speech_segments.push(speech(0, 45200, 94, "Security Officer 1"));
    speech_segments.push(speech(45500, 89100, 87, "Security Officer 2"));
    let mut non_speech_events: Vec<NonSpeechEvent> = Vec::new();
    non_speech_events.push(event(14200, 16800, "footsteps", 78));
    non_speech_events.push(event(22100, 24300, "door_slam", 92));
    non_speech_events.push(event(49700, 52100, "vehicle_engine", 85));
    let mut keywords_detected: Vec<String> = Vec::new();
    keywords_detected.push(String::from_str("security"));
    keywords_detected.push(String::from_str("checkpoint"));
    keywords_detected.push(String::from_str("perimeter"));
    keywords_detected.push(String::from_str("all clear"));
    let analysis = AudioAnalysis {
        duration_ms: 125600,
        sample_rate: 44100,
        channels: 2,
        speech_segments,
        non_speech_events,
        audio_quality: AudioQuality {
            snr_tenths_db: 284,
            clarity_score: 82,
            background_noise_level: 15,
        },
        keywords_detected,
        emotional_tone: EmotionalTone { urgency: 23, stress: 31, confidence: 76 },
    };
    assert(analysis@.speech_segments =~= security_analysis().speech_segments);
    assert(analysis@.non_speech_events =~= security_analysis().non_speech_events);
    assert(analysis@.keywords_detected =~= security_analysis().keywords_detected);
    analysis
}

/// The stand-in analysis of any other recording.
fn analysis_in_general() -> (analysis: AudioAnalysis)
    ensures
        analysis@ == general_analysis(),
{
    let mut speech_segments: Vec<SpeechSegment> = Vec::new();
    speech_segments.push(speech(0, 30500, 89, "Speaker 1"));
    let mut non_speech_events: Vec<NonSpeechEvent> = Vec::new();
    non_speech_events.push(event(5200, 6100, "background_music", 65));
    let mut keywords_detected: Vec<String> = Vec::new();
    keywords_detected.push(String::from_str("analysis"));
    keywords_detected.push(String::from_str("audio"));
    keywords_detected.push(String::from_str("processing"));
    let analysis = AudioAnalysis {
        duration_ms: 67300,
        sample_rate: 44100,
        channels: 2,
        speech_segments,
        non_speech_events,
        audio_quality: AudioQuality {
            snr_tenths_db: 321,
            clarity_score: 91,
            background_noise_level: 8,
        },
        keywords_detected,
        emotional_tone: EmotionalTone { urgency: 12, stress: 8, confidence: 88 },
    };
    assert(analysis@.speech_segments =~= general_analysis().speech_segments);
    assert(analysis@.non_speech_events =~= general_analysis().non_speech_events);
    assert(analysis@.keywords_detected =~= general_analysis().keywords_detected);
    analysis
}

/// The stand-in analysis of the file whose lower-cased name is
/// `lowered_name`.
pub fn analysis_for(lowered_name: &str) -> (analysis: AudioAnalysis)
    ensures
        analysis@ == simulated_analysis(lowered_name@),
{
    let name = chars_of(lowered_name);
    if mentions(name.as_slice(), "security") {
        analysis_of_security()
    } else {
        analysis_in_general()
    }
}

impl WhisperEngine {
    /// The stand-in analysis of the file called `file_name`. The name is
    /// read without regard to case.
    pub fn analyze_audio_advanced(&self, file_name: &str) -> (analysis: AudioAnalysis)
        ensures
            analysis@ == simulated_analysis(lowercase_of(file_name@)),
    {
        let lowered_name = to_lowercase(file_name);
        analysis_for(lowered_name.as_str())
    }
}

} // verus!

//! The transcription engine's configuration, the command line it hands to
//! the `whisper` program, and the stand-in transcripts and analyses it gives
//! when no real transcription is to be had.
//!
//! Times are held in milliseconds, confidences and other scores in percent,
//! and the signal-to-noise ratio in tenths of a decibel.

use vstd::prelude::*;
use vstd::string::StringExecFns;

verus! {

/// How the transcription engine is set up.
#[derive(Debug)]
pub struct WhisperConfig {
    pub model_path: String,
    /// One of tiny, base, small, medium, large.
    pub model_size: String,
    pub language: Option<String>,
    pub use_cpp: bool,
    pub use_gpu: bool,
}

/// A `WhisperConfig` with its texts as character sequences.
#[verifier::ext_equal]
pub struct ConfigView {
    pub model_path: Seq<char>,
    pub model_size: Seq<char>,
    pub language: Option<Seq<char>>,
    pub use_cpp: bool,
    pub use_gpu: bool,
}

impl View for WhisperConfig {
    type V = ConfigView;

    open spec fn view(&self) -> ConfigView {
        ConfigView {
            model_path: self.model_path@,
            model_size: self.model_size@,
            language: match self.language {
                Some(language) => Some(language@),
                None => None,
            },
            use_cpp: self.use_cpp,
            use_gpu: self.use_gpu,
        }
    }
}

/// The configuration that a new engine starts with.
pub open spec fn default_config() -> ConfigView {
    ConfigView {
        model_path: "./models/whisper"@,
        model_size: "base"@,
        language: None,
        use_cpp: true,
        use_gpu: false,
    }
}

/// The model file that a configuration names.
pub open spec fn model_file(config: ConfigView) -> Seq<char> {
    config.model_path + "/ggml-"@ + config.model_size + ".bin"@
}

/// Where the `whisper` program is told to write its output, without the
/// extension that it adds.
pub open spec fn output_file() -> Seq<char> {
    "/tmp/whisper_output"@
}

/// The arguments for transcribing `file_path` under `config`: the model, the
/// file, the output, then the language if one is set, then the GPU switch if
/// the GPU is to be used.
pub open spec fn arguments_for(config: ConfigView, file_path: Seq<char>) -> Seq<Seq<char>> {
    seq![
        "-m"@,
        model_file(config),
        "-f"@,
        file_path,
        "--output-json"@,
        "--output-file"@,
        output_file(),
    ] + (match config.language {
        Some(language) => seq!["-l"@, language],
        None => Seq::empty(),
    }) + (if config.use_gpu {
        seq!["-ngl"@, "1"@]
    } else {
        Seq::empty()
    })
}

/// The transcription engine.
pub struct WhisperEngine {
    config: WhisperConfig,
}

impl View for WhisperEngine {
    type V = ConfigView;

    closed spec fn view(&self) -> ConfigView {
        self.config@
    }
}

impl WhisperEngine {
    /// An engine with the default configuration.
    pub fn new() -> (engine: Self)
        ensures
            engine@ == default_config(),
    {
        WhisperEngine {
            config: WhisperConfig {
                model_path: String::from_str("./models/whisper"),
                model_size: String::from_str("base"),
                language: None,
                use_cpp: true,
                use_gpu: false,
            },
        }
    }

    /// The engine's configuration.
    pub fn config(&self) -> (config: &WhisperConfig)
        ensures
            config@ == self@,
    {
        &self.config
    }

    /// The arguments with which the `whisper` program transcribes
    /// `file_path`.
    pub fn command_arguments(&self, file_path: &str) -> (arguments: Vec<String>)
        ensures
            arguments.deep_view() == arguments_for(self@, file_path@),
    {
        let mut model = self.config.model_path.clone();
        model.append("/ggml-");
        model.append(self.config.model_size.as_str());
        model.append(".bin");
        let mut arguments: Vec<String> = Vec::new();
        arguments.push(String::from_str("-m"));
        arguments.push(model);
        arguments.push(String::from_str("-f"));
        arguments.push(String::from_str(file_path));
        arguments.push(String::from_str("--output-json"));
        arguments.push(String::from_str("--output-file"));
        arguments.push(String::from_str("/tmp/whisper_output"));
        match &self.config.language {
            Some(language) => {
                arguments.push(String::from_str("-l"));
                arguments.push(language.clone());
            },
            None => {},
        }
        if self.config.use_gpu {
            arguments.push(String::from_str("-ngl"));
            arguments.push(String::from_str("1"));
        }
        assert(arguments.deep_view() =~= arguments_for(self@, file_path@));
        arguments
    }
}

} // verus!

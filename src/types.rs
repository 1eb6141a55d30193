use vstd::prelude::*;

use crate::text::{joined, owned};

verus! {

/// Where an image came from.
#[derive(Clone, Copy, Debug, PartialEq, Eq, Structural)]
pub enum ImageSource {
    Camera,
    Screen,
    Clipboard,
    Upload,
}

/// Where a piece of text came from.
#[derive(Clone, Copy, Debug, PartialEq, Eq, Structural)]
pub enum TextSource {
    /// The main user input or its transcription.
    Input,
    /// Text taken from the clipboard.
    Clipboard,
}

/// An image sent with a turn.
#[derive(Clone, Debug)]
pub struct ImageData {
    pub source: ImageSource,
    /// Base64 data or a URL.
    pub data: String,
    pub mime_type: String,
}

/// A file sent with a turn.
#[derive(Clone, Debug)]
pub struct FileData {
    pub name: String,
    /// Base64 data.
    pub data: String,
    pub mime_type: String,
}

/// A piece of text sent with a turn.
#[derive(Clone, Debug)]
pub struct TextData {
    pub source: TextSource,
    pub content: String,
    /// Name of the sender.
    pub from_name: Option<String>,
}

/// Marks the kinds of turn input.
pub trait BaseInput {}

/// The whole input of one turn.
#[derive(Clone, Debug)]
pub struct BatchInput {
    pub texts: Vec<TextData>,
    pub images: Option<Vec<ImageData>>,
    pub files: Option<Vec<FileData>>,
}

impl BaseInput for BatchInput {}

impl BatchInput {
    /// An input made of texts alone.
    pub fn new(texts: Vec<TextData>) -> (r: Self)
        ensures
            r.texts == texts,
            r.images is None,
            r.files is None,
    {
        BatchInput { texts, images: None, files: None }
    }
}

/// The input of a turn: the user's text, sent by `from_name`, with any images.
pub fn create_batch_input(input_text: &str, images: Option<Vec<ImageData>>, from_name: &str) -> (r:
    BatchInput)
    ensures
        r.texts@.len() == 1,
        r.texts@[0].source == TextSource::Input,
        r.texts@[0].content@ == input_text@,
        r.texts@[0].from_name matches Some(n) && n@ == from_name@,
        r.images == images,
        r.files is None,
{
    let mut texts: Vec<TextData> = Vec::new();
    texts.push(
        TextData { source: TextSource::Input, content: owned(input_text), from_name: Some(owned(from_name)) },
    );
    BatchInput { texts, images, files: None }
}

/// An expression identifier: a name or an index.
#[derive(Clone, Debug, PartialEq, Eq)]
pub enum ExpressionRef {
    Name(String),
    Index(i64),
}

/// What accompanies an output unit; each list is optional.
#[derive(Clone, Debug)]
pub struct Actions {
    pub expressions: Option<Vec<ExpressionRef>>,
    pub pictures: Option<Vec<String>>,
    pub sounds: Option<Vec<String>>,
}

impl Actions {
    /// No actions at all.
    pub open spec fn is_empty_spec(self) -> bool {
        self.expressions is None && self.pictures is None && self.sounds is None
    }

    /// Actions with every list absent.
    pub fn new() -> (r: Self)
        ensures
            r.is_empty_spec(),
    {
        Actions { expressions: None, pictures: None, sounds: None }
    }
}

impl Default for Actions {
    fn default() -> (r: Self)
        ensures
            r.is_empty_spec(),
    {
        Actions::new()
    }
}

/// The speaker name shown when none is given.
pub fn default_ai_name() -> (r: Option<String>)
    ensures
        r matches Some(n) && n@ == "AI"@,
{
    Some(owned("AI"))
}

/// Text to display, with the speaker's name and avatar.
#[derive(Clone, Debug)]
pub struct DisplayText {
    pub text: String,
    pub name: Option<String>,
    pub avatar: Option<String>,
}

impl DisplayText {
    /// Display text spoken by the default speaker.
    pub fn new(text: String) -> (r: Self)
        ensures
            r.text == text,
            r.name matches Some(n) && n@ == "AI"@,
            r.avatar is None,
    {
        DisplayText { text, name: default_ai_name(), avatar: None }
    }

    /// The speaker shown for this text.
    pub open spec fn speaker(self) -> Seq<char> {
        match self.name {
            Some(n) => n@,
            None => "AI"@,
        }
    }

    /// The text as a line `speaker: text`.
    pub fn line(&self) -> (r: String)
        ensures
            r@ == self.speaker() + ": "@ + self.text@,
    {
        let head = match &self.name {
            Some(n) => owned(n.as_str()),
            None => owned("AI"),
        };
        let head = joined(head.as_str(), ": ");
        joined(head.as_str(), self.text.as_str())
    }
}

/// One sentence: what to display, what to speak, and its actions.
#[derive(Clone, Debug)]
pub struct SentenceOutput {
    pub display_text: DisplayText,
    pub tts_text: String,
    pub actions: Actions,
}

/// Ready audio: its file, what to display, its transcript and its actions.
#[derive(Clone, Debug)]
pub struct AudioOutput {
    pub audio_path: String,
    pub display_text: DisplayText,
    pub transcript: String,
    pub actions: Actions,
}

/// One unit of agent output: exactly one of the two shapes.
#[derive(Clone, Debug)]
pub enum OutputUnit {
    Sentence(SentenceOutput),
    Audio(AudioOutput),
}

impl OutputUnit {
    /// The sentence, if this unit is one.
    pub fn as_sentence(&self) -> (r: Option<&SentenceOutput>)
        ensures
            match *self {
                OutputUnit::Sentence(s) => r == Some(&s),
                OutputUnit::Audio(_) => r is None,
            },
    {
        match self {
            OutputUnit::Sentence(s) => Some(s),
            OutputUnit::Audio(_) => None,
        }
    }

    /// The audio, if this unit is one.
    pub fn as_audio(&self) -> (r: Option<&AudioOutput>)
        ensures
            match *self {
                OutputUnit::Audio(a) => r == Some(&a),
                OutputUnit::Sentence(_) => r is None,
            },
    {
        match self {
            OutputUnit::Audio(a) => Some(a),
            OutputUnit::Sentence(_) => None,
        }
    }

    /// The display text of either shape.
    pub open spec fn display_spec(self) -> DisplayText {
        match self {
            OutputUnit::Sentence(s) => s.display_text,
            OutputUnit::Audio(a) => a.display_text,
        }
    }
}

} // verus!

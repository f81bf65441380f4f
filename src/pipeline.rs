use vstd::prelude::*;
use crate::error::Error;
use crate::language::{parse_language_code, polly_language_known};
use crate::voice::{first_match, opt_chars, select_voice, Engine, Gender, VoiceDescriptor};

verus! {

/// What the user asks for: the text, the language to translate it to and to
/// speak it in, and the filters that pick the voice.
#[derive(Debug, Clone)]
pub struct Request {
    pub language_code: String,
    pub text: String,
    pub name: Option<String>,
    pub gender: Option<Gender>,
    pub engine: Option<Engine>,
}

/// Where the pipeline stands: each stage waits for one kind of event.
#[derive(Debug, Clone, Copy, PartialEq, Eq, Structural)]
pub enum Stage {
    Translating,
    Reporting,
    SelectingVoice,
    Synthesizing,
    CreatingFile,
    Reading,
    Writing,
    Flushing,
    Done,
    Failed,
}

/// What the outside work reports back to the pipeline.
#[derive(Debug)]
pub enum Event {
    /// The translation service answered, with or without a translated text.
    Translated(Option<String>),
    /// The translation was shown to the user.
    Reported,
    /// The speech service listed its voices, in this order.
    VoicesListed(Vec<VoiceDescriptor>),
    /// The speech service accepted the synthesis request; its audio stream is open.
    SpeechReady,
    /// The output file was created (or truncated).
    FileCreated,
    /// The next chunk of the audio stream, or `None` at its end.
    ChunkRead(Option<Vec<u8>>),
    /// The chunk last handed out was written to the file.
    ChunkWritten,
    /// The file was flushed.
    Flushed,
    /// The work last asked for failed.
    Failed(Error),
}

/// What the pipeline asks to be done next.
#[derive(Debug)]
pub enum Action {
    /// Translate `text` into `language_code`, detecting the source language.
    Translate { language_code: String, text: String },
    /// Show the translated text to the user.
    Report(String),
    /// List the speech service's voices for the language and engine.
    DescribeVoices { language_code: String, engine: Option<Engine> },
    /// Synthesize `text` with the voice, as an MP3 audio stream.
    Synthesize { voice_id: String, language_code: String, text: String },
    /// Create the output file, truncating it if it exists.
    CreateFile,
    /// Read the next chunk of the audio stream.
    ReadChunk,
    /// Append these bytes to the output file.
    WriteChunk(Vec<u8>),
    /// Flush the output file.
    Flush,
    /// The pipeline is over, with this outcome.
    Finish(Result<(), Error>),
}

/// The bytes of the chunks, one after the other, in order.
pub open spec fn concat(chunks: Seq<Seq<u8>>) -> Seq<u8>
    decreases chunks.len(),
{
    if chunks.len() == 0 {
        Seq::empty()
    } else {
        concat(chunks.drop_last()) + chunks.last()
    }
}

/// The abstract state of a pipeline.
pub struct PipelineState {
    pub stage: Stage,
    pub language_code: Seq<char>,
    pub text: Seq<char>,
    pub name: Option<Seq<char>>,
    pub gender: Option<Gender>,
    pub engine: Option<Engine>,
    /// The translated text, once there is one.
    pub translation: Seq<char>,
    /// The contents of the output file; `None` while it has not been created.
    pub file: Option<Seq<u8>>,
    /// The chunks written to the file, in the order they were read.
    pub written: Seq<Seq<u8>>,
    /// The chunk handed out for writing and not yet confirmed.
    pub pending: Seq<u8>,
}

impl PipelineState {
    /// The file exists exactly from its creation on, and holds the chunks
    /// written to it, in order, with nothing else.
    pub open spec fn wf(self) -> bool {
        &&& (self.file is Some ==> self.file == Some(concat(self.written)))
        &&& (self.file is None ==> self.written.len() == 0)
        &&& match self.stage {
            Stage::Translating | Stage::Reporting | Stage::SelectingVoice | Stage::Synthesizing
            | Stage::CreatingFile => self.file is None,
            Stage::Reading | Stage::Writing | Stage::Flushing => self.file is Some,
            Stage::Done | Stage::Failed => true,
        }
    }

    /// The request and the translation stay as they were.
    pub open spec fn same_request(self, t: PipelineState) -> bool {
        &&& t.language_code == self.language_code
        &&& t.text == self.text
        &&& t.name == self.name
        &&& t.gender == self.gender
        &&& t.engine == self.engine
    }

    /// The file and what was written to it stay as they were.
    pub open spec fn same_file(self, t: PipelineState) -> bool {
        &&& t.file == self.file
        &&& t.written == self.written
    }
}

/// Whether a pipeline in `stage` waits for an event of this kind.
pub open spec fn event_accepted(stage: Stage, e: Event) -> bool {
    match e {
        Event::Failed(_) => stage != Stage::Done && stage != Stage::Failed,
        Event::Translated(_) => stage == Stage::Translating,
        Event::Reported => stage == Stage::Reporting,
        Event::VoicesListed(_) => stage == Stage::SelectingVoice,
        Event::SpeechReady => stage == Stage::Synthesizing,
        Event::FileCreated => stage == Stage::CreatingFile,
        Event::ChunkRead(_) => stage == Stage::Reading,
        Event::ChunkWritten => stage == Stage::Writing,
        Event::Flushed => stage == Stage::Flushing,
    }
}

/// How the pipeline picks its voice from the catalog and what it does next:
/// no matching voice, or one without an id, ends the pipeline with success;
/// otherwise the translation is synthesized with that voice.
pub open spec fn voice_transition(s: PipelineState, voices: Seq<VoiceDescriptor>, t: PipelineState, r: Action) -> bool {
    &&& s.same_file(t)
    &&& t.file is None
    &&& t.translation == s.translation
    &&& match first_match(voices, s.name, s.gender) {
        None => t.stage == Stage::Done && r matches Action::Finish(Ok(_)),
        Some(i) => match voices[i].id {
            None => t.stage == Stage::Done && r matches Action::Finish(Ok(_)),
            Some(id) => {
                &&& t.stage == Stage::Synthesizing
                &&& r matches Action::Synthesize { voice_id, language_code, text }
                &&& voice_id@ == id@
                &&& language_code@ == s.language_code
                &&& text@ == s.translation
            },
        },
    }
}

/// One step of the pipeline: from state `s` and event `e` to state `t`, asking for `r`.
pub open spec fn transition(s: PipelineState, e: Event, t: PipelineState, r: Action) -> bool {
    &&& s.same_request(t)
    &&& match e {
        Event::Failed(err) => {
            &&& t.stage == Stage::Failed
            &&& s.same_file(t)
            &&& r == Action::Finish(Err(err))
        },
        Event::Translated(None) => {
            &&& t.stage == Stage::Done
            &&& s.same_file(t)
            &&& t.file is None
            &&& r matches Action::Finish(Ok(_))
        },
        Event::Translated(Some(x)) => {
            &&& t.stage == Stage::Reporting
            &&& s.same_file(t)
            &&& t.file is None
            &&& t.translation == x@
            &&& r matches Action::Report(y) && y@ == x@
        },
        Event::Reported => {
            &&& t.stage == Stage::SelectingVoice
            &&& s.same_file(t)
            &&& t.translation == s.translation
            &&& r matches Action::DescribeVoices { language_code, engine }
            &&& language_code@ == s.language_code
            &&& engine == s.engine
        },
        Event::VoicesListed(voices) => voice_transition(s, voices@, t, r),
        Event::SpeechReady => {
            &&& t.stage == Stage::CreatingFile
            &&& s.same_file(t)
            &&& r is CreateFile
        },
        Event::FileCreated => {
            &&& t.stage == Stage::Reading
            &&& t.file == Some(Seq::<u8>::empty())
            &&& t.written == Seq::<Seq<u8>>::empty()
            &&& r is ReadChunk
        },
        Event::ChunkRead(Some(bytes)) => {
            &&& t.stage == Stage::Writing
            &&& s.same_file(t)
            &&& t.pending == bytes@
            &&& r matches Action::WriteChunk(out) && out@ == bytes@
        },
        Event::ChunkRead(None) => {
            &&& t.stage == Stage::Flushing
            &&& s.same_file(t)
            &&& r is Flush
        },
        Event::ChunkWritten => {
            &&& t.stage == Stage::Reading
            &&& t.written == s.written.push(s.pending)
            &&& t.file == Some(s.file->Some_0 + s.pending)
            &&& r is ReadChunk
        },
        Event::Flushed => {
            &&& t.stage == Stage::Done
            &&& s.same_file(t)
            &&& r matches Action::Finish(Ok(_))
        },
    }
}

/// Appending one chunk to the written ones appends its bytes to their concatenation.
pub proof fn lemma_concat_push(chunks: Seq<Seq<u8>>, c: Seq<u8>)
    ensures
        concat(chunks.push(c)) == concat(chunks) + c,
{
    assert(chunks.push(c).drop_last() =~= chunks);
}

/// The translate / pick a voice / synthesize / write pipeline, one event at a time.
pub struct Pipeline {
    request: Request,
    translation: String,
    stage: Stage,
    file: Ghost<Option<Seq<u8>>>,
    written: Ghost<Seq<Seq<u8>>>,
    pending: Ghost<Seq<u8>>,
}

impl View for Pipeline {
    type V = PipelineState;

    closed spec fn view(&self) -> PipelineState {
        PipelineState {
            stage: self.stage,
            language_code: self.request.language_code@,
            text: self.request.text@,
            name: opt_chars(self.request.name),
            gender: self.request.gender,
            engine: self.request.engine,
            translation: self.translation@,
            file: self.file@,
            written: self.written@,
            pending: self.pending@,
        }
    }
}

impl Pipeline {
    /// Starts a pipeline: a language code that the speech service does not
    /// know ends it at once with a parse error, before any service is asked;
    /// otherwise the text is to be translated.
    pub fn new(request: Request) -> (r: (Pipeline, Action))
        ensures
            r.0@.wf(),
            r.0@.file is None,
            r.0@.language_code == request.language_code@,
            r.0@.text == request.text@,
            r.0@.name == opt_chars(request.name),
            r.0@.gender == request.gender,
            r.0@.engine == request.engine,
            polly_language_known(request.language_code@) ==> {
                &&& r.0@.stage == Stage::Translating
                &&& r.1 matches Action::Translate { language_code, text }
                &&& language_code@ == request.language_code@
                &&& text@ == request.text@
            },
            !polly_language_known(request.language_code@) ==> {
                &&& r.0@.stage == Stage::Failed
                &&& r.1 matches Action::Finish(Err(e))
                &&& e.kind == crate::error::ErrorKind::Parse
            },
    {
        let checked = parse_language_code(request.language_code.clone());
        let (stage, action) = match checked {
            Ok(code) => {
                let text = request.text.clone();
                (Stage::Translating, Action::Translate { language_code: code, text })
            },
            Err(e) => (Stage::Failed, Action::Finish(Err(e))),
        };
        let p = Pipeline {
            request,
            translation: String::new(),
            stage,
            file: Ghost(None),
            written: Ghost(Seq::empty()),
            pending: Ghost(Seq::empty()),
        };
        (p, action)
    }

    /// The stage the pipeline is in.
    pub fn stage(&self) -> (r: Stage)
        ensures
            r == self@.stage,
    {
        self.stage
    }

    /// Whether the pipeline is over.
    pub fn is_finished(&self) -> (r: bool)
        ensures
            r == (self@.stage == Stage::Done || self@.stage == Stage::Failed),
    {
        match self.stage {
            Stage::Done | Stage::Failed => true,
            _ => false,
        }
    }

    /// Whether the pipeline, where it stands, waits for an event of this kind.
    pub fn accepts(&self, e: &Event) -> (r: bool)
        ensures
            r == event_accepted(self@.stage, *e),
    {
        match e {
            Event::Failed(_) => !matches!(self.stage, Stage::Done | Stage::Failed),
            Event::Translated(_) => matches!(self.stage, Stage::Translating),
            Event::Reported => matches!(self.stage, Stage::Reporting),
            Event::VoicesListed(_) => matches!(self.stage, Stage::SelectingVoice),
            Event::SpeechReady => matches!(self.stage, Stage::Synthesizing),
            Event::FileCreated => matches!(self.stage, Stage::CreatingFile),
            Event::ChunkRead(_) => matches!(self.stage, Stage::Reading),
            Event::ChunkWritten => matches!(self.stage, Stage::Writing),
            Event::Flushed => matches!(self.stage, Stage::Flushing),
        }
    }

    /// Takes the event that the outside work reported and says what to do next.
    pub fn step(&mut self, event: Event) -> (r: Action)
        requires
            old(self)@.wf(),
            event_accepted(old(self)@.stage, event),
        ensures
            final(self)@.wf(),
            transition(old(self)@, event, final(self)@, r),
    {
        match event {
            Event::Failed(err) => {
                self.stage = Stage::Failed;
                Action::Finish(Err(err))
            },
            Event::Translated(None) => {
                self.stage = Stage::Done;
                Action::Finish(Ok(()))
            },
            Event::Translated(Some(x)) => {
                let shown = x.clone();
                self.translation = x;
                self.stage = Stage::Reporting;
                Action::Report(shown)
            },
            Event::Reported => {
                self.stage = Stage::SelectingVoice;
                Action::DescribeVoices {
                    language_code: self.request.language_code.clone(),
                    engine: self.request.engine,
                }
            },
            Event::VoicesListed(voices) => {
                match select_voice(&voices, &self.request.name, &self.request.gender) {
                    None => {
                        self.stage = Stage::Done;
                        Action::Finish(Ok(()))
                    },
                    Some(i) => match &voices[i].id {
                        None => {
                            self.stage = Stage::Done;
                            Action::Finish(Ok(()))
                        },
                        Some(id) => {
                            self.stage = Stage::Synthesizing;
                            Action::Synthesize {
                                voice_id: id.clone(),
                                language_code: self.request.language_code.clone(),
                                text: self.translation.clone(),
                            }
                        },
                    },
                }
            },
            Event::SpeechReady => {
                self.stage = Stage::CreatingFile;
                Action::CreateFile
            },
            Event::FileCreated => {
                self.file = Ghost(Some(Seq::empty()));
                self.written = Ghost(Seq::empty());
                self.stage = Stage::Reading;
                Action::ReadChunk
            },
            Event::ChunkRead(Some(bytes)) => {
                self.pending = Ghost(bytes@);
                self.stage = Stage::Writing;
                Action::WriteChunk(bytes)
            },
            Event::ChunkRead(None) => {
                self.stage = Stage::Flushing;
                Action::Flush
            },
            Event::ChunkWritten => {
                proof {
                    lemma_concat_push(self.written@, self.pending@);
                }
                self.file = Ghost(Some(concat(self.written@.push(self.pending@))));
                self.written = Ghost(self.written@.push(self.pending@));
                self.stage = Stage::Reading;
                Action::ReadChunk
            },
            Event::Flushed => {
                self.stage = Stage::Done;
                Action::Finish(Ok(()))
            },
        }
    }
}

} // verus!

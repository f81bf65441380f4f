use vstd::prelude::*;

verus! {

/// Which stage of the work an error comes from.
#[derive(Debug, Clone, Copy, PartialEq, Eq, Structural)]
pub enum ErrorKind {
    /// The translation or speech service failed (request, transport, permissions).
    Service,
    /// The output file could not be created, written or flushed.
    Io,
    /// A chunk of the synthesized audio stream could not be read.
    Stream,
    /// The language code is not one the speech service knows.
    Parse,
}

/// An error of the pipeline: its kind and a description of its source.
#[derive(Debug, Clone)]
pub struct Error {
    pub kind: ErrorKind,
    pub message: String,
}

impl Error {
    /// An error from a service that gets no handling of its own.
    pub fn unhandled(message: String) -> (r: Error)
        ensures
            r.kind == ErrorKind::Service,
            r.message@ == message@,
    {
        Error { kind: ErrorKind::Service, message }
    }

    /// An error of the local file system.
    pub fn io(message: String) -> (r: Error)
        ensures
            r.kind == ErrorKind::Io,
            r.message@ == message@,
    {
        Error { kind: ErrorKind::Io, message }
    }

    /// A failure to read the next chunk of the audio stream.
    pub fn stream(message: String) -> (r: Error)
        ensures
            r.kind == ErrorKind::Stream,
            r.message@ == message@,
    {
        Error { kind: ErrorKind::Stream, message }
    }

    /// A language code that the speech service does not know.
    pub fn parse(message: String) -> (r: Error)
        ensures
            r.kind == ErrorKind::Parse,
            r.message@ == message@,
    {
        Error { kind: ErrorKind::Parse, message }
    }

    pub fn kind(&self) -> (r: ErrorKind)
        ensures
            r == self.kind,
    {
        self.kind
    }

    /// A one-line description. An unhandled service error reads the same
    /// whatever its cause, which stays in `message`; the other kinds add
    /// their message after the kind.
    pub fn describe(&self) -> (r: String)
        ensures
            self.kind == ErrorKind::Service ==> r@ == kind_label(self.kind),
            self.kind != ErrorKind::Service ==> r@ == kind_label(self.kind) + seq![':', ' '] + self.message@,
    {
        let label: &str = match self.kind {
            ErrorKind::Service => {
                proof { reveal_strlit("unhandled error"); }
                return String::from_str("unhandled error");
            },
            ErrorKind::Io => {
                proof { reveal_strlit("i/o error"); }
                "i/o error"
            },
            ErrorKind::Stream => {
                proof { reveal_strlit("stream error"); }
                "stream error"
            },
            ErrorKind::Parse => {
                proof { reveal_strlit("parse error"); }
                "parse error"
            },
        };
        let mut r = String::from_str(label);
        proof { reveal_strlit(": "); }
        r.append(": ");
        r.append(self.message.as_str());
        r
    }
}

/// The words that open the description of an error of the given kind.
pub open spec fn kind_label(k: ErrorKind) -> Seq<char> {
    match k {
        ErrorKind::Service => "unhandled error"@,
        ErrorKind::Io => "i/o error"@,
        ErrorKind::Stream => "stream error"@,
        ErrorKind::Parse => "parse error"@,
    }
}

} // verus!

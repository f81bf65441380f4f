use tts_translator::error::ErrorKind;
use tts_translator::language::parse_language_code;
use tts_translator::voice::select_voice;
use tts_translator::{Action, Engine, Error, Event, Gender, Pipeline, Request, Stage, VoiceDescriptor};

fn voice(id: Option<&str>, name: Option<&str>, gender: Option<Gender>) -> VoiceDescriptor {
    VoiceDescriptor {
        id: id.map(String::from),
        name: name.map(String::from),
        gender,
    }
}

fn request(code: &str, name: Option<&str>, gender: Option<Gender>) -> Request {
    Request {
        language_code: code.to_string(),
        text: "Hello, World!".to_string(),
        name: name.map(String::from),
        gender,
        engine: Some(Engine::Neural),
    }
}

fn feed(p: &mut Pipeline, e: Event) -> Action {
    assert!(p.accepts(&e));
    p.step(e)
}

/// Starts a pipeline for "nl-NL" and brings it to the point where it creates the file.
fn up_to_file(p_req: Request) -> Pipeline {
    let (mut p, a) = Pipeline::new(p_req);
    assert!(matches!(a, Action::Translate { .. }));
    feed(&mut p, Event::Translated(Some("Hallo, Wereld!".to_string())));
    feed(&mut p, Event::Reported);
    let voices = vec![voice(Some("Joanna"), Some("Joanna"), Some(Gender::Female))];
    assert!(matches!(feed(&mut p, Event::VoicesListed(voices)), Action::Synthesize { .. }));
    assert!(matches!(feed(&mut p, Event::SpeechReady), Action::CreateFile));
    assert!(matches!(feed(&mut p, Event::FileCreated), Action::ReadChunk));
    p
}

#[test]
fn known_language_code_is_accepted() {
    let r = parse_language_code("nl-NL".to_string());
    assert_eq!(r.unwrap(), "nl-NL");
}

#[test]
fn unknown_language_code_is_a_parse_error() {
    let r = parse_language_code("xx-YY".to_string());
    assert_eq!(r.unwrap_err().kind, ErrorKind::Parse);
    assert!(parse_language_code("nl-nl".to_string()).is_err());
    assert!(parse_language_code("".to_string()).is_err());
}

#[test]
fn unhandled_error_is_a_service_error() {
    let e = Error::unhandled("boom".to_string());
    assert_eq!(e.kind(), ErrorKind::Service);
    assert_eq!(e.describe(), "unhandled error");
    assert_eq!(e.message, "boom");
    assert_eq!(Error::unhandled("denied".to_string()).describe(), "unhandled error");
    assert_eq!(Error::io("disk".to_string()).describe(), "i/o error: disk");
    assert_eq!(Error::stream("cut".to_string()).kind(), ErrorKind::Stream);
}

#[test]
fn select_voice_by_name_and_gender() {
    let voices = vec![voice(Some("Joanna"), Some("Joanna"), Some(Gender::Female))];
    let r = select_voice(&voices, &Some("Joanna".to_string()), &Some(Gender::Female));
    assert_eq!(r, Some(0));
}

#[test]
fn select_voice_takes_the_first_match() {
    let voices = vec![
        voice(Some("Lotte"), Some("Lotte"), Some(Gender::Female)),
        voice(Some("Ruben"), Some("Ruben"), Some(Gender::Male)),
        voice(Some("Ruben2"), Some("Ruben"), Some(Gender::Male)),
    ];
    let name = Some("Ruben".to_string());
    assert_eq!(select_voice(&voices, &name, &Some(Gender::Male)), Some(1));
    assert_eq!(select_voice(&voices, &name, &Some(Gender::Male)), Some(1));
    assert_eq!(select_voice(&voices, &name, &Some(Gender::Female)), None);
    assert_eq!(select_voice(&voices, &Some("ruben".to_string()), &Some(Gender::Male)), None);
}

#[test]
fn select_voice_without_filters_selects_nothing() {
    let voices = vec![
        voice(Some("Lotte"), Some("Lotte"), Some(Gender::Female)),
        voice(Some("Ruben"), Some("Ruben"), Some(Gender::Male)),
    ];
    assert_eq!(select_voice(&voices, &None, &None), None);
    assert_eq!(select_voice(&voices, &Some("Lotte".to_string()), &None), None);
}

#[test]
fn select_voice_absent_filter_matches_absent_field() {
    let voices = vec![
        voice(Some("a"), Some("Lotte"), Some(Gender::Female)),
        voice(Some("b"), None, None),
    ];
    assert_eq!(select_voice(&voices, &None, &None), Some(1));
    assert_eq!(select_voice(&Vec::new(), &None, &None), None);
}

#[test]
fn full_run_writes_every_chunk_in_order() {
    let (mut p, a) = Pipeline::new(request("nl-NL", Some("Joanna"), Some(Gender::Female)));
    match a {
        Action::Translate { language_code, text } => {
            assert_eq!(language_code, "nl-NL");
            assert_eq!(text, "Hello, World!");
        }
        other => panic!("unexpected {:?}", other),
    }
    match feed(&mut p, Event::Translated(Some("Hallo, Wereld!".to_string()))) {
        Action::Report(t) => assert_eq!(t, "Hallo, Wereld!"),
        other => panic!("unexpected {:?}", other),
    }
    match feed(&mut p, Event::Reported) {
        Action::DescribeVoices { language_code, engine } => {
            assert_eq!(language_code, "nl-NL");
            assert_eq!(engine, Some(Engine::Neural));
        }
        other => panic!("unexpected {:?}", other),
    }
    let voices = vec![voice(Some("Joanna"), Some("Joanna"), Some(Gender::Female))];
    match feed(&mut p, Event::VoicesListed(voices)) {
        Action::Synthesize { voice_id, language_code, text } => {
            assert_eq!(voice_id, "Joanna");
            assert_eq!(language_code, "nl-NL");
            assert_eq!(text, "Hallo, Wereld!");
        }
        other => panic!("unexpected {:?}", other),
    }
    assert!(matches!(feed(&mut p, Event::SpeechReady), Action::CreateFile));
    assert!(matches!(feed(&mut p, Event::FileCreated), Action::ReadChunk));
    let mut file: Vec<u8> = Vec::new();
    for chunk in [vec![1u8, 2, 3], vec![], vec![4u8, 5]] {
        match feed(&mut p, Event::ChunkRead(Some(chunk.clone()))) {
            Action::WriteChunk(b) => {
                assert_eq!(b, chunk);
                file.extend_from_slice(&b);
            }
            other => panic!("unexpected {:?}", other),
        }
        assert!(matches!(feed(&mut p, Event::ChunkWritten), Action::ReadChunk));
    }
    assert!(matches!(feed(&mut p, Event::ChunkRead(None)), Action::Flush));
    assert!(matches!(feed(&mut p, Event::Flushed), Action::Finish(Ok(()))));
    assert_eq!(file, vec![1u8, 2, 3, 4, 5]);
    assert_eq!(p.stage(), Stage::Done);
    assert!(p.is_finished());
}

#[test]
fn no_translation_ends_without_a_file() {
    let (mut p, _) = Pipeline::new(request("nl-NL", Some("Joanna"), Some(Gender::Female)));
    assert!(matches!(feed(&mut p, Event::Translated(None)), Action::Finish(Ok(()))));
    assert_eq!(p.stage(), Stage::Done);
    assert!(!p.accepts(&Event::Reported));
}

#[test]
fn invalid_language_code_fails_before_any_request() {
    let (p, a) = Pipeline::new(request("xx-YY", Some("Joanna"), Some(Gender::Female)));
    match a {
        Action::Finish(Err(e)) => assert_eq!(e.kind, ErrorKind::Parse),
        other => panic!("unexpected {:?}", other),
    }
    assert_eq!(p.stage(), Stage::Failed);
    assert!(p.is_finished());
}

#[test]
fn no_matching_voice_ends_with_success() {
    let (mut p, _) = Pipeline::new(request("nl-NL", None, None));
    feed(&mut p, Event::Translated(Some("Hallo".to_string())));
    feed(&mut p, Event::Reported);
    let voices = vec![voice(Some("Lotte"), Some("Lotte"), Some(Gender::Female))];
    assert!(matches!(feed(&mut p, Event::VoicesListed(voices)), Action::Finish(Ok(()))));
    assert_eq!(p.stage(), Stage::Done);
}

#[test]
fn matching_voice_without_id_ends_with_success() {
    let (mut p, _) = Pipeline::new(request("nl-NL", Some("Lotte"), Some(Gender::Female)));
    feed(&mut p, Event::Translated(Some("Hallo".to_string())));
    feed(&mut p, Event::Reported);
    let voices = vec![voice(None, Some("Lotte"), Some(Gender::Female))];
    assert!(matches!(feed(&mut p, Event::VoicesListed(voices)), Action::Finish(Ok(()))));
}

#[test]
fn read_failure_mid_stream_surfaces_the_error() {
    let mut p = up_to_file(request("nl-NL", Some("Joanna"), Some(Gender::Female)));
    let mut file: Vec<u8> = Vec::new();
    match feed(&mut p, Event::ChunkRead(Some(vec![9u8, 8]))) {
        Action::WriteChunk(b) => file.extend_from_slice(&b),
        other => panic!("unexpected {:?}", other),
    }
    feed(&mut p, Event::ChunkWritten);
    match feed(&mut p, Event::Failed(Error::stream("connection reset".to_string()))) {
        Action::Finish(Err(e)) => assert_eq!(e.kind, ErrorKind::Stream),
        other => panic!("unexpected {:?}", other),
    }
    assert_eq!(file, vec![9u8, 8]);
    assert_eq!(p.stage(), Stage::Failed);
    assert!(!p.accepts(&Event::ChunkWritten));
}

#[test]
fn service_failure_fails_the_pipeline() {
    let (mut p, _) = Pipeline::new(request("nl-NL", None, None));
    match feed(&mut p, Event::Failed(Error::unhandled("denied".to_string()))) {
        Action::Finish(Err(e)) => assert_eq!(e.kind, ErrorKind::Service),
        other => panic!("unexpected {:?}", other),
    }
    assert!(p.is_finished());
}

#[test]
fn events_out_of_order_are_not_accepted() {
    let (p, _) = Pipeline::new(request("nl-NL", None, None));
    assert!(!p.accepts(&Event::Flushed));
    assert!(!p.accepts(&Event::ChunkRead(None)));
    assert!(p.accepts(&Event::Translated(None)));
}

use hermes::decode::FromPath;
use hermes::topics::{
    AsrCommand, AudioServerCommand, Component, ComponentCommand, DialogueManagerCommand,
    FeedbackCommand, HermesTopic, HotwordCommand, NluCommand, SoundCommand, ToPath, TtsCommand,
};

fn routes() -> Vec<(HermesTopic, &'static str)> {
    vec![
        (
            HermesTopic::DialogueManager(DialogueManagerCommand::ToggleOn),
            "hermes/dialogueManager/toggleOn",
        ),
        (
            HermesTopic::DialogueManager(DialogueManagerCommand::ToggleOff),
            "hermes/dialogueManager/toggleOff",
        ),
        (
            HermesTopic::DialogueManager(DialogueManagerCommand::StartSession),
            "hermes/dialogueManager/startSession",
        ),
        (
            HermesTopic::DialogueManager(DialogueManagerCommand::ContinueSession),
            "hermes/dialogueManager/continueSession",
        ),
        (
            HermesTopic::DialogueManager(DialogueManagerCommand::EndSession),
            "hermes/dialogueManager/endSession",
        ),
        (
            HermesTopic::DialogueManager(DialogueManagerCommand::SessionQueued),
            "hermes/dialogueManager/sessionQueued",
        ),
        (
            HermesTopic::DialogueManager(DialogueManagerCommand::SessionStarted),
            "hermes/dialogueManager/sessionStarted",
        ),
        (
            HermesTopic::DialogueManager(DialogueManagerCommand::SessionEnded),
            "hermes/dialogueManager/sessionEnded",
        ),
        (
            HermesTopic::DialogueManager(DialogueManagerCommand::IntentNotRecognized),
            "hermes/dialogueManager/intentNotRecognized",
        ),
        (
            HermesTopic::Component(
                None,
                Component::DialogueManager,
                ComponentCommand::VersionRequest,
            ),
            "hermes/dialogueManager/versionRequest",
        ),
        (
            HermesTopic::Component(None, Component::DialogueManager, ComponentCommand::Version),
            "hermes/dialogueManager/version",
        ),
        (
            HermesTopic::Component(None, Component::DialogueManager, ComponentCommand::Error),
            "hermes/dialogueManager/error",
        ),
        (
            HermesTopic::Feedback(FeedbackCommand::Sound(SoundCommand::ToggleOn)),
            "hermes/feedback/sound/toggleOn",
        ),
        (
            HermesTopic::Feedback(FeedbackCommand::Sound(SoundCommand::ToggleOff)),
            "hermes/feedback/sound/toggleOff",
        ),
        (
            HermesTopic::Hotword(None, HotwordCommand::ToggleOn),
            "hermes/hotword/toggleOn",
        ),
        (
            HermesTopic::Hotword(None, HotwordCommand::ToggleOff),
            "hermes/hotword/toggleOff",
        ),
        (
            HermesTopic::Hotword(Some("default".into()), HotwordCommand::Detected),
            "hermes/hotword/default/detected",
        ),
        (
            HermesTopic::Component(
                Some("default".into()),
                Component::Hotword,
                ComponentCommand::VersionRequest,
            ),
            "hermes/hotword/default/versionRequest",
        ),
        (
            HermesTopic::Component(
                Some("default".into()),
                Component::Hotword,
                ComponentCommand::Version,
            ),
            "hermes/hotword/default/version",
        ),
        (
            HermesTopic::Component(
                Some("default".into()),
                Component::Hotword,
                ComponentCommand::Error,
            ),
            "hermes/hotword/default/error",
        ),
        (
            HermesTopic::Asr(AsrCommand::ToggleOn),
            "hermes/asr/toggleOn",
        ),
        (
            HermesTopic::Asr(AsrCommand::ToggleOff),
            "hermes/asr/toggleOff",
        ),
        (
            HermesTopic::Asr(AsrCommand::TextCaptured),
            "hermes/asr/textCaptured",
        ),
        (
            HermesTopic::Asr(AsrCommand::PartialTextCaptured),
            "hermes/asr/partialTextCaptured",
        ),
        (HermesTopic::Asr(AsrCommand::Reload), "hermes/asr/reload"),
        (HermesTopic::Asr(AsrCommand::Inject), "hermes/asr/inject"),
        (HermesTopic::Asr(AsrCommand::InjectStatus), "hermes/asr/injectStatus"),
        (HermesTopic::Asr(AsrCommand::InjectStatusRequest), "hermes/asr/injectStatusRequest"),
        (
            HermesTopic::Component(None, Component::Asr, ComponentCommand::VersionRequest),
            "hermes/asr/versionRequest",
        ),
        (
            HermesTopic::Component(None, Component::Asr, ComponentCommand::Version),
            "hermes/asr/version",
        ),
        (
            HermesTopic::Component(None, Component::Asr, ComponentCommand::Error),
            "hermes/asr/error",
        ),
        (
            HermesTopic::AudioServer(None, AudioServerCommand::ToggleOn),
            "hermes/audioServer/toggleOn",
        ),
        (
            HermesTopic::AudioServer(None, AudioServerCommand::ToggleOff),
            "hermes/audioServer/toggleOff",
        ),
        (
            HermesTopic::AudioServer(Some("default".into()), AudioServerCommand::AudioFrame),
            "hermes/audioServer/default/audioFrame",
        ),
        (
            HermesTopic::AudioServer(
                Some("default".into()),
                AudioServerCommand::PlayBytes("kikoo".into()),
            ),
            "hermes/audioServer/default/playBytes/kikoo",
        ),
        (
            HermesTopic::AudioServer(Some("default".into()), AudioServerCommand::PlayFinished),
            "hermes/audioServer/default/playFinished",
        ),
        (
            HermesTopic::Component(
                Some("default".into()),
                Component::AudioServer,
                ComponentCommand::VersionRequest,
            ),
            "hermes/audioServer/default/versionRequest",
        ),
        (
            HermesTopic::Component(
                Some("default".into()),
                Component::AudioServer,
                ComponentCommand::Version,
            ),
            "hermes/audioServer/default/version",
        ),
        (
            HermesTopic::Component(
                Some("default".into()),
                Component::AudioServer,
                ComponentCommand::Error,
            ),
            "hermes/audioServer/default/error",
        ),
        (HermesTopic::Tts(TtsCommand::Say), "hermes/tts/say"),
        (
            HermesTopic::Tts(TtsCommand::SayFinished),
            "hermes/tts/sayFinished",
        ),
        (
            HermesTopic::Component(None, Component::Tts, ComponentCommand::VersionRequest),
            "hermes/tts/versionRequest",
        ),
        (
            HermesTopic::Component(None, Component::Tts, ComponentCommand::Version),
            "hermes/tts/version",
        ),
        (
            HermesTopic::Component(None, Component::Tts, ComponentCommand::Error),
            "hermes/tts/error",
        ),
        (
            HermesTopic::Intent("harakiri_intent".into()),
            "hermes/intent/harakiri_intent",
        ),
        (HermesTopic::Nlu(NluCommand::Query), "hermes/nlu/query"),
        (
            HermesTopic::Nlu(NluCommand::PartialQuery),
            "hermes/nlu/partialQuery",
        ),
        (
            HermesTopic::Nlu(NluCommand::SlotParsed),
            "hermes/nlu/slotParsed",
        ),
        (
            HermesTopic::Nlu(NluCommand::IntentParsed),
            "hermes/nlu/intentParsed",
        ),
        (
            HermesTopic::Nlu(NluCommand::IntentNotRecognized),
            "hermes/nlu/intentNotRecognized",
        ),
        (
            HermesTopic::Component(None, Component::Nlu, ComponentCommand::VersionRequest),
            "hermes/nlu/versionRequest",
        ),
        (
            HermesTopic::Component(None, Component::Nlu, ComponentCommand::Version),
            "hermes/nlu/version",
        ),
        (
            HermesTopic::Component(None, Component::Nlu, ComponentCommand::Error),
            "hermes/nlu/error",
        ),
    ]
}

#[test]
fn string_to_enum_conversion_works() {
    for (route, expected_path) in routes() {
        assert_eq!(route.as_path(), expected_path);
    }
}

#[test]
fn enum_to_string_conversion_works() {
    for (expected_route, path) in routes() {
        assert_eq!(
            HermesTopic::from_path(path),
            Some(expected_route),
            "failed parsing {}",
            path
        );
    }
}

#[test]
fn round_trip_on_every_route() {
    for (route, _) in routes() {
        assert_eq!(HermesTopic::from_path(&route.as_path()), Some(route));
    }
}

#[test]
fn round_trip_with_other_sites_and_names() {
    let topics = vec![
        HermesTopic::Hotword(Some("kitchen".into()), HotwordCommand::Detected),
        HermesTopic::AudioServer(Some("living-room".into()), AudioServerCommand::AudioFrame),
        HermesTopic::AudioServer(
            Some("toggleOn".into()),
            AudioServerCommand::PlayBytes("sound.wav".into()),
        ),
        HermesTopic::Component(Some("salon".into()), Component::AudioServer, ComponentCommand::Error),
        HermesTopic::Intent("weather:forecast".into()),
    ];
    for t in topics {
        assert_eq!(HermesTopic::from_path(&t.as_path()), Some(t));
    }
}

#[test]
fn foreign_prefix_is_rejected() {
    assert_eq!(HermesTopic::from_path("notHermes/asr/toggleOn"), None);
    assert_eq!(HermesTopic::from_path("asr/toggleOn"), None);
    assert_eq!(HermesTopic::from_path("/hermes/asr/toggleOn"), None);
    assert_eq!(HermesTopic::from_path("Hermes/asr/toggleOn"), None);
}

#[test]
fn too_few_segments_are_rejected() {
    assert_eq!(HermesTopic::from_path(""), None);
    assert_eq!(HermesTopic::from_path("hermes"), None);
    assert_eq!(HermesTopic::from_path("hermes/asr"), None);
    assert_eq!(HermesTopic::from_path("hermes/intent"), None);
    assert_eq!(HermesTopic::from_path("hermes/feedback/sound"), None);
    assert_eq!(HermesTopic::from_path("hermes/hotword/default"), None);
}

#[test]
fn unknown_family_and_command_are_rejected() {
    assert_eq!(HermesTopic::from_path("hermes/asr/bogusCommand"), None);
    assert_eq!(HermesTopic::from_path("hermes/bogus/toggleOn"), None);
    assert_eq!(HermesTopic::from_path("hermes/asr/ToggleOn"), None);
    assert_eq!(HermesTopic::from_path("hermes/asr/startListening"), None);
    assert_eq!(HermesTopic::from_path("hermes/feedback/light/toggleOn"), None);
    assert_eq!(HermesTopic::from_path("hermes/feedback/sound/detected"), None);
    assert_eq!(HermesTopic::from_path("hermes/tts/toggleOn"), None);
}

#[test]
fn argument_is_captured() {
    let expected = HermesTopic::AudioServer(
        Some("default".into()),
        AudioServerCommand::PlayBytes("kikoo".into()),
    );
    assert_eq!(
        HermesTopic::from_path("hermes/audioServer/default/playBytes/kikoo"),
        Some(expected.clone())
    );
    assert_eq!(expected.as_path(), "hermes/audioServer/default/playBytes/kikoo");
}

#[test]
fn concrete_paths_decode() {
    assert_eq!(
        HermesTopic::from_path("hermes/dialogueManager/sessionQueued"),
        Some(HermesTopic::DialogueManager(DialogueManagerCommand::SessionQueued))
    );
    assert_eq!(
        HermesTopic::from_path("hermes/hotword/default/versionRequest"),
        Some(HermesTopic::Component(
            Some("default".into()),
            Component::Hotword,
            ComponentCommand::VersionRequest
        ))
    );
    assert_eq!(
        HermesTopic::from_path("hermes/feedback/sound/toggleOff"),
        Some(HermesTopic::Feedback(FeedbackCommand::Sound(SoundCommand::ToggleOff)))
    );
    assert_eq!(
        HermesTopic::from_path("hermes/intent/harakiri_intent"),
        Some(HermesTopic::Intent("harakiri_intent".into()))
    );
    assert_eq!(
        HermesTopic::from_path("hermes/nlu/intentNotRecognized"),
        Some(HermesTopic::Nlu(NluCommand::IntentNotRecognized))
    );
}

#[test]
fn trailing_segments_follow_each_family() {
    assert_eq!(
        HermesTopic::from_path("hermes/asr/toggleOn/extra"),
        Some(HermesTopic::Asr(AsrCommand::ToggleOn))
    );
    assert_eq!(
        HermesTopic::from_path("hermes/hotword/default/detected/extra"),
        Some(HermesTopic::Hotword(Some("default".into()), HotwordCommand::Detected))
    );
    assert_eq!(HermesTopic::from_path("hermes/hotword/toggleOn/"), None);
    assert_eq!(HermesTopic::from_path("hermes/audioServer/toggleOn/extra"), None);
    assert_eq!(HermesTopic::from_path("hermes/audioServer/default/audioFrame/extra"), None);
    assert_eq!(
        HermesTopic::from_path("hermes/audioServer/default/playBytes/a/b"),
        Some(HermesTopic::AudioServer(
            Some("default".into()),
            AudioServerCommand::PlayBytes("a".into())
        ))
    );
}

#[test]
fn separator_inside_a_name_breaks_the_round_trip() {
    let t = HermesTopic::Intent("a/b".into());
    assert_eq!(t.as_path(), "hermes/intent/a/b");
    assert_eq!(
        HermesTopic::from_path(&t.as_path()),
        Some(HermesTopic::Intent("a".into()))
    );
}

#[test]
fn empty_segments_are_kept() {
    assert_eq!(HermesTopic::from_path("hermes//asr/toggleOn"), None);
    assert_eq!(HermesTopic::from_path("hermes/hotword//detected"), None);
    assert_eq!(HermesTopic::from_path("hermes/hotword//versionRequest"), None);
    assert_eq!(HermesTopic::from_path("hermes/audioServer//audioFrame"), None);
    assert_eq!(HermesTopic::from_path("hermes/audioServer//playBytes/kikoo"), None);
    assert_eq!(HermesTopic::from_path("hermes/audioServer/default//playFinished"), None);
    assert_eq!(HermesTopic::from_path("/hermes/asr/toggleOn"), None);
    assert_eq!(
        HermesTopic::from_path("hermes/asr/toggleOn/"),
        Some(HermesTopic::Asr(AsrCommand::ToggleOn))
    );
    assert_eq!(
        HermesTopic::from_path("hermes/intent/"),
        Some(HermesTopic::Intent("".into()))
    );
    assert_eq!(
        HermesTopic::from_path("hermes/audioServer/default/playBytes/"),
        Some(HermesTopic::AudioServer(
            Some("default".into()),
            AudioServerCommand::PlayBytes("".into())
        ))
    );
}

#[test]
fn dot_segments_are_plain_text() {
    assert_eq!(HermesTopic::from_path("hermes/./asr/toggleOn"), None);
    assert_eq!(
        HermesTopic::from_path("hermes/hotword/./detected"),
        Some(HermesTopic::Hotword(Some(".".into()), HotwordCommand::Detected))
    );
}

#[test]
fn tags_render_with_a_lower_case_first_letter() {
    assert_eq!(Component::DialogueManager.as_path(), "dialogueManager");
    assert_eq!(Component::AudioServer.as_path(), "audioServer");
    assert_eq!(Component::Asr.as_path(), "asr");
    assert_eq!(AsrCommand::InjectStatusRequest.as_path(), "injectStatusRequest");
    assert_eq!(DialogueManagerCommand::IntentNotRecognized.as_path(), "intentNotRecognized");
    assert_eq!(HotwordCommand::Detected.as_path(), "detected");
    assert_eq!(TtsCommand::SayFinished.as_path(), "sayFinished");
    assert_eq!(NluCommand::PartialQuery.as_path(), "partialQuery");
    assert_eq!(SoundCommand::ToggleOff.as_path(), "toggleOff");
    assert_eq!(ComponentCommand::VersionRequest.as_path(), "versionRequest");
    assert_eq!(AudioServerCommand::PlayFinished.as_path(), "playFinished");
    assert_eq!(AudioServerCommand::PlayBytes("x".into()).as_path(), "playBytes/x");
    assert_eq!(
        FeedbackCommand::Sound(SoundCommand::ToggleOn).as_path(),
        "sound/toggleOn"
    );
}

#[test]
fn every_path_starts_with_hermes() {
    for (route, _) in routes() {
        assert!(route.as_path().starts_with("hermes/"));
    }
}

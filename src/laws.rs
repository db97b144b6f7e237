//! Laws that relate the encoder and the decoder.
//!
//! The proofs compare wire tokens: each token used is revealed character by
//! character with its length, and two tokens of one length are told apart at
//! the first position where they differ.
use crate::decode::{
    asr_command_of, decode, decode_segments, dialogue_manager_command_of, lemma_asr_command_of,
    lemma_asr_tokens, lemma_component_command_of, lemma_component_tokens,
    lemma_dialogue_manager_command_of, lemma_dialogue_manager_tokens, lemma_nlu_command_of,
    lemma_nlu_tokens, lemma_sound_command_of, lemma_sound_tokens, lemma_tts_command_of,
    lemma_tts_tokens, nlu_command_of, tts_command_of,
};
use crate::path::{is_segment, is_word, lemma_split_join, split_path};
use crate::topics::{
    AsrCommand, AudioServerCommandView, Component, ComponentCommand, DialogueManagerCommand,
    FeedbackCommand, HermesTopic, HotwordCommand, NluCommand, SoundCommand, TopicView, TtsCommand,
    asr_token, audio_server_segments, component_command_token, component_token, dialogue_manager_token, encode,
    feedback_segments, hotword_token, nlu_token, sound_token, topic_segments, tts_token,
};
use vstd::prelude::*;

verus! {

/// A topic whose site qualifier is present exactly where its family and
/// command address a site, whose sites are non-empty, and whose free-form
/// strings hold no `/`.
pub open spec fn is_canonical(t: TopicView) -> bool {
    match t {
        TopicView::Hotword(site, c) => match site {
            Some(s) => c == HotwordCommand::Detected && is_word(s),
            None => c != HotwordCommand::Detected,
        },
        TopicView::Intent(name) => is_segment(name),
        TopicView::AudioServer(site, c) => match site {
            Some(s) => is_word(s) && match c {
                AudioServerCommandView::PlayBytes(file) => is_segment(file),
                AudioServerCommandView::ToggleOn => false,
                AudioServerCommandView::ToggleOff => false,
                _ => true,
            },
            None => c is ToggleOn || c is ToggleOff,
        },
        TopicView::Component(site, comp, _) => match site {
            Some(s) => is_word(s) && (comp == Component::Hotword || comp
                == Component::AudioServer),
            None => comp != Component::Hotword && comp != Component::AudioServer,
        },
        _ => true,
    }
}

/// No introspection token is a `DialogueManagerCommand` token.
proof fn lemma_dialogue_manager_not_introspection(i: ComponentCommand)
    ensures
        dialogue_manager_command_of(component_command_token(i)) is None,
{
    reveal_strlit("toggleOn");
    assert("toggleOn"@.len() == 8);
    reveal_strlit("toggleOff");
    assert("toggleOff"@.len() == 9);
    reveal_strlit("startSession");
    assert("startSession"@.len() == 12);
    reveal_strlit("continueSession");
    assert("continueSession"@.len() == 15);
    reveal_strlit("endSession");
    assert("endSession"@.len() == 10);
    reveal_strlit("sessionQueued");
    assert("sessionQueued"@.len() == 13);
    reveal_strlit("sessionStarted");
    assert("sessionStarted"@.len() == 14);
    reveal_strlit("sessionEnded");
    assert("sessionEnded"@.len() == 12);
    reveal_strlit("intentNotRecognized");
    assert("intentNotRecognized"@.len() == 19);
    reveal_strlit("versionRequest");
    assert("versionRequest"@.len() == 14);
    reveal_strlit("version");
    assert("version"@.len() == 7);
    reveal_strlit("error");
    assert("error"@.len() == 5);
    assert("startSession"@[1] != "sessionEnded"@[1]);
    assert("sessionStarted"@[0] != "versionRequest"@[0]);
    assert forall|c: DialogueManagerCommand| dialogue_manager_token(c) != component_command_token(i) by {}
}

/// No introspection token is a `AsrCommand` token.
proof fn lemma_asr_not_introspection(i: ComponentCommand)
    ensures
        asr_command_of(component_command_token(i)) is None,
{
    reveal_strlit("toggleOn");
    assert("toggleOn"@.len() == 8);
    reveal_strlit("toggleOff");
    assert("toggleOff"@.len() == 9);
    reveal_strlit("textCaptured");
    assert("textCaptured"@.len() == 12);
    reveal_strlit("partialTextCaptured");
    assert("partialTextCaptured"@.len() == 19);
    reveal_strlit("reload");
    assert("reload"@.len() == 6);
    reveal_strlit("inject");
    assert("inject"@.len() == 6);
    reveal_strlit("injectStatus");
    assert("injectStatus"@.len() == 12);
    reveal_strlit("injectStatusRequest");
    assert("injectStatusRequest"@.len() == 19);
    reveal_strlit("versionRequest");
    assert("versionRequest"@.len() == 14);
    reveal_strlit("version");
    assert("version"@.len() == 7);
    reveal_strlit("error");
    assert("error"@.len() == 5);
    assert("textCaptured"@[0] != "injectStatus"@[0]);
    assert("partialTextCaptured"@[0] != "injectStatusRequest"@[0]);
    assert("reload"@[0] != "inject"@[0]);
    assert forall|c: AsrCommand| asr_token(c) != component_command_token(i) by {}
}

/// No introspection token is a `TtsCommand` token.
proof fn lemma_tts_not_introspection(i: ComponentCommand)
    ensures
        tts_command_of(component_command_token(i)) is None,
{
    reveal_strlit("say");
    assert("say"@.len() == 3);
    reveal_strlit("sayFinished");
    assert("sayFinished"@.len() == 11);
    reveal_strlit("versionRequest");
    assert("versionRequest"@.len() == 14);
    reveal_strlit("version");
    assert("version"@.len() == 7);
    reveal_strlit("error");
    assert("error"@.len() == 5);
    assert forall|c: TtsCommand| tts_token(c) != component_command_token(i) by {}
}

/// No introspection token is a `NluCommand` token.
proof fn lemma_nlu_not_introspection(i: ComponentCommand)
    ensures
        nlu_command_of(component_command_token(i)) is None,
{
    reveal_strlit("query");
    assert("query"@.len() == 5);
    reveal_strlit("partialQuery");
    assert("partialQuery"@.len() == 12);
    reveal_strlit("slotParsed");
    assert("slotParsed"@.len() == 10);
    reveal_strlit("intentParsed");
    assert("intentParsed"@.len() == 12);
    reveal_strlit("intentNotRecognized");
    assert("intentNotRecognized"@.len() == 19);
    reveal_strlit("versionRequest");
    assert("versionRequest"@.len() == 14);
    reveal_strlit("version");
    assert("version"@.len() == 7);
    reveal_strlit("error");
    assert("error"@.len() == 5);
    assert("query"@[0] != "error"@[0]);
    assert("partialQuery"@[0] != "intentParsed"@[0]);
    assert forall|c: NluCommand| nlu_token(c) != component_command_token(i) by {}
}

/// Round trip: decoding the wire path of a canonical topic gives that topic
/// back.
pub proof fn lemma_round_trip(t: HermesTopic)
    requires
        is_canonical(t@),
    ensures
        decode(encode(t@)) == Some(t@),
{
    reveal_strlit("hermes");
    assert("hermes"@.len() == 6);
    reveal_strlit("audioServer");
    assert("audioServer"@.len() == 11);
    reveal_strlit("asr");
    assert("asr"@.len() == 3);
    reveal_strlit("dialogueManager");
    assert("dialogueManager"@.len() == 15);
    reveal_strlit("feedback");
    assert("feedback"@.len() == 8);
    reveal_strlit("intent");
    assert("intent"@.len() == 6);
    reveal_strlit("hotword");
    assert("hotword"@.len() == 7);
    reveal_strlit("nlu");
    assert("nlu"@.len() == 3);
    reveal_strlit("tts");
    assert("tts"@.len() == 3);
    reveal_strlit("sound");
    assert("sound"@.len() == 5);
    reveal_strlit("detected");
    assert("detected"@.len() == 8);
    reveal_strlit("toggleOn");
    assert("toggleOn"@.len() == 8);
    reveal_strlit("toggleOff");
    assert("toggleOff"@.len() == 9);
    reveal_strlit("audioFrame");
    assert("audioFrame"@.len() == 10);
    reveal_strlit("playBytes");
    assert("playBytes"@.len() == 9);
    reveal_strlit("playFinished");
    assert("playFinished"@.len() == 12);
    reveal_strlit("versionRequest");
    assert("versionRequest"@.len() == 14);
    reveal_strlit("version");
    assert("version"@.len() == 7);
    reveal_strlit("error");
    assert("error"@.len() == 5);
    assert("hermes"@[0] != "intent"@[0]);
    assert("asr"@[0] != "nlu"@[0]);
    assert("asr"@[0] != "tts"@[0]);
    assert("feedback"@[0] != "detected"@[0]);
    assert("feedback"@[0] != "toggleOn"@[0]);
    assert("hotword"@[0] != "version"@[0]);
    assert("nlu"@[0] != "tts"@[0]);
    assert("sound"@[0] != "error"@[0]);
    assert("detected"@[0] != "toggleOn"@[0]);
    assert("toggleOff"@[0] != "playBytes"@[0]);
    let segs = topic_segments(t@);
    let rest = segs.skip(2);
    match t@ {
        TopicView::Feedback(c) => {
            let FeedbackCommand::Sound(sc) = c;
            lemma_sound_command_of(sc);
            lemma_sound_tokens(sc, sc);
            assert(rest =~= feedback_segments(c));
            assert(decode_segments(segs) == Some(t@));
        },
        TopicView::Hotword(site, c) => {
            if site is Some {
                assert(rest =~= seq![site->0, hotword_token(c)]);
                assert(decode_segments(segs) == Some(t@));
            } else {
                assert(rest =~= seq![hotword_token(c)]);
                assert(decode_segments(segs) == Some(t@));
            }
        },
        TopicView::AudioServer(site, c) => {
            if site is Some {
                assert(rest =~= seq![site->0] + audio_server_segments(c));
                assert(decode_segments(segs) == Some(t@));
            } else {
                assert(rest =~= audio_server_segments(c));
                assert(decode_segments(segs) == Some(t@));
            }
        },
        TopicView::Component(site, comp, c) => {
            lemma_component_command_of(c);
            lemma_component_tokens(c, c);
            match comp {
                Component::Asr => lemma_asr_not_introspection(c),
                Component::Tts => lemma_tts_not_introspection(c),
                Component::Nlu => lemma_nlu_not_introspection(c),
                Component::DialogueManager => lemma_dialogue_manager_not_introspection(c),
                _ => {},
            }
            if site is Some {
                assert(rest =~= seq![site->0, component_command_token(c)]);
                assert(decode_segments(segs) == Some(t@));
            } else {
                assert(rest =~= seq![component_command_token(c)]);
                assert(decode_segments(segs) == Some(t@));
            }
        },
        TopicView::Asr(c) => {
            lemma_asr_command_of(c);
            lemma_asr_tokens(c, c);
            assert(rest =~= seq![segs[2]]);
            assert(decode_segments(segs) == Some(t@));
        },
        TopicView::Tts(c) => {
            lemma_tts_command_of(c);
            lemma_tts_tokens(c, c);
            assert(rest =~= seq![segs[2]]);
            assert(decode_segments(segs) == Some(t@));
        },
        TopicView::Nlu(c) => {
            lemma_nlu_command_of(c);
            lemma_nlu_tokens(c, c);
            assert(rest =~= seq![segs[2]]);
            assert(decode_segments(segs) == Some(t@));
        },
        TopicView::DialogueManager(c) => {
            lemma_dialogue_manager_command_of(c);
            lemma_dialogue_manager_tokens(c, c);
            assert(rest =~= seq![segs[2]]);
            assert(decode_segments(segs) == Some(t@));
        },
        TopicView::Intent(_) => {
            assert(rest =~= seq![segs[2]]);
            assert(decode_segments(segs) == Some(t@));
        },
    }
    assert forall|i: int| 0 <= i < segs.len() implies is_segment(#[trigger] segs[i]) by {}
    lemma_split_join(segs);
}


/// `token` is `name` with its first character, an upper-case ASCII letter,
/// turned to lower case.
pub open spec fn is_case_folded(name: Seq<char>, token: Seq<char>) -> bool {
    &&& name.len() > 0
    &&& token.len() == name.len()
    &&& 'A' <= name[0] <= 'Z'
    &&& token[0] as u32 == name[0] as u32 + 32
    &&& token.skip(1) == name.skip(1)
}

/// The declared name of a `Component` tag.
pub open spec fn component_name(c: Component) -> Seq<char> {
    match c {
        Component::Hotword => "Hotword"@,
        Component::Asr => "Asr"@,
        Component::Tts => "Tts"@,
        Component::Nlu => "Nlu"@,
        Component::DialogueManager => "DialogueManager"@,
        Component::AudioServer => "AudioServer"@,
    }
}

/// The declared name of a `SoundCommand` tag.
pub open spec fn sound_name(c: SoundCommand) -> Seq<char> {
    match c {
        SoundCommand::ToggleOn => "ToggleOn"@,
        SoundCommand::ToggleOff => "ToggleOff"@,
    }
}

/// The declared name of a `DialogueManagerCommand` tag.
pub open spec fn dialogue_manager_name(c: DialogueManagerCommand) -> Seq<char> {
    match c {
        DialogueManagerCommand::ToggleOn => "ToggleOn"@,
        DialogueManagerCommand::ToggleOff => "ToggleOff"@,
        DialogueManagerCommand::StartSession => "StartSession"@,
        DialogueManagerCommand::ContinueSession => "ContinueSession"@,
        DialogueManagerCommand::EndSession => "EndSession"@,
        DialogueManagerCommand::SessionQueued => "SessionQueued"@,
        DialogueManagerCommand::SessionStarted => "SessionStarted"@,
        DialogueManagerCommand::SessionEnded => "SessionEnded"@,
        DialogueManagerCommand::IntentNotRecognized => "IntentNotRecognized"@,
    }
}

/// The declared name of a `HotwordCommand` tag.
pub open spec fn hotword_name(c: HotwordCommand) -> Seq<char> {
    match c {
        HotwordCommand::ToggleOn => "ToggleOn"@,
        HotwordCommand::ToggleOff => "ToggleOff"@,
        HotwordCommand::Detected => "Detected"@,
    }
}

/// The declared name of a `AsrCommand` tag.
pub open spec fn asr_name(c: AsrCommand) -> Seq<char> {
    match c {
        AsrCommand::ToggleOn => "ToggleOn"@,
        AsrCommand::ToggleOff => "ToggleOff"@,
        AsrCommand::TextCaptured => "TextCaptured"@,
        AsrCommand::PartialTextCaptured => "PartialTextCaptured"@,
        AsrCommand::Reload => "Reload"@,
        AsrCommand::Inject => "Inject"@,
        AsrCommand::InjectStatus => "InjectStatus"@,
        AsrCommand::InjectStatusRequest => "InjectStatusRequest"@,
    }
}

/// The declared name of a `TtsCommand` tag.
pub open spec fn tts_name(c: TtsCommand) -> Seq<char> {
    match c {
        TtsCommand::Say => "Say"@,
        TtsCommand::SayFinished => "SayFinished"@,
    }
}

/// The declared name of a `NluCommand` tag.
pub open spec fn nlu_name(c: NluCommand) -> Seq<char> {
    match c {
        NluCommand::Query => "Query"@,
        NluCommand::PartialQuery => "PartialQuery"@,
        NluCommand::SlotParsed => "SlotParsed"@,
        NluCommand::IntentParsed => "IntentParsed"@,
        NluCommand::IntentNotRecognized => "IntentNotRecognized"@,
    }
}

/// The declared name of a `ComponentCommand` tag.
pub open spec fn component_command_name(c: ComponentCommand) -> Seq<char> {
    match c {
        ComponentCommand::VersionRequest => "VersionRequest"@,
        ComponentCommand::Version => "Version"@,
        ComponentCommand::Error => "Error"@,
    }
}

/// The declared name of an audio server command's tag.
pub open spec fn audio_server_name(c: AudioServerCommandView) -> Seq<char> {
    match c {
        AudioServerCommandView::AudioFrame => "AudioFrame"@,
        AudioServerCommandView::PlayBytes(_) => "PlayBytes"@,
        AudioServerCommandView::PlayFinished => "PlayFinished"@,
        AudioServerCommandView::ToggleOn => "ToggleOn"@,
        AudioServerCommandView::ToggleOff => "ToggleOff"@,
    }
}

proof fn lemma_component_folding(c: Component)
    ensures
        is_case_folded(component_name(c), component_token(c)),
{
    match c {
        Component::Hotword => {
            reveal_strlit("Hotword");
            reveal_strlit("hotword");
            assert("Hotword"@.len() == 7);
            assert("hotword"@.len() == 7);
            assert("hotword"@.skip(1) =~= "Hotword"@.skip(1));
        },
        Component::Asr => {
            reveal_strlit("Asr");
            reveal_strlit("asr");
            assert("Asr"@.len() == 3);
            assert("asr"@.len() == 3);
            assert("asr"@.skip(1) =~= "Asr"@.skip(1));
        },
        Component::Tts => {
            reveal_strlit("Tts");
            reveal_strlit("tts");
            assert("Tts"@.len() == 3);
            assert("tts"@.len() == 3);
            assert("tts"@.skip(1) =~= "Tts"@.skip(1));
        },
        Component::Nlu => {
            reveal_strlit("Nlu");
            reveal_strlit("nlu");
            assert("Nlu"@.len() == 3);
            assert("nlu"@.len() == 3);
            assert("nlu"@.skip(1) =~= "Nlu"@.skip(1));
        },
        Component::DialogueManager => {
            reveal_strlit("DialogueManager");
            reveal_strlit("dialogueManager");
            assert("DialogueManager"@.len() == 15);
            assert("dialogueManager"@.len() == 15);
            assert("dialogueManager"@.skip(1) =~= "DialogueManager"@.skip(1));
        },
        Component::AudioServer => {
            reveal_strlit("AudioServer");
            reveal_strlit("audioServer");
            assert("AudioServer"@.len() == 11);
            assert("audioServer"@.len() == 11);
            assert("audioServer"@.skip(1) =~= "AudioServer"@.skip(1));
        },
    }
}

proof fn lemma_sound_folding(c: SoundCommand)
    ensures
        is_case_folded(sound_name(c), sound_token(c)),
{
    match c {
        SoundCommand::ToggleOn => {
            reveal_strlit("ToggleOn");
            reveal_strlit("toggleOn");
            assert("ToggleOn"@.len() == 8);
            assert("toggleOn"@.len() == 8);
            assert("toggleOn"@.skip(1) =~= "ToggleOn"@.skip(1));
        },
        SoundCommand::ToggleOff => {
            reveal_strlit("ToggleOff");
            reveal_strlit("toggleOff");
            assert("ToggleOff"@.len() == 9);
            assert("toggleOff"@.len() == 9);
            assert("toggleOff"@.skip(1) =~= "ToggleOff"@.skip(1));
        },
    }
}

proof fn lemma_dialogue_manager_folding(c: DialogueManagerCommand)
    ensures
        is_case_folded(dialogue_manager_name(c), dialogue_manager_token(c)),
{
    match c {
        DialogueManagerCommand::ToggleOn => {
            reveal_strlit("ToggleOn");
            reveal_strlit("toggleOn");
            assert("ToggleOn"@.len() == 8);
            assert("toggleOn"@.len() == 8);
            assert("toggleOn"@.skip(1) =~= "ToggleOn"@.skip(1));
        },
        DialogueManagerCommand::ToggleOff => {
            reveal_strlit("ToggleOff");
            reveal_strlit("toggleOff");
            assert("ToggleOff"@.len() == 9);
            assert("toggleOff"@.len() == 9);
            assert("toggleOff"@.skip(1) =~= "ToggleOff"@.skip(1));
        },
        DialogueManagerCommand::StartSession => {
            reveal_strlit("StartSession");
            reveal_strlit("startSession");
            assert("StartSession"@.len() == 12);
            assert("startSession"@.len() == 12);
            assert("startSession"@.skip(1) =~= "StartSession"@.skip(1));
        },
        DialogueManagerCommand::ContinueSession => {
            reveal_strlit("ContinueSession");
            reveal_strlit("continueSession");
            assert("ContinueSession"@.len() == 15);
            assert("continueSession"@.len() == 15);
            assert("continueSession"@.skip(1) =~= "ContinueSession"@.skip(1));
        },
        DialogueManagerCommand::EndSession => {
            reveal_strlit("EndSession");
            reveal_strlit("endSession");
            assert("EndSession"@.len() == 10);
            assert("endSession"@.len() == 10);
            assert("endSession"@.skip(1) =~= "EndSession"@.skip(1));
        },
        DialogueManagerCommand::SessionQueued => {
            reveal_strlit("SessionQueued");
            reveal_strlit("sessionQueued");
            assert("SessionQueued"@.len() == 13);
            assert("sessionQueued"@.len() == 13);
            assert("sessionQueued"@.skip(1) =~= "SessionQueued"@.skip(1));
        },
        DialogueManagerCommand::SessionStarted => {
            reveal_strlit("SessionStarted");
            reveal_strlit("sessionStarted");
            assert("SessionStarted"@.len() == 14);
            assert("sessionStarted"@.len() == 14);
            assert("sessionStarted"@.skip(1) =~= "SessionStarted"@.skip(1));
        },
        DialogueManagerCommand::SessionEnded => {
            reveal_strlit("SessionEnded");
            reveal_strlit("sessionEnded");
            assert("SessionEnded"@.len() == 12);
            assert("sessionEnded"@.len() == 12);
            assert("sessionEnded"@.skip(1) =~= "SessionEnded"@.skip(1));
        },
        DialogueManagerCommand::IntentNotRecognized => {
            reveal_strlit("IntentNotRecognized");
            reveal_strlit("intentNotRecognized");
            assert("IntentNotRecognized"@.len() == 19);
            assert("intentNotRecognized"@.len() == 19);
            assert("intentNotRecognized"@.skip(1) =~= "IntentNotRecognized"@.skip(1));
        },
    }
}

proof fn lemma_hotword_folding(c: HotwordCommand)
    ensures
        is_case_folded(hotword_name(c), hotword_token(c)),
{
    match c {
        HotwordCommand::ToggleOn => {
            reveal_strlit("ToggleOn");
            reveal_strlit("toggleOn");
            assert("ToggleOn"@.len() == 8);
            assert("toggleOn"@.len() == 8);
            assert("toggleOn"@.skip(1) =~= "ToggleOn"@.skip(1));
        },
        HotwordCommand::ToggleOff => {
            reveal_strlit("ToggleOff");
            reveal_strlit("toggleOff");
            assert("ToggleOff"@.len() == 9);
            assert("toggleOff"@.len() == 9);
            assert("toggleOff"@.skip(1) =~= "ToggleOff"@.skip(1));
        },
        HotwordCommand::Detected => {
            reveal_strlit("Detected");
            reveal_strlit("detected");
            assert("Detected"@.len() == 8);
            assert("detected"@.len() == 8);
            assert("detected"@.skip(1) =~= "Detected"@.skip(1));
        },
    }
}

proof fn lemma_asr_folding(c: AsrCommand)
    ensures
        is_case_folded(asr_name(c), asr_token(c)),
{
    match c {
        AsrCommand::ToggleOn => {
            reveal_strlit("ToggleOn");
            reveal_strlit("toggleOn");
            assert("ToggleOn"@.len() == 8);
            assert("toggleOn"@.len() == 8);
            assert("toggleOn"@.skip(1) =~= "ToggleOn"@.skip(1));
        },
        AsrCommand::ToggleOff => {
            reveal_strlit("ToggleOff");
            reveal_strlit("toggleOff");
            assert("ToggleOff"@.len() == 9);
            assert("toggleOff"@.len() == 9);
            assert("toggleOff"@.skip(1) =~= "ToggleOff"@.skip(1));
        },
        AsrCommand::TextCaptured => {
            reveal_strlit("TextCaptured");
            reveal_strlit("textCaptured");
            assert("TextCaptured"@.len() == 12);
            assert("textCaptured"@.len() == 12);
            assert("textCaptured"@.skip(1) =~= "TextCaptured"@.skip(1));
        },
        AsrCommand::PartialTextCaptured => {
            reveal_strlit("PartialTextCaptured");
            reveal_strlit("partialTextCaptured");
            assert("PartialTextCaptured"@.len() == 19);
            assert("partialTextCaptured"@.len() == 19);
            assert("partialTextCaptured"@.skip(1) =~= "PartialTextCaptured"@.skip(1));
        },
        AsrCommand::Reload => {
            reveal_strlit("Reload");
            reveal_strlit("reload");
            assert("Reload"@.len() == 6);
            assert("reload"@.len() == 6);
            assert("reload"@.skip(1) =~= "Reload"@.skip(1));
        },
        AsrCommand::Inject => {
            reveal_strlit("Inject");
            reveal_strlit("inject");
            assert("Inject"@.len() == 6);
            assert("inject"@.len() == 6);
            assert("inject"@.skip(1) =~= "Inject"@.skip(1));
        },
        AsrCommand::InjectStatus => {
            reveal_strlit("InjectStatus");
            reveal_strlit("injectStatus");
            assert("InjectStatus"@.len() == 12);
            assert("injectStatus"@.len() == 12);
            assert("injectStatus"@.skip(1) =~= "InjectStatus"@.skip(1));
        },
        AsrCommand::InjectStatusRequest => {
            reveal_strlit("InjectStatusRequest");
            reveal_strlit("injectStatusRequest");
            assert("InjectStatusRequest"@.len() == 19);
            assert("injectStatusRequest"@.len() == 19);
            assert("injectStatusRequest"@.skip(1) =~= "InjectStatusRequest"@.skip(1));
        },
    }
}

proof fn lemma_tts_folding(c: TtsCommand)
    ensures
        is_case_folded(tts_name(c), tts_token(c)),
{
    match c {
        TtsCommand::Say => {
            reveal_strlit("Say");
            reveal_strlit("say");
            assert("Say"@.len() == 3);
            assert("say"@.len() == 3);
            assert("say"@.skip(1) =~= "Say"@.skip(1));
        },
        TtsCommand::SayFinished => {
            reveal_strlit("SayFinished");
            reveal_strlit("sayFinished");
            assert("SayFinished"@.len() == 11);
            assert("sayFinished"@.len() == 11);
            assert("sayFinished"@.skip(1) =~= "SayFinished"@.skip(1));
        },
    }
}

proof fn lemma_nlu_folding(c: NluCommand)
    ensures
        is_case_folded(nlu_name(c), nlu_token(c)),
{
    match c {
        NluCommand::Query => {
            reveal_strlit("Query");
            reveal_strlit("query");
            assert("Query"@.len() == 5);
            assert("query"@.len() == 5);
            assert("query"@.skip(1) =~= "Query"@.skip(1));
        },
        NluCommand::PartialQuery => {
            reveal_strlit("PartialQuery");
            reveal_strlit("partialQuery");
            assert("PartialQuery"@.len() == 12);
            assert("partialQuery"@.len() == 12);
            assert("partialQuery"@.skip(1) =~= "PartialQuery"@.skip(1));
        },
        NluCommand::SlotParsed => {
            reveal_strlit("SlotParsed");
            reveal_strlit("slotParsed");
            assert("SlotParsed"@.len() == 10);
            assert("slotParsed"@.len() == 10);
            assert("slotParsed"@.skip(1) =~= "SlotParsed"@.skip(1));
        },
        NluCommand::IntentParsed => {
            reveal_strlit("IntentParsed");
            reveal_strlit("intentParsed");
            assert("IntentParsed"@.len() == 12);
            assert("intentParsed"@.len() == 12);
            assert("intentParsed"@.skip(1) =~= "IntentParsed"@.skip(1));
        },
        NluCommand::IntentNotRecognized => {
            reveal_strlit("IntentNotRecognized");
            reveal_strlit("intentNotRecognized");
            assert("IntentNotRecognized"@.len() == 19);
            assert("intentNotRecognized"@.len() == 19);
            assert("intentNotRecognized"@.skip(1) =~= "IntentNotRecognized"@.skip(1));
        },
    }
}

proof fn lemma_component_command_folding(c: ComponentCommand)
    ensures
        is_case_folded(component_command_name(c), component_command_token(c)),
{
    match c {
        ComponentCommand::VersionRequest => {
            reveal_strlit("VersionRequest");
            reveal_strlit("versionRequest");
            assert("VersionRequest"@.len() == 14);
            assert("versionRequest"@.len() == 14);
            assert("versionRequest"@.skip(1) =~= "VersionRequest"@.skip(1));
        },
        ComponentCommand::Version => {
            reveal_strlit("Version");
            reveal_strlit("version");
            assert("Version"@.len() == 7);
            assert("version"@.len() == 7);
            assert("version"@.skip(1) =~= "Version"@.skip(1));
        },
        ComponentCommand::Error => {
            reveal_strlit("Error");
            reveal_strlit("error");
            assert("Error"@.len() == 5);
            assert("error"@.len() == 5);
            assert("error"@.skip(1) =~= "Error"@.skip(1));
        },
    }
}

proof fn lemma_audio_server_folding(c: AudioServerCommandView)
    ensures
        is_case_folded(audio_server_name(c), audio_server_segments(c)[0]),
{
    match c {
        AudioServerCommandView::AudioFrame => {
            reveal_strlit("AudioFrame");
            reveal_strlit("audioFrame");
            assert("AudioFrame"@.len() == 10);
            assert("audioFrame"@.len() == 10);
            assert("audioFrame"@.skip(1) =~= "AudioFrame"@.skip(1));
        },
        AudioServerCommandView::PlayBytes(_) => {
            reveal_strlit("PlayBytes");
            reveal_strlit("playBytes");
            assert("PlayBytes"@.len() == 9);
            assert("playBytes"@.len() == 9);
            assert("playBytes"@.skip(1) =~= "PlayBytes"@.skip(1));
        },
        AudioServerCommandView::PlayFinished => {
            reveal_strlit("PlayFinished");
            reveal_strlit("playFinished");
            assert("PlayFinished"@.len() == 12);
            assert("playFinished"@.len() == 12);
            assert("playFinished"@.skip(1) =~= "PlayFinished"@.skip(1));
        },
        AudioServerCommandView::ToggleOn => {
            reveal_strlit("ToggleOn");
            reveal_strlit("toggleOn");
            assert("ToggleOn"@.len() == 8);
            assert("toggleOn"@.len() == 8);
            assert("toggleOn"@.skip(1) =~= "ToggleOn"@.skip(1));
        },
        AudioServerCommandView::ToggleOff => {
            reveal_strlit("ToggleOff");
            reveal_strlit("toggleOff");
            assert("ToggleOff"@.len() == 9);
            assert("toggleOff"@.len() == 9);
            assert("toggleOff"@.skip(1) =~= "ToggleOff"@.skip(1));
        },
    }
}

/// Case folding: the wire token of every tag is its declared name with the
/// first letter turned to lower case and the rest unchanged.
pub proof fn lemma_case_folding(
    comp: Component,
    sound: SoundCommand,
    dialogue: DialogueManagerCommand,
    hotword: HotwordCommand,
    asr: AsrCommand,
    tts: TtsCommand,
    nlu: NluCommand,
    audio: AudioServerCommandView,
    introspection: ComponentCommand,
)
    ensures
        is_case_folded(component_name(comp), component_token(comp)),
        is_case_folded(sound_name(sound), sound_token(sound)),
        is_case_folded(dialogue_manager_name(dialogue), dialogue_manager_token(dialogue)),
        is_case_folded(hotword_name(hotword), hotword_token(hotword)),
        is_case_folded(asr_name(asr), asr_token(asr)),
        is_case_folded(tts_name(tts), tts_token(tts)),
        is_case_folded(nlu_name(nlu), nlu_token(nlu)),
        is_case_folded(audio_server_name(audio), audio_server_segments(audio)[0]),
        is_case_folded(component_command_name(introspection), component_command_token(introspection)),
{
    lemma_component_folding(comp);
    lemma_sound_folding(sound);
    lemma_dialogue_manager_folding(dialogue);
    lemma_hotword_folding(hotword);
    lemma_asr_folding(asr);
    lemma_tts_folding(tts);
    lemma_nlu_folding(nlu);
    lemma_audio_server_folding(audio);
    lemma_component_command_folding(introspection);
}


/// One of the family tokens that the decoder dispatches on.
pub open spec fn is_family_token(f: Seq<char>) -> bool {
    ||| f == "audioServer"@
    ||| f == "asr"@
    ||| f == "dialogueManager"@
    ||| f == "feedback"@
    ||| f == "intent"@
    ||| f == "hotword"@
    ||| f == "nlu"@
    ||| f == "tts"@
}

/// Prefix and family: a path that decodes has at least two `/`-separated
/// segments, the first being `hermes` and the second a family token. A path
/// with another first segment, or an empty or unknown second one, decodes to
/// nothing.
pub proof fn lemma_decoded_prefix(path: Seq<char>)
    ensures
        decode(path) is Some ==> {
            let segs = split_path(path);
            &&& segs.len() >= 2
            &&& segs[0] == "hermes"@
            &&& is_family_token(segs[1])
        },
{
}

/// Unknown commands: below `hermes/asr`, a path without a third segment, or
/// whose third segment is neither a speech-recognizer command nor an
/// introspection command, decodes to nothing.
pub proof fn lemma_unknown_asr_command(path: Seq<char>)
    requires
        split_path(path).len() >= 2,
        split_path(path)[0] == "hermes"@,
        split_path(path)[1] == "asr"@,
        split_path(path).len() >= 3 ==> {
            &&& forall|a: AsrCommand| asr_token(a) != split_path(path)[2]
            &&& forall|i: ComponentCommand| component_command_token(i) != split_path(path)[2]
        },
    ensures
        decode(path) is None,
{
    reveal_strlit("audioServer");
    assert("audioServer"@.len() == 11);
    reveal_strlit("asr");
    assert("asr"@.len() == 3);
}

/// Argument capture: below `hermes/audioServer`, a non-empty site followed by
/// `playBytes` and a file names that site and file, whatever follows them.
pub proof fn lemma_play_bytes_capture(path: Seq<char>)
    requires
        split_path(path).len() >= 5,
        split_path(path)[0] == "hermes"@,
        split_path(path)[1] == "audioServer"@,
        split_path(path)[2].len() > 0,
        split_path(path)[3] == "playBytes"@,
    ensures
        decode(path) == Some(
            TopicView::AudioServer(
                Some(split_path(path)[2]),
                AudioServerCommandView::PlayBytes(split_path(path)[4]),
            ),
        ),
{
}

} // verus!

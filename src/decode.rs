//! Decoding wire paths into topic identifiers.
use crate::path::{is_word, split_path, split_segments, views};
use crate::topics::{
    AsrCommand, AudioServerCommand, AudioServerCommandView, Component, ComponentCommand,
    DialogueManagerCommand, FeedbackCommand, HermesTopic, HotwordCommand, NluCommand,
    SoundCommand, TopicView, TtsCommand, asr_token, component_command_token,
    dialogue_manager_token, nlu_token, opt_str_view, opt_view, sound_token, tts_token,
};
use vstd::prelude::*;

verus! {

/// The `SoundCommand` whose wire token is `tok`, if any.
pub open spec fn sound_command_of(tok: Seq<char>) -> Option<SoundCommand> {
    if exists|c: SoundCommand| sound_token(c) == tok {
        Some(choose|c: SoundCommand| sound_token(c) == tok)
    } else {
        None
    }
}

/// Distinct `SoundCommand` tags have distinct tokens, each a non-empty word without `/`.
pub proof fn lemma_sound_tokens(c: SoundCommand, d: SoundCommand)
    ensures
        sound_token(c) == sound_token(d) ==> c == d,
        is_word(sound_token(c)),
{
    reveal_strlit("toggleOn");
    assert("toggleOn"@.len() == 8);
    reveal_strlit("toggleOff");
    assert("toggleOff"@.len() == 9);
}

/// Decoding the token of a `SoundCommand` gives it back.
pub proof fn lemma_sound_command_of(c: SoundCommand)
    ensures
        sound_command_of(sound_token(c)) == Some(c),
{
    let d = choose|d: SoundCommand| sound_token(d) == sound_token(c);
    lemma_sound_tokens(c, d);
}

/// The `DialogueManagerCommand` whose wire token is `tok`, if any.
pub open spec fn dialogue_manager_command_of(tok: Seq<char>) -> Option<DialogueManagerCommand> {
    if exists|c: DialogueManagerCommand| dialogue_manager_token(c) == tok {
        Some(choose|c: DialogueManagerCommand| dialogue_manager_token(c) == tok)
    } else {
        None
    }
}

/// Distinct `DialogueManagerCommand` tags have distinct tokens, each a non-empty word without `/`.
pub proof fn lemma_dialogue_manager_tokens(c: DialogueManagerCommand, d: DialogueManagerCommand)
    ensures
        dialogue_manager_token(c) == dialogue_manager_token(d) ==> c == d,
        is_word(dialogue_manager_token(c)),
{
    reveal_strlit("toggleOn");
    assert("toggleOn"@.len() == 8);
    reveal_strlit("toggleOff");
    assert("toggleOff"@.len() == 9);
    reveal_strlit("startSession");
    assert("startSession"@.len() == 12);
    reveal_strlit("continueSession");
    assert("continueSession"@.len() == 15);
    reveal_strlit("endSession");
    assert("endSession"@.len() == 10);
    reveal_strlit("sessionQueued");
    assert("sessionQueued"@.len() == 13);
    reveal_strlit("sessionStarted");
    assert("sessionStarted"@.len() == 14);
    reveal_strlit("sessionEnded");
    assert("sessionEnded"@.len() == 12);
    reveal_strlit("intentNotRecognized");
    assert("intentNotRecognized"@.len() == 19);
    assert("startSession"@[1] != "sessionEnded"@[1]);
}

/// Decoding the token of a `DialogueManagerCommand` gives it back.
pub proof fn lemma_dialogue_manager_command_of(c: DialogueManagerCommand)
    ensures
        dialogue_manager_command_of(dialogue_manager_token(c)) == Some(c),
{
    let d = choose|d: DialogueManagerCommand| dialogue_manager_token(d) == dialogue_manager_token(c);
    lemma_dialogue_manager_tokens(c, d);
}

/// The `AsrCommand` whose wire token is `tok`, if any.
pub open spec fn asr_command_of(tok: Seq<char>) -> Option<AsrCommand> {
    if exists|c: AsrCommand| asr_token(c) == tok {
        Some(choose|c: AsrCommand| asr_token(c) == tok)
    } else {
        None
    }
}

/// Distinct `AsrCommand` tags have distinct tokens, each a non-empty word without `/`.
pub proof fn lemma_asr_tokens(c: AsrCommand, d: AsrCommand)
    ensures
        asr_token(c) == asr_token(d) ==> c == d,
        is_word(asr_token(c)),
{
    reveal_strlit("toggleOn");
    assert("toggleOn"@.len() == 8);
    reveal_strlit("toggleOff");
    assert("toggleOff"@.len() == 9);
    reveal_strlit("textCaptured");
    assert("textCaptured"@.len() == 12);
    reveal_strlit("partialTextCaptured");
    assert("partialTextCaptured"@.len() == 19);
    reveal_strlit("reload");
    assert("reload"@.len() == 6);
    reveal_strlit("inject");
    assert("inject"@.len() == 6);
    reveal_strlit("injectStatus");
    assert("injectStatus"@.len() == 12);
    reveal_strlit("injectStatusRequest");
    assert("injectStatusRequest"@.len() == 19);
    assert("textCaptured"@[0] != "injectStatus"@[0]);
    assert("partialTextCaptured"@[0] != "injectStatusRequest"@[0]);
    assert("reload"@[0] != "inject"@[0]);
}

/// Decoding the token of a `AsrCommand` gives it back.
pub proof fn lemma_asr_command_of(c: AsrCommand)
    ensures
        asr_command_of(asr_token(c)) == Some(c),
{
    let d = choose|d: AsrCommand| asr_token(d) == asr_token(c);
    lemma_asr_tokens(c, d);
}

/// The `TtsCommand` whose wire token is `tok`, if any.
pub open spec fn tts_command_of(tok: Seq<char>) -> Option<TtsCommand> {
    if exists|c: TtsCommand| tts_token(c) == tok {
        Some(choose|c: TtsCommand| tts_token(c) == tok)
    } else {
        None
    }
}

/// Distinct `TtsCommand` tags have distinct tokens, each a non-empty word without `/`.
pub proof fn lemma_tts_tokens(c: TtsCommand, d: TtsCommand)
    ensures
        tts_token(c) == tts_token(d) ==> c == d,
        is_word(tts_token(c)),
{
    reveal_strlit("say");
    assert("say"@.len() == 3);
    reveal_strlit("sayFinished");
    assert("sayFinished"@.len() == 11);
}

/// Decoding the token of a `TtsCommand` gives it back.
pub proof fn lemma_tts_command_of(c: TtsCommand)
    ensures
        tts_command_of(tts_token(c)) == Some(c),
{
    let d = choose|d: TtsCommand| tts_token(d) == tts_token(c);
    lemma_tts_tokens(c, d);
}

/// The `NluCommand` whose wire token is `tok`, if any.
pub open spec fn nlu_command_of(tok: Seq<char>) -> Option<NluCommand> {
    if exists|c: NluCommand| nlu_token(c) == tok {
        Some(choose|c: NluCommand| nlu_token(c) == tok)
    } else {
        None
    }
}

/// Distinct `NluCommand` tags have distinct tokens, each a non-empty word without `/`.
pub proof fn lemma_nlu_tokens(c: NluCommand, d: NluCommand)
    ensures
        nlu_token(c) == nlu_token(d) ==> c == d,
        is_word(nlu_token(c)),
{
    reveal_strlit("query");
    assert("query"@.len() == 5);
    reveal_strlit("partialQuery");
    assert("partialQuery"@.len() == 12);
    reveal_strlit("slotParsed");
    assert("slotParsed"@.len() == 10);
    reveal_strlit("intentParsed");
    assert("intentParsed"@.len() == 12);
    reveal_strlit("intentNotRecognized");
    assert("intentNotRecognized"@.len() == 19);
    assert("partialQuery"@[0] != "intentParsed"@[0]);
}

/// Decoding the token of a `NluCommand` gives it back.
pub proof fn lemma_nlu_command_of(c: NluCommand)
    ensures
        nlu_command_of(nlu_token(c)) == Some(c),
{
    let d = choose|d: NluCommand| nlu_token(d) == nlu_token(c);
    lemma_nlu_tokens(c, d);
}

/// The `ComponentCommand` whose wire token is `tok`, if any.
pub open spec fn component_command_of(tok: Seq<char>) -> Option<ComponentCommand> {
    if exists|c: ComponentCommand| component_command_token(c) == tok {
        Some(choose|c: ComponentCommand| component_command_token(c) == tok)
    } else {
        None
    }
}

/// Distinct `ComponentCommand` tags have distinct tokens, each a non-empty word without `/`.
pub proof fn lemma_component_tokens(c: ComponentCommand, d: ComponentCommand)
    ensures
        component_command_token(c) == component_command_token(d) ==> c == d,
        is_word(component_command_token(c)),
{
    reveal_strlit("versionRequest");
    assert("versionRequest"@.len() == 14);
    reveal_strlit("version");
    assert("version"@.len() == 7);
    reveal_strlit("error");
    assert("error"@.len() == 5);
}

/// Decoding the token of a `ComponentCommand` gives it back.
pub proof fn lemma_component_command_of(c: ComponentCommand)
    ensures
        component_command_of(component_command_token(c)) == Some(c),
{
    let d = choose|d: ComponentCommand| component_command_token(d) == component_command_token(c);
    lemma_component_tokens(c, d);
}

fn sound_command_from(seg: &String) -> (r: Option<SoundCommand>)
    ensures
        r == sound_command_of(seg@),
{
    if is_token(seg, "toggleOn") {
        proof {
            lemma_sound_command_of(SoundCommand::ToggleOn);
        }
        Some(SoundCommand::ToggleOn)
    } else if is_token(seg, "toggleOff") {
        proof {
            lemma_sound_command_of(SoundCommand::ToggleOff);
        }
        Some(SoundCommand::ToggleOff)
    } else {
        assert forall|c: SoundCommand| sound_token(c) != seg@ by {}
        None
    }
}

fn dialogue_manager_command_from(seg: &String) -> (r: Option<DialogueManagerCommand>)
    ensures
        r == dialogue_manager_command_of(seg@),
{
    if is_token(seg, "toggleOn") {
        proof {
            lemma_dialogue_manager_command_of(DialogueManagerCommand::ToggleOn);
        }
        Some(DialogueManagerCommand::ToggleOn)
    } else if is_token(seg, "toggleOff") {
        proof {
            lemma_dialogue_manager_command_of(DialogueManagerCommand::ToggleOff);
        }
        Some(DialogueManagerCommand::ToggleOff)
    } else if is_token(seg, "startSession") {
        proof {
            lemma_dialogue_manager_command_of(DialogueManagerCommand::StartSession);
        }
        Some(DialogueManagerCommand::StartSession)
    } else if is_token(seg, "continueSession") {
        proof {
            lemma_dialogue_manager_command_of(DialogueManagerCommand::ContinueSession);
        }
        Some(DialogueManagerCommand::ContinueSession)
    } else if is_token(seg, "endSession") {
        proof {
            lemma_dialogue_manager_command_of(DialogueManagerCommand::EndSession);
        }
        Some(DialogueManagerCommand::EndSession)
    } else if is_token(seg, "sessionQueued") {
        proof {
            lemma_dialogue_manager_command_of(DialogueManagerCommand::SessionQueued);
        }
        Some(DialogueManagerCommand::SessionQueued)
    } else if is_token(seg, "sessionStarted") {
        proof {
            lemma_dialogue_manager_command_of(DialogueManagerCommand::SessionStarted);
        }
        Some(DialogueManagerCommand::SessionStarted)
    } else if is_token(seg, "sessionEnded") {
        proof {
            lemma_dialogue_manager_command_of(DialogueManagerCommand::SessionEnded);
        }
        Some(DialogueManagerCommand::SessionEnded)
    } else if is_token(seg, "intentNotRecognized") {
        proof {
            lemma_dialogue_manager_command_of(DialogueManagerCommand::IntentNotRecognized);
        }
        Some(DialogueManagerCommand::IntentNotRecognized)
    } else {
        assert forall|c: DialogueManagerCommand| dialogue_manager_token(c) != seg@ by {}
        None
    }
}

fn asr_command_from(seg: &String) -> (r: Option<AsrCommand>)
    ensures
        r == asr_command_of(seg@),
{
    if is_token(seg, "toggleOn") {
        proof {
            lemma_asr_command_of(AsrCommand::ToggleOn);
        }
        Some(AsrCommand::ToggleOn)
    } else if is_token(seg, "toggleOff") {
        proof {
            lemma_asr_command_of(AsrCommand::ToggleOff);
        }
        Some(AsrCommand::ToggleOff)
    } else if is_token(seg, "textCaptured") {
        proof {
            lemma_asr_command_of(AsrCommand::TextCaptured);
        }
        Some(AsrCommand::TextCaptured)
    } else if is_token(seg, "partialTextCaptured") {
        proof {
            lemma_asr_command_of(AsrCommand::PartialTextCaptured);
        }
        Some(AsrCommand::PartialTextCaptured)
    } else if is_token(seg, "reload") {
        proof {
            lemma_asr_command_of(AsrCommand::Reload);
        }
        Some(AsrCommand::Reload)
    } else if is_token(seg, "inject") {
        proof {
            lemma_asr_command_of(AsrCommand::Inject);
        }
        Some(AsrCommand::Inject)
    } else if is_token(seg, "injectStatus") {
        proof {
            lemma_asr_command_of(AsrCommand::InjectStatus);
        }
        Some(AsrCommand::InjectStatus)
    } else if is_token(seg, "injectStatusRequest") {
        proof {
            lemma_asr_command_of(AsrCommand::InjectStatusRequest);
        }
        Some(AsrCommand::InjectStatusRequest)
    } else {
        assert forall|c: AsrCommand| asr_token(c) != seg@ by {}
        None
    }
}

fn tts_command_from(seg: &String) -> (r: Option<TtsCommand>)
    ensures
        r == tts_command_of(seg@),
{
    if is_token(seg, "say") {
        proof {
            lemma_tts_command_of(TtsCommand::Say);
        }
        Some(TtsCommand::Say)
    } else if is_token(seg, "sayFinished") {
        proof {
            lemma_tts_command_of(TtsCommand::SayFinished);
        }
        Some(TtsCommand::SayFinished)
    } else {
        assert forall|c: TtsCommand| tts_token(c) != seg@ by {}
        None
    }
}

fn nlu_command_from(seg: &String) -> (r: Option<NluCommand>)
    ensures
        r == nlu_command_of(seg@),
{
    if is_token(seg, "query") {
        proof {
            lemma_nlu_command_of(NluCommand::Query);
        }
        Some(NluCommand::Query)
    } else if is_token(seg, "partialQuery") {
        proof {
            lemma_nlu_command_of(NluCommand::PartialQuery);
        }
        Some(NluCommand::PartialQuery)
    } else if is_token(seg, "slotParsed") {
        proof {
            lemma_nlu_command_of(NluCommand::SlotParsed);
        }
        Some(NluCommand::SlotParsed)
    } else if is_token(seg, "intentParsed") {
        proof {
            lemma_nlu_command_of(NluCommand::IntentParsed);
        }
        Some(NluCommand::IntentParsed)
    } else if is_token(seg, "intentNotRecognized") {
        proof {
            lemma_nlu_command_of(NluCommand::IntentNotRecognized);
        }
        Some(NluCommand::IntentNotRecognized)
    } else {
        assert forall|c: NluCommand| nlu_token(c) != seg@ by {}
        None
    }
}

fn component_command_from(seg: &String) -> (r: Option<ComponentCommand>)
    ensures
        r == component_command_of(seg@),
{
    if is_token(seg, "versionRequest") {
        proof {
            lemma_component_command_of(ComponentCommand::VersionRequest);
        }
        Some(ComponentCommand::VersionRequest)
    } else if is_token(seg, "version") {
        proof {
            lemma_component_command_of(ComponentCommand::Version);
        }
        Some(ComponentCommand::Version)
    } else if is_token(seg, "error") {
        proof {
            lemma_component_command_of(ComponentCommand::Error);
        }
        Some(ComponentCommand::Error)
    } else {
        assert forall|c: ComponentCommand| component_command_token(c) != seg@ by {}
        None
    }
}

/// `seg` is the token `lit`.
fn is_token(seg: &String, lit: &str) -> (r: bool)
    ensures
        r == (seg@ == lit@),
{
    let expected = lit.to_owned();
    *seg == expected
}

/// The introspection topic of `comp` whose command token is `tok`, if any.
pub open spec fn introspection(
    site: Option<Seq<char>>,
    comp: Component,
    tok: Seq<char>,
) -> Option<TopicView> {
    match component_command_of(tok) {
        Some(c) => Some(TopicView::Component(site, comp, c)),
        None => None,
    }
}

pub open spec fn decode_audio_server(rest: Seq<Seq<char>>) -> Option<TopicView> {
    if rest.len() == 1 && rest[0] == "toggleOn"@ {
        Some(TopicView::AudioServer(None, AudioServerCommandView::ToggleOn))
    } else if rest.len() == 1 && rest[0] == "toggleOff"@ {
        Some(TopicView::AudioServer(None, AudioServerCommandView::ToggleOff))
    } else if rest.len() >= 2 && rest[0].len() == 0 {
        // a site is never empty
        None
    } else if rest.len() == 2 && rest[1] == "audioFrame"@ {
        Some(TopicView::AudioServer(Some(rest[0]), AudioServerCommandView::AudioFrame))
    } else if rest.len() >= 3 && rest[1] == "playBytes"@ {
        Some(TopicView::AudioServer(Some(rest[0]), AudioServerCommandView::PlayBytes(rest[2])))
    } else if rest.len() == 2 && rest[1] == "playFinished"@ {
        Some(TopicView::AudioServer(Some(rest[0]), AudioServerCommandView::PlayFinished))
    } else if rest.len() == 2 {
        introspection(Some(rest[0]), Component::AudioServer, rest[1])
    } else {
        None
    }
}

pub open spec fn decode_asr(rest: Seq<Seq<char>>) -> Option<TopicView> {
    if rest.len() == 0 {
        None
    } else {
        match asr_command_of(rest[0]) {
            Some(c) => Some(TopicView::Asr(c)),
            None => introspection(None, Component::Asr, rest[0]),
        }
    }
}

pub open spec fn decode_dialogue_manager(rest: Seq<Seq<char>>) -> Option<TopicView> {
    if rest.len() == 0 {
        None
    } else {
        match dialogue_manager_command_of(rest[0]) {
            Some(c) => Some(TopicView::DialogueManager(c)),
            None => introspection(None, Component::DialogueManager, rest[0]),
        }
    }
}

pub open spec fn decode_feedback(rest: Seq<Seq<char>>) -> Option<TopicView> {
    if rest.len() >= 2 && rest[0] == "sound"@ {
        match sound_command_of(rest[1]) {
            Some(c) => Some(TopicView::Feedback(FeedbackCommand::Sound(c))),
            None => None,
        }
    } else {
        None
    }
}

pub open spec fn decode_hotword(rest: Seq<Seq<char>>) -> Option<TopicView> {
    if rest.len() == 1 && rest[0] == "toggleOn"@ {
        Some(TopicView::Hotword(None, HotwordCommand::ToggleOn))
    } else if rest.len() == 1 && rest[0] == "toggleOff"@ {
        Some(TopicView::Hotword(None, HotwordCommand::ToggleOff))
    } else if rest.len() >= 2 && rest[0].len() == 0 {
        // a site is never empty
        None
    } else if rest.len() >= 2 && rest[1] == "detected"@ {
        Some(TopicView::Hotword(Some(rest[0]), HotwordCommand::Detected))
    } else if rest.len() >= 2 {
        introspection(Some(rest[0]), Component::Hotword, rest[1])
    } else {
        None
    }
}

pub open spec fn decode_intent(rest: Seq<Seq<char>>) -> Option<TopicView> {
    if rest.len() >= 1 {
        Some(TopicView::Intent(rest[0]))
    } else {
        None
    }
}

pub open spec fn decode_nlu(rest: Seq<Seq<char>>) -> Option<TopicView> {
    if rest.len() == 0 {
        None
    } else {
        match nlu_command_of(rest[0]) {
            Some(c) => Some(TopicView::Nlu(c)),
            None => introspection(None, Component::Nlu, rest[0]),
        }
    }
}

pub open spec fn decode_tts(rest: Seq<Seq<char>>) -> Option<TopicView> {
    if rest.len() == 0 {
        None
    } else {
        match tts_command_of(rest[0]) {
            Some(c) => Some(TopicView::Tts(c)),
            None => introspection(None, Component::Tts, rest[0]),
        }
    }
}

/// The topic that a path's segments name: `hermes`, then a family token, then
/// what that family reads from the segments after it.
pub open spec fn decode_segments(segs: Seq<Seq<char>>) -> Option<TopicView> {
    if segs.len() < 2 || segs[0] != "hermes"@ {
        None
    } else {
        let family = segs[1];
        let rest = segs.skip(2);
        if family == "audioServer"@ {
            decode_audio_server(rest)
        } else if family == "asr"@ {
            decode_asr(rest)
        } else if family == "dialogueManager"@ {
            decode_dialogue_manager(rest)
        } else if family == "feedback"@ {
            decode_feedback(rest)
        } else if family == "intent"@ {
            decode_intent(rest)
        } else if family == "hotword"@ {
            decode_hotword(rest)
        } else if family == "nlu"@ {
            decode_nlu(rest)
        } else if family == "tts"@ {
            decode_tts(rest)
        } else {
            None
        }
    }
}

/// The topic that a wire path names, if any.
pub open spec fn decode(path: Seq<char>) -> Option<TopicView> {
    decode_segments(split_path(path))
}

/// Parsing a wire path into a value.
pub trait FromPath<T: View> {
    spec fn path_model(path: Seq<char>) -> Option<T::V>;

    fn from_path(path: &str) -> (r: Option<T>)
        ensures
            opt_view(r) == Self::path_model(path@),
    ;
}

fn component_topic(site: Option<String>, comp: Component, seg: &String) -> (r: Option<HermesTopic>)
    ensures
        opt_view(r) == introspection(opt_str_view(site), comp, seg@),
{
    match component_command_from(seg) {
        Some(c) => Some(HermesTopic::Component(site, comp, c)),
        None => None,
    }
}

impl HermesTopic {
    fn parse_asr(segs: &Vec<String>) -> (r: Option<HermesTopic>)
        requires
            segs.len() >= 2,
        ensures
            opt_view(r) == decode_asr(views(segs@).skip(2)),
    {
        if segs.len() < 3 {
            return None;
        }
        match asr_command_from(&segs[2]) {
            Some(c) => Some(HermesTopic::Asr(c)),
            None => component_topic(None, Component::Asr, &segs[2]),
        }
    }

    fn parse_audio_server(segs: &Vec<String>) -> (r: Option<HermesTopic>)
        requires
            segs.len() >= 2,
        ensures
            opt_view(r) == decode_audio_server(views(segs@).skip(2)),
    {
        let n = segs.len() - 2;
        if n == 1 && is_token(&segs[2], "toggleOn") {
            Some(HermesTopic::AudioServer(None, AudioServerCommand::ToggleOn))
        } else if n == 1 && is_token(&segs[2], "toggleOff") {
            Some(HermesTopic::AudioServer(None, AudioServerCommand::ToggleOff))
        } else if n >= 2 && segs[2].as_str().is_empty() {
            None
        } else if n == 2 && is_token(&segs[3], "audioFrame") {
            Some(HermesTopic::AudioServer(Some(segs[2].clone()), AudioServerCommand::AudioFrame))
        } else if n >= 3 && is_token(&segs[3], "playBytes") {
            Some(
                HermesTopic::AudioServer(
                    Some(segs[2].clone()),
                    AudioServerCommand::PlayBytes(segs[4].clone()),
                ),
            )
        } else if n == 2 && is_token(&segs[3], "playFinished") {
            Some(HermesTopic::AudioServer(Some(segs[2].clone()), AudioServerCommand::PlayFinished))
        } else if n == 2 {
            component_topic(Some(segs[2].clone()), Component::AudioServer, &segs[3])
        } else {
            None
        }
    }

    fn parse_dialogue_manager(segs: &Vec<String>) -> (r: Option<HermesTopic>)
        requires
            segs.len() >= 2,
        ensures
            opt_view(r) == decode_dialogue_manager(views(segs@).skip(2)),
    {
        if segs.len() < 3 {
            return None;
        }
        match dialogue_manager_command_from(&segs[2]) {
            Some(c) => Some(HermesTopic::DialogueManager(c)),
            None => component_topic(None, Component::DialogueManager, &segs[2]),
        }
    }

    fn parse_feedback(segs: &Vec<String>) -> (r: Option<HermesTopic>)
        requires
            segs.len() >= 2,
        ensures
            opt_view(r) == decode_feedback(views(segs@).skip(2)),
    {
        if segs.len() >= 4 && is_token(&segs[2], "sound") {
            match sound_command_from(&segs[3]) {
                Some(c) => Some(HermesTopic::Feedback(FeedbackCommand::Sound(c))),
                None => None,
            }
        } else {
            None
        }
    }

    fn parse_hotword(segs: &Vec<String>) -> (r: Option<HermesTopic>)
        requires
            segs.len() >= 2,
        ensures
            opt_view(r) == decode_hotword(views(segs@).skip(2)),
    {
        let n = segs.len() - 2;
        if n == 1 && is_token(&segs[2], "toggleOn") {
            Some(HermesTopic::Hotword(None, HotwordCommand::ToggleOn))
        } else if n == 1 && is_token(&segs[2], "toggleOff") {
            Some(HermesTopic::Hotword(None, HotwordCommand::ToggleOff))
        } else if n >= 2 && segs[2].as_str().is_empty() {
            None
        } else if n >= 2 && is_token(&segs[3], "detected") {
            Some(HermesTopic::Hotword(Some(segs[2].clone()), HotwordCommand::Detected))
        } else if n >= 2 {
            component_topic(Some(segs[2].clone()), Component::Hotword, &segs[3])
        } else {
            None
        }
    }

    fn parse_intent(segs: &Vec<String>) -> (r: Option<HermesTopic>)
        requires
            segs.len() >= 2,
        ensures
            opt_view(r) == decode_intent(views(segs@).skip(2)),
    {
        if segs.len() >= 3 {
            Some(HermesTopic::Intent(segs[2].clone()))
        } else {
            None
        }
    }

    fn parse_nlu(segs: &Vec<String>) -> (r: Option<HermesTopic>)
        requires
            segs.len() >= 2,
        ensures
            opt_view(r) == decode_nlu(views(segs@).skip(2)),
    {
        if segs.len() < 3 {
            return None;
        }
        match nlu_command_from(&segs[2]) {
            Some(c) => Some(HermesTopic::Nlu(c)),
            None => component_topic(None, Component::Nlu, &segs[2]),
        }
    }

    fn parse_tts(segs: &Vec<String>) -> (r: Option<HermesTopic>)
        requires
            segs.len() >= 2,
        ensures
            opt_view(r) == decode_tts(views(segs@).skip(2)),
    {
        if segs.len() < 3 {
            return None;
        }
        match tts_command_from(&segs[2]) {
            Some(c) => Some(HermesTopic::Tts(c)),
            None => component_topic(None, Component::Tts, &segs[2]),
        }
    }
}

impl FromPath<HermesTopic> for HermesTopic {
    open spec fn path_model(path: Seq<char>) -> Option<TopicView> {
        decode(path)
    }

    fn from_path(path: &str) -> (r: Option<HermesTopic>) {
        let segs = split_segments(path);
        if segs.len() < 2 || !is_token(&segs[0], "hermes") {
            return None;
        }
        let family = &segs[1];
        // audio server first, being the busiest family
        if is_token(family, "audioServer") {
            HermesTopic::parse_audio_server(&segs)
        } else if is_token(family, "asr") {
            HermesTopic::parse_asr(&segs)
        } else if is_token(family, "dialogueManager") {
            HermesTopic::parse_dialogue_manager(&segs)
        } else if is_token(family, "feedback") {
            HermesTopic::parse_feedback(&segs)
        } else if is_token(family, "intent") {
            HermesTopic::parse_intent(&segs)
        } else if is_token(family, "hotword") {
            HermesTopic::parse_hotword(&segs)
        } else if is_token(family, "nlu") {
            HermesTopic::parse_nlu(&segs)
        } else if is_token(family, "tts") {
            HermesTopic::parse_tts(&segs)
        } else {
            None
        }
    }
}

} // verus!

//! The topic identifiers of the hermes bus and their rendering as wire paths.
use crate::ontology::SiteId;
use crate::path::{join_path, join_segments, views};
use vstd::prelude::*;

verus! {

/// The component families whose introspection topics share one shape.
#[derive(Debug, Clone, Copy, PartialEq, Eq, Structural)]
pub enum Component {
    Hotword,
    Asr,
    Tts,
    Nlu,
    DialogueManager,
    AudioServer,
}

#[derive(Debug, Clone, Copy, PartialEq, Eq, Structural)]
pub enum FeedbackCommand {
    Sound(SoundCommand),
}

#[derive(Debug, Clone, Copy, PartialEq, Eq, Structural)]
pub enum SoundCommand {
    ToggleOn,
    ToggleOff,
}

#[derive(Debug, Clone, Copy, PartialEq, Eq, Structural)]
pub enum DialogueManagerCommand {
    ToggleOn,
    ToggleOff,
    StartSession,
    ContinueSession,
    EndSession,
    SessionQueued,
    SessionStarted,
    SessionEnded,
    IntentNotRecognized,
}

#[derive(Debug, Clone, Copy, PartialEq, Eq, Structural)]
pub enum HotwordCommand {
    ToggleOn,
    ToggleOff,
    Detected,
}

#[derive(Debug, Clone, Copy, PartialEq, Eq, Structural)]
pub enum AsrCommand {
    ToggleOn,
    ToggleOff,
    TextCaptured,
    PartialTextCaptured,
    Reload,
    Inject,
    InjectStatus,
    InjectStatusRequest,
}

#[derive(Debug, Clone, Copy, PartialEq, Eq, Structural)]
pub enum TtsCommand {
    Say,
    SayFinished,
}

#[derive(Debug, Clone, Copy, PartialEq, Eq, Structural)]
pub enum NluCommand {
    Query,
    PartialQuery,
    SlotParsed,
    IntentParsed,
    IntentNotRecognized,
}

#[derive(Debug, Clone, PartialEq)]
pub enum AudioServerCommand {
    AudioFrame,
    PlayBytes(String),
    PlayFinished,
    ToggleOn,
    ToggleOff,
}

/// The introspection commands that every component family answers.
#[derive(Debug, Clone, Copy, PartialEq, Eq, Structural)]
pub enum ComponentCommand {
    VersionRequest,
    Version,
    Error,
}

/// A topic of the bus.
#[derive(Debug, Clone, PartialEq)]
pub enum HermesTopic {
    Feedback(FeedbackCommand),
    DialogueManager(DialogueManagerCommand),
    Hotword(Option<String>, HotwordCommand),
    Asr(AsrCommand),
    Tts(TtsCommand),
    Nlu(NluCommand),
    Intent(String),
    AudioServer(Option<SiteId>, AudioServerCommand),
    Component(Option<String>, Component, ComponentCommand),
}

/// The mathematical value of an `AudioServerCommand`.
pub enum AudioServerCommandView {
    AudioFrame,
    PlayBytes(Seq<char>),
    PlayFinished,
    ToggleOn,
    ToggleOff,
}

/// The mathematical value of a `HermesTopic`: strings become character
/// sequences.
pub enum TopicView {
    Feedback(FeedbackCommand),
    DialogueManager(DialogueManagerCommand),
    Hotword(Option<Seq<char>>, HotwordCommand),
    Asr(AsrCommand),
    Tts(TtsCommand),
    Nlu(NluCommand),
    Intent(Seq<char>),
    AudioServer(Option<Seq<char>>, AudioServerCommandView),
    Component(Option<Seq<char>>, Component, ComponentCommand),
}

pub open spec fn opt_str_view(o: Option<String>) -> Option<Seq<char>> {
    match o {
        Some(s) => Some(s@),
        None => None,
    }
}

/// The view of an optional value.
pub open spec fn opt_view<T: View>(o: Option<T>) -> Option<T::V> {
    match o {
        Some(x) => Some(x@),
        None => None,
    }
}

impl View for AudioServerCommand {
    type V = AudioServerCommandView;

    open spec fn view(&self) -> AudioServerCommandView {
        match self {
            AudioServerCommand::AudioFrame => AudioServerCommandView::AudioFrame,
            AudioServerCommand::PlayBytes(f) => AudioServerCommandView::PlayBytes(f@),
            AudioServerCommand::PlayFinished => AudioServerCommandView::PlayFinished,
            AudioServerCommand::ToggleOn => AudioServerCommandView::ToggleOn,
            AudioServerCommand::ToggleOff => AudioServerCommandView::ToggleOff,
        }
    }
}

impl View for HermesTopic {
    type V = TopicView;

    open spec fn view(&self) -> TopicView {
        match self {
            HermesTopic::Feedback(c) => TopicView::Feedback(*c),
            HermesTopic::DialogueManager(c) => TopicView::DialogueManager(*c),
            HermesTopic::Hotword(site, c) => TopicView::Hotword(opt_str_view(*site), *c),
            HermesTopic::Asr(c) => TopicView::Asr(*c),
            HermesTopic::Tts(c) => TopicView::Tts(*c),
            HermesTopic::Nlu(c) => TopicView::Nlu(*c),
            HermesTopic::Intent(name) => TopicView::Intent(name@),
            HermesTopic::AudioServer(site, c) => TopicView::AudioServer(opt_str_view(*site), c@),
            HermesTopic::Component(site, comp, c) => TopicView::Component(
                opt_str_view(*site),
                *comp,
                *c,
            ),
        }
    }
}

// Wire tokens of the leaf tags.
pub open spec fn component_token(c: Component) -> Seq<char> {
    match c {
        Component::Hotword => "hotword"@,
        Component::Asr => "asr"@,
        Component::Tts => "tts"@,
        Component::Nlu => "nlu"@,
        Component::DialogueManager => "dialogueManager"@,
        Component::AudioServer => "audioServer"@,
    }
}

pub open spec fn sound_token(c: SoundCommand) -> Seq<char> {
    match c {
        SoundCommand::ToggleOn => "toggleOn"@,
        SoundCommand::ToggleOff => "toggleOff"@,
    }
}

pub open spec fn dialogue_manager_token(c: DialogueManagerCommand) -> Seq<char> {
    match c {
        DialogueManagerCommand::ToggleOn => "toggleOn"@,
        DialogueManagerCommand::ToggleOff => "toggleOff"@,
        DialogueManagerCommand::StartSession => "startSession"@,
        DialogueManagerCommand::ContinueSession => "continueSession"@,
        DialogueManagerCommand::EndSession => "endSession"@,
        DialogueManagerCommand::SessionQueued => "sessionQueued"@,
        DialogueManagerCommand::SessionStarted => "sessionStarted"@,
        DialogueManagerCommand::SessionEnded => "sessionEnded"@,
        DialogueManagerCommand::IntentNotRecognized => "intentNotRecognized"@,
    }
}

pub open spec fn hotword_token(c: HotwordCommand) -> Seq<char> {
    match c {
        HotwordCommand::ToggleOn => "toggleOn"@,
        HotwordCommand::ToggleOff => "toggleOff"@,
        HotwordCommand::Detected => "detected"@,
    }
}

pub open spec fn asr_token(c: AsrCommand) -> Seq<char> {
    match c {
        AsrCommand::ToggleOn => "toggleOn"@,
        AsrCommand::ToggleOff => "toggleOff"@,
        AsrCommand::TextCaptured => "textCaptured"@,
        AsrCommand::PartialTextCaptured => "partialTextCaptured"@,
        AsrCommand::Reload => "reload"@,
        AsrCommand::Inject => "inject"@,
        AsrCommand::InjectStatus => "injectStatus"@,
        AsrCommand::InjectStatusRequest => "injectStatusRequest"@,
    }
}

pub open spec fn tts_token(c: TtsCommand) -> Seq<char> {
    match c {
        TtsCommand::Say => "say"@,
        TtsCommand::SayFinished => "sayFinished"@,
    }
}

pub open spec fn nlu_token(c: NluCommand) -> Seq<char> {
    match c {
        NluCommand::Query => "query"@,
        NluCommand::PartialQuery => "partialQuery"@,
        NluCommand::SlotParsed => "slotParsed"@,
        NluCommand::IntentParsed => "intentParsed"@,
        NluCommand::IntentNotRecognized => "intentNotRecognized"@,
    }
}

pub open spec fn component_command_token(c: ComponentCommand) -> Seq<char> {
    match c {
        ComponentCommand::VersionRequest => "versionRequest"@,
        ComponentCommand::Version => "version"@,
        ComponentCommand::Error => "error"@,
    }
}

/// The segments of a feedback command's rendering.
pub open spec fn feedback_segments(c: FeedbackCommand) -> Seq<Seq<char>> {
    match c {
        FeedbackCommand::Sound(s) => seq!["sound"@, sound_token(s)],
    }
}

/// The segments of an audio server command's rendering.
pub open spec fn audio_server_segments(c: AudioServerCommandView) -> Seq<Seq<char>> {
    match c {
        AudioServerCommandView::AudioFrame => seq!["audioFrame"@],
        AudioServerCommandView::PlayBytes(file) => seq!["playBytes"@, file],
        AudioServerCommandView::PlayFinished => seq!["playFinished"@],
        AudioServerCommandView::ToggleOn => seq!["toggleOn"@],
        AudioServerCommandView::ToggleOff => seq!["toggleOff"@],
    }
}

/// A family token, then the site when there is one, then the command.
pub open spec fn qualified(
    family: Seq<char>,
    site: Option<Seq<char>>,
    command: Seq<Seq<char>>,
) -> Seq<Seq<char>> {
    match site {
        Some(s) => seq![family, s] + command,
        None => seq![family] + command,
    }
}

/// The segments of a topic's wire path: `hermes`, the family, the site if
/// any, then the command and its argument if any.
pub open spec fn topic_segments(t: TopicView) -> Seq<Seq<char>> {
    seq!["hermes"@] + match t {
        TopicView::Feedback(c) => seq!["feedback"@] + feedback_segments(c),
        TopicView::DialogueManager(c) => seq![
            component_token(Component::DialogueManager),
            dialogue_manager_token(c),
        ],
        TopicView::Hotword(site, c) => qualified(
            component_token(Component::Hotword),
            site,
            seq![hotword_token(c)],
        ),
        TopicView::Asr(c) => seq![component_token(Component::Asr), asr_token(c)],
        TopicView::Tts(c) => seq![component_token(Component::Tts), tts_token(c)],
        TopicView::Nlu(c) => seq![component_token(Component::Nlu), nlu_token(c)],
        TopicView::Intent(name) => seq!["intent"@, name],
        TopicView::AudioServer(site, c) => qualified(
            component_token(Component::AudioServer),
            site,
            audio_server_segments(c),
        ),
        TopicView::Component(site, comp, c) => qualified(
            component_token(comp),
            site,
            seq![component_command_token(c)],
        ),
    }
}

/// The wire path of a topic.
pub open spec fn encode(t: TopicView) -> Seq<char> {
    join_path(topic_segments(t))
}


/// Rendering as a wire path, or as the part of one that a value stands for.
pub trait ToPath {
    spec fn path_view(&self) -> Seq<char>;

    fn as_path(&self) -> (r: String)
        ensures
            r@ == self.path_view(),
    ;
}

impl Component {
    /// The wire token of this tag.
    fn token(&self) -> (r: &'static str)
        ensures
            r@ == component_token(*self),
    {
        match self {
            Component::Hotword => "hotword",
            Component::Asr => "asr",
            Component::Tts => "tts",
            Component::Nlu => "nlu",
            Component::DialogueManager => "dialogueManager",
            Component::AudioServer => "audioServer",
        }
    }
}

impl ToPath for Component {
    open spec fn path_view(&self) -> Seq<char> {
        component_token(*self)
    }

    fn as_path(&self) -> (r: String) {
        self.token().to_owned()
    }
}

impl SoundCommand {
    /// The wire token of this tag.
    fn token(&self) -> (r: &'static str)
        ensures
            r@ == sound_token(*self),
    {
        match self {
            SoundCommand::ToggleOn => "toggleOn",
            SoundCommand::ToggleOff => "toggleOff",
        }
    }
}

impl ToPath for SoundCommand {
    open spec fn path_view(&self) -> Seq<char> {
        sound_token(*self)
    }

    fn as_path(&self) -> (r: String) {
        self.token().to_owned()
    }
}

impl DialogueManagerCommand {
    /// The wire token of this tag.
    fn token(&self) -> (r: &'static str)
        ensures
            r@ == dialogue_manager_token(*self),
    {
        match self {
            DialogueManagerCommand::ToggleOn => "toggleOn",
            DialogueManagerCommand::ToggleOff => "toggleOff",
            DialogueManagerCommand::StartSession => "startSession",
            DialogueManagerCommand::ContinueSession => "continueSession",
            DialogueManagerCommand::EndSession => "endSession",
            DialogueManagerCommand::SessionQueued => "sessionQueued",
            DialogueManagerCommand::SessionStarted => "sessionStarted",
            DialogueManagerCommand::SessionEnded => "sessionEnded",
            DialogueManagerCommand::IntentNotRecognized => "intentNotRecognized",
        }
    }
}

impl ToPath for DialogueManagerCommand {
    open spec fn path_view(&self) -> Seq<char> {
        dialogue_manager_token(*self)
    }

    fn as_path(&self) -> (r: String) {
        self.token().to_owned()
    }
}

impl HotwordCommand {
    /// The wire token of this tag.
    fn token(&self) -> (r: &'static str)
        ensures
            r@ == hotword_token(*self),
    {
        match self {
            HotwordCommand::ToggleOn => "toggleOn",
            HotwordCommand::ToggleOff => "toggleOff",
            HotwordCommand::Detected => "detected",
        }
    }
}

impl ToPath for HotwordCommand {
    open spec fn path_view(&self) -> Seq<char> {
        hotword_token(*self)
    }

    fn as_path(&self) -> (r: String) {
        self.token().to_owned()
    }
}

impl AsrCommand {
    /// The wire token of this tag.
    fn token(&self) -> (r: &'static str)
        ensures
            r@ == asr_token(*self),
    {
        match self {
            AsrCommand::ToggleOn => "toggleOn",
            AsrCommand::ToggleOff => "toggleOff",
            AsrCommand::TextCaptured => "textCaptured",
            AsrCommand::PartialTextCaptured => "partialTextCaptured",
            AsrCommand::Reload => "reload",
            AsrCommand::Inject => "inject",
            AsrCommand::InjectStatus => "injectStatus",
            AsrCommand::InjectStatusRequest => "injectStatusRequest",
        }
    }
}

impl ToPath for AsrCommand {
    open spec fn path_view(&self) -> Seq<char> {
        asr_token(*self)
    }

    fn as_path(&self) -> (r: String) {
        self.token().to_owned()
    }
}

impl TtsCommand {
    /// The wire token of this tag.
    fn token(&self) -> (r: &'static str)
        ensures
            r@ == tts_token(*self),
    {
        match self {
            TtsCommand::Say => "say",
            TtsCommand::SayFinished => "sayFinished",
        }
    }
}

impl ToPath for TtsCommand {
    open spec fn path_view(&self) -> Seq<char> {
        tts_token(*self)
    }

    fn as_path(&self) -> (r: String) {
        self.token().to_owned()
    }
}

impl NluCommand {
    /// The wire token of this tag.
    fn token(&self) -> (r: &'static str)
        ensures
            r@ == nlu_token(*self),
    {
        match self {
            NluCommand::Query => "query",
            NluCommand::PartialQuery => "partialQuery",
            NluCommand::SlotParsed => "slotParsed",
            NluCommand::IntentParsed => "intentParsed",
            NluCommand::IntentNotRecognized => "intentNotRecognized",
        }
    }
}

impl ToPath for NluCommand {
    open spec fn path_view(&self) -> Seq<char> {
        nlu_token(*self)
    }

    fn as_path(&self) -> (r: String) {
        self.token().to_owned()
    }
}

impl ComponentCommand {
    /// The wire token of this tag.
    fn token(&self) -> (r: &'static str)
        ensures
            r@ == component_command_token(*self),
    {
        match self {
            ComponentCommand::VersionRequest => "versionRequest",
            ComponentCommand::Version => "version",
            ComponentCommand::Error => "error",
        }
    }
}

impl ToPath for ComponentCommand {
    open spec fn path_view(&self) -> Seq<char> {
        component_command_token(*self)
    }

    fn as_path(&self) -> (r: String) {
        self.token().to_owned()
    }
}

impl FeedbackCommand {
    fn segments(&self) -> (r: Vec<String>)
        ensures
            views(r@) == feedback_segments(*self),
    {
        match self {
            FeedbackCommand::Sound(c) => {
                let r = vec!["sound".to_owned(), c.as_path()];
                assert(views(r@) =~= feedback_segments(*self));
                r
            },
        }
    }
}

impl ToPath for FeedbackCommand {
    open spec fn path_view(&self) -> Seq<char> {
        join_path(feedback_segments(*self))
    }

    fn as_path(&self) -> (r: String) {
        join_segments(&self.segments())
    }
}

impl AudioServerCommand {
    fn segments(&self) -> (r: Vec<String>)
        ensures
            views(r@) == audio_server_segments(self@),
    {
        let r = match self {
            AudioServerCommand::AudioFrame => vec!["audioFrame".to_owned()],
            AudioServerCommand::PlayBytes(file) => vec!["playBytes".to_owned(), file.clone()],
            AudioServerCommand::PlayFinished => vec!["playFinished".to_owned()],
            AudioServerCommand::ToggleOn => vec!["toggleOn".to_owned()],
            AudioServerCommand::ToggleOff => vec!["toggleOff".to_owned()],
        };
        assert(views(r@) =~= audio_server_segments(self@));
        r
    }
}

impl ToPath for AudioServerCommand {
    open spec fn path_view(&self) -> Seq<char> {
        join_path(audio_server_segments(self@))
    }

    fn as_path(&self) -> (r: String) {
        join_segments(&self.segments())
    }
}

/// `family`, then `site` when there is one, then `command`.
fn qualified_segments(family: &str, site: &Option<String>, command: Vec<String>) -> (r: Vec<String>)
    ensures
        views(r@) == qualified(family@, opt_str_view(*site), views(command@)),
{
    let mut r: Vec<String> = vec![family.to_owned()];
    match site {
        Some(s) => r.push(s.clone()),
        None => {},
    }
    let ghost head = r@;
    let ghost tail = command@;
    let mut command = command;
    r.append(&mut command);
    assert(views(r@) =~= views(head) + views(tail));
    assert(views(r@) =~= qualified(family@, opt_str_view(*site), views(tail)));
    r
}

impl HermesTopic {
    /// The segments of this topic's wire path.
    fn segments(&self) -> (r: Vec<String>)
        ensures
            views(r@) == topic_segments(self@),
    {
        let rest: Vec<String> = match self {
            HermesTopic::Feedback(c) => {
                let mut r = vec!["feedback".to_owned()];
                let mut inner = c.segments();
                let ghost tail = inner@;
                r.append(&mut inner);
                assert(views(r@) =~= seq!["feedback"@] + views(tail));
                r
            },
            HermesTopic::DialogueManager(c) => vec![
                Component::DialogueManager.as_path(),
                c.as_path(),
            ],
            HermesTopic::Hotword(site, c) => qualified_segments(
                Component::Hotword.token(),
                site,
                vec![c.as_path()],
            ),
            HermesTopic::Asr(c) => vec![Component::Asr.as_path(), c.as_path()],
            HermesTopic::Tts(c) => vec![Component::Tts.as_path(), c.as_path()],
            HermesTopic::Nlu(c) => vec![Component::Nlu.as_path(), c.as_path()],
            HermesTopic::Intent(name) => vec!["intent".to_owned(), name.clone()],
            HermesTopic::AudioServer(site, c) => qualified_segments(
                Component::AudioServer.token(),
                site,
                c.segments(),
            ),
            HermesTopic::Component(site, comp, c) => qualified_segments(
                comp.token(),
                site,
                vec![c.as_path()],
            ),
        };
    let mut r: Vec<String> = vec!["hermes".to_owned()];
        let ghost tail = rest@;
        let mut rest = rest;
        r.append(&mut rest);
        assert(views(r@) =~= seq!["hermes"@] + views(tail));
        assert(views(tail) =~= topic_segments(self@).skip(1));
        assert(views(r@) =~= topic_segments(self@));
        r
    }
}

impl ToPath for HermesTopic {
    open spec fn path_view(&self) -> Seq<char> {
        encode(self@)
    }

    fn as_path(&self) -> (r: String) {
        join_segments(&self.segments())
    }
}

} // verus!

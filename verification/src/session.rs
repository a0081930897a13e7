use vstd::prelude::*;

use crate::engine::EngineError;

verus! {

/// Where the recognition and translation work stands.
#[derive(Clone, Copy, PartialEq, Eq, Structural, Debug)]
pub enum OcrState {
    /// Waiting for a picture.
    Idle,
    /// A recognition was started; the engine is loading.
    Initializing,
    /// The vision engine is recognising the picture.
    Processing,
    /// The last run produced text.
    Success,
    /// The last run failed.
    Failure,
    /// The text engine is translating.
    Translating,
}

/// A new picture may be chosen or pasted: nothing is running.
pub open spec fn is_pickable(s: OcrState) -> bool {
    s == OcrState::Idle || s == OcrState::Success || s == OcrState::Failure
}

/// An engine is running.
pub open spec fn is_busy_state(s: OcrState) -> bool {
    s == OcrState::Initializing || s == OcrState::Processing || s == OcrState::Translating
}

/// The state of one window: the work's state, the recognised and translated
/// texts, the picture being worked on, and which views are open.
pub struct Session {
    pub state: OcrState,
    pub ocr_content: String,
    pub translated_content: String,
    pub selected_path: String,
    pub is_editing: bool,
    pub is_chat_mode: bool,
    pub show_settings: bool,
    pub show_history: bool,
}

/// The abstract value of a [`Session`].
pub struct SessionModel {
    pub state: OcrState,
    pub ocr: Seq<char>,
    pub translated: Seq<char>,
    pub selected: Seq<char>,
    pub editing: bool,
    pub chat: bool,
    pub settings: bool,
    pub history: bool,
}

impl View for Session {
    type V = SessionModel;

    open spec fn view(&self) -> SessionModel {
        SessionModel {
            state: self.state,
            ocr: self.ocr_content@,
            translated: self.translated_content@,
            selected: self.selected_path@,
            editing: self.is_editing,
            chat: self.is_chat_mode,
            settings: self.show_settings,
            history: self.show_history,
        }
    }
}

/// What a finished run leaves to show: its text, or its failure text.
pub open spec fn shown_outcome(r: Result<String, EngineError>) -> Result<Seq<char>, Seq<char>> {
    match r {
        Ok(t) => Ok(t@),
        Err(e) => Err(e.failure_text_spec()),
    }
}

/// A fresh window: nothing chosen, nothing shown, every view closed.
pub open spec fn initial_model() -> SessionModel {
    SessionModel {
        state: OcrState::Idle,
        ocr: Seq::empty(),
        translated: Seq::empty(),
        selected: Seq::empty(),
        editing: false,
        chat: false,
        settings: false,
        history: false,
    }
}

/// Starting recognition of the picture at `path`: both texts cleared, the engine
/// loading.
pub open spec fn begin_ocr_model(m: SessionModel, path: Seq<char>) -> SessionModel {
    SessionModel { state: OcrState::Initializing, ocr: Seq::empty(), translated: Seq::empty(), selected: path, ..m }
}

/// The vision engine has been found and is recognising.
pub open spec fn processing_model(m: SessionModel) -> SessionModel {
    SessionModel { state: OcrState::Processing, ..m }
}

/// A recognition finished: its text (or failure text) is shown.
pub open spec fn finish_ocr_model(m: SessionModel, outcome: Result<Seq<char>, Seq<char>>) -> SessionModel {
    match outcome {
        Ok(t) => SessionModel { state: OcrState::Success, ocr: t, ..m },
        Err(f) => SessionModel { state: OcrState::Failure, ocr: f, ..m },
    }
}

/// Starting a translation: editing stops, the text engine runs.
pub open spec fn begin_translate_model(m: SessionModel) -> SessionModel {
    SessionModel { state: OcrState::Translating, editing: false, ..m }
}

/// A translation finished: its text (or failure text) is shown beside the
/// recognised text.
pub open spec fn finish_translate_model(m: SessionModel, outcome: Result<Seq<char>, Seq<char>>) -> SessionModel {
    match outcome {
        Ok(t) => SessionModel { state: OcrState::Success, translated: t, ..m },
        Err(f) => SessionModel { state: OcrState::Failure, translated: f, ..m },
    }
}

/// A pasted picture could not be stored.
pub open spec fn paste_failed_model(m: SessionModel) -> SessionModel {
    SessionModel { state: OcrState::Failure, ..m }
}

/// Clearing the results: both texts and the picture forgotten, back to waiting.
pub open spec fn clear_model(m: SessionModel) -> SessionModel {
    SessionModel {
        state: OcrState::Idle,
        ocr: Seq::empty(),
        translated: Seq::empty(),
        selected: Seq::empty(),
        editing: false,
        ..m
    }
}

/// The text copied by "copy all": the recognised text, followed, if there is a
/// translation, by a separator line and the translation.
pub open spec fn copy_all_spec(ocr: Seq<char>, translated: Seq<char>) -> Seq<char> {
    if translated.len() == 0 {
        ocr
    } else {
        ocr + "\n\n---\n\n"@ + translated
    }
}

/// The progress note the status bar shows for a state, if any.
pub open spec fn status_message_spec(s: OcrState) -> Option<Seq<char>> {
    match s {
        OcrState::Initializing => Some("正在唤醒引擎..."@),
        OcrState::Processing => Some("正在推理中..."@),
        OcrState::Translating => Some("正在翻译中..."@),
        _ => None,
    }
}

/// Which of its three views the content area shows.
#[derive(Clone, Copy, PartialEq, Eq, Structural, Debug)]
pub enum ContentMode {
    /// The list of models to chat with.
    ModelList,
    /// The texts as editable fields.
    Editing,
    /// The texts for reading.
    Reading,
}

impl Session {
    /// A fresh window.
    pub fn new() -> (s: Session)
        ensures
            s@ == initial_model(),
    {
        Session {
            state: OcrState::Idle,
            ocr_content: String::new(),
            translated_content: String::new(),
            selected_path: String::new(),
            is_editing: false,
            is_chat_mode: false,
            show_settings: false,
            show_history: false,
        }
    }

    /// Whether a picture may be chosen or pasted now.
    pub fn can_pick(&self) -> (b: bool)
        ensures
            b == is_pickable(self.state),
    {
        self.state == OcrState::Idle || self.state == OcrState::Success || self.state
            == OcrState::Failure
    }

    /// Whether an engine is running.
    pub fn is_busy(&self) -> (b: bool)
        ensures
            b == is_busy_state(self.state),
    {
        self.state == OcrState::Initializing || self.state == OcrState::Processing || self.state
            == OcrState::Translating
    }

    /// Whether there is recognised text (which copying needs).
    pub fn has_content(&self) -> (b: bool)
        ensures
            b == (self.ocr_content@.len() > 0),
    {
        !self.ocr_content.as_str().is_empty()
    }

    /// Whether a translation may be started: there is text and nothing runs.
    pub fn can_translate(&self) -> (b: bool)
        ensures
            b == (self.ocr_content@.len() > 0 && !is_busy_state(self.state)),
    {
        self.has_content() && !self.is_busy()
    }

    /// Starts recognising the picture at `path`.
    pub fn begin_ocr(&mut self, path: String)
        ensures
            final(self)@ == begin_ocr_model(old(self)@, path@),
    {
        self.selected_path = path;
        self.state = OcrState::Initializing;
        self.ocr_content = String::new();
        self.translated_content = String::new();
    }

    /// The vision engine was found and runs.
    pub fn mark_processing(&mut self)
        ensures
            final(self)@ == processing_model(old(self)@),
    {
        self.state = OcrState::Processing;
    }

    /// A recognition of the picture stored at `image_path` finished with
    /// `outcome`. On success, the text is shown and the record to keep in the
    /// history is returned; on failure, the failure text is shown.
    pub fn finish_ocr(&mut self, image_path: String, outcome: Result<String, EngineError>) -> (rec:
        Option<HistoryRecord>)
        ensures
            final(self)@ == finish_ocr_model(old(self)@, shown_outcome(outcome)),
            outcome is Err ==> rec is None,
            outcome matches Ok(t) ==> (rec matches Some(r) && r.ocr_text@ == t@
                && r.translated_text@.len() == 0 && r.image_path@ == image_path@),
    {
        match outcome {
            Ok(text) => {
                let rec = HistoryRecord {
                    ocr_text: text.clone(),
                    translated_text: String::new(),
                    image_path,
                };
                self.ocr_content = text;
                self.state = OcrState::Success;
                Some(rec)
            },
            Err(e) => {
                self.ocr_content = e.failure_text();
                self.state = OcrState::Failure;
                None
            },
        }
    }

    /// Starts translating the recognised text, which is returned.
    pub fn begin_translate(&mut self) -> (source: String)
        ensures
            final(self)@ == begin_translate_model(old(self)@),
            source@ == old(self).ocr_content@,
    {
        self.is_editing = false;
        self.state = OcrState::Translating;
        self.ocr_content.clone()
    }

    /// A translation finished with `outcome`.
    pub fn finish_translate(&mut self, outcome: Result<String, EngineError>)
        ensures
            final(self)@ == finish_translate_model(old(self)@, shown_outcome(outcome)),
    {
        match outcome {
            Ok(text) => {
                self.translated_content = text;
                self.state = OcrState::Success;
            },
            Err(e) => {
                self.translated_content = e.failure_text();
                self.state = OcrState::Failure;
            },
        }
    }

    /// A pasted picture could not be stored for recognition.
    pub fn paste_failed(&mut self)
        ensures
            final(self)@ == paste_failed_model(old(self)@),
    {
        self.state = OcrState::Failure;
    }

    /// Forgets both texts and the picture, and waits for a new one.
    pub fn clear_results(&mut self)
        ensures
            final(self)@ == clear_model(old(self)@),
    {
        self.ocr_content = String::new();
        self.translated_content = String::new();
        self.selected_path = String::new();
        self.state = OcrState::Idle;
        self.is_editing = false;
    }

    /// Switches between reading and editing the texts.
    pub fn toggle_editing(&mut self)
        ensures
            final(self)@ == (SessionModel { editing: !old(self)@.editing, ..old(self)@ }),
    {
        self.is_editing = !self.is_editing;
    }

    /// Opens or closes the model list.
    pub fn toggle_chat_mode(&mut self)
        ensures
            final(self)@ == (SessionModel { chat: !old(self)@.chat, ..old(self)@ }),
    {
        self.is_chat_mode = !self.is_chat_mode;
    }

    /// Opens or closes the settings window.
    pub fn toggle_settings(&mut self)
        ensures
            final(self)@ == (SessionModel { settings: !old(self)@.settings, ..old(self)@ }),
    {
        self.show_settings = !self.show_settings;
    }

    /// Opens or closes the history window.
    pub fn toggle_history(&mut self)
        ensures
            final(self)@ == (SessionModel { history: !old(self)@.history, ..old(self)@ }),
    {
        self.show_history = !self.show_history;
    }

    /// After the settings window was drawn: saving closes it; otherwise it stays
    /// as the user left it (closed by its close button or still open).
    pub fn settings_drawn(&mut self, saved: bool, still_open: bool)
        ensures
            final(self)@ == (SessionModel { settings: !saved && still_open, ..old(self)@ }),
    {
        self.show_settings = !saved && still_open;
    }

    /// After the history window was drawn: it stays open only if the user did
    /// not close it.
    pub fn history_drawn(&mut self, still_open: bool)
        ensures
            final(self)@ == (SessionModel { history: still_open, ..old(self)@ }),
    {
        self.show_history = still_open;
    }

    /// The text "copy all" puts on the clipboard.
    pub fn copy_all_text(&self) -> (s: String)
        ensures
            s@ == copy_all_spec(self.ocr_content@, self.translated_content@),
    {
        if self.translated_content.as_str().is_empty() {
            self.ocr_content.clone()
        } else {
            let mut s = self.ocr_content.clone();
            s.append("\n\n---\n\n");
            s.append(self.translated_content.as_str());
            s
        }
    }

    /// Whether the status bar is shown: a picture is chosen, or the vision
    /// engine is loading or running.
    pub fn status_bar_visible(&self) -> (b: bool)
        ensures
            b == (self.selected_path@.len() > 0 || self.state == OcrState::Initializing
                || self.state == OcrState::Processing),
    {
        !self.selected_path.as_str().is_empty() || self.state == OcrState::Initializing
            || self.state == OcrState::Processing
    }

    /// The progress note of the status bar, if any.
    pub fn status_message(&self) -> (m: Option<String>)
        ensures
            opt_seq(m) == status_message_spec(self.state),
    {
        match self.state {
            OcrState::Initializing => Some(String::from_str("正在唤醒引擎...")),
            OcrState::Processing => Some(String::from_str("正在推理中...")),
            OcrState::Translating => Some(String::from_str("正在翻译中...")),
            _ => None,
        }
    }

    /// The status bar's note of the picture being worked on.
    pub fn image_label(&self) -> (s: String)
        ensures
            s@ == "当前图片: "@ + self.selected_path@,
    {
        let mut s = String::from_str("当前图片: ");
        s.append(self.selected_path.as_str());
        s
    }

    /// Which view the content area shows: the model list in chat mode, else the
    /// editable texts when editing, else the texts for reading.
    pub fn content_mode(&self) -> (c: ContentMode)
        ensures
            c == (if self.is_chat_mode {
                ContentMode::ModelList
            } else if self.is_editing {
                ContentMode::Editing
            } else {
                ContentMode::Reading
            }),
    {
        if self.is_chat_mode {
            ContentMode::ModelList
        } else if self.is_editing {
            ContentMode::Editing
        } else {
            ContentMode::Reading
        }
    }

    /// Whether the reading view shows the hint to choose a picture: there is
    /// neither recognised nor translated text.
    pub fn shows_hint(&self) -> (b: bool)
        ensures
            b == (self.translated_content@.len() == 0 && self.ocr_content@.len() == 0),
    {
        self.translated_content.as_str().is_empty() && self.ocr_content.as_str().is_empty()
    }

    /// Whether the editing view shows a field for the translation: there is one.
    pub fn shows_translation_editor(&self) -> (b: bool)
        ensures
            b == (self.translated_content@.len() > 0),
    {
        !self.translated_content.as_str().is_empty()
    }

    /// Whether the reading view keeps scrolling to the end: the vision engine is
    /// loading or running.
    pub fn follows_output(&self) -> (b: bool)
        ensures
            b == (self.state == OcrState::Initializing || self.state == OcrState::Processing),
    {
        self.state == OcrState::Initializing || self.state == OcrState::Processing
    }

    /// Whether the recognised text is shown as an error.
    pub fn shows_error(&self) -> (b: bool)
        ensures
            b == (self.state == OcrState::Failure),
    {
        self.state == OcrState::Failure
    }

    /// The caption of the button switching between reading and editing.
    pub fn edit_toggle_label(&self) -> (s: String)
        ensures
            s@ == (if self.is_editing {
                "阅读模式"@
            } else {
                "编辑模式"@
            }),
    {
        if self.is_editing {
            String::from_str("阅读模式")
        } else {
            String::from_str("编辑模式")
        }
    }

    /// The caption of the button opening or closing the model list.
    pub fn chat_toggle_label(&self) -> (s: String)
        ensures
            s@ == (if self.is_chat_mode {
                "退出对话"@
            } else {
                "AI对话"@
            }),
    {
        if self.is_chat_mode {
            String::from_str("退出对话")
        } else {
            String::from_str("AI对话")
        }
    }
}

/// The view of an optional string.
pub open spec fn opt_seq(o: Option<String>) -> Option<Seq<char>> {
    match o {
        Some(s) => Some(s@),
        None => None,
    }
}

/// What the history keeps of a successful recognition.
pub struct HistoryRecord {
    pub ocr_text: String,
    pub translated_text: String,
    pub image_path: String,
}

} // verus!

verus! {

/// Every state either lets a new picture be chosen or has an engine running,
/// never both.
pub proof fn law_pickable_xor_busy(s: OcrState)
    ensures
        is_pickable(s) != is_busy_state(s),
{
}

/// A recognition run keeps the window busy until it finishes, and then leaves it
/// ready for a new picture, showing exactly the recognised text (or the failure
/// text), with no translation and the chosen picture still noted; the open views
/// are untouched.
pub proof fn law_recognition_cycle(m: SessionModel, path: Seq<char>, outcome: Result<Seq<char>, Seq<char>>)
    ensures
        is_busy_state(begin_ocr_model(m, path).state),
        is_busy_state(processing_model(begin_ocr_model(m, path)).state),
        ({
            let end = finish_ocr_model(processing_model(begin_ocr_model(m, path)), outcome);
            &&& is_pickable(end.state)
            &&& end.selected == path
            &&& end.translated.len() == 0
            &&& outcome matches Ok(t) ==> end.state == OcrState::Success && end.ocr == t
            &&& outcome matches Err(f) ==> end.state == OcrState::Failure && end.ocr == f
            &&& end.editing == m.editing && end.chat == m.chat && end.settings == m.settings
                && end.history == m.history
        }),
{
}

/// Translating never changes the recognised text or the chosen picture, and
/// leaves the window ready for a new picture with the translation (or failure
/// text) beside the recognised text.
pub proof fn law_translation_keeps_recognition(m: SessionModel, outcome: Result<Seq<char>, Seq<char>>)
    ensures
        is_busy_state(begin_translate_model(m).state),
        ({
            let end = finish_translate_model(begin_translate_model(m), outcome);
            &&& end.ocr == m.ocr
            &&& end.selected == m.selected
            &&& is_pickable(end.state)
            &&& !end.editing
            &&& outcome matches Ok(t) ==> end.translated == t
            &&& outcome matches Err(f) ==> end.translated == f
        }),
{
}

/// Clearing leaves nothing to show or copy and the window ready for a new
/// picture; clearing twice is clearing once.
pub proof fn law_clear_resets(m: SessionModel)
    ensures
        clear_model(clear_model(m)) == clear_model(m),
        is_pickable(clear_model(m).state),
        copy_all_spec(clear_model(m).ocr, clear_model(m).translated).len() == 0,
        status_message_spec(clear_model(m).state) is None,
{
}

/// Starting recognition forgets whatever was shown before, whatever it was.
pub proof fn law_begin_ocr_forgets(m1: SessionModel, m2: SessionModel, path: Seq<char>)
    requires
        m1.editing == m2.editing && m1.chat == m2.chat && m1.settings == m2.settings && m1.history
            == m2.history,
    ensures
        begin_ocr_model(m1, path) == begin_ocr_model(m2, path),
{
}

} // verus!

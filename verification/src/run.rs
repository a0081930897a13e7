use vstd::prelude::*;

use crate::config::OcrResources;
use crate::engine::{
    chat_shell_line_spec, chat_terminal_command, cleaned_output, lossy_utf8, ocr_args_spec,
    ocr_command, read_ocr_output, read_translation_output, translate_args_spec, translate_command,
    translate_prompt_spec, Command, EngineError,
};
use crate::paths::string_views;
use crate::resources::ResourceError;
use crate::session::{
    begin_ocr_model, finish_ocr_model, finish_translate_model, is_pickable, processing_model,
    HistoryRecord, OcrState, Session, SessionModel,
};
use crate::text::trim_seq;

verus! {

/// What running an engine process gave: whether it exited successfully, its
/// exit code if it had one, and what it wrote to its output and error streams.
pub struct ProcessOutput {
    pub success: bool,
    pub code: Option<i32>,
    pub stdout: Vec<u8>,
    pub stderr: Vec<u8>,
}

/// The failure text shown when the resources could not be found.
pub open spec fn resource_failure_text(e: ResourceError) -> Seq<char> {
    EngineError::Resources(e).failure_text_spec()
}

/// What a recognition run shows once its process ran (or could not be
/// started, with the system's reason): the trimmed output, or a failure text.
pub open spec fn recognition_shown(run: Result<ProcessOutput, String>) -> Result<Seq<char>, Seq<char>> {
    match run {
        Err(reason) => Err(EngineError::Launch(reason).failure_text_spec()),
        Ok(out) => if !out.success {
            Err("❌ 错误: "@ + ("OCR 引擎执行失败: "@ + lossy_utf8(out.stderr@)))
        } else if trim_seq(lossy_utf8(out.stdout@)).len() == 0 {
            Err(EngineError::OcrNoOutput.failure_text_spec())
        } else {
            Ok(trim_seq(lossy_utf8(out.stdout@)))
        },
    }
}

/// What a translation run shows once its process ran (or could not be
/// started): the cleaned output, or a failure text.
pub open spec fn translation_shown(run: Result<ProcessOutput, String>) -> Result<Seq<char>, Seq<char>> {
    match run {
        Err(reason) => Err(EngineError::Launch(reason).failure_text_spec()),
        Ok(out) => if !out.success {
            Err(EngineError::TranslatorExit(out.code).failure_text_spec())
        } else if cleaned_output(lossy_utf8(out.stdout@)).len() == 0 {
            Err("❌ 错误: "@ + ("内容提取失败。Raw: "@ + lossy_utf8(out.stdout@)))
        } else {
            Ok(cleaned_output(lossy_utf8(out.stdout@)))
        },
    }
}

impl Session {
    /// The step of a recognition run once its resources were looked up: found,
    /// the vision engine starts (the session shows it processing) and the command
    /// to run is returned; not found, the run ends at once with the failure shown
    /// and nothing is started.
    pub fn start_recognition(&mut self, resources: Result<OcrResources, ResourceError>, image: &str) -> (cmd:
        Option<Command>)
        ensures
            resources matches Ok(res) ==> (cmd matches Some(c) && c.program@ == res.mtmd_exe@
                && string_views(c.args@) == ocr_args_spec(res, image@) && final(self)@
                == processing_model(old(self)@)),
            resources matches Err(e) ==> (cmd is None && final(self)@ == finish_ocr_model(
                old(self)@,
                Err(resource_failure_text(e)),
            )),
    {
        match resources {
            Ok(res) => {
                self.mark_processing();
                Some(ocr_command(&res, image))
            },
            Err(e) => {
                let failed = EngineError::Resources(e);
                self.ocr_content = failed.failure_text();
                self.state = OcrState::Failure;
                None
            },
        }
    }

    /// The last step of a recognition run of the picture stored at
    /// `image_path`: what the process gave is read and shown; on success the
    /// record to keep in the history is returned.
    pub fn finish_recognition(&mut self, image_path: String, run: Result<ProcessOutput, String>) -> (rec:
        Option<HistoryRecord>)
        ensures
            final(self)@ == finish_ocr_model(old(self)@, recognition_shown(run)),
            recognition_shown(run) is Err ==> rec is None,
            recognition_shown(run) matches Ok(t) ==> (rec matches Some(r) && r.ocr_text@ == t
                && r.translated_text@.len() == 0 && r.image_path@ == image_path@),
            run matches Ok(out) ==> (!out.success ==> final(self).state == OcrState::Failure
                && final(self).ocr_content@ == "❌ 错误: OCR 引擎执行失败: "@ + lossy_utf8(out.stderr@)
                && rec is None),
            run matches Err(reason) ==> (final(self).state == OcrState::Failure
                && final(self).ocr_content@ == "❌ 错误: "@ + reason@ && rec is None),
            run matches Ok(out) ==> (out.success && trim_seq(lossy_utf8(out.stdout@)).len() > 0 ==> (
            final(self).state == OcrState::Success && final(self).ocr_content@ == trim_seq(
                lossy_utf8(out.stdout@),
            ) && (rec matches Some(r) && r.ocr_text@ == final(self).ocr_content@))),
            final(self).translated_content@ == old(self).translated_content@,
            final(self).selected_path@ == old(self).selected_path@,
    {
        proof {
            law_recognition_outcome(old(self)@, run);
        }
        let outcome = match run {
            Err(reason) => Err(EngineError::Launch(reason)),
            Ok(out) => read_ocr_output(out.success, &out.stdout, &out.stderr),
        };
        self.finish_ocr(image_path, outcome)
    }

    /// The step of a translation run of `source` once its resources were looked
    /// up: found, the command to run is returned and the session is unchanged;
    /// not found, the run ends at once with the failure shown.
    pub fn start_translation(&mut self, resources: Result<OcrResources, ResourceError>, source: &str) -> (cmd:
        Option<Command>)
        ensures
            resources matches Ok(res) ==> (cmd matches Some(c) && c.program@ == res.cli_exe@
                && string_views(c.args@) == translate_args_spec(
                res,
                translate_prompt_spec(res.trans_prompt@, source@),
            ) && final(self)@ == old(self)@),
            resources matches Err(e) ==> (cmd is None && final(self)@ == finish_translate_model(
                old(self)@,
                Err(resource_failure_text(e)),
            )),
    {
        match resources {
            Ok(res) => Some(translate_command(&res, source)),
            Err(e) => {
                self.finish_translate(Err(EngineError::Resources(e)));
                None
            },
        }
    }

    /// The last step of a translation run: what the process gave is read and
    /// shown.
    pub fn finish_translation(&mut self, run: Result<ProcessOutput, String>)
        ensures
            final(self)@ == finish_translate_model(old(self)@, translation_shown(run)),
    {
        let outcome = match run {
            Err(reason) => Err(EngineError::Launch(reason)),
            Ok(out) => read_translation_output(out.success, out.code, &out.stdout),
        };
        self.finish_translate(outcome);
    }
}

/// The command that opens a chat with the model at `model`, if the text engine
/// was found; otherwise the message to report.
pub fn chat_launch(resources: Result<OcrResources, ResourceError>, model: &str) -> (r: Result<
    Command,
    String,
>)
    ensures
        resources matches Ok(res) ==> (r matches Ok(c) && c.program@ == "mate-terminal"@
            && string_views(c.args@) == seq!["--"@, "zsh"@, "-lc"@, chat_shell_line_spec(res.cli_exe@, model@)]),
        resources matches Err(e) ==> (r matches Err(m) && m@ == "无法启动终端: "@ + e.message_spec()),
{
    match resources {
        Ok(res) => Ok(chat_terminal_command(res.cli_exe.as_str(), model)),
        Err(e) => {
            let mut m = String::from_str("无法启动终端: ");
            m.append(e.message().as_str());
            Err(m)
        },
    }
}

/// How a recognition run ends, from what the engine process gave: a process
/// that could not be started, or that exited unsuccessfully, ends the run in
/// failure whatever it printed (the failure shows the system's reason or the
/// engine's error stream); a successful one that printed something other than
/// white space ends it in success with that text, trimmed; one that printed
/// nothing ends it in failure. The translation and the noted picture stay.
pub proof fn law_recognition_outcome(m: SessionModel, run: Result<ProcessOutput, String>)
    ensures
        ({
            let end = finish_ocr_model(m, recognition_shown(run));
            &&& (run matches Err(reason) ==> end.state == OcrState::Failure && end.ocr
                == "❌ 错误: "@ + reason@ && recognition_shown(run) is Err)
            &&& (run matches Ok(out) ==> !out.success ==> end.state == OcrState::Failure && end.ocr
                == "❌ 错误: OCR 引擎执行失败: "@ + lossy_utf8(out.stderr@) && recognition_shown(run) is Err)
            &&& (run matches Ok(out) ==> out.success && trim_seq(lossy_utf8(out.stdout@)).len() > 0
                ==> end.state == OcrState::Success && end.ocr == trim_seq(lossy_utf8(out.stdout@))
                && recognition_shown(run) is Ok)
            &&& (run matches Ok(out) ==> out.success && trim_seq(lossy_utf8(out.stdout@)).len() == 0
                ==> end.state == OcrState::Failure && end.ocr == "❌ 错误: 模型完全没有输出任何内容"@)
            &&& end.translated == m.translated && end.selected == m.selected
        }),
{
    match run {
        Err(reason) => {
            assert(EngineError::Launch(reason).failure_text_spec() == "❌ 错误: "@ + reason@);
        },
        Ok(out) => {
            assert(("❌ 错误: "@ + ("OCR 引擎执行失败: "@ + lossy_utf8(out.stderr@))) =~= "❌ 错误: OCR 引擎执行失败: "@ + lossy_utf8(out.stderr@)) by {
                reveal_strlit("❌ 错误: ");
                reveal_strlit("OCR 引擎执行失败: ");
                reveal_strlit("❌ 错误: OCR 引擎执行失败: ");
            }
            assert(EngineError::OcrNoOutput.failure_text_spec() == "❌ 错误: 模型完全没有输出任何内容"@) by {
                reveal_strlit("❌ 错误: ");
                reveal_strlit("模型完全没有输出任何内容");
                reveal_strlit("❌ 错误: 模型完全没有输出任何内容");
            }
        },
    }
}

/// A recognition run in order: the picture is noted and the engine loads; only
/// when the resources were found does the session show processing; the run then
/// ends exactly once, leaving the window ready for a new picture with the
/// recognised text or the failure shown, the translation empty and the picture
/// still noted. The run's own steps (processing and finishing) write neither
/// the translation nor the noted picture, from whatever state they start.
pub proof fn law_recognition_run(
    m: SessionModel,
    path: Seq<char>,
    found: bool,
    outcome: Result<Seq<char>, Seq<char>>,
)
    ensures
        ({
            let start = begin_ocr_model(m, path);
            let running = if found {
                processing_model(start)
            } else {
                start
            };
            let end = finish_ocr_model(running, outcome);
            &&& start.state == OcrState::Initializing
            &&& running.state == (if found {
                OcrState::Processing
            } else {
                OcrState::Initializing
            })
            &&& running.selected == path && running.ocr.len() == 0 && running.translated.len() == 0
            &&& is_pickable(end.state)
            &&& end.selected == path
            &&& end.translated.len() == 0
            &&& (outcome matches Ok(t) ==> end.ocr == t && end.state == OcrState::Success)
            &&& (outcome matches Err(f) ==> end.ocr == f && end.state == OcrState::Failure)
        }),
        processing_model(m).translated == m.translated && processing_model(m).selected == m.selected,
        finish_ocr_model(m, outcome).translated == m.translated && finish_ocr_model(m, outcome).selected
            == m.selected,
{
}

} // verus!

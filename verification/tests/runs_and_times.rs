use chrono::{NaiveDate, Timelike};
use ocr_tools::config::OcrResources;
use ocr_tools::history::history_time_text;
use ocr_tools::resources::{
    expand_path, expanded_or_trimmed, resolve_executable, Expansion, PathFacts, ResourceError,
    ResourceKind, SearchContext,
};
use ocr_tools::run::{chat_launch, ProcessOutput};
use ocr_tools::session::{OcrState, Session};

fn found() -> OcrResources {
    OcrResources {
        cli_exe: "/usr/bin/llama-cli".to_string(),
        mtmd_exe: "/usr/bin/llama-mtmd-cli".to_string(),
        text_model: "/m/gemma.gguf".to_string(),
        v_model: "/m/glm.gguf".to_string(),
        mmproj: "/m/mmproj.gguf".to_string(),
        ocr_prompt: "read it".to_string(),
        trans_prompt: "Translate:".to_string(),
    }
}

fn output(success: bool, code: Option<i32>, stdout: &str, stderr: &str) -> ProcessOutput {
    ProcessOutput {
        success,
        code,
        stdout: stdout.as_bytes().to_vec(),
        stderr: stderr.as_bytes().to_vec(),
    }
}

fn loading(path: &str) -> Session {
    let mut s = Session::new();
    s.translated_content = "earlier".to_string();
    s.begin_ocr(path.to_string());
    s
}

#[test]
fn an_expansion_is_taken_when_it_succeeded() {
    assert_eq!(
        expanded_or_trimmed("$HOME/bin".to_string(), Some("/home/u/bin".to_string())),
        "/home/u/bin"
    );
    assert_eq!(expanded_or_trimmed("$NOPE/x".to_string(), None), "$NOPE/x");
    assert_eq!(expanded_or_trimmed("~/$NOPE".to_string(), None), "~/$NOPE");
}

#[test]
fn a_failed_variable_lookup_keeps_the_trimmed_input() {
    assert_eq!(
        expand_path(" $OCR_TOOLS_NEVER_SET_VARIABLE/x "),
        "$OCR_TOOLS_NEVER_SET_VARIABLE/x"
    );
    assert_eq!(expand_path("~/$OCR_TOOLS_NEVER_SET_VARIABLE"), "~/$OCR_TOOLS_NEVER_SET_VARIABLE");
}

#[test]
fn an_absolute_program_path_resolves_to_itself() {
    let ctx = SearchContext {
        exe_dir: Some("/opt/ocr".to_string()),
        path_var: Some("/usr/bin".to_string()),
        home_dir: "/home/u".to_string(),
    };
    let ex = vec![Expansion { input: "llama-cli".to_string(), output: "llama-cli".to_string() }];
    let fs = vec![PathFacts {
        path: "/usr/bin/llama-cli".to_string(),
        exists: true,
        is_file: true,
        mode: Some(0o755),
    }];
    let p = resolve_executable("llama-cli", &ctx, &ex, &fs);
    assert_eq!(p, "/usr/bin/llama-cli");
    assert_eq!(resolve_executable(&p, &ctx, &ex, &fs), p);
    assert_eq!(resolve_executable(&p, &ctx, &ex, &Vec::new()), p);
    assert_eq!(resolve_executable("/not/there", &ctx, &ex, &fs), "/not/there");
}

#[test]
fn recognition_starts_only_when_the_resources_are_found() {
    let mut s = loading("/tmp/a.png");
    let cmd = s.start_recognition(Ok(found()), "/tmp/a.png").expect("a command");
    assert_eq!(s.state, OcrState::Processing);
    assert_eq!(cmd.program, "/usr/bin/llama-mtmd-cli");
    assert_eq!(cmd.args[6], "/tmp/a.png");
    assert_eq!(s.selected_path, "/tmp/a.png");

    let mut t = loading("/tmp/b.png");
    let missing = ResourceError::EmptyPath(ResourceKind::VisionCli);
    assert!(t.start_recognition(Err(missing), "/tmp/b.png").is_none());
    assert_eq!(t.state, OcrState::Failure);
    assert_eq!(t.ocr_content, "❌ 错误: ❌ 视觉引擎 CLI 路径不能为空");
    assert_eq!(t.selected_path, "/tmp/b.png");
    assert!(t.can_pick());
}

#[test]
fn recognition_reports_a_missing_model_with_its_path() {
    let mut s = loading("/tmp/c.png");
    let missing = ResourceError::NotAFile(ResourceKind::VisionModel, "/m/none.gguf".to_string());
    assert!(s.start_recognition(Err(missing), "/tmp/c.png").is_none());
    assert_eq!(s.ocr_content, "❌ 错误: ❌ 资源未找到或不是文件 [OCR 模型]\n路径: \"/m/none.gguf\"");
}

#[test]
fn recognition_ends_with_the_text_or_the_failure() {
    let mut s = loading("/tmp/a.png");
    s.start_recognition(Ok(found()), "/tmp/a.png");
    let rec = s
        .finish_recognition("/tmp/a.png".to_string(), Ok(output(true, Some(0), "  Hello\n", "")))
        .expect("a record");
    assert_eq!(s.state, OcrState::Success);
    assert_eq!(s.ocr_content, "Hello");
    assert_eq!(s.translated_content, "");
    assert_eq!(rec.ocr_text, "Hello");
    assert_eq!(rec.translated_text, "");
    assert_eq!(rec.image_path, "/tmp/a.png");

    let mut f = loading("/tmp/a.png");
    f.start_recognition(Ok(found()), "/tmp/a.png");
    let none = f.finish_recognition("/tmp/a.png".to_string(), Ok(output(false, Some(1), "", "bad")));
    assert!(none.is_none());
    assert_eq!(f.state, OcrState::Failure);
    assert_eq!(f.ocr_content, "❌ 错误: OCR 引擎执行失败: bad");

    let mut e = loading("/tmp/a.png");
    e.start_recognition(Ok(found()), "/tmp/a.png");
    assert!(e.finish_recognition("/tmp/a.png".to_string(), Ok(output(true, Some(0), " \n", ""))).is_none());
    assert_eq!(e.ocr_content, "❌ 错误: 模型完全没有输出任何内容");

    let mut l = loading("/tmp/a.png");
    l.start_recognition(Ok(found()), "/tmp/a.png");
    assert!(l.finish_recognition("/tmp/a.png".to_string(), Err("No such file".to_string())).is_none());
    assert_eq!(l.state, OcrState::Failure);
    assert_eq!(l.ocr_content, "❌ 错误: No such file");
}

#[test]
fn translation_runs_end_with_the_answer_or_the_failure() {
    let mut s = Session::new();
    s.ocr_content = "一\n二".to_string();
    s.state = OcrState::Success;
    s.begin_translate();
    let before_state = s.state;
    let cmd = s.start_translation(Ok(found()), "一\n二").expect("a command");
    assert_eq!(s.state, before_state);
    assert_eq!(cmd.program, "/usr/bin/llama-cli");
    assert_eq!(cmd.args[16], "Translate: \"一 二\"");
    s.finish_translation(Ok(output(true, Some(0), "Hi\n", "")));
    assert_eq!(s.translated_content, "Hi");
    assert_eq!(s.state, OcrState::Success);
    assert!(s.shows_translation_editor());

    let mut t = Session::new();
    t.ocr_content = "x".to_string();
    t.state = OcrState::Success;
    t.begin_translate();
    t.finish_translation(Ok(output(false, Some(3), "", "")));
    assert_eq!(t.translated_content, "❌ 错误: 进程异常退出: Some(3)");

    let mut n = Session::new();
    n.ocr_content = "x".to_string();
    n.state = OcrState::Success;
    n.begin_translate();
    n.finish_translation(Ok(output(true, Some(0), "> prompt\n", "")));
    assert_eq!(n.translated_content, "❌ 错误: 内容提取失败。Raw: > prompt\n");

    let mut m = Session::new();
    m.ocr_content = "x".to_string();
    m.state = OcrState::Success;
    m.begin_translate();
    assert!(m.start_translation(Err(ResourceError::EmptyPath(ResourceKind::TextModel)), "x").is_none());
    assert_eq!(m.translated_content, "❌ 错误: ❌ 翻译模型 路径不能为空");
}

#[test]
fn the_translation_field_shows_only_with_a_translation() {
    let mut s = Session::new();
    assert!(!s.shows_translation_editor());
    s.translated_content = "译文".to_string();
    assert!(s.shows_translation_editor());
}

#[test]
fn chat_opens_only_with_a_text_engine() {
    let cmd = chat_launch(Ok(found()), "/m/x.gguf").expect("a command");
    assert_eq!(cmd.program, "mate-terminal");
    assert_eq!(
        cmd.args,
        vec![
            "--",
            "zsh",
            "-lc",
            "'/usr/bin/llama-cli' -m '/m/x.gguf' -cnv --color on --reasoning off; exec zsh"
        ]
    );
    match chat_launch(Err(ResourceError::EmptyPath(ResourceKind::TextCli)), "/m/x.gguf") {
        Err(m) => assert_eq!(m, "无法启动终端: ❌ 文本引擎 CLI 路径不能为空"),
        Ok(_) => panic!("expected the reason"),
    }
}

#[test]
fn history_times_are_zero_padded() {
    assert_eq!(history_time_text(2024, 2, 29, 9, 5, 7).as_deref(), Some("2024-02-29 09:05:07"));
    assert_eq!(history_time_text(5, 1, 2, 3, 4, 5).as_deref(), Some("0005-01-02 03:04:05"));
    assert_eq!(history_time_text(2023, 12, 31, 23, 59, 59).as_deref(), Some("2023-12-31 23:59:59"));
}

#[test]
fn history_times_refuse_what_names_no_moment() {
    assert_eq!(history_time_text(2023, 2, 29, 0, 0, 0), None);
    assert_eq!(history_time_text(2024, 13, 1, 0, 0, 0), None);
    assert_eq!(history_time_text(2024, 4, 31, 0, 0, 0), None);
    assert_eq!(history_time_text(2024, 1, 1, 24, 0, 0), None);
    assert_eq!(history_time_text(2024, 1, 1, 0, 60, 0), None);
    assert_eq!(history_time_text(2024, 1, 0, 0, 0, 0), None);
}

#[test]
fn history_times_match_the_calendar_format() {
    let mut day = NaiveDate::from_ymd_opt(1999, 12, 25).unwrap().and_hms_opt(1, 2, 3).unwrap();
    for _ in 0..400 {
        let expected = day.format("%Y-%m-%d %H:%M:%S").to_string();
        let got = history_time_text(
            chrono::Datelike::year(&day),
            chrono::Datelike::month(&day),
            chrono::Datelike::day(&day),
            day.hour(),
            day.minute(),
            day.second(),
        );
        assert_eq!(got.as_deref(), Some(expected.as_str()));
        day += chrono::Duration::seconds(86_400 + 3_661);
    }
}

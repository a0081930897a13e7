use ocr_tools::config::{default_ocr_prompt, default_trans_prompt, AppConfig, OcrResources};
use ocr_tools::engine::{
    chat_terminal_command, clean_translation_output, exit_code_text, ocr_command, ocr_outcome,
    read_ocr_output, read_translation_output, translate_command, translate_prompt,
    translation_outcome, EngineError,
};
use ocr_tools::history::{
    create_history_table_sql, insert_history_sql,
    full_image_uri, history_title, load_history_sql, preview_title, prune_history_sql,
    thumbnail_uri,
};
use ocr_tools::session::{ContentMode, OcrState, Session};

fn resources() -> OcrResources {
    OcrResources {
        cli_exe: "/usr/bin/llama-cli".to_string(),
        mtmd_exe: "/usr/bin/llama-mtmd-cli".to_string(),
        text_model: "/m/gemma.gguf".to_string(),
        v_model: "/m/glm.gguf".to_string(),
        mmproj: "/m/mmproj.gguf".to_string(),
        ocr_prompt: "read it".to_string(),
        trans_prompt: "Translate:".to_string(),
    }
}

#[test]
fn default_config_names_the_bundled_tools() {
    let c = AppConfig::default();
    assert_eq!(c.cli_exe, "llama-cli");
    assert_eq!(c.mtmd_exe, "llama-mtmd-cli");
    assert_eq!(c.text_model, "gemma-3-4b-it-Q4_K_M.gguf");
    assert_eq!(c.v_model, "GLM-OCR-Q8_0.gguf");
    assert_eq!(c.mmproj, "mmproj-GLM-OCR-Q8_0.gguf");
    assert_eq!(c.ocr_prompt, default_ocr_prompt());
    assert_eq!(c.trans_prompt, default_trans_prompt());
    assert_eq!(
        default_ocr_prompt(),
        "Extract text and use LaTeX for all mathematical formulas from the image."
    );
    assert!(default_trans_prompt().starts_with("Translate this Chinese text into English"));
}

#[test]
fn cleaning_keeps_only_answer_lines() {
    let raw = "Loading model... \nbuild      : b1234\nmodel      : gemma\nmodalities : text\n\navailable commands:\n  /exit or Ctrl+C\n> Translate this\nThe area is $x^2$.\r\nSecond line  \n[ Prompt: 12 t/s ]\nExiting...\n";
    assert_eq!(
        clean_translation_output(raw),
        "The area is $x^2$.\nSecond line"
    );
}

#[test]
fn cleaning_handles_edges() {
    assert_eq!(clean_translation_output(""), "");
    assert_eq!(clean_translation_output("\n\n"), "");
    assert_eq!(clean_translation_output("only"), "only");
    assert_eq!(clean_translation_output("  a\r\n\r\n  b\r"), "a\n  b");
    assert_eq!(clean_translation_output("x\n/y\n[z]\n> w"), "x");
}

fn std_clean(raw: &str) -> String {
    raw.lines()
        .filter(|line| {
            let l = line.trim();
            !l.is_empty()
                && !l.starts_with(">")
                && !l.starts_with("Loading model")
                && !l.starts_with("build      :")
                && !l.starts_with("model      :")
                && !l.starts_with("modalities :")
                && !l.contains("available commands:")
                && !l.starts_with("/")
                && !l.contains("Ctrl+C")
                && !l.starts_with("[")
                && !l.contains("Exiting")
        })
        .collect::<Vec<_>>()
        .join("\n")
        .trim()
        .to_string()
}

#[test]
fn cleaning_agrees_with_std_lines() {
    let samples = [
        "a\nb\n",
        "a\r\nb\r\n",
        "a\rb\r",
        "\r\n\r\n",
        " x \n\u{3000}y\u{3000}\n",
        "model      : m\nmodel:\n",
        "1. Ctrl+C\n2. done\n[x]\n ]\n",
        "no newline at end",
        "\n\nlead\n\n\ntrail\n\n",
    ];
    for raw in samples {
        assert_eq!(clean_translation_output(raw), std_clean(raw), "raw {:?}", raw);
    }
}

#[test]
fn ocr_outcome_cases() {
    match ocr_outcome(true, "  \n Hello\n ", "") {
        Ok(t) => assert_eq!(t, "Hello"),
        Err(_) => panic!("expected text"),
    }
    assert!(matches!(ocr_outcome(true, " \n\t", ""), Err(EngineError::OcrNoOutput)));
    match ocr_outcome(false, "ignored", "bad model") {
        Err(EngineError::OcrFailed(e)) => assert_eq!(e, "bad model"),
        _ => panic!("expected failure"),
    }
}

#[test]
fn raw_output_is_decoded_lossily() {
    let stdout = b"  caf\xc3\xa9 \xff\n".to_vec();
    match read_ocr_output(true, &stdout, &Vec::new()) {
        Ok(t) => assert_eq!(t, String::from_utf8_lossy(&stdout).trim()),
        Err(_) => panic!("expected text"),
    }
    let stderr = b"oops \xfe".to_vec();
    match read_ocr_output(false, &Vec::new(), &stderr) {
        Err(EngineError::OcrFailed(e)) => assert_eq!(e, "oops \u{fffd}"),
        _ => panic!("expected failure"),
    }
}

#[test]
fn translation_outcome_cases() {
    match translation_outcome(false, Some(3), "x") {
        Err(EngineError::TranslatorExit(c)) => assert_eq!(c, Some(3)),
        _ => panic!("expected exit error"),
    }
    match translation_outcome(true, Some(0), "> prompt\n") {
        Err(EngineError::NothingExtracted(raw)) => assert_eq!(raw, "> prompt\n"),
        _ => panic!("expected nothing extracted"),
    }
    match read_translation_output(true, Some(0), &b"Hi\n".to_vec()) {
        Ok(t) => assert_eq!(t, "Hi"),
        _ => panic!("expected text"),
    }
}

#[test]
fn error_messages() {
    assert_eq!(exit_code_text(Some(-1)), format!("{:?}", Some(-1)));
    assert_eq!(exit_code_text(None), format!("{:?}", None::<i32>));
    assert_eq!(
        EngineError::TranslatorExit(Some(2)).message(),
        "进程异常退出: Some(2)"
    );
    assert_eq!(EngineError::OcrNoOutput.message(), "模型完全没有输出任何内容");
    assert_eq!(
        EngineError::OcrFailed("x".to_string()).failure_text(),
        "❌ 错误: OCR 引擎执行失败: x"
    );
    assert_eq!(
        EngineError::NothingExtracted("raw".to_string()).message(),
        "内容提取失败。Raw: raw"
    );
    assert_eq!(EngineError::Launch("No such file".to_string()).message(), "No such file");
}

#[test]
fn ocr_command_arguments() {
    let c = ocr_command(&resources(), "/tmp/p.png");
    assert_eq!(c.program, "/usr/bin/llama-mtmd-cli");
    assert_eq!(
        c.args,
        vec![
            "-m", "/m/glm.gguf", "--jinja", "--mmproj", "/m/mmproj.gguf", "--image",
            "/tmp/p.png", "--temp", "0.1", "-p", "read it", "-n", "4096", "-c", "16384"
        ]
    );
}

#[test]
fn translation_prompt_and_command() {
    assert_eq!(translate_prompt("T:", "a\nb"), "T: \"a b\"");
    let c = translate_command(&resources(), "一\n二");
    assert_eq!(c.program, "/usr/bin/llama-cli");
    assert_eq!(c.args.len(), 17);
    assert_eq!(c.args[1], "/m/gemma.gguf");
    assert_eq!(c.args[15], "-p");
    assert_eq!(c.args[16], "Translate: \"一 二\"");
}

#[test]
fn chat_terminal() {
    let c = chat_terminal_command("/bin/llama-cli", "/m/x.gguf");
    assert_eq!(c.program, "mate-terminal");
    assert_eq!(
        c.args,
        vec![
            "--",
            "zsh",
            "-lc",
            "'/bin/llama-cli' -m '/m/x.gguf' -cnv --color on --reasoning off; exec zsh"
        ]
    );
}

#[test]
fn recognition_cycle_on_a_session() {
    let mut s = Session::new();
    assert!(s.can_pick() && !s.is_busy() && !s.has_content());
    s.ocr_content = "old".to_string();
    s.translated_content = "older".to_string();
    s.begin_ocr("/tmp/a.png".to_string());
    assert_eq!(s.state, OcrState::Initializing);
    assert!(s.is_busy() && !s.can_pick());
    assert_eq!(s.ocr_content, "");
    assert_eq!(s.translated_content, "");
    assert_eq!(s.status_message(), Some("正在唤醒引擎...".to_string()));
    assert!(s.follows_output());
    s.mark_processing();
    assert_eq!(s.status_message(), Some("正在推理中...".to_string()));
    let rec = s.finish_ocr("/tmp/small.jpg".to_string(), Ok("text".to_string()));
    let rec = rec.expect("a history record");
    assert_eq!(rec.ocr_text, "text");
    assert_eq!(rec.translated_text, "");
    assert_eq!(rec.image_path, "/tmp/small.jpg");
    assert_eq!(s.state, OcrState::Success);
    assert!(s.can_pick() && s.can_translate());
    assert_eq!(s.image_label(), "当前图片: /tmp/a.png");
    assert!(s.status_bar_visible());
}

#[test]
fn failed_recognition_shows_the_error() {
    let mut s = Session::new();
    s.begin_ocr("/tmp/a.png".to_string());
    let rec = s.finish_ocr("/tmp/a.png".to_string(), Err(EngineError::OcrNoOutput));
    assert!(rec.is_none());
    assert_eq!(s.state, OcrState::Failure);
    assert!(s.shows_error());
    assert_eq!(s.ocr_content, "❌ 错误: 模型完全没有输出任何内容");
}

#[test]
fn translation_keeps_recognised_text() {
    let mut s = Session::new();
    s.begin_ocr("/p.png".to_string());
    s.finish_ocr("/p.png".to_string(), Ok("原文".to_string()));
    s.is_editing = true;
    let source = s.begin_translate();
    assert_eq!(source, "原文");
    assert!(!s.is_editing);
    assert_eq!(s.state, OcrState::Translating);
    assert_eq!(s.status_message(), Some("正在翻译中...".to_string()));
    s.finish_translate(Ok("source".to_string()));
    assert_eq!(s.ocr_content, "原文");
    assert_eq!(s.translated_content, "source");
    assert_eq!(s.copy_all_text(), "原文\n\n---\n\nsource");
    s.begin_translate();
    s.finish_translate(Err(EngineError::TranslatorExit(None)));
    assert_eq!(s.translated_content, "❌ 错误: 进程异常退出: None");
    assert_eq!(s.state, OcrState::Failure);
}

#[test]
fn clearing_resets_and_is_idempotent() {
    let mut s = Session::new();
    s.begin_ocr("/p.png".to_string());
    s.finish_ocr("/p.png".to_string(), Ok("t".to_string()));
    s.is_editing = true;
    s.clear_results();
    assert_eq!(s.state, OcrState::Idle);
    assert!(s.shows_hint() && !s.status_bar_visible());
    assert_eq!(s.copy_all_text(), "");
    s.clear_results();
    assert_eq!(s.state, OcrState::Idle);
    assert!(!s.is_editing);
}

#[test]
fn views_and_toggles() {
    let mut s = Session::new();
    assert_eq!(s.content_mode(), ContentMode::Reading);
    assert_eq!(s.edit_toggle_label(), "编辑模式");
    s.toggle_editing();
    assert_eq!(s.content_mode(), ContentMode::Editing);
    assert_eq!(s.edit_toggle_label(), "阅读模式");
    s.toggle_chat_mode();
    assert_eq!(s.content_mode(), ContentMode::ModelList);
    assert_eq!(s.chat_toggle_label(), "退出对话");
    s.toggle_chat_mode();
    s.toggle_editing();
    assert_eq!(s.content_mode(), ContentMode::Reading);
    assert_eq!(s.chat_toggle_label(), "AI对话");
    s.toggle_settings();
    assert!(s.show_settings);
    s.settings_drawn(false, true);
    assert!(s.show_settings);
    s.settings_drawn(true, true);
    assert!(!s.show_settings);
    s.toggle_history();
    assert!(s.show_history);
    s.history_drawn(false);
    assert!(!s.show_history);
    s.paste_failed();
    assert_eq!(s.state, OcrState::Failure);
}

#[test]
fn every_state_is_pickable_or_busy() {
    let states = [
        OcrState::Idle,
        OcrState::Initializing,
        OcrState::Processing,
        OcrState::Success,
        OcrState::Failure,
        OcrState::Translating,
    ];
    for st in states {
        let mut s = Session::new();
        s.state = st;
        assert_ne!(s.can_pick(), s.is_busy());
    }
}

#[test]
fn history_texts() {
    assert_eq!(history_title(3), "📜 历史记录 (3)");
    assert_eq!(thumbnail_uri(17), "bytes://thumb_17");
    assert_eq!(full_image_uri("2024-01-01 10:00:00"), "bytes://full_2024-01-01 10:00:00");
    assert_eq!(preview_title("t"), "原始图片 - t");
    assert_eq!(
        prune_history_sql(),
        "DELETE FROM ocr_history WHERE id NOT IN (\n            SELECT id FROM ocr_history ORDER BY id DESC LIMIT 2000\n        )"
    );
    assert_eq!(
        load_history_sql(),
        "SELECT id, time, ocr_text, image_data FROM ocr_history ORDER BY id DESC LIMIT 2000"
    );
    assert_eq!(
        create_history_table_sql(),
        "CREATE TABLE IF NOT EXISTS ocr_history (\n            id INTEGER PRIMARY KEY AUTOINCREMENT,\n            time TEXT,\n            ocr_text TEXT,\n            trans_text TEXT,\n            image_data BLOB\n        )"
    );
    assert_eq!(
        insert_history_sql(),
        "INSERT INTO ocr_history (time, ocr_text, trans_text, image_data) VALUES (?1, ?2, ?3, ?4)"
    );
}

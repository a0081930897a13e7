use ocr_tools::config::AppConfig;
use ocr_tools::resources::{
    default_bin_dir, expand_path, gather_expansions, get_ocr_resources_from_config,
    model_store_dir, paths_to_probe, resolve_executable, resolve_model_path, search_dirs,
    user_bin_dir, Expansion, PathFacts, ResourceError, ResourceKind, SearchContext,
};

fn ctx() -> SearchContext {
    SearchContext {
        exe_dir: Some("/opt/ocr".to_string()),
        path_var: Some("/usr/bin:/home/u/bin".to_string()),
        home_dir: "/home/u".to_string(),
    }
}

fn file(path: &str) -> PathFacts {
    PathFacts { path: path.to_string(), exists: true, is_file: true, mode: Some(0o644) }
}

fn program(path: &str) -> PathFacts {
    PathFacts { path: path.to_string(), exists: true, is_file: true, mode: Some(0o755) }
}

fn plain(input: &str) -> Expansion {
    Expansion { input: input.to_string(), output: input.trim().to_string() }
}

#[test]
fn expanding_plain_text_only_trims() {
    assert_eq!(expand_path("  /opt/models/a.gguf "), "/opt/models/a.gguf");
    assert_eq!(expand_path("   "), "");
    assert_eq!(expand_path("relative/x"), "relative/x");
}

#[test]
fn search_directories_in_order() {
    assert_eq!(
        search_dirs(&ctx()),
        vec![
            "/opt/ocr",
            "/usr/bin",
            "/home/u/bin",
            "/usr/local/bin",
            "/usr/bin",
            "/bin",
            "/home/u/.local/bin"
        ]
    );
    let bare = SearchContext { exe_dir: None, path_var: None, home_dir: String::new() };
    assert_eq!(
        search_dirs(&bare),
        vec!["/usr/local/bin", "/usr/bin", "/bin", ".local/bin"]
    );
}

#[test]
fn gathered_expansions_follow_the_settings() {
    let cfg = AppConfig::default();
    let ex = gather_expansions(&cfg, &ctx());
    let keys: Vec<&str> = ex.iter().map(|e| e.input.as_str()).collect();
    assert_eq!(
        keys,
        vec![
            "gemma-3-4b-it-Q4_K_M.gguf",
            "GLM-OCR-Q8_0.gguf",
            "mmproj-GLM-OCR-Q8_0.gguf",
            "llama-cli",
            "llama-mtmd-cli"
        ]
    );
    for e in &ex {
        assert_eq!(e.output, e.input);
    }
}

#[test]
fn programs_are_found_on_the_search_path() {
    let ex = vec![plain("llama-cli")];
    let fs = vec![
        file("/opt/ocr/llama-cli"),
        program("/home/u/bin/llama-cli"),
        program("/usr/bin/llama-cli"),
    ];
    assert_eq!(resolve_executable(" llama-cli ", &ctx(), &ex, &fs), "/usr/bin/llama-cli");
    assert_eq!(resolve_executable("missing", &ctx(), &ex, &fs), "missing");
    assert_eq!(resolve_executable("./tools/x", &ctx(), &ex, &fs), "./tools/x");
    let dollar = SearchContext {
        exe_dir: None,
        path_var: Some("$TOOLS".to_string()),
        home_dir: "/h".to_string(),
    };
    let ex2 = vec![Expansion { input: "$TOOLS".to_string(), output: "/t".to_string() }];
    let fs2 = vec![program("/t/llama-cli")];
    assert_eq!(resolve_executable("llama-cli", &dollar, &ex2, &fs2), "/t/llama-cli");
}

#[test]
fn models_are_found_beside_the_program_or_in_the_store() {
    let ex = vec![plain("gemma.gguf")];
    let in_models = vec![file("/opt/ocr/models/gemma.gguf"), file("/home/u/.local/share/llama_models/gemma.gguf")];
    assert_eq!(resolve_model_path("gemma.gguf", &ctx(), &ex, &in_models), "/opt/ocr/models/gemma.gguf");
    let in_store = vec![file("/home/u/.local/share/llama_models/gemma.gguf")];
    assert_eq!(
        resolve_model_path("gemma.gguf", &ctx(), &ex, &in_store),
        "/home/u/.local/share/llama_models/gemma.gguf"
    );
    let here = vec![file("gemma.gguf")];
    assert_eq!(resolve_model_path("gemma.gguf", &ctx(), &ex, &here), "gemma.gguf");
    assert_eq!(resolve_model_path("gemma.gguf", &ctx(), &ex, &Vec::new()), "gemma.gguf");
}

fn config() -> AppConfig {
    AppConfig {
        cli_exe: "llama-cli".to_string(),
        mtmd_exe: "/usr/bin/llama-mtmd-cli".to_string(),
        text_model: "t.gguf".to_string(),
        v_model: "v.gguf".to_string(),
        mmproj: "p.gguf".to_string(),
        ocr_prompt: "ocr".to_string(),
        trans_prompt: "tr".to_string(),
    }
}

#[test]
fn all_resources_found() {
    let cfg = config();
    let ex = vec![
        plain("t.gguf"),
        plain("v.gguf"),
        plain("p.gguf"),
        plain("llama-cli"),
        plain("/usr/bin/llama-mtmd-cli"),
    ];
    let fs = vec![
        program("/usr/bin/llama-cli"),
        program("/usr/bin/llama-mtmd-cli"),
        file("/opt/ocr/models/t.gguf"),
        file("/opt/ocr/v.gguf"),
        file("/home/u/.local/share/llama_models/p.gguf"),
    ];
    let probes = paths_to_probe(&cfg, &ctx(), &ex);
    for f in &fs {
        assert!(probes.contains(&f.path));
    }
    match get_ocr_resources_from_config(&cfg, &ctx(), &ex, &fs) {
        Ok(res) => {
            assert_eq!(res.cli_exe, "/usr/bin/llama-cli");
            assert_eq!(res.mtmd_exe, "/usr/bin/llama-mtmd-cli");
            assert_eq!(res.text_model, "/opt/ocr/models/t.gguf");
            assert_eq!(res.v_model, "/opt/ocr/v.gguf");
            assert_eq!(res.mmproj, "/home/u/.local/share/llama_models/p.gguf");
            assert_eq!(res.ocr_prompt, "ocr");
            assert_eq!(res.trans_prompt, "tr");
        }
        Err(_) => panic!("expected resources"),
    }
}

#[test]
fn first_missing_resource_is_reported() {
    let mut cfg = config();
    let ex = vec![plain("llama-cli"), plain("/usr/bin/llama-mtmd-cli")];
    let fs = vec![program("/usr/bin/llama-cli"), program("/usr/bin/llama-mtmd-cli")];
    match get_ocr_resources_from_config(&cfg, &ctx(), &ex, &fs) {
        Err(ResourceError::NotAFile(k, p)) => {
            assert_eq!(k, ResourceKind::TextModel);
            assert_eq!(p, "t.gguf");
            let e = ResourceError::NotAFile(k, p);
            assert_eq!(e.message(), "❌ 资源未找到或不是文件 [翻译模型]\n路径: \"t.gguf\"");
        }
        _ => panic!("expected a missing model"),
    }
    cfg.cli_exe = "   ".to_string();
    match get_ocr_resources_from_config(&cfg, &ctx(), &ex, &fs) {
        Err(ResourceError::EmptyPath(k)) => {
            assert_eq!(k, ResourceKind::TextCli);
            assert_eq!(ResourceError::EmptyPath(k).message(), "❌ 文本引擎 CLI 路径不能为空");
        }
        _ => panic!("expected an empty path"),
    }
}

#[test]
fn picker_directories() {
    assert_eq!(user_bin_dir("/home/u"), "/home/u/.local/bin");
    assert_eq!(model_store_dir("/home/u/"), "/home/u/.local/share/llama_models");
    assert_eq!(default_bin_dir("/u".to_string(), true, true, "/c".to_string()), "/u");
    assert_eq!(default_bin_dir("/u".to_string(), false, true, "/c".to_string()), "/usr/local/bin");
    assert_eq!(default_bin_dir("/u".to_string(), false, false, "/c".to_string()), "/c");
}

#[test]
fn home_and_variables_are_expanded() {
    if let Some(home) = dirs::home_dir() {
        let home = home.display().to_string();
        assert_eq!(expand_path(" ~/m.gguf "), format!("{}/m.gguf", home));
        assert_eq!(expand_path("~"), home);
    }
    assert_eq!(expand_path("~user/x"), "~user/x");
}

#[test]
fn unprobed_paths_do_not_matter() {
    let cfg = config();
    let ex = vec![
        plain("t.gguf"),
        plain("v.gguf"),
        plain("p.gguf"),
        plain("llama-cli"),
        plain("/usr/bin/llama-mtmd-cli"),
    ];
    let fs = vec![
        program("/usr/bin/llama-cli"),
        program("/usr/bin/llama-mtmd-cli"),
        file("/opt/ocr/models/t.gguf"),
        file("/opt/ocr/v.gguf"),
        file("/opt/ocr/p.gguf"),
    ];
    let probes = paths_to_probe(&cfg, &ctx(), &ex);
    let mut more = fs.clone_facts();
    for extra in ["/elsewhere/t.gguf", "/tmp/llama-cli", "/opt/ocr/models/other.gguf"] {
        assert!(!probes.contains(&extra.to_string()));
        more.push(file(extra));
    }
    let a = get_ocr_resources_from_config(&cfg, &ctx(), &ex, &fs).ok().map(|r| r.text_model);
    let b = get_ocr_resources_from_config(&cfg, &ctx(), &ex, &more).ok().map(|r| r.text_model);
    assert_eq!(a, Some("/opt/ocr/models/t.gguf".to_string()));
    assert_eq!(a, b);
}

trait CloneFacts {
    fn clone_facts(&self) -> Vec<PathFacts>;
}

impl CloneFacts for Vec<PathFacts> {
    fn clone_facts(&self) -> Vec<PathFacts> {
        self.iter()
            .map(|f| PathFacts {
                path: f.path.clone(),
                exists: f.exists,
                is_file: f.is_file,
                mode: f.mode,
            })
            .collect()
    }
}

#[test]
fn dollar_directories_are_expanded_once() {
    let cfg = config();
    let c = SearchContext {
        exe_dir: None,
        path_var: Some("/a:$HOME/bin".to_string()),
        home_dir: "/h".to_string(),
    };
    let ex = gather_expansions(&cfg, &c);
    assert_eq!(ex.len(), 6);
    assert_eq!(ex[5].input, "$HOME/bin");
    if let Some(home) = dirs::home_dir() {
        assert_eq!(ex[5].output, format!("{}/bin", home.display()));
    }
}

use ocr_tools::paths::{
    file_name, first_droppable_image, is_droppable_image, is_model_file, join_path,
    model_display_name, split_path_list,
};
use ocr_tools::text::{is_white_space, signed_text, trim, unsigned_text};
use std::path::Path;

#[test]
fn trim_agrees_with_std() {
    let samples = [
        "",
        "   ",
        "abc",
        "  abc  ",
        "\t\n a b \r\n",
        "\u{3000}全角\u{3000}",
        "\u{85}x\u{a0}",
        "\u{200b}zero width\u{200b}",
        "\u{2028}line\u{2029}",
        " \u{1680} mixed \u{205f} ",
    ];
    for s in samples {
        assert_eq!(trim(s), s.trim(), "input {:?}", s);
    }
}

#[test]
fn white_space_agrees_with_std() {
    for u in 0u32..0x3100 {
        if let Some(c) = char::from_u32(u) {
            assert_eq!(is_white_space(c), c.is_whitespace(), "char {:x}", u);
        }
    }
}

#[test]
fn decimal_text_agrees_with_std() {
    for n in [0u64, 7, 10, 99, 2000, 123456789, u64::MAX] {
        assert_eq!(unsigned_text(n), n.to_string());
    }
    for n in [0i64, -1, 42, -2147483648, i64::MIN, i64::MAX] {
        assert_eq!(signed_text(n), n.to_string());
    }
}

#[test]
fn join_path_agrees_with_std() {
    let cases = [
        ("", "a"),
        ("/home/u", ".local/bin"),
        ("/home/u/", ".local/bin"),
        ("/opt", "/abs/file"),
        ("rel", "x.gguf"),
        ("a", ""),
        ("/", "b"),
    ];
    for (b, p) in cases {
        let expected = Path::new(b).join(p).display().to_string();
        assert_eq!(join_path(b, p), expected, "join {:?} {:?}", b, p);
    }
}

#[test]
fn file_name_agrees_with_std() {
    let cases = [
        "", "/", ".", "..", "./", "a", "/a/b", "/a/b/", "a/.", "a/..", "/usr/bin/llama-cli",
        "x//y", "./model.gguf", "a/./b/.", "...", ".hidden",
    ];
    for p in cases {
        let expected = Path::new(p).file_name().map(|n| n.to_string_lossy().to_string());
        assert_eq!(file_name(p), expected, "path {:?}", p);
    }
}

#[test]
fn model_files_are_recognised_by_extension() {
    let cases = [
        "/m/gemma.gguf",
        "/m/GEMMA.GGUF",
        "/m/.gguf",
        "/m/..gguf",
        "/m/a.b.gguf",
        "/m/notes.txt",
        "/m/gguf",
        "/m/dir.gguf/..",
        "model.gguf",
    ];
    for p in cases {
        let expected = Path::new(p).extension().map_or(false, |e| e == "gguf");
        assert_eq!(is_model_file(p), expected, "path {:?}", p);
    }
}

#[test]
fn model_display_name_falls_back() {
    assert_eq!(model_display_name("/m/gemma.gguf"), "gemma.gguf");
    assert_eq!(model_display_name("/"), "未知模型");
    assert_eq!(model_display_name("/m/.."), "未知模型");
}

#[test]
fn droppable_images_ignore_case() {
    assert!(is_droppable_image("/tmp/a.PNG"));
    assert!(is_droppable_image("/tmp/a.Jpeg"));
    assert!(is_droppable_image("b.webp"));
    assert!(is_droppable_image("c.jpg"));
    assert!(!is_droppable_image("c.bmp"));
    assert!(!is_droppable_image("png"));
    assert!(!is_droppable_image("/tmp/a.png.txt"));
    let dropped = vec![
        "/tmp/notes.txt".to_string(),
        "/tmp/shot.PNG".to_string(),
        "/tmp/other.jpg".to_string(),
    ];
    assert_eq!(first_droppable_image(&dropped), Some(1));
    assert_eq!(first_droppable_image(&vec!["x.doc".to_string()]), None);
}

#[test]
fn path_list_splits_at_every_colon() {
    let cases: [(&str, &[&str]); 5] = [
        ("/usr/bin:/bin", &["/usr/bin", "/bin"]),
        ("", &[""]),
        (":", &["", ""]),
        ("/a::/b:", &["/a", "", "/b", ""]),
        ("single", &["single"]),
    ];
    for (list, expected) in cases {
        let expected: Vec<String> = expected.iter().map(|s| s.to_string()).collect();
        assert_eq!(split_path_list(list), expected, "list {:?}", list);
    }
}

#[test]
fn split_then_join_gives_the_list_back() {
    let list = "/usr/local/bin::$HOME/bin:/bin:";
    let parts = split_path_list(list);
    assert_eq!(parts.join(":"), list);
    assert!(parts.iter().all(|p| !p.contains(':')));
}

#[test]
fn joined_name_is_the_file_name() {
    for base in ["", "/", "/home/u", "/home/u/", "rel/dir"] {
        let joined = join_path(base, "model.gguf");
        assert_eq!(file_name(&joined), Some("model.gguf".to_string()));
    }
}

#[test]
fn trim_is_idempotent() {
    for s in ["  a b  ", "\u{3000}x", "", " \n "] {
        let once = trim(s);
        assert_eq!(trim(&once), once);
    }
}

#[test]
fn droppable_check_agrees_with_unicode_lowering() {
    let samples = [
        "/tmp/İ.PNG",
        "/tmp/\u{212A}.png",
        "/tmp/ÄÖ.JPEG",
        "/tmp/Σ.WebP",
        "/tmp/x.pnG",
        "/tmp/x.\u{0130}ng",
        "/tmp/x.jpg\u{0307}",
    ];
    for p in samples {
        let lower = p.to_lowercase();
        let expected = [".png", ".jpg", ".jpeg", ".webp"].iter().any(|ext| lower.ends_with(ext));
        assert_eq!(is_droppable_image(p), expected, "path {:?}", p);
    }
}

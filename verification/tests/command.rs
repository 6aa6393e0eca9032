use create_process_w::wide::encode_wide;
use create_process_w::Command;

fn expected(text: &str) -> Vec<u16> {
    let mut units: Vec<u16> = text.encode_utf16().collect();
    units.push(0);
    units
}

#[test]
fn new_command_inherits_nothing_and_has_no_directory() {
    let arguments = Command::new("notepad.exe").creation();
    assert_eq!(arguments.command_line, expected("notepad.exe"));
    assert!(!arguments.inherit_handles);
    assert_eq!(arguments.creation_flags, 0);
    assert_eq!(arguments.current_directory, None);
}

#[test]
fn command_line_is_kept_whole() {
    let line = "cargo.exe clippy -- -D warnings \"a b\"";
    let arguments = Command::new(line).creation();
    assert_eq!(arguments.command_line, expected(line));
    assert_eq!(arguments.command_line.len(), line.len() + 1);
}

#[test]
fn setters_chain_and_configure() {
    let mut command = Command::new("cargo.exe check");
    command.inherit_handles(true).current_dir(r"C:\Users\me\repo");
    let arguments = command.creation();
    assert!(arguments.inherit_handles);
    assert_eq!(arguments.current_directory, Some(expected(r"C:\Users\me\repo")));
    assert_eq!(arguments.command_line, expected("cargo.exe check"));
    assert_eq!(arguments.creation_flags, 0);
    command.inherit_handles(false);
    let arguments = command.creation();
    assert!(!arguments.inherit_handles);
    assert_eq!(arguments.current_directory, Some(expected(r"C:\Users\me\repo")));
}

#[test]
fn later_directory_replaces_earlier() {
    let mut command = Command::new("cmd.exe /c cd");
    command.current_dir(r"C:\first").current_dir(r"D:\second");
    assert_eq!(command.creation().current_directory, Some(expected(r"D:\second")));
}

#[test]
fn current_directory_reads_back_as_configured() {
    for dir in [r"C:\Windows\System32", r"D:\données\été", "C:\\tmp\\\u{1F600}", ""] {
        let mut command = Command::new("cmd.exe /c cd");
        command.current_dir(dir);
        let buffer = command.creation().current_directory.expect("a directory was configured");
        assert_eq!(buffer.last(), Some(&0));
        let text = String::from_utf16(&buffer[..buffer.len() - 1]).unwrap();
        assert_eq!(text, dir);
    }
}

#[test]
fn each_creation_has_buffers_of_its_own() {
    let mut command = Command::new("notepad.exe file.txt");
    command.current_dir(r"C:\work");
    let mut first = command.creation();
    first.command_line[0] = 0;
    first.command_line.truncate(3);
    if let Some(dir) = first.current_directory.as_mut() {
        dir.clear();
    }
    let second = command.creation();
    assert_eq!(second.command_line, expected("notepad.exe file.txt"));
    assert_eq!(second.current_directory, Some(expected(r"C:\work")));
}

#[test]
fn encode_wide_of_empty_text_is_the_terminator() {
    assert_eq!(encode_wide(""), vec![0u16]);
}

#[test]
fn encode_wide_of_ascii() {
    assert_eq!(encode_wide("a"), vec![97u16, 0]);
    assert_eq!(encode_wide("ab c"), vec![97u16, 98, 32, 99, 0]);
}

#[test]
fn encode_wide_of_basic_plane() {
    assert_eq!(encode_wide("é"), vec![0x00E9u16, 0]);
    assert_eq!(encode_wide("\u{D7FF}\u{E000}\u{FFFF}"), vec![0xD7FFu16, 0xE000, 0xFFFF, 0]);
}

#[test]
fn encode_wide_of_supplementary_planes() {
    assert_eq!(encode_wide("\u{10000}"), vec![0xD800u16, 0xDC00, 0]);
    assert_eq!(encode_wide("\u{1F600}"), vec![0xD83Du16, 0xDE00, 0]);
    assert_eq!(encode_wide("\u{10FFFF}"), vec![0xDBFFu16, 0xDFFF, 0]);
    assert_eq!(encode_wide("a\u{1F600}b"), vec![97u16, 0xD83D, 0xDE00, 98, 0]);
}

#[test]
fn encode_wide_keeps_an_inner_zero() {
    assert_eq!(encode_wide("a\0b"), vec![97u16, 0, 98, 0]);
}

#[test]
fn encode_wide_agrees_with_the_standard_encoding() {
    let texts = [
        "",
        "notepad.exe",
        "cmd.exe /c \"echo héllo\"",
        "日本語 テキスト",
        "\u{1F468}\u{200D}\u{1F469}\u{200D}\u{1F467}",
        "\u{FFFF}\u{10000}\u{D7FF}\u{E000}\u{10FFFF}",
    ];
    for text in texts {
        assert_eq!(encode_wide(text), expected(text));
    }
}

#[test]
fn encode_wide_tells_texts_apart() {
    let texts = ["", "a", "b", "ab", "\u{10000}", "\u{10001}", "\u{D7FF}", "a\0"];
    for (i, a) in texts.iter().enumerate() {
        for (j, b) in texts.iter().enumerate() {
            assert_eq!(encode_wide(a) == encode_wide(b), i == j);
        }
    }
}

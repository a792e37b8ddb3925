use minimal_importer::description::{describe, is_white_space_char};

#[test]
fn white_space_is_what_the_standard_library_calls_white_space() {
    let mut code: u32 = 0;
    while code <= 0x10FFFF {
        if let Some(c) = char::from_u32(code) {
            assert_eq!(is_white_space_char(c), c.is_whitespace(), "code point {code:#x}");
        }
        code += 1;
    }
}

#[test]
fn describe_trims_as_the_standard_library_trims() {
    let lines = [
        "",
        " ",
        "\n",
        "plain",
        "  leading",
        "trailing  ",
        "\t both \r\n",
        " inner  space kept ",
        "\u{85}next line\u{85}",
        "\u{1680}ogham\u{2000}\u{200a}",
        "\u{200b}zero width is no white space\u{200b}",
        "\u{feff}bom stays",
        "x",
        " x",
        "x ",
    ];
    for line in lines {
        assert_eq!(describe(line), line.trim(), "line {line:?}");
    }
}

#[test]
fn describe_gives_exact_text() {
    assert_eq!(describe("  Annual report 2024\n"), "Annual report 2024");
    assert_eq!(describe("\u{3000}\u{3000}"), "");
    assert_eq!(describe("a b"), "a b");
}

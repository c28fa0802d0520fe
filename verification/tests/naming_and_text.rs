use screen_grabbing::format::{display_name, file_name, save_path, Format};
use screen_grabbing::text::{
    chars_equal, file_name_from_timestamp, has_visible_char, keys_equal, split_keys, text_extent,
};
use screen_grabbing::tools::ColorTool;

fn chars(s: &str) -> Vec<char> {
    s.chars().collect()
}

#[test]
fn format_extensions() {
    assert_eq!(Format::Png.to_string(), ".png");
    assert_eq!(Format::Jpg.to_string(), ".jpg");
    assert_eq!(Format::Pnm.to_string(), ".pnm");
    assert_eq!(Format::Tga.to_string(), ".tga");
    assert_eq!(Format::Qoi.to_string(), ".qoi");
    assert_eq!(Format::Tiff.to_string(), ".tiff");
    assert_eq!(Format::Bmp.to_string(), ".bmp");
}

#[test]
fn format_extensions_are_distinct() {
    let all = [
        Format::Png,
        Format::Jpg,
        Format::Pnm,
        Format::Tga,
        Format::Qoi,
        Format::Tiff,
        Format::Bmp,
        Format::Gif,
        Format::Webp,
    ];
    for a in all.iter() {
        assert!(a.to_string().starts_with('.'));
        for b in all.iter() {
            if a != b {
                assert_ne!(a.to_string(), b.to_string());
            }
        }
    }
}

#[test]
fn file_names_and_paths() {
    assert_eq!(file_name("shot", Format::Png), "shot.png");
    assert_eq!(file_name("", Format::Bmp), ".bmp");
    assert_eq!(
        save_path("C:/Users/Utente/Pictures", "shot", Format::Jpg),
        "C:/Users/Utente/Pictures/shot.jpg"
    );
    assert_eq!(save_path("", "a", Format::Tiff), "/a.tiff");
}

#[test]
fn display_name_of_unnamed_and_named_capture() {
    assert_eq!(display_name("", Format::Png), "");
    assert_eq!(display_name("capture", Format::Qoi), "capture.qoi");
}

#[test]
fn visible_characters() {
    assert!(!has_visible_char(""));
    assert!(!has_visible_char(" \t\n\r"));
    assert!(!has_visible_char("\u{3000}\u{00A0}\u{2003}"));
    assert!(has_visible_char("  a "));
    assert!(has_visible_char("x"));
    // agrees with what `trim` leaves
    for s in ["", " ", " a", "\u{85}", "\u{200B}", "b\n"] {
        assert_eq!(has_visible_char(s), !s.trim().is_empty());
    }
}

#[test]
fn splitting_combinations() {
    assert_eq!(split_keys("Control+s"), vec![chars("Control"), chars("s")]);
    assert_eq!(split_keys(""), vec![chars("")]);
    assert_eq!(split_keys("a+"), vec![chars("a"), chars("")]);
    assert_eq!(split_keys("+"), vec![chars(""), chars("")]);
    assert_eq!(
        split_keys("Control+Shift+T"),
        vec![chars("Control"), chars("Shift"), chars("T")]
    );
    // agrees with `str::split`
    for s in ["", "+", "++a", "Alt+é+x", "plain"] {
        let expected: Vec<Vec<char>> = s.split('+').map(chars).collect();
        assert_eq!(split_keys(s), expected);
    }
}

#[test]
fn equality_helpers() {
    assert!(chars_equal(&chars("abc"), &chars("abc")));
    assert!(!chars_equal(&chars("abc"), &chars("abd")));
    assert!(!chars_equal(&chars("ab"), &chars("abc")));
    assert!(keys_equal(&split_keys("Control+s"), &split_keys("Control+s")));
    assert!(!keys_equal(&split_keys("Control+s"), &split_keys("Control+a")));
    assert!(!keys_equal(&split_keys("Control"), &split_keys("Control+s")));
}

#[test]
fn text_extent_counts_lines_and_bytes() {
    assert_eq!(text_extent(""), (0, 0));
    assert_eq!(text_extent("abc"), (1, 3));
    assert_eq!(text_extent("ab\ncdef\n"), (2, 4));
    assert_eq!(text_extent("\n"), (1, 0));
    assert_eq!(text_extent("a\n\n"), (2, 1));
    assert_eq!(text_extent("é\nab"), (2, 2));
    for s in ["", "x", "one\ntwo lines", "\n\n\n", "ünïcode\nab\r\n"] {
        let lines: Vec<&str> = s.split_terminator('\n').collect();
        let longest = lines.iter().map(|l| l.len()).max().unwrap_or(0);
        assert_eq!(text_extent(s), (lines.len(), longest));
    }
}

#[test]
fn timestamp_becomes_file_name() {
    assert_eq!(
        file_name_from_timestamp("2023-10-05 12:34:56.789 UTC"),
        "2023-10-05_12-34-56-789_UTC"
    );
    assert_eq!(file_name_from_timestamp(""), "");
    let stamp = "2024-01-01 00:00:00.000000001 UTC";
    assert_eq!(
        file_name_from_timestamp(stamp),
        stamp.replace(".", "-").replace(":", "-").replace(" ", "_")
    );
}

#[test]
fn timestamp_file_name_has_no_separators() {
    let name = file_name_from_timestamp("1. 2: 3 .:");
    assert_eq!(name.chars().count(), "1. 2: 3 .:".chars().count());
    assert!(!name.contains('.') && !name.contains(':') && !name.contains(' '));
}

#[test]
fn palette() {
    assert_eq!(ColorTool::Black.rgba8(), (0, 0, 0, 255));
    assert_eq!(ColorTool::Red.rgba8(), (255, 0, 0, 255));
    assert_eq!(ColorTool::Blue.rgba8(), (0, 0, 255, 255));
    assert_eq!(ColorTool::Yellow.rgba8(), (255, 255, 0, 255));
    assert_eq!(ColorTool::Green.rgba8(), (0, 128, 0, 255));
    assert_eq!(ColorTool::White.rgba8(), (255, 255, 255, 255));
}

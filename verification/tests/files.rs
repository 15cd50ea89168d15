use ascii_art::{output_file_name, supported_extension};

#[test]
fn supported_extensions_in_lower_case() {
    for ext in ["png", "jpg", "jpeg", "webp", "bmp"] {
        assert!(supported_extension(ext));
    }
}

#[test]
fn supported_extensions_in_any_case() {
    for ext in ["PNG", "Jpg", "jPEg", "WebP", "BMP"] {
        assert!(supported_extension(ext));
    }
}

#[test]
fn other_extensions_are_not_supported() {
    for ext in ["", "gif", "tiff", "pn", "pngx", "png ", ".png", "txt", "jp\u{212A}g"] {
        assert!(!supported_extension(ext));
    }
}

#[test]
fn supported_extension_agrees_with_lowercasing() {
    let known = ["png", "jpg", "jpeg", "webp", "bmp"];
    for ext in ["PNG", "png", "JpEg", "gif", "WEBP", "bMp", "jpe", "\u{212A}", "ＰＮＧ"] {
        assert_eq!(supported_extension(ext), known.contains(&ext.to_lowercase().as_str()));
    }
}

#[test]
fn output_file_name_appends_the_fixed_name() {
    assert_eq!(output_file_name("out/"), "out/ascii_output.txt");
    assert_eq!(output_file_name(""), "ascii_output.txt");
    assert_eq!(output_file_name("/tmp/art"), "/tmp/artascii_output.txt");
}

use shell_scene::text::error_line;
use shell_scene::text::render_u64;
use shell_scene::text::warn_line;

#[test]
fn zero_renders_as_one_digit() {
    assert_eq!(render_u64(0), "0");
}

#[test]
fn single_digits_render_as_themselves() {
    let expected = ["0", "1", "2", "3", "4", "5", "6", "7", "8", "9"];
    for (n, text) in expected.iter().enumerate() {
        assert_eq!(render_u64(n as u64), *text);
    }
}

#[test]
fn numbers_render_without_padding() {
    assert_eq!(render_u64(10), "10");
    assert_eq!(render_u64(24), "24");
    assert_eq!(render_u64(80), "80");
    assert_eq!(render_u64(7681), "7681");
    assert_eq!(render_u64(65535), "65535");
    assert_eq!(render_u64(1_000_000), "1000000");
}

#[test]
fn largest_number_renders_in_full() {
    assert_eq!(render_u64(u64::MAX), "18446744073709551615");
}

#[test]
fn rendering_agrees_with_std() {
    for n in [0u64, 9, 10, 99, 100, 101, 4095, 4096, 4_294_967_295, 4_294_967_296] {
        assert_eq!(render_u64(n), n.to_string());
    }
}

#[test]
fn error_line_has_its_prefix() {
    assert_eq!(error_line("boom"), "ERROR: boom");
    assert_eq!(error_line(""), "ERROR: ");
}

#[test]
fn warn_line_has_its_prefix() {
    assert_eq!(warn_line("careful"), "WARN: careful");
}

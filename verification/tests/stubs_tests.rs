use void_pointer_core::stubs::{build_stubs_from, stub_body_from, stubs_source_ok, try_build_stubs_from};
use void_pointer_core::text::{chars_of, split_lines, trim_chars};

fn chars(s: &str) -> Vec<char> {
    s.chars().collect()
}

#[test]
fn stub_returns_u8_for_status_types() {
    assert_eq!(
        stub_body_from("pub fn c_vp_led_play(id: u8) -> vp_status_t;"),
        "#[unsafe(no_mangle)]\npub unsafe extern \"C\" fn c_vp_led_play(id: u8) -> u8 { 0 }\n\n"
    );
    assert_eq!(
        stub_body_from("pub fn c_vp_ready() -> vp_bool_t;"),
        "#[unsafe(no_mangle)]\npub unsafe extern \"C\" fn c_vp_ready() -> u8 { 0 }\n\n"
    );
}

#[test]
fn stub_returns_u32_for_time_and_state_types() {
    assert_eq!(
        stub_body_from("pub fn c_vp_rtc_now() -> vp_timestamp_t;"),
        "#[unsafe(no_mangle)]\npub unsafe extern \"C\" fn c_vp_rtc_now() -> u32 { 0 }\n\n"
    );
    assert_eq!(
        stub_body_from("pub fn c_vp_usb_state() -> vp_usb_state_t;"),
        "#[unsafe(no_mangle)]\npub unsafe extern \"C\" fn c_vp_usb_state() -> u32 { 0 }\n\n"
    );
}

#[test]
fn stub_without_return_type_has_empty_body() {
    assert_eq!(
        stub_body_from("pub fn c_vp_core_poll();"),
        "#[unsafe(no_mangle)]\npub unsafe extern \"C\" fn c_vp_core_poll() {}\n\n"
    );
}

#[test]
fn stub_keeps_other_return_types() {
    assert_eq!(
        stub_body_from("pub fn c_vp_count(a: u16, b: u16) -> u16;"),
        "#[unsafe(no_mangle)]\npub unsafe extern \"C\" fn c_vp_count(a: u16, b: u16) -> u16 { 0 }\n\n"
    );
}

#[test]
fn stub_skips_functions_that_are_not_c_api() {
    assert_eq!(stub_body_from("pub fn helper(x: u8) -> u8;"), "");
    assert_eq!(stub_body_from("pub fn c_no_params;"), "");
}

#[test]
fn stubs_join_multi_line_declarations() {
    let source = "extern \"C\" {\n    pub fn c_vp_a(\n        x: u8,\n        y: u16,\n    ) -> u32;\n}\nextern \"C\" {\n    pub fn c_vp_b();\n}\n";
    assert!(stubs_source_ok(source));
    assert_eq!(
        build_stubs_from(source),
        "// 自动生成，勿手动编辑\nuse crate::ffi::bindings::*;\n\n\
         #[unsafe(no_mangle)]\npub unsafe extern \"C\" fn c_vp_a( x: u8, y: u16, ) -> u32 { 0 }\n\n\
         #[unsafe(no_mangle)]\npub unsafe extern \"C\" fn c_vp_b() {}\n\n"
    );
}

#[test]
fn stubs_of_file_without_declarations_is_the_header() {
    let source = "pub const VP_STATUS_OK: u32 = 0;\npub type vp_bool_t = u8;\n";
    assert_eq!(
        build_stubs_from(source),
        "// 自动生成，勿手动编辑\nuse crate::ffi::bindings::*;\n\n"
    );
}

#[test]
fn unfinished_declaration_at_end_adds_nothing() {
    let source = "    pub fn c_vp_a(\n        x: u8,\n";
    assert_eq!(
        build_stubs_from(source),
        "// 自动生成，勿手动编辑\nuse crate::ffi::bindings::*;\n\n"
    );
}

#[test]
fn misplaced_parenthesis_is_rejected() {
    assert!(!stubs_source_ok("pub fn c_x)(;\n"));
    assert!(stubs_source_ok("pub fn helper)(;\n"));
}

#[test]
fn lines_split_like_str_lines() {
    let lines = split_lines(&chars("a\r\nb\n\nc\r"));
    assert_eq!(lines, vec![chars("a"), chars("b"), chars(""), chars("c\r")]);
    assert_eq!(split_lines(&chars("x\n")), vec![chars("x")]);
    assert!(split_lines(&chars("")).is_empty());
}

#[test]
fn trim_removes_surrounding_white_space() {
    assert_eq!(trim_chars(&chars(" \t pub fn c_a();\u{3000} ")), chars("pub fn c_a();"));
    assert_eq!(chars_of("héllo"), chars("héllo"));
}

#[test]
fn try_build_stubs_refuses_broken_declaration() {
    assert_eq!(try_build_stubs_from("pub fn c_x)(;\n"), None);
    let source = "pub fn c_a();\n";
    assert_eq!(try_build_stubs_from(source), Some(build_stubs_from(source)));
}

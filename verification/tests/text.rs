use koe_core::text::{
    characters, find_first, find_last, is_white_space, push_decimal, trim, trim_end,
};

#[test]
fn white_space_is_that_of_unicode() {
    let mut code = 0u32;
    while code <= 0x10ffff {
        if let Some(c) = char::from_u32(code) {
            assert_eq!(is_white_space(c), c.is_whitespace(), "{code:x}");
        }
        code += 1;
    }
}

#[test]
fn trimming_agrees_with_the_standard_library() {
    let samples = [
        "",
        " ",
        "\u{3000}\u{2003}",
        "word",
        "  two words\t\r\n",
        "\u{a0}\u{85}\u{8a9e}\u{97f3} \u{8f93}\u{5165}\u{2029}",
        "\u{200b}zero width is no white space\u{200b}",
        "\n\nline\n",
    ];
    for sample in samples {
        assert_eq!(trim(sample), sample.trim());
        assert_eq!(trim_end(sample), sample.trim_end());
        assert_eq!(trim(trim(sample)), trim(sample));
    }
}

#[test]
fn numbers_are_written_in_decimal() {
    for n in [0u128, 7, 10, 99, 100, 1024, 18446744073709551615, u128::MAX] {
        let mut out = String::from("n=");
        push_decimal(&mut out, n);
        assert_eq!(out, format!("n={n}"));
    }
}

#[test]
fn characters_are_found_from_both_ends() {
    let list = characters("a[b]\u{e9}[c]d");
    assert_eq!(list.len(), 9);
    assert_eq!(find_first(&list, '['), Some(1));
    assert_eq!(find_last(&list, ']'), Some(7));
    assert_eq!(find_first(&list, 'z'), None);
    assert_eq!(find_last(&list, 'z'), None);
}

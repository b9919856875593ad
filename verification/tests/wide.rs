use codex_pet_limit_rings::wide::{encode_utf16, to_wide, write_wide_fixed};

#[test]
fn to_wide_appends_nul() {
    assert_eq!(to_wide("Hi"), vec![72, 105, 0]);
    assert_eq!(to_wide(""), vec![0]);
}

#[test]
fn surrogate_pairs_like_std() {
    for s in ["A€𝄞", "Codex Pet Limit Rings", "😀 é 中文", ""] {
        let std: Vec<u16> = s.encode_utf16().collect();
        assert_eq!(encode_utf16(s), std);
        let mut with_nul = std.clone();
        with_nul.push(0);
        assert_eq!(to_wide(s), with_nul);
    }
}

#[test]
fn fixed_buffer_truncates_and_terminates() {
    let mut buf = [7u16; 4];
    write_wide_fixed(&mut buf, "abcdef");
    assert_eq!(buf, [97, 98, 99, 0]);
    let mut buf2 = [7u16; 6];
    write_wide_fixed(&mut buf2, "ab");
    assert_eq!(buf2, [97, 98, 0, 0, 0, 0]);
    let mut empty: [u16; 0] = [];
    write_wide_fixed(&mut empty, "x");
}

#[test]
fn fixed_buffer_can_split_a_surrogate_pair() {
    let mut buf = [1u16; 3];
    write_wide_fixed(&mut buf, "a😀");
    assert_eq!(buf, [97, 0xD83D, 0]);
}

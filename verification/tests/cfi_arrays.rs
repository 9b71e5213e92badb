use caliptra_cfi::cfi::{
    cfi_assert_eq_12_words, cfi_assert_eq_6_words, cfi_assert_eq_8_words, CfiPanicInfo,
    HardeningMode,
};

#[test]
fn equal_12_word_arrays_return_ok() {
    assert_eq!(cfi_assert_eq_12_words(HardeningMode::Hardened, &[0u32; 12], &[0u32; 12]), Ok(()));
    let a = [
        0x01234567u32,
        0x89abcdef,
        0xdeadbeef,
        0xcafef00d,
        1,
        2,
        3,
        4,
        5,
        6,
        7,
        0xffffffff,
    ];
    assert_eq!(cfi_assert_eq_12_words(HardeningMode::Hardened, &a, &a.clone()), Ok(()));
}

#[test]
fn twelve_words_differing_in_first_word_are_caught() {
    let a = [7u32; 12];
    let mut b = [7u32; 12];
    b[0] ^= 1;
    assert_eq!(
        cfi_assert_eq_12_words(HardeningMode::Hardened, &a, &b),
        Err(CfiPanicInfo::AssertEqFail)
    );
}

#[test]
fn twelve_words_differing_in_middle_word_are_caught() {
    let a = [7u32; 12];
    let mut b = [7u32; 12];
    b[5] = 0;
    assert_eq!(
        cfi_assert_eq_12_words(HardeningMode::Hardened, &a, &b),
        Err(CfiPanicInfo::AssertEqFail)
    );
    let mut c = [7u32; 12];
    c[6] = 8;
    assert_eq!(
        cfi_assert_eq_12_words(HardeningMode::Hardened, &a, &c),
        Err(CfiPanicInfo::AssertEqFail)
    );
}

#[test]
fn twelve_words_differing_in_last_word_are_caught() {
    let a = [0u32; 12];
    let mut b = [0u32; 12];
    b[11] = 1;
    assert_eq!(
        cfi_assert_eq_12_words(HardeningMode::Hardened, &a, &b),
        Err(CfiPanicInfo::AssertEqFail)
    );
}

#[test]
fn diagnostic_mode_array_checks_report_like_hardened() {
    let a = [1u32; 12];
    let mut b = [1u32; 12];
    b[3] = 2;
    assert_eq!(
        cfi_assert_eq_12_words(HardeningMode::HardenedDiagnostic, &a, &b),
        Err(CfiPanicInfo::AssertEqFail)
    );
    assert_eq!(cfi_assert_eq_12_words(HardeningMode::HardenedDiagnostic, &a, &a.clone()), Ok(()));
}

#[test]
fn disabled_mode_array_checks_never_report() {
    let a = [0u32; 12];
    let mut b = [0u32; 12];
    b[0] = 1;
    assert_eq!(cfi_assert_eq_12_words(HardeningMode::Disabled, &a, &b), Ok(()));
    let mut c = [0u32; 12];
    c[11] = 1;
    assert_eq!(cfi_assert_eq_12_words(HardeningMode::Disabled, &a, &c), Ok(()));
    let d = [3u32; 8];
    let mut e = [3u32; 8];
    e[7] = 4;
    assert_eq!(cfi_assert_eq_8_words(HardeningMode::Disabled, &d, &e), Ok(()));
    let f = [9u32; 6];
    let mut g = [9u32; 6];
    g[5] = 10;
    assert_eq!(cfi_assert_eq_6_words(HardeningMode::Disabled, &f, &g), Ok(()));
}

#[test]
fn disabled_mode_array_checks_accept_equal_arrays_too() {
    assert_eq!(cfi_assert_eq_12_words(HardeningMode::Disabled, &[2u32; 12], &[2u32; 12]), Ok(()));
    assert_eq!(cfi_assert_eq_8_words(HardeningMode::Disabled, &[2u32; 8], &[2u32; 8]), Ok(()));
    assert_eq!(cfi_assert_eq_6_words(HardeningMode::Disabled, &[2u32; 6], &[2u32; 6]), Ok(()));
}

#[test]
fn equal_8_word_arrays_return_ok() {
    assert_eq!(cfi_assert_eq_8_words(HardeningMode::Hardened, &[0u32; 8], &[0u32; 8]), Ok(()));
    let a = [0x11111111u32, 0x22222222, 0x33333333, 0x44444444, 5, 6, 7, 8];
    assert_eq!(cfi_assert_eq_8_words(HardeningMode::Hardened, &a, &a.clone()), Ok(()));
}

#[test]
fn eight_words_differing_in_one_word_are_caught() {
    let a = [3u32; 8];
    for i in 0..8 {
        let mut b = [3u32; 8];
        b[i] = 4;
        assert_eq!(
            cfi_assert_eq_8_words(HardeningMode::Hardened, &a, &b),
            Err(CfiPanicInfo::AssertEqFail)
        );
    }
}

#[test]
fn eight_words_differing_in_last_word_are_caught() {
    let a = [0u32; 8];
    let mut b = [0u32; 8];
    b[7] = 0x80000000;
    assert_eq!(
        cfi_assert_eq_8_words(HardeningMode::Hardened, &a, &b),
        Err(CfiPanicInfo::AssertEqFail)
    );
}

#[test]
fn equal_6_word_arrays_return_ok() {
    assert_eq!(cfi_assert_eq_6_words(HardeningMode::Hardened, &[0u32; 6], &[0u32; 6]), Ok(()));
    let a = [0xa5a5a5a5u32, 0x5a5a5a5a, 0, 1, 0xffffffff, 42];
    assert_eq!(cfi_assert_eq_6_words(HardeningMode::Hardened, &a, &a.clone()), Ok(()));
}

#[test]
fn six_words_differing_in_one_word_are_caught() {
    let a = [9u32; 6];
    for i in 0..6 {
        let mut b = [9u32; 6];
        b[i] = 10;
        assert_eq!(
            cfi_assert_eq_6_words(HardeningMode::Hardened, &a, &b),
            Err(CfiPanicInfo::AssertEqFail)
        );
    }
}

#[test]
fn six_words_differing_in_last_word_are_caught() {
    let a = [1u32; 6];
    let mut b = [1u32; 6];
    b[5] = 2;
    assert_eq!(
        cfi_assert_eq_6_words(HardeningMode::Hardened, &a, &b),
        Err(CfiPanicInfo::AssertEqFail)
    );
}

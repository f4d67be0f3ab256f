use magic::{combine_flags, MagicFlag};

#[test]
fn combine_empty_is_zero() {
    assert_eq!(combine_flags(&[]), 0);
}

#[test]
fn combine_none_is_zero() {
    assert_eq!(combine_flags(&[MagicFlag::MAGIC_NONE]), 0);
}

#[test]
fn combine_single_options() {
    assert_eq!(combine_flags(&[MagicFlag::MAGIC_DEBUG]), 0x000001);
    assert_eq!(combine_flags(&[MagicFlag::MAGIC_SYMLINK]), 0x000002);
    assert_eq!(combine_flags(&[MagicFlag::MAGIC_MIME_TYPE]), 0x000010);
    assert_eq!(combine_flags(&[MagicFlag::MAGIC_ERROR]), 0x000200);
    assert_eq!(combine_flags(&[MagicFlag::MAGIC_MIME_ENCODING]), 0x000400);
    assert_eq!(combine_flags(&[MagicFlag::MAGIC_NO_CHECK_CDF]), 0x040000);
    assert_eq!(combine_flags(&[MagicFlag::MAGIC_NO_CHECK_TOKENS]), 0x100000);
    assert_eq!(combine_flags(&[MagicFlag::MAGIC_NO_CHECK_ENCODING]), 0x200000);
}

#[test]
fn combine_mime_parts_equal_mime() {
    let parts = combine_flags(&[MagicFlag::MAGIC_MIME_TYPE, MagicFlag::MAGIC_MIME_ENCODING]);
    assert_eq!(parts, 0x000410);
    assert_eq!(parts, combine_flags(&[MagicFlag::MAGIC_MIME]));
    assert_eq!(MagicFlag::MAGIC_MIME.bits(), 0x000410);
}

#[test]
fn combine_ignores_order() {
    let a = combine_flags(&[
        MagicFlag::MAGIC_SYMLINK,
        MagicFlag::MAGIC_COMPRESS,
        MagicFlag::MAGIC_PRESERVE_ATIME,
    ]);
    let b = combine_flags(&[
        MagicFlag::MAGIC_PRESERVE_ATIME,
        MagicFlag::MAGIC_SYMLINK,
        MagicFlag::MAGIC_COMPRESS,
    ]);
    assert_eq!(a, 0x000086);
    assert_eq!(a, b);
}

#[test]
fn combine_ignores_duplicates() {
    let once = combine_flags(&[MagicFlag::MAGIC_CHECK, MagicFlag::MAGIC_RAW]);
    let twice = combine_flags(&[
        MagicFlag::MAGIC_CHECK,
        MagicFlag::MAGIC_RAW,
        MagicFlag::MAGIC_CHECK,
        MagicFlag::MAGIC_CHECK,
    ]);
    assert_eq!(once, 0x000140);
    assert_eq!(once, twice);
}

#[test]
fn combine_overlapping_options() {
    let m = combine_flags(&[MagicFlag::MAGIC_MIME, MagicFlag::MAGIC_MIME_TYPE]);
    assert_eq!(m, 0x000410);
}

#[test]
fn combine_all_options() {
    let all = [
        MagicFlag::MAGIC_NONE,
        MagicFlag::MAGIC_DEBUG,
        MagicFlag::MAGIC_SYMLINK,
        MagicFlag::MAGIC_COMPRESS,
        MagicFlag::MAGIC_DEVICES,
        MagicFlag::MAGIC_MIME_TYPE,
        MagicFlag::MAGIC_CONTINUE,
        MagicFlag::MAGIC_CHECK,
        MagicFlag::MAGIC_PRESERVE_ATIME,
        MagicFlag::MAGIC_RAW,
        MagicFlag::MAGIC_ERROR,
        MagicFlag::MAGIC_MIME_ENCODING,
        MagicFlag::MAGIC_MIME,
        MagicFlag::MAGIC_APPLE,
        MagicFlag::MAGIC_NO_CHECK_COMPRESS,
        MagicFlag::MAGIC_NO_CHECK_TAR,
        MagicFlag::MAGIC_NO_CHECK_SOFT,
        MagicFlag::MAGIC_NO_CHECK_APPTYPE,
        MagicFlag::MAGIC_NO_CHECK_ELF,
        MagicFlag::MAGIC_NO_CHECK_TEXT,
        MagicFlag::MAGIC_NO_CHECK_CDF,
        MagicFlag::MAGIC_NO_CHECK_TOKENS,
        MagicFlag::MAGIC_NO_CHECK_ENCODING,
    ];
    assert_eq!(combine_flags(&all), 0x37ffff);
}

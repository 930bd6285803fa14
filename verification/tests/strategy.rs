use release_installer::strategy::{classify, extension, Strategy};

#[test]
fn deb_is_installed_as_a_package() {
    assert_eq!(classify("tool.deb"), Strategy::PackageInstall);
}

#[test]
fn tar_gz_is_extracted_by_its_last_extension() {
    assert_eq!(extension("tool.tar.gz"), Some("gz"));
    assert_eq!(classify("tool.tar.gz"), Strategy::ArchiveExtraction);
}

#[test]
fn tar_and_tgz_are_extracted() {
    assert_eq!(classify("tool.tar"), Strategy::ArchiveExtraction);
    assert_eq!(classify("tool.tgz"), Strategy::ArchiveExtraction);
    assert_eq!(classify("tool.gz"), Strategy::ArchiveExtraction);
}

#[test]
fn zip_has_its_own_strategy() {
    assert_eq!(classify("tool.zip"), Strategy::ZipExtraction);
}

#[test]
fn name_without_dot_is_a_raw_binary() {
    assert_eq!(extension("tool"), None);
    assert_eq!(classify("tool"), Strategy::RawBinary);
}

#[test]
fn unknown_extension_is_unhandled() {
    assert_eq!(extension("tool.AppImage"), Some("AppImage"));
    assert_eq!(classify("tool.AppImage"), Strategy::Unhandled);
}

#[test]
fn extensions_are_case_sensitive() {
    assert_eq!(classify("tool.DEB"), Strategy::Unhandled);
    assert_eq!(classify("tool.Tar"), Strategy::Unhandled);
    assert_eq!(classify("tool.ZIP"), Strategy::Unhandled);
}

#[test]
fn empty_extension_is_unhandled() {
    assert_eq!(extension("tool."), Some(""));
    assert_eq!(classify("tool."), Strategy::Unhandled);
}

#[test]
fn leading_dot_counts_as_the_separator() {
    assert_eq!(extension(".deb"), Some("deb"));
    assert_eq!(classify(".deb"), Strategy::PackageInstall);
    assert_eq!(classify(".bashrc"), Strategy::Unhandled);
}

#[test]
fn empty_name_is_a_raw_binary() {
    assert_eq!(extension(""), None);
    assert_eq!(classify(""), Strategy::RawBinary);
}

#[test]
fn extension_is_taken_after_the_last_dot_only() {
    assert_eq!(extension("tool-1.2.3.deb"), Some("deb"));
    assert_eq!(extension("tool.deb.sig"), Some("sig"));
    assert_eq!(classify("tool.deb.sig"), Strategy::Unhandled);
    assert_eq!(classify("archive.zip.tar"), Strategy::ArchiveExtraction);
}

#[test]
fn extension_agrees_with_splitting_at_the_last_dot() {
    let names = [
        "tool.deb",
        "tool.tar.gz",
        "tool",
        "",
        ".",
        "..",
        "a.",
        ".a",
        "tool v1.0 (final).zip",
        "werkzeug-\u{e4}\u{f6}\u{fc}.t\u{e4}r",
        "\u{1f980}.\u{1f980}",
        "dir/with.dot/file",
    ];
    for name in names {
        assert_eq!(extension(name), name.rsplit_once('.').map(|(_, ext)| ext), "{name:?}");
    }
}

#[test]
fn extension_of_a_name_with_wide_characters() {
    assert_eq!(extension("\u{1f980}\u{1f980}.deb"), Some("deb"));
    assert_eq!(classify("\u{1f980}\u{1f980}.deb"), Strategy::PackageInstall);
    assert_eq!(extension("tool.\u{1f980}"), Some("\u{1f980}"));
}

#[test]
fn handled_strategies_delete_the_download() {
    assert!(Strategy::PackageInstall.deletes_download());
    assert!(Strategy::ArchiveExtraction.deletes_download());
    assert!(Strategy::ZipExtraction.deletes_download());
    assert!(!Strategy::Unhandled.deletes_download());
    assert!(!Strategy::RawBinary.deletes_download());
}

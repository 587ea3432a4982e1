use mfekglif::filesystem_watch::{classify_changed_file, classify_glif_change, ChangedFile, GlifChange};

#[test]
fn fontinfo_is_metadata() {
    assert_eq!(
        classify_changed_file(Some(b"fontinfo.plist"), Some(b"plist")),
        ChangedFile::FontInfo
    );
}

#[test]
fn glif_and_glifjson_are_glyphs() {
    assert_eq!(classify_changed_file(Some(b"A_.glif"), Some(b"glif")), ChangedFile::Glif);
    assert_eq!(classify_changed_file(Some(b"a.glifjson"), Some(b"glifjson")), ChangedFile::Glif);
}

#[test]
fn other_files_are_ignored() {
    assert_eq!(classify_changed_file(Some(b"metainfo.plist"), Some(b"plist")), ChangedFile::Other);
    assert_eq!(classify_changed_file(Some(b"glif"), None), ChangedFile::Other);
    assert_eq!(classify_changed_file(None, None), ChangedFile::Other);
    assert_eq!(classify_changed_file(Some(b"x.GLIF"), Some(b"GLIF")), ChangedFile::Other);
}

#[test]
fn own_saves_do_not_prompt() {
    for d in ["Saved glyph", "Flattened glyph", "Exported glyph"] {
        assert_eq!(
            classify_glif_change(b"A_.glif", b"A_.glif", Some(d.as_bytes())),
            GlifChange::OwnWrite
        );
    }
}

#[test]
fn foreign_writes_of_the_current_glyph_prompt() {
    assert_eq!(
        classify_glif_change(b"A_.glif", b"A_.glif", Some(b"Moved point")),
        GlifChange::PromptReload
    );
    assert_eq!(classify_glif_change(b"A_.glif", b"A_.glif", None), GlifChange::PromptReload);
    assert_eq!(
        classify_glif_change(b"A_.glif", b"A_.glif", Some(b"Saved glyph ")),
        GlifChange::PromptReload
    );
}

#[test]
fn other_glyphs_are_only_noted() {
    assert_eq!(
        classify_glif_change(b"B_.glif", b"A_.glif", Some(b"Saved glyph")),
        GlifChange::OtherGlif
    );
    assert_eq!(classify_glif_change(b"B_.glif", b"A_.glif", None), GlifChange::OtherGlif);
}

//! What the editor does when a file of the font it edits changes on disk. File names
//! are handled as the bytes of the operating system's encoding.
use vstd::prelude::*;

verus! {

/// The bytes of an ASCII text.
pub open spec fn ascii(s: Seq<char>) -> Seq<u8> {
    s.map_values(|c: char| c as u8)
}

/// The bytes of an optional name.
pub open spec fn opt_bytes(o: Option<&[u8]>) -> Option<Seq<u8>> {
    match o {
        Some(s) => Some(s@),
        None => None,
    }
}

fn ascii_bytes(s: &str) -> (b: &[u8])
    requires
        vstd::string::is_ascii(s),
    ensures
        b@ == ascii(s@),
{
    broadcast use vstd::string::is_ascii_spec_bytes;

    let b = s.as_bytes();
    assert(b@ =~= ascii(s@));
    b
}

fn bytes_eq(a: &[u8], b: &[u8]) -> (r: bool)
    ensures
        r == (a@ == b@),
{
    if a.len() != b.len() {
        return false;
    }
    let mut i: usize = 0;
    while i < a.len()
        invariant
            i <= a@.len(),
            a@.len() == b@.len(),
            a@.subrange(0, i as int) == b@.subrange(0, i as int),
        decreases a@.len() - i,
    {
        if a[i] != b[i] {
            assert(a@[i as int] != b@[i as int]);
            return false;
        }
        assert(a@.subrange(0, i + 1) =~= a@.subrange(0, i as int).push(a@[i as int]));
        assert(b@.subrange(0, i + 1) =~= b@.subrange(0, i as int).push(b@[i as int]));
        i = i + 1;
    }
    assert(a@ =~= a@.subrange(0, a@.len() as int));
    assert(b@ =~= b@.subrange(0, b@.len() as int));
    true
}

fn opt_bytes_eq(a: Option<&[u8]>, b: &[u8]) -> (r: bool)
    ensures
        r == (opt_bytes(a) == Some(b@)),
{
    match a {
        Some(a) => bytes_eq(a, b),
        None => false,
    }
}

/// What kind of file changed.
#[derive(Clone, Copy, Debug, PartialEq, Eq, Structural)]
pub enum ChangedFile {
    /// The font's metadata, `fontinfo.plist`: the editor reloads it.
    FontInfo,
    /// A glyph, `.glif` or `.glifjson`.
    Glif,
    /// Anything else: ignored.
    Other,
}

/// The kind of a changed file, by its name and its extension.
pub open spec fn changed_file_kind(file_name: Option<Seq<u8>>, extension: Option<Seq<u8>>) -> ChangedFile {
    if file_name == Some(ascii("fontinfo.plist"@)) {
        ChangedFile::FontInfo
    } else if extension == Some(ascii("glif"@)) || extension == Some(ascii("glifjson"@)) {
        ChangedFile::Glif
    } else {
        ChangedFile::Other
    }
}

/// The kind of a changed file, given its file name and its extension.
pub fn classify_changed_file(file_name: Option<&[u8]>, extension: Option<&[u8]>) -> (r: ChangedFile)
    ensures
        r == changed_file_kind(opt_bytes(file_name), opt_bytes(extension)),
{
    proof {
        reveal_strlit("fontinfo.plist");
        reveal_strlit("glif");
        reveal_strlit("glifjson");
    }
    if opt_bytes_eq(file_name, ascii_bytes("fontinfo.plist")) {
        ChangedFile::FontInfo
    } else if opt_bytes_eq(extension, ascii_bytes("glif")) || opt_bytes_eq(
        extension,
        ascii_bytes("glifjson"),
    ) {
        ChangedFile::Glif
    } else {
        ChangedFile::Other
    }
}

/// What a change of a glyph file means.
#[derive(Clone, Copy, Debug, PartialEq, Eq, Structural)]
pub enum GlifChange {
    /// Another program rewrote the glyph being edited: the user is asked whether to
    /// reload it, losing the changes made since.
    PromptReload,
    /// The editor itself wrote the glyph being edited: the entry of the undo stack that
    /// recorded that write is taken off.
    OwnWrite,
    /// Another glyph of the font changed: nothing to do.
    OtherGlif,
}

/// Whether an undo entry records a write of the glyph by the editor itself.
pub open spec fn is_own_write(description: Seq<u8>) -> bool {
    ||| description == ascii("Saved glyph"@)
    ||| description == ascii("Flattened glyph"@)
    ||| description == ascii("Exported glyph"@)
}

/// What a change of the glyph file `changed_name` means while `current_name` is edited
/// and `last_undo` describes the newest undo entry, if any.
pub open spec fn glif_change_kind(
    changed_name: Seq<u8>,
    current_name: Seq<u8>,
    last_undo: Option<Seq<u8>>,
) -> GlifChange {
    if changed_name != current_name {
        GlifChange::OtherGlif
    } else {
        match last_undo {
            Some(d) => if is_own_write(d) {
                GlifChange::OwnWrite
            } else {
                GlifChange::PromptReload
            },
            None => GlifChange::PromptReload,
        }
    }
}

/// What a change of the glyph file `changed_name` means while the glyph file
/// `current_name` is edited, `last_undo` describing the newest undo entry, if any.
pub fn classify_glif_change(changed_name: &[u8], current_name: &[u8], last_undo: Option<&[u8]>) -> (r:
    GlifChange)
    ensures
        r == glif_change_kind(changed_name@, current_name@, opt_bytes(last_undo)),
{
    if !bytes_eq(current_name, changed_name) {
        return GlifChange::OtherGlif;
    }
    proof {
        reveal_strlit("Saved glyph");
        reveal_strlit("Flattened glyph");
        reveal_strlit("Exported glyph");
    }
    let our_change = match last_undo {
        Some(description) => Some(
            bytes_eq(description, ascii_bytes("Saved glyph")) || bytes_eq(
                description,
                ascii_bytes("Flattened glyph"),
            ) || bytes_eq(description, ascii_bytes("Exported glyph")),
        ),
        None => None,
    };
    match our_change {
        Some(true) => GlifChange::OwnWrite,
        _ => GlifChange::PromptReload,
    }
}

/// The user is asked to reload exactly when the glyph being edited changed and the
/// newest undo entry does not record a write by the editor itself; a change of another
/// glyph never asks anything.
pub proof fn lemma_prompt_only_for_foreign_writes(
    changed_name: Seq<u8>,
    current_name: Seq<u8>,
    last_undo: Option<Seq<u8>>,
)
    ensures
        (glif_change_kind(changed_name, current_name, last_undo) == GlifChange::PromptReload) <==> (
        changed_name == current_name && !(last_undo matches Some(d) && is_own_write(d))),
        (glif_change_kind(changed_name, current_name, last_undo) == GlifChange::OwnWrite) <==> (
        changed_name == current_name && (last_undo matches Some(d) && is_own_write(d))),
{
}

/// Only the metadata file `fontinfo.plist` reloads the font's metadata; otherwise a
/// file with the extension `glif` or `glifjson` is a glyph, and every other file is
/// ignored.
pub proof fn lemma_changed_file_kinds(file_name: Option<Seq<u8>>, extension: Option<Seq<u8>>)
    ensures
        (changed_file_kind(file_name, extension) == ChangedFile::FontInfo) <==> file_name == Some(
            ascii("fontinfo.plist"@),
        ),
        (changed_file_kind(file_name, extension) == ChangedFile::Glif) <==> (file_name != Some(
            ascii("fontinfo.plist"@),
        ) && (extension == Some(ascii("glif"@)) || extension == Some(ascii("glifjson"@)))),
        (changed_file_kind(file_name, extension) == ChangedFile::Other) <==> (file_name != Some(
            ascii("fontinfo.plist"@),
        ) && extension != Some(ascii("glif"@)) && extension != Some(ascii("glifjson"@))),
{
}

/// The editor's own writes of the glyph are exactly the undo entries "Saved glyph",
/// "Flattened glyph" and "Exported glyph": a change of the glyph being edited is the
/// editor's own write when the newest undo entry is one of them, and with any other
/// newest entry, or none, the user is asked to reload.
pub proof fn lemma_own_writes_are_saves(name: Seq<u8>, d: Seq<u8>)
    ensures
        (glif_change_kind(name, name, Some(d)) == GlifChange::OwnWrite) <==> (d == ascii(
            "Saved glyph"@,
        ) || d == ascii("Flattened glyph"@) || d == ascii("Exported glyph"@)),
        (glif_change_kind(name, name, Some(d)) == GlifChange::PromptReload) <==> !(d == ascii(
            "Saved glyph"@,
        ) || d == ascii("Flattened glyph"@) || d == ascii("Exported glyph"@)),
        glif_change_kind(name, name, None) == GlifChange::PromptReload,
{
}

} // verus!

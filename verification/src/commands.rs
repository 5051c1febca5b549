//! The boundary operations: load, save, render. The host performs the
//! filesystem probes (existence, file kind, canonicalization, read,
//! write) and feeds each outcome to the stage functions here, in
//! order; every decision between the probes is made and proved in
//! this module.
//!
//! Load: [`check_exists`], [`check_is_file`],
//! [`validate_canonical_for_read`] (which releases the path to read),
//! then [`finish_load`]. Save: [`check_save_extension`] (before any
//! probe), [`split_save_path`], [`save_target`] (which names the path
//! to write), then [`finish_save`]. Render: [`render_markdown`],
//! which touches no filesystem and never fails.

use vstd::prelude::*;

use crate::markdown::render_spec;
use crate::markdown::render_to_html;
use crate::paths::file_name_part;
use crate::paths::file_name_of;
use crate::paths::has_allowed_extension;
use crate::paths::joined_path;
use crate::paths::join_path;
use crate::paths::lemma_file_name_no_separator;
use crate::paths::parent_part;
use crate::paths::parent_of;
use crate::paths::path_has_allowed_extension;

verus! {

/// Content loaded from a markdown file: the canonical path, its last
/// component, the raw text, and the sanitized rendering. Built fresh
/// per load, never partially.
#[derive(Debug)]
pub struct FileContent {
    pub path: String,
    pub filename: String,
    pub content: String,
    pub html: String,
}

/// One loaded document, at specification level.
pub struct LoadedDoc {
    pub path: Seq<char>,
    pub filename: Seq<char>,
    pub content: Seq<char>,
    pub html: Seq<char>,
}

/// The specification-level image of a [`FileContent`].
pub open spec fn doc_of(fc: FileContent) -> LoadedDoc {
    LoadedDoc { path: fc.path@, filename: fc.filename@, content: fc.content@, html: fc.html@ }
}

/// The character sequences inside a string-valued result.
pub open spec fn to_seqs(r: Result<String, String>) -> Result<Seq<char>, Seq<char>> {
    match r {
        Ok(s) => Ok(s@),
        Err(s) => Err(s@),
    }
}

/// The character sequences inside a unit-valued result.
pub open spec fn unit_to_seqs(r: Result<(), String>) -> Result<(), Seq<char>> {
    match r {
        Ok(u) => Ok(u),
        Err(s) => Err(s@),
    }
}

pub open spec fn not_found_msg(path: Seq<char>, cause: Seq<char>) -> Seq<char> {
    "File not found: "@ + path + ": "@ + cause
}

pub open spec fn not_a_file_msg(path: Seq<char>) -> Seq<char> {
    "Not a file: "@ + path
}

pub open spec fn invalid_path_msg(cause: Seq<char>) -> Seq<char> {
    "Invalid file path: "@ + cause
}

pub open spec fn invalid_dir_msg(cause: Seq<char>) -> Seq<char> {
    "Invalid directory path: "@ + cause
}

/// The rejection for a disallowed extension; it enumerates the
/// allowlist.
pub open spec fn unsupported_msg() -> Seq<char> {
    "Unsupported file type. Allowed extensions: md, markdown, mdx, mdown, txt"@
}

pub open spec fn no_parent_msg() -> Seq<char> {
    "Invalid file path: no parent directory"@
}

pub open spec fn no_filename_msg() -> Seq<char> {
    "Invalid file path: no filename"@
}

pub open spec fn read_failed_msg(cause: Seq<char>) -> Seq<char> {
    "Failed to read file: "@ + cause
}

pub open spec fn write_failed_msg(cause: Seq<char>) -> Seq<char> {
    "Failed to save file: "@ + cause
}

/// First load stage: the path must name an existing entry. `probe` is
/// the metadata query's outcome; its failure carries the OS-reported
/// cause, which the NotFound message keeps.
pub open spec fn spec_check_exists(path: Seq<char>, probe: Result<(), Seq<char>>) -> Result<
    (),
    Seq<char>,
> {
    match probe {
        Ok(u) => Ok(u),
        Err(cause) => Err(not_found_msg(path, cause)),
    }
}

/// Second load stage: the entry must be a regular file. The kind
/// probe reports no OS cause — no read is attempted that could
/// produce one — so the message names the path and the finding
/// itself.
pub open spec fn spec_check_is_file(path: Seq<char>, is_file: bool) -> Result<(), Seq<char>> {
    if is_file {
        Ok(())
    } else {
        Err(not_a_file_msg(path))
    }
}

/// Third load stage: the canonicalization outcome is inspected, and
/// the extension allowlist is applied to the resolved form. Only a
/// canonical path that passes is released for reading.
pub open spec fn spec_validate_canonical(canonical: Result<Seq<char>, Seq<char>>) -> Result<
    Seq<char>,
    Seq<char>,
> {
    match canonical {
        Err(cause) => Err(invalid_path_msg(cause)),
        Ok(c) => if path_has_allowed_extension(c) {
            Ok(c)
        } else {
            Err(unsupported_msg())
        },
    }
}

/// The last component of a canonical path, with the fallback used when
/// it is empty.
pub open spec fn file_name_or_unknown(p: Seq<char>) -> Seq<char> {
    if file_name_part(p).len() == 0 {
        "Unknown"@
    } else {
        file_name_part(p)
    }
}

/// Last load stage: the read outcome becomes either the finished
/// document, rendered and sanitized, or the read-failure message.
pub open spec fn spec_finish_load(canonical: Seq<char>, read: Result<Seq<char>, Seq<char>>) -> Result<
    LoadedDoc,
    Seq<char>,
> {
    match read {
        Err(cause) => Err(read_failed_msg(cause)),
        Ok(content) => Ok(
            LoadedDoc {
                path: canonical,
                filename: file_name_or_unknown(canonical),
                content,
                html: render_spec(content),
            },
        ),
    }
}

/// The whole load pipeline over any probe outcomes: existence, file
/// kind, canonicalization with the allowlist on the resolved form,
/// then the read and the render. Any failure aborts with one message;
/// no partial document is ever produced.
pub open spec fn spec_load(
    path: Seq<char>,
    probe: Result<(), Seq<char>>,
    is_file: bool,
    canonical: Result<Seq<char>, Seq<char>>,
    read: Result<Seq<char>, Seq<char>>,
) -> Result<LoadedDoc, Seq<char>> {
    match probe {
        Err(cause) => Err(not_found_msg(path, cause)),
        Ok(u) => if !is_file {
            Err(not_a_file_msg(path))
        } else {
            match spec_validate_canonical(canonical) {
                Err(m) => Err(m),
                Ok(c) => spec_finish_load(c, read),
            }
        },
    }
}

/// First save stage: the caller-supplied extension is checked before
/// any probe.
pub open spec fn spec_check_save_extension(path: Seq<char>) -> Result<(), Seq<char>> {
    if path_has_allowed_extension(path) {
        Ok(())
    } else {
        Err(unsupported_msg())
    }
}

/// Second save stage: the path splits into the parent to canonicalize
/// and the file-name component; both must be present and the name must
/// be a real name.
pub open spec fn spec_split_save_path(path: Seq<char>) -> Result<
    (Seq<char>, Seq<char>),
    Seq<char>,
> {
    let parent = parent_part(path);
    let name = file_name_part(path);
    if parent.len() == 0 {
        Err(no_parent_msg())
    } else if name.len() == 0 || name == seq!['.'] || name == seq!['.', '.'] {
        Err(no_filename_msg())
    } else {
        Ok((parent, name))
    }
}

/// Third save stage: the canonicalized parent joined with the original
/// file-name component names the write target — never the raw path, so
/// the name cannot reintroduce traversal.
pub open spec fn spec_save_target(
    canonical_parent: Result<Seq<char>, Seq<char>>,
    name: Seq<char>,
) -> Result<Seq<char>, Seq<char>> {
    match canonical_parent {
        Err(cause) => Err(invalid_dir_msg(cause)),
        Ok(parent) => Ok(joined_path(parent, name)),
    }
}

/// Last save stage: the write outcome, with its failure message.
pub open spec fn spec_finish_save(write: Result<(), Seq<char>>) -> Result<(), Seq<char>> {
    match write {
        Err(cause) => Err(write_failed_msg(cause)),
        Ok(u) => Ok(u),
    }
}

/// The whole save pipeline over any probe outcomes: extension first,
/// then the split, the canonicalized parent, and the write.
pub open spec fn spec_save(
    path: Seq<char>,
    canonical_parent: Result<Seq<char>, Seq<char>>,
    write: Result<(), Seq<char>>,
) -> Result<(), Seq<char>> {
    match spec_check_save_extension(path) {
        Err(m) => Err(m),
        Ok(u) => match spec_split_save_path(path) {
            Err(m) => Err(m),
            Ok(pair) => match spec_save_target(canonical_parent, pair.1) {
                Err(m) => Err(m),
                Ok(target) => spec_finish_save(write),
            },
        },
    }
}

/// First load stage: `probe` is the host's metadata query for the
/// path; a failure means no entry was found, and its OS-reported
/// cause stays in the message.
pub fn check_exists(path: &str, probe: Result<(), String>) -> (r: Result<(), String>)
    ensures
        unit_to_seqs(r) == spec_check_exists(path@, unit_to_seqs(probe)),
{
    match probe {
        Ok(u) => Ok(u),
        Err(cause) => Err(
            String::from_str("File not found: ").concat(path).concat(": ").concat(cause.as_str()),
        ),
    }
}

/// Second load stage: `is_file` is the host's answer to whether the
/// entry is a regular file. A directory is rejected here, before any
/// canonicalization or read; since nothing is read, the OS reports no
/// cause for this finding, and the message names it itself.
pub fn check_is_file(path: &str, is_file: bool) -> (r: Result<(), String>)
    ensures
        unit_to_seqs(r) == spec_check_is_file(path@, is_file),
{
    if is_file {
        Ok(())
    } else {
        Err(String::from_str("Not a file: ").concat(path))
    }
}

/// Third load stage: takes the canonicalization outcome and applies
/// the extension allowlist to the resolved form. An `Ok` names the
/// only path the host may read.
pub fn validate_canonical_for_read(canonical: Result<String, String>) -> (r: Result<
    String,
    String,
>)
    ensures
        to_seqs(r) == spec_validate_canonical(to_seqs(canonical)),
{
    match canonical {
        Err(cause) => Err(String::from_str("Invalid file path: ").concat(cause.as_str())),
        Ok(c) => {
            if has_allowed_extension(c.as_str()) {
                Ok(c)
            } else {
                Err(
                    String::from_str(
                        "Unsupported file type. Allowed extensions: md, markdown, mdx, mdown, txt",
                    ),
                )
            }
        },
    }
}

/// Last load stage: turns the read outcome into the finished document.
/// The content is kept verbatim and the html is its sanitized
/// rendering; on failure no partial document is produced.
pub fn finish_load(canonical: String, read: Result<String, String>) -> (r: Result<
    FileContent,
    String,
>)
    ensures
        r is Ok <==> read is Ok,
        r matches Ok(fc) ==> spec_finish_load(canonical@, to_seqs(read)) == Ok::<
            LoadedDoc,
            Seq<char>,
        >(doc_of(fc)),
        r matches Err(m) ==> spec_finish_load(canonical@, to_seqs(read)) == Err::<
            LoadedDoc,
            Seq<char>,
        >(m@),
{
    match read {
        Err(cause) => Err(String::from_str("Failed to read file: ").concat(cause.as_str())),
        Ok(content) => {
            let named = file_name_of(canonical.as_str());
            let filename = if named.as_str().is_empty() {
                String::from_str("Unknown")
            } else {
                named
            };
            let html = render_to_html(content.as_str());
            Ok(FileContent { path: canonical, filename, content, html })
        },
    }
}

/// First save stage: the caller-supplied extension is checked before
/// any probe, canonicalization or write.
pub fn check_save_extension(path: &str) -> (r: Result<(), String>)
    ensures
        unit_to_seqs(r) == spec_check_save_extension(path@),
{
    if has_allowed_extension(path) {
        Ok(())
    } else {
        Err(
            String::from_str(
                "Unsupported file type. Allowed extensions: md, markdown, mdx, mdown, txt",
            ),
        )
    }
}

/// Whether `name` is one of the two relative components.
fn is_dot_component(name: &str) -> (b: bool)
    ensures
        b == (name@ == seq!['.'] || name@ == seq!['.', '.']),
{
    let m = name.unicode_len();
    if m == 1 {
        let b = name.get_char(0) == '.';
        proof {
            if name@[0] == '.' {
                assert(name@ =~= seq!['.']);
            }
        }
        b
    } else if m == 2 {
        let b = name.get_char(0) == '.' && name.get_char(1) == '.';
        proof {
            if name@[0] == '.' && name@[1] == '.' {
                assert(name@ =~= seq!['.', '.']);
            }
        }
        b
    } else {
        false
    }
}

/// Second save stage: splits the raw path into the parent directory to
/// canonicalize and the file-name component to keep.
pub fn split_save_path(path: &str) -> (r: Result<(String, String), String>)
    ensures
        r matches Ok(pair) ==> spec_split_save_path(path@) == Ok::<
            (Seq<char>, Seq<char>),
            Seq<char>,
        >((pair.0@, pair.1@)),
        r matches Err(m) ==> spec_split_save_path(path@) == Err::<
            (Seq<char>, Seq<char>),
            Seq<char>,
        >(m@),
{
    let parent = parent_of(path);
    let name = file_name_of(path);
    if parent.as_str().is_empty() {
        Err(String::from_str("Invalid file path: no parent directory"))
    } else if name.as_str().is_empty() || is_dot_component(name.as_str()) {
        Err(String::from_str("Invalid file path: no filename"))
    } else {
        Ok((parent, name))
    }
}

/// Third save stage: the canonicalization outcome of the parent, joined
/// with the kept file name, names the only path the host may write.
pub fn save_target(canonical_parent: Result<String, String>, name: &str) -> (r: Result<
    String,
    String,
>)
    ensures
        to_seqs(r) == spec_save_target(to_seqs(canonical_parent), name@),
{
    match canonical_parent {
        Err(cause) => Err(String::from_str("Invalid directory path: ").concat(cause.as_str())),
        Ok(parent) => Ok(join_path(parent.as_str(), name)),
    }
}

/// Last save stage: the write outcome, with its failure message.
pub fn finish_save(write: Result<(), String>) -> (r: Result<(), String>)
    ensures
        unit_to_seqs(r) == spec_finish_save(unit_to_seqs(write)),
{
    match write {
        Err(cause) => Err(String::from_str("Failed to save file: ").concat(cause.as_str())),
        Ok(u) => Ok(u),
    }
}

/// Renders markdown to sanitized HTML: the pure boundary operation. It
/// touches no filesystem and never fails.
pub fn render_markdown(content: String) -> (r: String)
    ensures
        r@ == render_spec(content@),
{
    render_to_html(content.as_str())
}

/// A save of a path whose extension is outside the allowlist is
/// rejected with the UnsupportedExtension message whatever the
/// filesystem holds: the outcome does not depend on the
/// canonicalization or write at all, so in particular not on whether
/// the file exists.
pub proof fn lemma_save_rejects_unsupported_extension(
    path: Seq<char>,
    canonical_parent: Result<Seq<char>, Seq<char>>,
    write: Result<(), Seq<char>>,
)
    requires
        !path_has_allowed_extension(path),
    ensures
        spec_save(path, canonical_parent, write) == Err::<(), Seq<char>>(unsupported_msg()),
{
}

/// A load whose path resolves to a canonical form with a disallowed
/// extension is rejected with the UnsupportedExtension message, for
/// every read outcome: nothing is read.
pub proof fn lemma_load_rejects_unsupported_extension(
    path: Seq<char>,
    canonical: Seq<char>,
    read: Result<Seq<char>, Seq<char>>,
)
    requires
        !path_has_allowed_extension(canonical),
    ensures
        spec_load(path, Ok(()), true, Ok(canonical), read) == Err::<LoadedDoc, Seq<char>>(
            unsupported_msg(),
        ),
{
}

/// A path that names no filesystem entry is rejected with the
/// NotFound message — carrying the probe's OS-reported cause — before
/// canonicalization or a read takes part in the outcome.
pub proof fn lemma_load_rejects_missing(
    path: Seq<char>,
    cause: Seq<char>,
    is_file: bool,
    canonical: Result<Seq<char>, Seq<char>>,
    read: Result<Seq<char>, Seq<char>>,
)
    ensures
        spec_load(path, Err(cause), is_file, canonical, read) == Err::<LoadedDoc, Seq<char>>(
            not_found_msg(path, cause),
        ),
{
}

/// A path that resolves to something other than a regular file — a
/// directory, say — is rejected with the NotAFile message, whatever
/// canonicalization or a read would have returned: no read takes part
/// in the outcome.
pub proof fn lemma_load_rejects_non_file(
    path: Seq<char>,
    canonical: Result<Seq<char>, Seq<char>>,
    read: Result<Seq<char>, Seq<char>>,
)
    ensures
        spec_load(path, Ok(()), false, canonical, read) == Err::<LoadedDoc, Seq<char>>(
            not_a_file_msg(path),
        ),
{
}

/// A load succeeds exactly when every stage does, and the finished
/// document then carries the canonical path — which passed the
/// allowlist on its resolved form — the read content verbatim, and
/// that content's sanitized rendering. No partial document exists.
pub proof fn lemma_load_no_partial(
    path: Seq<char>,
    probe: Result<(), Seq<char>>,
    is_file: bool,
    canonical: Result<Seq<char>, Seq<char>>,
    read: Result<Seq<char>, Seq<char>>,
)
    ensures
        spec_load(path, probe, is_file, canonical, read) is Ok <==> (probe is Ok && is_file
            && canonical is Ok && path_has_allowed_extension(canonical->Ok_0) && read is Ok),
        spec_load(path, probe, is_file, canonical, read) matches Ok(doc) ==> {
            &&& doc.path == canonical->Ok_0
            &&& path_has_allowed_extension(doc.path)
            &&& doc.filename == file_name_or_unknown(doc.path)
            &&& doc.content == read->Ok_0
            &&& doc.html == render_spec(doc.content)
        },
{
}

/// Loading back exactly the bytes that were saved yields the same
/// content, and html equal to that content's rendering: the verified
/// half of the save/load round trip.
pub proof fn lemma_round_trip(path: Seq<char>, canonical: Seq<char>, saved: Seq<char>)
    requires
        path_has_allowed_extension(canonical),
    ensures
        spec_load(path, Ok(()), true, Ok(canonical), Ok(saved)) == Ok::<LoadedDoc, Seq<char>>(
            LoadedDoc {
                path: canonical,
                filename: file_name_or_unknown(canonical),
                content: saved,
                html: render_spec(saved),
            },
        ),
{
}

/// Canonicalization precedes the extension check, which precedes the
/// release of a path to read: whatever raw path was supplied, only its
/// resolved form is checked and released, so a symlink pointing
/// outside the apparent directory is judged on its target.
pub proof fn lemma_read_target_is_checked_canonical_form(canonical: Result<Seq<char>, Seq<char>>)
    ensures
        spec_validate_canonical(canonical) matches Ok(released) ==> {
            &&& canonical == Ok::<Seq<char>, Seq<char>>(released)
            &&& path_has_allowed_extension(released)
        },
{
}

/// The write target is the canonical parent joined with the original
/// file-name component, which holds no separator and is neither `.`
/// nor `..`: the kept name cannot walk out of the canonicalized
/// directory.
pub proof fn lemma_save_target_confined(path: Seq<char>, canonical_parent: Seq<char>)
    ensures
        spec_split_save_path(path) matches Ok(pair) ==> {
            &&& spec_save_target(Ok(canonical_parent), pair.1) == Ok::<Seq<char>, Seq<char>>(
                joined_path(canonical_parent, pair.1),
            )
            &&& pair.1 == file_name_part(path)
            &&& forall|j: int| 0 <= j < pair.1.len() ==> pair.1[j] != '/'
            &&& pair.1.len() > 0
            &&& pair.1 != seq!['.']
            &&& pair.1 != seq!['.', '.']
        },
{
    lemma_file_name_no_separator(path);
}

} // verus!

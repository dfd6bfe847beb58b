//! Attachments: which files may be attached, what kind of content they are
//! taken to hold, and the records kept of them.

use vstd::prelude::*;
use crate::text::begins_with;
use crate::error::listing_failure;
use vstd::string::StringExecFns;
use crate::clock::now;
use crate::db::DbConnection;
use crate::ids::new_id;
use crate::rows::first_row;
use crate::rows::get_i64;
use crate::rows::get_opt_i64;
use crate::rows::get_opt_text;
use crate::rows::get_text;
use crate::rows::int_at;
use crate::rows::opt_int;
use crate::rows::opt_int_at;
use crate::rows::opt_text_at;
use crate::rows::opt_view;
use crate::rows::text_at;
use crate::rows::BAD_ROW;
use crate::error::describe_error;
use crate::error::listing_error;
use crate::sqlite::execute_with;
use crate::sqlite::query_rows;
use crate::sqlite::Cell;
use crate::sqlite::SqlValue;
use crate::statement::bind_opt_i64;
use crate::statement::bind_opt_text;
use crate::statement::bind_text;
use crate::text::concat;
use crate::text::contains_name;
use crate::text::lowercase;
use crate::text::str_eq;
use crate::text::texts;
use crate::text::to_lowercase;
use crate::sqlite::values;
use crate::sqlite::Datum;
use crate::statement::text_or_null;
use crate::statement::int_or_null;
use crate::rows::single_row;
use crate::rows::read_or;

verus! {

/// The record of a file attached to a task.
#[derive(Debug, Clone)]
pub struct Attachment {
    pub id: String,
    pub task_id: String,
    pub filename: String,
    pub path: String,
    pub mime: Option<String>,
    pub size: Option<i64>,
    pub created_at: i64,
}

/// Whether a path is a bare name on every platform: it holds no separator
/// and no drive colon, and it is not the name `..` of the parent directory.
/// Such a path is its own file name.
pub open spec fn bare_name(path: Seq<char>) -> bool {
    &&& !path.contains('/')
    &&& !path.contains('\\')
    &&& !path.contains(':')
    &&& path != ".."@
}

/// The place of the last dot in a name; -1 where it has none.
pub open spec fn last_dot(name: Seq<char>) -> int
    decreases name.len(),
{
    if name.len() == 0 {
        -1
    } else if name.last() == '.' {
        name.len() - 1
    } else {
        last_dot(name.drop_last())
    }
}

/// The extension of a file name, as the documentation of `Path::extension`
/// gives it: none where the name has no dot, none where its only dot is its
/// first character, and otherwise what follows the last dot.
pub open spec fn extension_in(name: Seq<char>) -> Option<Seq<char>> {
    let at = last_dot(name);
    if at <= 0 {
        None
    } else {
        Some(name.subrange(at + 1, name.len() as int))
    }
}

/// Calls `Path::extension` on the path and hands back the extension, where
/// the path has one and it is valid Unicode. What counts as the file name of
/// a path differs between platforms, so two things only are claimed, which
/// the documentation of `Path::extension` and `Path::file_name` states: a
/// path without a dot has no extension, and a path that is a bare name has
/// the extension of that name.
#[verifier::external_body]
fn path_extension(file_path: &str) -> (extension: Option<String>)
    ensures
        !file_path@.contains('.') ==> extension is None,
        bare_name(file_path@) ==> opt_view(extension) == extension_in(file_path@),
{
    std::path::Path::new(file_path).extension().and_then(|e| e.to_str()).map(|e| e.to_string())
}

/// Calls `Path::file_name` on the path and hands back the name, where the
/// path has one and it is valid Unicode. Nothing is claimed of the result.
#[verifier::external_body]
fn path_file_name(file_path: &str) -> (name: Option<String>) {
    std::path::Path::new(file_path).file_name().and_then(|n| n.to_str()).map(|n| n.to_string())
}

/// The extensions of the files that may be attached: images, PDF, text,
/// video and audio.
pub open spec fn allowed_extensions() -> Seq<Seq<char>> {
    seq![
        "png"@,
        "jpg"@,
        "jpeg"@,
        "gif"@,
        "webp"@,
        "bmp"@,
        "svg"@,
        "ico"@,
        "pdf"@,
        "txt"@,
        "md"@,
        "mp4"@,
        "webm"@,
        "mov"@,
        "mp3"@,
        "wav"@,
        "ogg"@
    ]
}

/// Whether a file with this extension may be attached. The extension counts
/// in its lowercase form; a file without extension counts as having the
/// empty one, which is not allowed.
pub open spec fn extension_allowed(extension: Option<Seq<char>>) -> bool {
    allowed_extensions().contains(
        match extension {
            Some(e) => lowercase(e),
            None => Seq::empty(),
        },
    )
}

/// What is said of a file that may not be attached.
pub open spec fn rejection() -> Seq<char> {
    "File type not allowed. Allowed types: images (png, jpg, jpeg, gif, webp, bmp, svg, ico), PDF, text (txt, md), video (mp4, webm, mov), audio (mp3, wav, ogg)"@
}

/// The list of the allowed extensions.
fn allowed_list() -> (list: Vec<String>)
    ensures
        texts(list@) == allowed_extensions(),
{
    let mut list: Vec<String> = Vec::new();
    list.push("png".to_string());
    list.push("jpg".to_string());
    list.push("jpeg".to_string());
    list.push("gif".to_string());
    list.push("webp".to_string());
    list.push("bmp".to_string());
    list.push("svg".to_string());
    list.push("ico".to_string());
    list.push("pdf".to_string());
    list.push("txt".to_string());
    list.push("md".to_string());
    list.push("mp4".to_string());
    list.push("webm".to_string());
    list.push("mov".to_string());
    list.push("mp3".to_string());
    list.push("wav".to_string());
    list.push("ogg".to_string());
    assert(texts(list@) =~= allowed_extensions());
    list
}

/// Whether files of the given lowercase extension may be attached.
pub fn extension_is_allowed(lower: &str) -> (allowed: bool)
    ensures
        allowed == allowed_extensions().contains(lower@),
{
    contains_name(&allowed_list(), lower)
}

/// Accepts a file by its extension: `Ok` exactly where the extension is
/// allowed, and the rejection message otherwise.
pub fn validate_extension(extension: &Option<String>) -> (r: Result<(), String>)
    ensures
        r is Ok <==> extension_allowed(opt_view(*extension)),
        r matches Err(message) ==> message@ == rejection(),
{
    let lower = match extension {
        Some(e) => to_lowercase(e.as_str()),
        None => String::new(),
    };
    if extension_is_allowed(lower.as_str()) {
        Ok(())
    } else {
        Err(
            "File type not allowed. Allowed types: images (png, jpg, jpeg, gif, webp, bmp, svg, ico), PDF, text (txt, md), video (mp4, webm, mov), audio (mp3, wav, ogg)".to_string(),
        )
    }
}

/// No file without extension may be attached.
pub proof fn lemma_no_extension_rejected()
    ensures
        !extension_allowed(None),
{
    reveal_strlit("png");
    reveal_strlit("jpg");
    reveal_strlit("jpeg");
    reveal_strlit("gif");
    reveal_strlit("webp");
    reveal_strlit("bmp");
    reveal_strlit("svg");
    reveal_strlit("ico");
    reveal_strlit("pdf");
    reveal_strlit("txt");
    reveal_strlit("md");
    reveal_strlit("mp4");
    reveal_strlit("webm");
    reveal_strlit("mov");
    reveal_strlit("mp3");
    reveal_strlit("wav");
    reveal_strlit("ogg");
    let list = allowed_extensions();
    assert forall|i: int| 0 <= i < list.len() implies #[trigger] list[i] != Seq::<char>::empty() by {
        assert(list[i].len() > 0);
    }
    assert(!list.contains(Seq::<char>::empty()));
}

/// Accepts a file by the extension of its path, as [`validate_extension`]
/// accepts the extension. What the extension of a path is, the platform's
/// path rules decide; a path without a dot has none and is rejected, and a
/// bare file name is accepted exactly where what follows its last dot is
/// allowed.
pub fn validate_file_type(file_path: &str) -> (r: Result<(), String>)
    ensures
        !file_path@.contains('.') ==> r is Err,
        bare_name(file_path@) ==> (r is Ok <==> extension_allowed(extension_in(file_path@))),
        r matches Err(message) ==> message@ == rejection(),
{
    proof {
        lemma_no_extension_rejected();
    }
    validate_extension(&path_extension(file_path))
}

/// The content type of a file with the given lowercase extension, where it
/// is known.
pub open spec fn mime_of(extension: Seq<char>) -> Option<Seq<char>> {
    if extension == "png"@ {
        Some("image/png"@)
    } else if extension == "jpg"@ || extension == "jpeg"@ {
        Some("image/jpeg"@)
    } else if extension == "gif"@ {
        Some("image/gif"@)
    } else if extension == "webp"@ {
        Some("image/webp"@)
    } else if extension == "bmp"@ {
        Some("image/bmp"@)
    } else if extension == "svg"@ {
        Some("image/svg+xml"@)
    } else if extension == "ico"@ {
        Some("image/x-icon"@)
    } else if extension == "pdf"@ {
        Some("application/pdf"@)
    } else if extension == "txt"@ {
        Some("text/plain"@)
    } else if extension == "md"@ {
        Some("text/markdown"@)
    } else if extension == "mp4"@ {
        Some("video/mp4"@)
    } else if extension == "webm"@ {
        Some("video/webm"@)
    } else if extension == "mov"@ {
        Some("video/quicktime"@)
    } else if extension == "mp3"@ {
        Some("audio/mpeg"@)
    } else if extension == "wav"@ {
        Some("audio/wav"@)
    } else if extension == "ogg"@ {
        Some("audio/ogg"@)
    } else {
        None
    }
}

/// The content type of a file with the given extension, which counts in its
/// lowercase form; none for a file without extension.
pub open spec fn mime_for(extension: Option<Seq<char>>) -> Option<Seq<char>> {
    match extension {
        Some(e) => mime_of(lowercase(e)),
        None => None,
    }
}

/// The content type of a file with the given extension, where it is known.
pub fn mime_for_extension(extension: &Option<String>) -> (r: Option<String>)
    ensures
        opt_view(r) == mime_for(opt_view(*extension)),
{
    match extension {
        Some(e) => mime_of_lowercase(to_lowercase(e.as_str()).as_str()),
        None => None,
    }
}

/// The content type of a file with the given lowercase extension, where it
/// is known.
pub fn mime_of_lowercase(lower: &str) -> (r: Option<String>)
    ensures
        opt_view(r) == mime_of(lower@),
{
    let e = lower;
    if str_eq(e, "png") {
        Some("image/png".to_string())
    } else if str_eq(e, "jpg") || str_eq(e, "jpeg") {
        Some("image/jpeg".to_string())
    } else if str_eq(e, "gif") {
        Some("image/gif".to_string())
    } else if str_eq(e, "webp") {
        Some("image/webp".to_string())
    } else if str_eq(e, "bmp") {
        Some("image/bmp".to_string())
    } else if str_eq(e, "svg") {
        Some("image/svg+xml".to_string())
    } else if str_eq(e, "ico") {
        Some("image/x-icon".to_string())
    } else if str_eq(e, "pdf") {
        Some("application/pdf".to_string())
    } else if str_eq(e, "txt") {
        Some("text/plain".to_string())
    } else if str_eq(e, "md") {
        Some("text/markdown".to_string())
    } else if str_eq(e, "mp4") {
        Some("video/mp4".to_string())
    } else if str_eq(e, "webm") {
        Some("video/webm".to_string())
    } else if str_eq(e, "mov") {
        Some("video/quicktime".to_string())
    } else if str_eq(e, "mp3") {
        Some("audio/mpeg".to_string())
    } else if str_eq(e, "wav") {
        Some("audio/wav".to_string())
    } else if str_eq(e, "ogg") {
        Some("audio/ogg".to_string())
    } else {
        None
    }
}

/// The content type of a file, by the extension of its path: one of the
/// types that [`mime_of`] knows, or none. A path without a dot has no
/// extension and so no content type; a bare file name has the type of what
/// follows its last dot.
pub fn get_mime_type(file_path: &str) -> (r: Option<String>)
    ensures
        !file_path@.contains('.') ==> r is None,
        bare_name(file_path@) ==> opt_view(r) == mime_for(extension_in(file_path@)),
        r matches Some(mime) ==> exists|extension: Seq<char>| mime_of(extension) == Some(mime@),
{
    let extension = path_extension(file_path);
    let r = mime_for_extension(&extension);
    proof {
        if r is Some {
            assert(mime_of(lowercase(extension->0@)) == Some(r->0@));
        }
    }
    r
}

/// The name under which an attached file is stored: the unique id, and the
/// extension of the source after a dot where the source has one.
pub fn storage_file_name(unique_id: &str, extension: &str) -> (name: String)
    ensures
        name@ == if extension@.len() == 0 {
            unique_id@
        } else {
            unique_id@ + "."@ + extension@
        },
{
    let mut name = unique_id.to_string();
    if extension.unicode_len() > 0 {
        name.append(".");
        name.append(extension);
    }
    name
}

/// Whether an attachment row can be read.
pub open spec fn attachment_row_readable(row: Seq<Cell>) -> bool {
    &&& text_at(row, 0) is Some
    &&& text_at(row, 1) is Some
    &&& text_at(row, 2) is Some
    &&& text_at(row, 3) is Some
    &&& opt_text_at(row, 4) is Some
    &&& opt_int_at(row, 5) is Some
    &&& int_at(row, 6) is Some
}

/// Whether `a` holds what `row` holds: each field is what its column
/// gives.
pub open spec fn attachment_reads(a: Attachment, row: Seq<Cell>) -> bool {
    &&& Some(a.id@) == text_at(row, 0)
    &&& Some(a.task_id@) == text_at(row, 1)
    &&& Some(a.filename@) == text_at(row, 2)
    &&& Some(a.path@) == text_at(row, 3)
    &&& Some(opt_view(a.mime)) == opt_text_at(row, 4)
    &&& Some(opt_int(a.size)) == opt_int_at(row, 5)
    &&& Some(a.created_at as int) == int_at(row, 6)
}

/// Reads an attachment from a row of the columns id, task_id, filename,
/// path, mime, size, created_at.
pub fn attachment_from_row(row: &Vec<Cell>) -> (r: Option<Attachment>)
    ensures
        r is Some <==> attachment_row_readable(row@),
        r matches Some(a) ==> attachment_reads(a, row@),
{
    let id = get_text(row, 0)?;
    let task_id = get_text(row, 1)?;
    let filename = get_text(row, 2)?;
    let path = get_text(row, 3)?;
    let mime = get_opt_text(row, 4)?;
    let size = get_opt_i64(row, 5)?;
    let created_at = get_i64(row, 6)?;
    Some(Attachment { id, task_id, filename, path, mime, size, created_at })
}

/// The attachments read from `rows`, or the message for the first row that
/// cannot be read.
pub fn attachments_from_rows(rows: &Vec<Vec<Cell>>) -> (r: Result<Vec<Attachment>, String>)
    ensures
        r matches Err(message) ==> begins_with(message@, "Row parsing error: "@),
        r is Ok <==> forall|i: int|
            0 <= i < rows@.len() ==> attachment_row_readable(#[trigger] rows@[i]@),
        r matches Ok(list) ==> list@.len() == rows@.len() && forall|i: int|
            0 <= i < list@.len() ==> attachment_reads(#[trigger] list@[i], rows@[i]@),
{
    let mut list: Vec<Attachment> = Vec::new();
    let mut i: usize = 0;
    while i < rows.len()
        invariant
            i <= rows@.len(),
            list@.len() == i,
            forall|j: int| 0 <= j < i ==> attachment_reads(#[trigger] list@[j], rows@[j]@),
            forall|j: int| 0 <= j < i ==> attachment_row_readable(#[trigger] rows@[j]@),
        decreases rows@.len() - i,
    {
        match attachment_from_row(&rows[i]) {
            Some(attachment) => list.push(attachment),
            None => {
                return Err(concat("Row parsing error: ", BAD_ROW));
            },
        }
        i += 1;
    }
    Ok(list)
}

/// The attachments of the task `task_id`, oldest first.
pub fn get_attachments(db: &DbConnection, task_id: String) -> (r: Result<Vec<Attachment>, String>)
    ensures
        r matches Err(message) ==> listing_failure(message@),
{
    let mut params: Vec<SqlValue> = Vec::new();
    params.push(SqlValue::Text(task_id));
    match query_rows(
        &db.conn,
        "SELECT id, task_id, filename, path, mime, size, created_at FROM attachments WHERE task_id = ?1 ORDER BY created_at",
        &params,
    ) {
        Ok(rows) => attachments_from_rows(&rows),
        Err(e) => Err(listing_error(&e)),
    }
}

/// Reads the attachment `id`; `prefix` is put before the reason of a
/// failure.
fn read_attachment(db: &DbConnection, id: &str, prefix: &str) -> (r: Result<Attachment, String>)
    ensures
        r matches Err(message) ==> begins_with(message@, prefix@),
{
    let mut params: Vec<SqlValue> = Vec::new();
    params.push(bind_text(id));
    let row = single_row(
        first_row(
            &db.conn,
            "SELECT id, task_id, filename, path, mime, size, created_at FROM attachments WHERE id = ?1",
            &params,
        ),
        prefix,
    )?;
    read_or(attachment_from_row(&row), prefix)
}

/// The attachment `id`.
pub fn get_attachment(db: &DbConnection, id: String) -> (r: Result<Attachment, String>)
    ensures
        r matches Err(message) ==> begins_with(message@, "Failed to fetch attachment: "@),
{
    read_attachment(db, id.as_str(), "Failed to fetch attachment: ")
}

/// The values bound to the insert of an attachment: its id, its task, the
/// name of the file (`unknown` where there is none), where the copy lies, the
/// content type and the size where they are known, and the time of creation.
pub open spec fn attachment_values(
    id: Seq<char>,
    task_id: Seq<char>,
    name: Option<String>,
    stored_path: Seq<char>,
    mime: Option<String>,
    size: Option<i64>,
    now: int,
) -> Seq<Datum> {
    seq![
        Datum::Text(id),
        Datum::Text(task_id),
        Datum::Text(
            match name {
                Some(name) => name@,
                None => "unknown"@,
            },
        ),
        Datum::Text(stored_path),
        text_or_null(mime),
        int_or_null(size),
        Datum::Integer(now)
    ]
}

/// The values bound to the insert of an attachment.
pub fn attachment_parameters(
    id: &str,
    task_id: String,
    name: Option<String>,
    stored_path: String,
    mime: &Option<String>,
    size: Option<i64>,
    now: i64,
) -> (params: Vec<SqlValue>)
    ensures
        values(params@) == attachment_values(id@, task_id@, name, stored_path@, *mime, size, now as int),
{
    let mut params: Vec<SqlValue> = Vec::new();
    params.push(bind_text(id));
    params.push(SqlValue::Text(task_id));
    params.push(
        match name {
            Some(name) => SqlValue::Text(name),
            None => bind_text("unknown"),
        },
    );
    params.push(SqlValue::Text(stored_path));
    params.push(bind_opt_text(mime));
    params.push(bind_opt_i64(size));
    params.push(SqlValue::Integer(now));
    assert(values(params@) =~= attachment_values(
        id@,
        task_id@,
        name,
        stored_path@,
        *mime,
        size,
        now as int,
    ));
    params
}

/// Records a file that was copied into the application's storage as an
/// attachment of the task `task_id`. `file_path` is where the file came from:
/// it gives the record its file name (`unknown` where the path has none) and
/// its content type. `stored_path` is where the copy lies, `size` the size of
/// the file where that is known.
pub fn add_attachment(
    db: &DbConnection,
    task_id: String,
    file_path: String,
    stored_path: String,
    size: Option<i64>,
) -> (r: Result<Attachment, String>)
    ensures
        r matches Err(message) ==> begins_with(message@, "Failed to create attachment record: "@)
            || begins_with(message@, "Failed to fetch created attachment: "@),
{
    let name = path_file_name(file_path.as_str());
    let mime = get_mime_type(file_path.as_str());
    let id = new_id();
    let params = attachment_parameters(id.as_str(), task_id, name, stored_path, &mime, size, now());
    if let Err(e) = execute_with(
        &db.conn,
        "INSERT INTO attachments (id, task_id, filename, path, mime, size, created_at) VALUES (?1, ?2, ?3, ?4, ?5, ?6, ?7)",
        &params,
    ) {
        return Err(describe_error("Failed to create attachment record: ", &e));
    }
    read_attachment(db, id.as_str(), "Failed to fetch created attachment: ")
}

/// The stored path of the attachment `id`, relative to the application's
/// data directory.
pub fn get_attachment_path(db: &DbConnection, id: String) -> (r: Result<String, String>)
    ensures
        r matches Err(message) ==> begins_with(message@, "Failed to fetch attachment path: "@),
{
    let mut params: Vec<SqlValue> = Vec::new();
    params.push(SqlValue::Text(id));
    let row = single_row(
        first_row(&db.conn, "SELECT path FROM attachments WHERE id = ?1", &params),
        "Failed to fetch attachment path: ",
    )?;
    read_or(get_text(&row, 0), "Failed to fetch attachment path: ")
}

/// Removes the record of the attachment `id` and hands back the stored path
/// it had, where that could be read, so that the caller can remove the file.
pub fn delete_attachment(db: &DbConnection, id: String) -> (r: Result<Option<String>, String>)
    ensures
        r matches Err(message) ==> begins_with(message@, "Failed to delete attachment: "@),
{
    let mut params: Vec<SqlValue> = Vec::new();
    params.push(SqlValue::Text(id));
    let path = match first_row(&db.conn, "SELECT path FROM attachments WHERE id = ?1", &params) {
        Ok(Some(row)) => get_text(&row, 0),
        _ => None,
    };
    match execute_with(&db.conn, "DELETE FROM attachments WHERE id = ?1", &params) {
        Ok(_) => Ok(path),
        Err(e) => Err(describe_error("Failed to delete attachment: ", &e)),
    }
}

} // verus!

//! Translations of task texts: the cache they are kept in, the language
//! guess that needs no network, and the decisions that lead from a text to
//! its translation. Asking a translation service is left to the caller.

use vstd::prelude::*;
use crate::text::begins_with;
use vstd::string::StrSliceExecFns;
use rusqlite::Connection;
use sha2::Digest;
use sha2::Sha256;
use crate::clock::now;
use crate::ids::new_id;
use crate::rows::first_row;
use crate::rows::get_text;
use crate::rows::opt_view;
use crate::rows::BAD_ROW;
use crate::error::describe_error;
use crate::error::written;
use crate::sqlite::execute_with;
use crate::sqlite::SqlValue;
use crate::statement::bind_flag;
use crate::statement::bind_text;
use crate::text::concat;
use crate::text::str_eq;
use crate::text::trim;
use crate::text::trimmed;
use crate::sqlite::values;
use crate::sqlite::Datum;
use crate::statement::flag;

verus! {

/// The SHA-256 digest of the UTF-8 bytes of a text, as 64 lowercase
/// hexadecimal digits.
pub uninterp spec fn sha256_hex(text: Seq<char>) -> Seq<char>;

/// The key under which the translations of `text` are cached.
///
/// Feeds the bytes of the text to a `sha2::Sha256` hasher (`Digest::new`,
/// `Digest::update`, `Digest::finalize`) and renders the digest with the
/// `{:x}` format. The digest depends on the text alone; it has 32 bytes, and
/// each is rendered as two digits.
#[verifier::external_body]
pub fn hash_text(text: &str) -> (hash: String)
    ensures
        hash@ == sha256_hex(text@),
        hash@.len() == 64,
{
    let mut hasher = Sha256::new();
    hasher.update(text.as_bytes());
    format!("{:x}", hasher.finalize())
}

/// Whether a text holds nothing but white space.
pub open spec fn blank(text: Seq<char>) -> bool {
    trimmed(text).len() == 0
}

/// Whether a text holds nothing but white space.
pub fn is_blank(text: &str) -> (yes: bool)
    ensures
        yes == blank(text@),
{
    trim(text).unicode_len() == 0
}

/// Whether `c` is a letter that Turkish has and English has not.
pub open spec fn turkish_letter(c: char) -> bool {
    c == '\u{e7}' || c == '\u{11f}' || c == '\u{131}' || c == '\u{f6}' || c == '\u{15f}' || c
        == '\u{fc}' || c == '\u{c7}' || c == '\u{11e}' || c == '\u{130}' || c == '\u{d6}' || c
        == '\u{15e}' || c == '\u{dc}'
}

/// Whether a text holds a Turkish letter.
pub open spec fn has_turkish_letter(text: Seq<char>) -> bool {
    exists|i: int| 0 <= i < text.len() && turkish_letter(#[trigger] text[i])
}

/// The language that a text is taken to be in where no service is asked:
/// Turkish (`tr`) where it holds a Turkish letter, English (`en`) otherwise.
pub open spec fn local_language(text: Seq<char>) -> Seq<char> {
    if has_turkish_letter(text) {
        "tr"@
    } else {
        "en"@
    }
}

/// Whether `c` is a letter that Turkish has and English has not.
fn is_turkish_letter(c: char) -> (yes: bool)
    ensures
        yes == turkish_letter(c),
{
    c == '\u{e7}' || c == '\u{11f}' || c == '\u{131}' || c == '\u{f6}' || c == '\u{15f}' || c
        == '\u{fc}' || c == '\u{c7}' || c == '\u{11e}' || c == '\u{130}' || c == '\u{d6}' || c
        == '\u{15e}' || c == '\u{dc}'
}

/// Whether the description of a task is translated along with its title: a
/// task without description, or with one that holds nothing but white space,
/// has nothing to translate there.
pub open spec fn description_wanted(description: Option<Seq<char>>) -> bool {
    match description {
        Some(text) => !blank(text),
        None => false,
    }
}

/// The description to translate, where there is one: the description of the
/// task, unless it is missing or blank.
pub fn description_to_translate(description: &Option<String>) -> (text: Option<String>)
    ensures
        text is Some <==> description_wanted(opt_view(*description)),
        text matches Some(chosen) ==> Some(chosen) == *description,
{
    match description {
        Some(text) => if is_blank(text.as_str()) {
            None
        } else {
            Some(text.clone())
        },
        None => None,
    }
}

/// Guesses the language of a text without asking a service.
pub fn detect_language_locally(text: &str) -> (language: String)
    ensures
        language@ == local_language(text@),
{
    let n = text.unicode_len();
    let mut i: usize = 0;
    while i < n
        invariant
            n == text@.len(),
            i <= n,
            forall|j: int| 0 <= j < i ==> !turkish_letter(#[trigger] text@[j]),
        decreases n - i,
    {
        if is_turkish_letter(text.get_char(i)) {
            return "tr".to_string();
        }
        i += 1;
    }
    "en".to_string()
}

/// Whether a language service is to be asked for the language of `text`:
/// there is a key for it, and the text is not blank.
pub fn remote_detection_wanted(text: &str, api_key: &Option<String>) -> (wanted: bool)
    ensures
        wanted == (!blank(text@) && api_key is Some),
{
    !is_blank(text) && api_key.is_some()
}

/// The language of `text`. A blank text counts as English. Otherwise the
/// answer of the language service decides, where it was asked and gave one
/// (`remote`), and the local guess where not.
pub fn detect_language(text: &str, remote: Option<String>) -> (language: String)
    ensures
        language@ == if blank(text@) {
            "en"@
        } else {
            match remote {
                Some(answer) => answer@,
                None => local_language(text@),
            }
        },
{
    if is_blank(text) {
        return "en".to_string();
    }
    match remote {
        Some(answer) => answer,
        None => detect_language_locally(text),
    }
}

/// How a text gets translated.
#[derive(Clone, Copy, Debug, PartialEq, Eq, Structural)]
pub enum Route {
    /// The text is handed back as it is.
    Unchanged,
    /// The paid service is asked, and the free one where that fails.
    PaidThenFree,
    /// The free service is asked.
    Free,
}

/// How `text`, which is in `source_lang`, gets translated into
/// `target_lang`: not at all where it is blank or in the target language
/// already; by the paid service where there is a key for it; by the free
/// service otherwise.
pub fn translation_route(
    text: &str,
    source_lang: &str,
    target_lang: &str,
    api_key: &Option<String>,
) -> (route: Route)
    ensures
        route == if blank(text@) || source_lang@ == target_lang@ {
            Route::Unchanged
        } else if api_key is Some {
            Route::PaidThenFree
        } else {
            Route::Free
        },
{
    if is_blank(text) || str_eq(source_lang, target_lang) {
        Route::Unchanged
    } else if api_key.is_some() {
        Route::PaidThenFree
    } else {
        Route::Free
    }
}

/// The key for the paid translation service: the one from the environment
/// where that is set and not empty, the one from the settings otherwise,
/// and none where that is missing or empty as well.
pub open spec fn chosen_key(environment: Option<Seq<char>>, stored: Option<Seq<char>>) -> Option<
    Seq<char>,
> {
    match environment {
        Some(key) if key.len() > 0 => Some(key),
        _ => match stored {
            Some(key) if key.len() > 0 => Some(key),
            _ => None,
        },
    }
}

/// Chooses the key for the paid translation service.
pub fn choose_api_key(environment: Option<String>, stored: Option<String>) -> (key: Option<String>)
    ensures
        opt_view(key) == chosen_key(opt_view(environment), opt_view(stored)),
{
    if let Some(key) = environment {
        if key.as_str().unicode_len() > 0 {
            return Some(key);
        }
    }
    if let Some(key) = stored {
        if key.as_str().unicode_len() > 0 {
            return Some(key);
        }
    }
    None
}

/// The key for the paid translation service, from the environment value
/// that the caller read or from the settings: the choice of
/// [`choose_api_key`] between the two, so a key from the environment that is
/// not empty is the answer whatever the settings hold. The call never fails:
/// where the settings cannot be read there is no key in them.
pub fn get_api_key(conn: &Connection, environment: Option<String>) -> (r: Result<
    Option<String>,
    String,
>)
    ensures
        r is Ok,
        exists|stored: Option<Seq<char>>|
            opt_view(r->Ok_0) == #[trigger] chosen_key(opt_view(environment), stored),
{
    let none: Vec<SqlValue> = Vec::new();
    let stored = match first_row(
        conn,
        "SELECT value FROM settings WHERE key = 'google_translate_api_key'",
        &none,
    ) {
        Ok(Some(row)) => get_text(&row, 0),
        _ => None,
    };
    let key = choose_api_key(environment, stored);
    assert(opt_view(key) == chosen_key(opt_view(environment), opt_view(stored)));
    Ok(key)
}

/// Looks up one translated text; none where the query has no row.
fn lookup_translation(conn: &Connection, sql: &str, params: &Vec<SqlValue>) -> (r: Result<
    Option<String>,
    String,
>)
    ensures
        r matches Err(message) ==> begins_with(message@, "Database error: "@),
{
    match first_row(conn, sql, params) {
        Ok(Some(row)) => match get_text(&row, 0) {
            Some(text) => Ok(Some(text)),
            None => Err(concat("Database error: ", BAD_ROW)),
        },
        Ok(None) => Ok(None),
        Err(e) => Err(describe_error("Database error: ", &e)),
    }
}

/// The cached translation of the text with the given hash, if there is one.
pub fn get_cached_translation(
    conn: &Connection,
    source_text_hash: &str,
    source_lang: &str,
    target_lang: &str,
    field_type: &str,
) -> (r: Result<Option<String>, String>)
    ensures
        r matches Err(message) ==> begins_with(message@, "Database error: "@),
{
    let mut params: Vec<SqlValue> = Vec::new();
    params.push(bind_text(source_text_hash));
    params.push(bind_text(source_lang));
    params.push(bind_text(target_lang));
    params.push(bind_text(field_type));
    lookup_translation(
        conn,
        "SELECT translated_text FROM translations WHERE source_text_hash = ?1 AND source_lang = ?2 AND target_lang = ?3 AND field_type = ?4",
        &params,
    )
}

/// The values bound to the write of a translation: its id, the cache key of
/// the source text, the source text, the two languages, the translation, the
/// kind of field, the task where there is one, whether a user wrote it, and
/// the time `now` as the time of creation and of the last change.
pub open spec fn translation_values(
    id: Seq<char>,
    source_text: Seq<char>,
    source_lang: Seq<char>,
    target_lang: Seq<char>,
    translated_text: Seq<char>,
    field_type: Seq<char>,
    task_id: Option<Seq<char>>,
    is_user_edited: bool,
    now: int,
) -> Seq<Datum> {
    seq![
        Datum::Text(id),
        Datum::Text(sha256_hex(source_text)),
        Datum::Text(source_text),
        Datum::Text(source_lang),
        Datum::Text(target_lang),
        Datum::Text(translated_text),
        Datum::Text(field_type),
        match task_id {
            Some(task) => Datum::Text(task),
            None => Datum::Null,
        },
        flag(is_user_edited),
        Datum::Integer(now),
        Datum::Integer(now)
    ]
}

/// The task of a translation as contracts see it.
pub open spec fn task_view(task_id: Option<&str>) -> Option<Seq<char>> {
    match task_id {
        Some(task) => Some(task@),
        None => None,
    }
}

/// The values bound to the write of a translation.
pub fn translation_parameters(
    id: String,
    source_text: &str,
    source_lang: &str,
    target_lang: &str,
    translated_text: &str,
    field_type: &str,
    task_id: Option<&str>,
    is_user_edited: bool,
    now: i64,
) -> (params: Vec<SqlValue>)
    ensures
        values(params@) == translation_values(
            id@,
            source_text@,
            source_lang@,
            target_lang@,
            translated_text@,
            field_type@,
            task_view(task_id),
            is_user_edited,
            now as int,
        ),
{
    let mut params: Vec<SqlValue> = Vec::new();
    params.push(SqlValue::Text(id));
    params.push(SqlValue::Text(hash_text(source_text)));
    params.push(bind_text(source_text));
    params.push(bind_text(source_lang));
    params.push(bind_text(target_lang));
    params.push(bind_text(translated_text));
    params.push(bind_text(field_type));
    params.push(
        match task_id {
            Some(task) => bind_text(task),
            None => SqlValue::Null,
        },
    );
    params.push(bind_flag(is_user_edited));
    params.push(SqlValue::Integer(now));
    params.push(SqlValue::Integer(now));
    assert(values(params@) =~= translation_values(
        id@,
        source_text@,
        source_lang@,
        target_lang@,
        translated_text@,
        field_type@,
        task_view(task_id),
        is_user_edited,
        now as int,
    ));
    params
}

/// Stores a translation under the hash of its source text, replacing what
/// was cached for it.
pub fn save_translation(
    conn: &Connection,
    source_text: &str,
    source_lang: &str,
    target_lang: &str,
    translated_text: &str,
    field_type: &str,
    task_id: Option<&str>,
    is_user_edited: bool,
) -> (r: Result<(), String>)
    ensures
        r matches Err(message) ==> begins_with(message@, "Failed to save translation: "@),
{
    let params = translation_parameters(
        new_id(),
        source_text,
        source_lang,
        target_lang,
        translated_text,
        field_type,
        task_id,
        is_user_edited,
        now(),
    );
    written(
        execute_with(
            conn,
            "INSERT OR REPLACE INTO translations (id, source_text_hash, source_text, source_lang, target_lang, translated_text, field_type, task_id, is_user_edited, created_at, updated_at)
         VALUES (?1, ?2, ?3, ?4, ?5, ?6, ?7, ?8, ?9, ?10, ?11)",
            &params,
        ),
        "Failed to save translation: ",
    )
}

/// The translation that the user wrote for a field of the task `task_id`,
/// if there is one.
pub fn get_user_translation(conn: &Connection, task_id: &str, field_type: &str, target_lang: &str) -> (r:
    Result<Option<String>, String>)
    ensures
        r matches Err(message) ==> begins_with(message@, "Database error: "@),
{
    let mut params: Vec<SqlValue> = Vec::new();
    params.push(bind_text(task_id));
    params.push(bind_text(field_type));
    params.push(bind_text(target_lang));
    lookup_translation(
        conn,
        "SELECT translated_text FROM translations WHERE task_id = ?1 AND field_type = ?2 AND target_lang = ?3 AND is_user_edited = 1",
        &params,
    )
}

/// What is known of a translation before any service is asked: a blank text
/// is its own translation; otherwise the translation that the user wrote
/// for the task, where a task is named and there is one. The call never
/// fails.
pub fn check_cache_and_user_translation(
    conn: &Connection,
    text: &str,
    target_lang: &str,
    field_type: &str,
    task_id: Option<&str>,
) -> (r: Result<Option<String>, String>)
    ensures
        r is Ok,
        blank(text@) ==> opt_view(r->Ok_0) == Some(text@),
        !blank(text@) && task_id is None ==> r->Ok_0 is None,
{
    if is_blank(text) {
        return Ok(Some(text.to_string()));
    }
    if let Some(id) = task_id {
        if let Ok(Some(found)) = get_user_translation(conn, id, field_type, target_lang) {
            return Ok(Some(found));
        }
    }
    Ok(None)
}

/// The text of a task that a field name stands for.
pub open spec fn field_text(field: Seq<char>, title: Seq<char>, description: Option<Seq<char>>) -> Option<
    Seq<char>,
> {
    if field == "title"@ {
        Some(title)
    } else if field == "description"@ {
        Some(
            match description {
                Some(text) => text,
                None => Seq::empty(),
            },
        )
    } else {
        None
    }
}

/// What is said of a field name that is neither `title` nor `description`.
pub open spec fn bad_field_message() -> Seq<char> {
    "Invalid field type. Must be 'title' or 'description'"@
}

/// The text of a task that `field` stands for: the title for `title`, the
/// description (empty where the task has none) for `description`. Any other
/// field name is rejected.
pub fn source_text(field: &str, title: &str, description: &Option<String>) -> (r: Result<
    String,
    String,
>)
    ensures
        match r {
            Ok(text) => Some(text@) == field_text(field@, title@, opt_view(*description)),
            Err(message) => field_text(field@, title@, opt_view(*description)) is None && message@
                == bad_field_message(),
        },
{
    if str_eq(field, "title") {
        Ok(title.to_string())
    } else if str_eq(field, "description") {
        Ok(
            match description {
                Some(text) => text.clone(),
                None => String::new(),
            },
        )
    } else {
        Err("Invalid field type. Must be 'title' or 'description'".to_string())
    }
}

/// Where the translation of a field of a task stands before any service is
/// asked.
#[derive(Debug)]
pub enum Lookup {
    /// The user wrote a translation; it is the answer.
    Found(String),
    /// The field holds nothing but white space; there is nothing to
    /// translate.
    Blank,
    /// The text has to be translated, with the key for the paid service
    /// where there is one.
    Needed { source_text: String, api_key: Option<String> },
}

/// Takes the first steps towards the translation of a field of the task
/// `task_id`, all of which only need the database: the translation that the
/// user wrote is the answer where there is one; otherwise the task is read
/// and the text of the field is taken from it.
///
/// A field name other than `title` and `description` is rejected, once it
/// is known that the user wrote no translation for it. A text that is handed
/// back for translation is not blank.
pub fn begin_translation(
    conn: &Connection,
    task_id: &str,
    field: &str,
    target_lang: &str,
    environment: Option<String>,
) -> (r: Result<Lookup, String>)
    ensures
        r matches Err(message) ==> message@ == bad_field_message()
            || begins_with(message@, "Task not found: "@),
        r matches Ok(Lookup::Needed { source_text, api_key }) ==> !blank(source_text@) && (field@
            == "title"@ || field@ == "description"@),
        r matches Ok(Lookup::Blank) ==> field@ == "title"@ || field@ == "description"@,
{
    if let Ok(Some(found)) = get_user_translation(conn, task_id, field, target_lang) {
        return Ok(Lookup::Found(found));
    }
    let task = crate::tasks::fetch_task(conn, task_id)?;
    let source_text = source_text(field, task.title.as_str(), &task.description)?;
    if is_blank(source_text.as_str()) {
        return Ok(Lookup::Blank);
    }
    let api_key = get_api_key(conn, environment)?;
    Ok(Lookup::Needed { source_text, api_key })
}

/// The text that a translation written by the user stands for, and the key
/// for the paid service: the first step of storing such a translation for a
/// field of the task `task_id`.
pub fn override_source(conn: &Connection, task_id: &str, field: &str, environment: Option<String>) -> (r:
    Result<(String, Option<String>), String>)
    ensures
        r matches Err(message) ==> message@ == bad_field_message()
            || begins_with(message@, "Task not found: "@),
        r is Ok ==> field@ == "title"@ || field@ == "description"@,
{
    let task = crate::tasks::fetch_task(conn, task_id)?;
    let source_text = source_text(field, task.title.as_str(), &task.description)?;
    let api_key = get_api_key(conn, environment)?;
    Ok((source_text, api_key))
}

/// The last steps of the translation of a text that the user did not
/// translate, once its language is known: what the cache holds is the
/// answer, if it holds anything. `None` says that the service has to be
/// asked.
pub fn cached_answer(
    conn: &Connection,
    source_text: &str,
    source_lang: &str,
    target_lang: &str,
    field: &str,
) -> (r: Result<Option<String>, String>)
    ensures
        r matches Err(message) ==> begins_with(message@, "Database error: "@),
{
    get_cached_translation(conn, hash_text(source_text).as_str(), source_lang, target_lang, field)
}

/// What is known so far of the translation of one text. The caller asks
/// the database and the services and notes each answer here; [`next_step`]
/// says what to ask next.
#[derive(Debug)]
pub struct Progress {
    /// What the first look gave, once it was taken (see
    /// [`check_cache_and_user_translation`]).
    pub first_look: Option<Option<String>>,
    /// The language of the text, once it was detected.
    pub language: Option<String>,
    /// What the cache holds for the text in that language, once it was asked.
    pub cached: Option<Option<String>>,
    /// What the translation service gave, once it was asked.
    pub translated: Option<String>,
    /// Whether that was written to the cache.
    pub stored: bool,
}

/// What to do next for the translation of one text.
#[derive(Clone, Copy, Debug, PartialEq, Eq, Structural)]
pub enum Step {
    /// Take the first look.
    LookUp,
    /// Detect the language of the text.
    DetectLanguage,
    /// Ask the cache.
    AskCache,
    /// Ask the translation service.
    Translate,
    /// Write the translation to the cache.
    Store,
    /// Nothing: the translation is known.
    Finish,
}

/// What to do next: each question is asked once, in the order first look,
/// language, cache, service, and only as long as no earlier answer held a
/// translation; what the service gave is stored before the end.
pub open spec fn next_step_spec(progress: Progress) -> Step {
    match progress.first_look {
        None => Step::LookUp,
        Some(Some(_)) => Step::Finish,
        Some(None) => match progress.language {
            None => Step::DetectLanguage,
            Some(_) => match progress.cached {
                None => Step::AskCache,
                Some(Some(_)) => Step::Finish,
                Some(None) => match progress.translated {
                    None => Step::Translate,
                    Some(_) => if progress.stored {
                        Step::Finish
                    } else {
                        Step::Store
                    },
                },
            },
        },
    }
}

/// The translation, as far as it is known: what the first look gave, or
/// else what the cache held, or else what the service gave.
pub open spec fn outcome_spec(progress: Progress) -> Option<Seq<char>> {
    match progress.first_look {
        Some(Some(text)) => Some(text@),
        _ => match progress.cached {
            Some(Some(text)) => Some(text@),
            _ => opt_view(progress.translated),
        },
    }
}

impl Progress {
    /// Nothing is known yet.
    pub fn new() -> (progress: Progress)
        ensures
            next_step_spec(progress) == Step::LookUp,
            outcome_spec(progress) is None,
    {
        Progress { first_look: None, language: None, cached: None, translated: None, stored: false }
    }

    /// The first look has been taken, and gave `found`: with a translation
    /// found nothing is left to do, and without one the language is asked
    /// for next.
    pub fn after_first_look(found: Option<String>) -> (progress: Progress)
        ensures
            progress.first_look == Some(found),
            next_step_spec(progress) == if found is Some {
                Step::Finish
            } else {
                Step::DetectLanguage
            },
            outcome_spec(progress) == opt_view(found),
    {
        Progress {
            first_look: Some(found),
            language: None,
            cached: None,
            translated: None,
            stored: false,
        }
    }

    /// What to do next.
    pub fn next_step(&self) -> (step: Step)
        ensures
            step == next_step_spec(*self),
            step == Step::Finish ==> outcome_spec(*self) is Some,
    {
        match &self.first_look {
            None => Step::LookUp,
            Some(Some(_)) => Step::Finish,
            Some(None) => match &self.language {
                None => Step::DetectLanguage,
                Some(_) => match &self.cached {
                    None => Step::AskCache,
                    Some(Some(_)) => Step::Finish,
                    Some(None) => match &self.translated {
                        None => Step::Translate,
                        Some(_) => if self.stored {
                            Step::Finish
                        } else {
                            Step::Store
                        },
                    },
                },
            },
        }
    }

    /// The translation, as far as it is known.
    pub fn outcome(&self) -> (text: Option<String>)
        ensures
            opt_view(text) == outcome_spec(*self),
    {
        match &self.first_look {
            Some(Some(text)) => Some(text.clone()),
            _ => match &self.cached {
                Some(Some(text)) => Some(text.clone()),
                _ => match &self.translated {
                    Some(text) => Some(text.clone()),
                    None => None,
                },
            },
        }
    }
}

} // verus!

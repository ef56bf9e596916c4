//! The commands that the host issues, each as a function from what the
//! store yielded to what the host is answered and what is to be written.
//!
//! Reading and writing the files is the caller's part. A read is handed in
//! as `Ok(None)` where the file does not exist, `Ok(Some(value))` where it
//! was read and parsed, and `Err(error)` where that failed.

use vstd::prelude::*;
use crate::config::{
    config_of, initial_config, stored_of, AiConfig, LastOpened, StoredAiConfig,
};
use crate::progress::ReadingState;
use crate::store::StoreError;
use crate::text::{is_blank, is_blank_text, lemma_trimmed, trim, trimmed};

verus! {

/// The page that is written for a request to record `page`: page numbers
/// start at 1.
pub open spec fn clamped_page(page: u32) -> u32 {
    if page < 1 {
        1
    } else {
        page
    }
}

/// The path that a stored pointer stands for: none where nothing is stored
/// or the stored path is blank, else the stored path, trimmed.
pub open spec fn opened_path(stored: Option<Seq<char>>) -> Option<Seq<char>> {
    match stored {
        Some(path) if !is_blank_text(path) => Some(trimmed(path)),
        _ => None,
    }
}

/// The table after a request to record `page` for `path`: unchanged for a
/// blank path, else with the clamped page under `path`, verbatim.
pub open spec fn recorded(table: Map<Seq<char>, u32>, path: Seq<char>, page: u32) -> Map<
    Seq<char>,
    u32,
> {
    if is_blank_text(path) {
        table
    } else {
        table.insert(path, clamped_page(page))
    }
}

/// The page that `table` answers for `path`: none for a blank path, else
/// what stands under `path`, verbatim.
pub open spec fn page_of(table: Map<Seq<char>, u32>, path: Seq<char>) -> Option<u32> {
    if !is_blank_text(path) && table.contains_key(path) {
        Some(table[path])
    } else {
        None
    }
}

/// The table that a read of the progress file stands for: empty where the
/// file does not exist.
pub open spec fn loaded_table(stored: Option<ReadingState>) -> Map<Seq<char>, u32> {
    match stored {
        Some(state) => state@,
        None => Map::empty(),
    }
}

/// A page that was recorded for a path that is not blank is the page
/// that is read back for it, clamped to 1 from below; so page 0 reads back
/// as page 1.
pub proof fn lemma_recorded_page_reads_back(table: Map<Seq<char>, u32>, path: Seq<char>, page: u32)
    requires
        !is_blank_text(path),
    ensures
        page_of(recorded(table, path, page), path) == Some(clamped_page(page)),
        clamped_page(page) >= 1,
        page_of(recorded(table, path, 0), path) == Some(1u32),
{
}

/// A request on a blank path changes nothing and reads nothing back.
pub proof fn lemma_blank_path_is_ignored(table: Map<Seq<char>, u32>, path: Seq<char>, page: u32)
    requires
        is_blank_text(path),
    ensures
        recorded(table, path, page) == table,
        page_of(recorded(table, path, page), path) is None,
{
}

/// Recording a page for one path leaves every other path as it was: what
/// stood in the table stays, and nothing but that path is added.
pub proof fn lemma_other_paths_keep_their_pages(
    table: Map<Seq<char>, u32>,
    path: Seq<char>,
    page: u32,
    other: Seq<char>,
)
    requires
        other != path,
    ensures
        page_of(recorded(table, path, page), other) == page_of(table, other),
        recorded(table, path, page).contains_key(other) == table.contains_key(other),
{
}

/// Two different paths, recorded one after the other, are both read back,
/// each with its own page.
pub proof fn lemma_two_paths_are_independent(
    table: Map<Seq<char>, u32>,
    first: Seq<char>,
    first_page: u32,
    second: Seq<char>,
    second_page: u32,
)
    requires
        first != second,
        !is_blank_text(first),
        !is_blank_text(second),
    ensures
        page_of(recorded(recorded(table, first, first_page), second, second_page), first) == Some(
            clamped_page(first_page),
        ),
        page_of(recorded(recorded(table, first, first_page), second, second_page), second) == Some(
            clamped_page(second_page),
        ),
{
}

/// Answers a request for the assistant's configuration: what the stored
/// record stands for, or the configuration of a first run where no file
/// exists.
pub fn load_ai_config(read: Result<Option<StoredAiConfig>, StoreError>) -> (r: Result<
    AiConfig,
    String,
>)
    ensures
        match read {
            Ok(Some(stored)) => r is Ok && r->Ok_0@ == config_of(stored@),
            Ok(None) => r is Ok && r->Ok_0@ == initial_config(),
            Err(error) => r is Err && r->Err_0@ == error.description(),
        },
{
    match read {
        Ok(Some(stored)) => Ok(AiConfig::from_stored(stored)),
        Ok(None) => Ok(AiConfig::default()),
        Err(error) => Err(error.into_message()),
    }
}

/// The record to write for a request to keep `config`: the whole
/// configuration, in place of what was stored.
pub fn save_ai_config(config: AiConfig) -> (r: StoredAiConfig)
    ensures
        r@ == stored_of(config@),
{
    config.into_stored()
}

/// Answers a request for the reading progress as a whole: what was stored,
/// or the empty table where no file exists.
pub fn load_reading_state(read: Result<Option<ReadingState>, StoreError>) -> (r: Result<
    ReadingState,
    String,
>)
    requires
        read matches Ok(Some(state)) ==> state.wf(),
    ensures
        match read {
            Ok(stored) => r is Ok && r->Ok_0.wf() && r->Ok_0@ == loaded_table(stored),
            Err(error) => r is Err && r->Err_0@ == error.description(),
        },
{
    match read {
        Ok(Some(state)) => Ok(state),
        Ok(None) => Ok(ReadingState::new()),
        Err(error) => Err(error.into_message()),
    }
}

/// Answers a request for the document that was opened last: the stored
/// path, trimmed, unless nothing is stored or the stored path is blank.
pub fn load_last_opened_path(read: Result<Option<LastOpened>, StoreError>) -> (r: Result<
    Option<String>,
    String,
>)
    ensures
        match read {
            Ok(Some(pointer)) => r is Ok && match opened_path(Some(pointer.path@)) {
                Some(path) => r->Ok_0 is Some && r->Ok_0->Some_0@ == path,
                None => r->Ok_0 is None,
            },
            Ok(None) => r is Ok && r->Ok_0 is None,
            Err(error) => r is Err && r->Err_0@ == error.description(),
        },
{
    match read {
        Ok(Some(pointer)) => {
            let value = trim(pointer.path.as_str());
            proof {
                lemma_trimmed(pointer.path@);
            }
            if value.is_empty() {
                Ok(None)
            } else {
                Ok(Some(value.to_owned()))
            }
        },
        Ok(None) => Ok(None),
        Err(error) => Err(error.into_message()),
    }
}

/// The pointer to write for a document that was just opened: the path as
/// it was given, not trimmed.
pub fn save_last_opened_path(path: String) -> (r: LastOpened)
    ensures
        r.path == path,
{
    LastOpened { path }
}

/// Whether a request on the reading progress of `path` reaches the store
/// at all: one on a blank path is answered without it.
pub fn tracks_progress(path: &String) -> (r: bool)
    ensures
        r == !is_blank_text(path@),
{
    !is_blank(path.as_str())
}

/// Answers a request for the page last read in `path`. A blank path has no
/// page, whatever the store yielded; any other path is looked up verbatim in
/// the stored table.
pub fn load_last_reading_page(read: Result<Option<ReadingState>, StoreError>, path: String) -> (r:
    Result<Option<u32>, String>)
    requires
        read matches Ok(Some(state)) ==> state.wf(),
    ensures
        is_blank_text(path@) ==> r == Ok::<Option<u32>, String>(None),
        !is_blank_text(path@) ==> match read {
            Ok(stored) => r == Ok::<Option<u32>, String>(page_of(loaded_table(stored), path@)),
            Err(error) => r is Err && r->Err_0@ == error.description(),
        },
{
    if !tracks_progress(&path) {
        return Ok(None);
    }
    match load_reading_state(read) {
        Ok(state) => Ok(state.get(&path)),
        Err(message) => Err(message),
    }
}

/// Answers a request to record `page` as the page last read in `path`, with
/// the table to write out, if any. A blank path changes nothing and nothing
/// is written, whatever the store yielded. For any other path the stored table
/// gets the page, raised to 1 where it is less, under `path`; all other
/// entries stay.
pub fn save_last_reading_page(
    read: Result<Option<ReadingState>, StoreError>,
    path: String,
    page: u32,
) -> (r: Result<Option<ReadingState>, String>)
    requires
        read matches Ok(Some(state)) ==> state.wf(),
    ensures
        is_blank_text(path@) ==> r is Ok && r->Ok_0 is None,
        !is_blank_text(path@) ==> match read {
            Ok(stored) => r is Ok && r->Ok_0 is Some && r->Ok_0->Some_0.wf() && r->Ok_0->Some_0@
                == recorded(loaded_table(stored), path@, page),
            Err(error) => r is Err && r->Err_0@ == error.description(),
        },
{
    if !tracks_progress(&path) {
        return Ok(None);
    }
    match load_reading_state(read) {
        Ok(state) => {
            let mut state = state;
            let page: u32 = if page < 1 {
                1
            } else {
                page
            };
            state.insert(path, page);
            Ok(Some(state))
        },
        Err(message) => Err(message),
    }
}

} // verus!

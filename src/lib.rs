//! A small bookmark store: an ordered list of records kept as one JSON
//! document, read, changed and written back whole by each command.
//!
//! The library holds the records and every decision the commands make. The
//! host around it resolves the store's path, touches the file system and
//! converts between text and records; it reports each outcome to a
//! [`Session`], which answers with the next thing to do.

mod bookmark;
mod error;
mod laws;
mod session;

pub use bookmark::{has_id, retain_other_ids, without_id, Bookmark};
pub use error::StoreError;
pub use session::{apply, applied, Action, Command, Event, Outcome, Session, Stage, STORE_FILE_NAME};
pub use laws::{
    added, lemma_adds_keep_insertion_order, lemma_delete_absent_id_keeps_list,
    lemma_delete_leaves_no_id, lemma_list_never_writes, lemma_list_of_absent_file, stored_after,
};

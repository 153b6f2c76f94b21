//! Bringing the history of a shell into the store.
//!
//! An importer turns an import source, such as a history file, into history records and
//! hands them one by one to a loader, which persists them. The importer does not know how.

use vstd::prelude::*;
use crate::history::model::{History, HistoryView};

pub mod laws;
pub mod loader;
pub mod zsh;

verus! {

/// The import source could not be read, or no more of it could be handed on.
#[derive(Debug)]
pub struct ImportError;

/// A record could not be persisted.
#[derive(Debug)]
pub struct LoadError;

/// The receiver of imported records.
pub trait Loader {
    /// What the records said that the loader has taken so far, in the order in which it
    /// took them. A loader that keeps no account of them leaves this open.
    open spec fn received(&self) -> Seq<HistoryView> {
        arbitrary()
    }

    /// Takes one record, or refuses it. A record that is refused is not taken: the loader
    /// has then taken what it had taken before. An error ends the import.
    fn push(&mut self, hist: History) -> (pushed: Result<(), LoadError>)
        ensures
            pushed is Ok ==> final(self).received() == old(self).received().push(hist@),
            pushed is Err ==> final(self).received() == old(self).received(),
    ;
}

} // verus!

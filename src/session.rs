use vstd::prelude::*;

use crate::bookmark::{retain_other_ids, without_id, Bookmark};
use crate::error::StoreError;

verus! {

/// Name of the store file inside the host's application-data directory.
pub const STORE_FILE_NAME: &'static str = "bookmarks.json";

/// What the host asked the store to do.
#[derive(Debug)]
pub enum Command {
    /// Report the stored list.
    List,
    /// Append a record to the end of the list.
    Add(Bookmark),
    /// Remove every record with this id.
    Delete(i64),
}

/// The list that `cmd` leaves in the store when it loaded `s`.
pub open spec fn applied(cmd: Command, s: Seq<Bookmark>) -> Seq<Bookmark> {
    match cmd {
        Command::List => s,
        Command::Add(b) => s.push(b),
        Command::Delete(id) => without_id(s, id),
    }
}

/// Applies `cmd` to the loaded list.
pub fn apply(cmd: &Command, list: Vec<Bookmark>) -> (r: Vec<Bookmark>)
    ensures
        r@ == applied(*cmd, list@),
{
    match cmd {
        Command::List => list,
        Command::Add(b) => {
            let mut list = list;
            list.push(b.clone());
            list
        },
        Command::Delete(id) => retain_other_ids(&list, *id),
    }
}

/// Which outcome a session waits for.
#[derive(Debug, Clone, Copy, PartialEq, Eq, Structural)]
pub enum Stage {
    /// The store file: absent, read, or unreadable.
    Loading,
    /// The records parsed from the file's text.
    Decoding,
    /// The text made from the new list.
    Encoding,
    /// The write of that text.
    Writing,
    /// Nothing: the command has finished.
    Done,
}

/// What the host reports after doing the last action.
#[derive(Debug)]
pub enum Event {
    /// No application-data directory could be had.
    NoAppData(String),
    /// The store file does not exist.
    Absent,
    /// The store file holds this text.
    Read(String),
    ReadFailed(String),
    Decoded(Vec<Bookmark>),
    DecodeFailed(String),
    Encoded(String),
    EncodeFailed(String),
    Written,
    WriteFailed(String),
}

/// How a command ended.
#[derive(Debug)]
pub enum Outcome {
    /// The stored list, for `List`.
    Listed(Vec<Bookmark>),
    /// The new list was written, for `Add` and `Delete`.
    Saved,
    Failed(StoreError),
}

/// What the host is to do next.
#[derive(Debug)]
pub enum Action {
    /// Resolve the store's path, creating its directory, and read the file
    /// if it exists.
    Load,
    /// Parse this text as a list of records.
    Decode(String),
    /// Turn this list into pretty-printed text.
    Encode(Vec<Bookmark>),
    /// Overwrite the store file with this text.
    Write(String),
    /// Report the outcome; the command is over.
    Finish(Outcome),
}

/// One command on its way through load, change and save.
#[derive(Debug)]
pub struct Session {
    pub cmd: Command,
    pub stage: Stage,
}

impl Session {
    /// Whether the session waits for `ev` now.
    pub open spec fn spec_accepts(&self, ev: Event) -> bool {
        match self.stage {
            Stage::Loading => ev is NoAppData || ev is Absent || ev is Read || ev is ReadFailed,
            Stage::Decoding => ev is Decoded || ev is DecodeFailed,
            Stage::Encoding => ev is Encoded || ev is EncodeFailed,
            Stage::Writing => ev is Written || ev is WriteFailed,
            Stage::Done => false,
        }
    }

    /// What follows once the command has its list `s` in hand: `List`
    /// replies with it, the others encode the changed list.
    pub open spec fn loaded_post(&self, s: Seq<Bookmark>, next: Session, act: Action) -> bool {
        match self.cmd {
            Command::List => next.stage == Stage::Done && (act matches Action::Finish(
                Outcome::Listed(v),
            ) && v@ == s),
            _ => next.stage == Stage::Encoding && (act matches Action::Encode(v) && v@ == applied(
                self.cmd,
                s,
            )),
        }
    }

    /// The session ends with the error `e`.
    pub open spec fn fails_with(next: Session, act: Action, e: StoreError) -> bool {
        next.stage == Stage::Done && act == Action::Finish(Outcome::Failed(e))
    }

    /// The next session and action after `ev`, for each event.
    pub open spec fn step_post(&self, ev: Event, next: Session, act: Action) -> bool {
        &&& next.cmd == self.cmd
        &&& match ev {
            Event::NoAppData(c) => Self::fails_with(next, act, StoreError::Host(c)),
            Event::Absent => self.loaded_post(Seq::empty(), next, act),
            Event::Read(text) => next.stage == Stage::Decoding && act == Action::Decode(text),
            Event::ReadFailed(c) => Self::fails_with(next, act, StoreError::Read(c)),
            Event::Decoded(v) => self.loaded_post(v@, next, act),
            Event::DecodeFailed(c) => Self::fails_with(next, act, StoreError::Parse(c)),
            Event::Encoded(text) => next.stage == Stage::Writing && act == Action::Write(text),
            Event::EncodeFailed(c) => Self::fails_with(next, act, StoreError::Encode(c)),
            Event::Written => next.stage == Stage::Done && act == Action::Finish(Outcome::Saved),
            Event::WriteFailed(c) => Self::fails_with(next, act, StoreError::Write(c)),
        }
    }

    /// Starts `cmd`: the host first loads the store file.
    pub fn begin(cmd: Command) -> (r: (Session, Action))
        ensures
            r.0.cmd == cmd,
            r.0.stage == Stage::Loading,
            r.1 is Load,
    {
        (Session { cmd, stage: Stage::Loading }, Action::Load)
    }

    pub fn accepts(&self, ev: &Event) -> (r: bool)
        ensures
            r == self.spec_accepts(*ev),
    {
        match self.stage {
            Stage::Loading => matches!(
                ev,
                Event::NoAppData(_) | Event::Absent | Event::Read(_) | Event::ReadFailed(_)
            ),
            Stage::Decoding => matches!(ev, Event::Decoded(_) | Event::DecodeFailed(_)),
            Stage::Encoding => matches!(ev, Event::Encoded(_) | Event::EncodeFailed(_)),
            Stage::Writing => matches!(ev, Event::Written | Event::WriteFailed(_)),
            Stage::Done => false,
        }
    }

    pub fn is_done(&self) -> (r: bool)
        ensures
            r == (self.stage == Stage::Done),
    {
        self.stage == Stage::Done
    }

    fn finish_loaded(self, list: Vec<Bookmark>) -> (r: (Session, Action))
        ensures
            r.0.cmd == self.cmd,
            self.loaded_post(list@, r.0, r.1),
    {
        match self.cmd {
            Command::List => (
                Session { cmd: self.cmd, stage: Stage::Done },
                Action::Finish(Outcome::Listed(list)),
            ),
            _ => {
                let changed = apply(&self.cmd, list);
                (Session { cmd: self.cmd, stage: Stage::Encoding }, Action::Encode(changed))
            },
        }
    }

    /// Takes the outcome of the last action and says what to do next.
    pub fn step(self, ev: Event) -> (r: (Session, Action))
        requires
            self.spec_accepts(ev),
        ensures
            self.step_post(ev, r.0, r.1),
    {
        let cmd = self.cmd;
        match ev {
            Event::NoAppData(c) => (
                Session { cmd, stage: Stage::Done },
                Action::Finish(Outcome::Failed(StoreError::Host(c))),
            ),
            Event::Absent => Session { cmd, stage: Stage::Loading }.finish_loaded(Vec::new()),
            Event::Read(text) => (Session { cmd, stage: Stage::Decoding }, Action::Decode(text)),
            Event::ReadFailed(c) => (
                Session { cmd, stage: Stage::Done },
                Action::Finish(Outcome::Failed(StoreError::Read(c))),
            ),
            Event::Decoded(list) => Session { cmd, stage: Stage::Decoding }.finish_loaded(list),
            Event::DecodeFailed(c) => (
                Session { cmd, stage: Stage::Done },
                Action::Finish(Outcome::Failed(StoreError::Parse(c))),
            ),
            Event::Encoded(text) => (Session { cmd, stage: Stage::Writing }, Action::Write(text)),
            Event::EncodeFailed(c) => (
                Session { cmd, stage: Stage::Done },
                Action::Finish(Outcome::Failed(StoreError::Encode(c))),
            ),
            Event::Written => (Session { cmd, stage: Stage::Done }, Action::Finish(Outcome::Saved)),
            Event::WriteFailed(c) => (
                Session { cmd, stage: Stage::Done },
                Action::Finish(Outcome::Failed(StoreError::Write(c))),
            ),
        }
    }
}

} // verus!

use vstd::prelude::*;

verus! {

/// Why a command failed, with the cause as the host described it.
#[derive(Debug, PartialEq, Eq)]
pub enum StoreError {
    /// The host could not supply its application-data directory.
    Host(String),
    /// Reading the store file failed.
    Read(String),
    /// The store file does not hold a valid bookmark list.
    Parse(String),
    /// Turning the list into text failed.
    Encode(String),
    /// Writing the store file failed.
    Write(String),
}

pub open spec fn host_prefix() -> Seq<char> {
    "Failed to get app data dir: "@
}

pub open spec fn read_prefix() -> Seq<char> {
    "Failed to read bookmarks: "@
}

pub open spec fn parse_prefix() -> Seq<char> {
    "Failed to parse bookmarks: "@
}

pub open spec fn encode_prefix() -> Seq<char> {
    "Failed to serialize bookmarks: "@
}

pub open spec fn write_prefix() -> Seq<char> {
    "Failed to write bookmarks: "@
}

impl StoreError {
    /// The stage that failed, as the start of the message.
    pub open spec fn spec_prefix(&self) -> Seq<char> {
        match self {
            StoreError::Host(_) => host_prefix(),
            StoreError::Read(_) => read_prefix(),
            StoreError::Parse(_) => parse_prefix(),
            StoreError::Encode(_) => encode_prefix(),
            StoreError::Write(_) => write_prefix(),
        }
    }

    pub open spec fn spec_cause(&self) -> Seq<char> {
        match self {
            StoreError::Host(c) => c@,
            StoreError::Read(c) => c@,
            StoreError::Parse(c) => c@,
            StoreError::Encode(c) => c@,
            StoreError::Write(c) => c@,
        }
    }

    /// The underlying cause.
    pub fn cause(&self) -> (r: &String)
        ensures
            r@ == self.spec_cause(),
    {
        match self {
            StoreError::Host(c) => c,
            StoreError::Read(c) => c,
            StoreError::Parse(c) => c,
            StoreError::Encode(c) => c,
            StoreError::Write(c) => c,
        }
    }

    /// The text handed to the host: the failing stage, then the cause.
    pub fn message(&self) -> (r: String)
        ensures
            r@ == self.spec_prefix() + self.spec_cause(),
    {
        let prefix = match self {
            StoreError::Host(_) => String::from_str("Failed to get app data dir: "),
            StoreError::Read(_) => String::from_str("Failed to read bookmarks: "),
            StoreError::Parse(_) => String::from_str("Failed to parse bookmarks: "),
            StoreError::Encode(_) => String::from_str("Failed to serialize bookmarks: "),
            StoreError::Write(_) => String::from_str("Failed to write bookmarks: "),
        };
        prefix.concat(self.cause().as_str())
    }
}

} // verus!

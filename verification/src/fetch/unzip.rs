//! Unpacking the samples from the archive of a problem.

use crate::paths::{file_name, final_component, join, joined};
use crate::text::{begins_with, starts_with};
use vstd::prelude::*;
use vstd::string::StringExecFns;

verus! {

/// Why an archive could not be unpacked. Each error carries the reason the
/// system or the archive gave.
#[derive(Debug, PartialEq, Eq)]
pub enum Error {
    CantReadFile(String),
    CantCreateFile(String),
    CantInflateFile(String),
    ZipError(String),
}

impl Error {
    /// The sentence that tells the user of the error.
    pub open spec fn text(&self) -> Seq<char> {
        match self {
            Error::CantReadFile(cause) => "Couldn't read the file: "@ + cause@,
            Error::CantCreateFile(cause) => "Couldn't create a file: "@ + cause@,
            Error::CantInflateFile(cause) => "Couldn't inflate a file: "@ + cause@,
            Error::ZipError(cause) => "Zip raised an error: "@ + cause@,
        }
    }

    /// The sentence that tells the user of the error.
    pub fn message(&self) -> (message: String)
        ensures
            message@ == self.text(),
    {
        match self {
            Error::CantReadFile(cause) => {
                let mut message = "Couldn't read the file: ".to_owned();
                message.append(cause.as_str());
                message
            },
            Error::CantCreateFile(cause) => {
                let mut message = "Couldn't create a file: ".to_owned();
                message.append(cause.as_str());
                message
            },
            Error::CantInflateFile(cause) => {
                let mut message = "Couldn't inflate a file: ".to_owned();
                message.append(cause.as_str());
                message
            },
            Error::ZipError(cause) => {
                let mut message = "Zip raised an error: ".to_owned();
                message.append(cause.as_str());
                message
            },
        }
    }
}

/// An entry of an archive, as far as unpacking looks at it.
#[derive(Debug)]
pub struct ArchiveEntry {
    /// The path of the entry inside the archive, if it is one that stays
    /// inside the folder it is unpacked to.
    pub enclosed_name: Option<String>,
    /// Whether the entry is a file.
    pub is_file: bool,
}

/// What every file of a sample starts with.
pub const SAMPLE_PREFIX: &'static str = "sample";

/// Whether an entry with this name is a file of a sample: it has to be a
/// file, and its name has to start with `sample`.
pub open spec fn is_sample(name: Seq<char>, is_file: bool) -> bool {
    is_file && begins_with(name, SAMPLE_PREFIX@)
}

/// The name under which an entry is unpacked, if it is: the entry has to
/// be a file of a sample whose path stays inside the folder and ends in a
/// name. The name is all that is kept of the path.
pub open spec fn sample_name(entry: ArchiveEntry) -> Option<Seq<char>> {
    match entry.enclosed_name {
        None => None,
        Some(path) => match final_component(path@) {
            None => None,
            Some(name) => if is_sample(name, entry.is_file) {
                Some(name)
            } else {
                None
            },
        },
    }
}

/// Keeps the name of an entry if the entry is a file of a sample.
pub fn keep_sample(name: String, is_file: bool) -> (kept: Option<String>)
    ensures
        kept == if is_sample(name@, is_file) {
            Some(name)
        } else {
            None
        },
{
    if is_file && starts_with(name.as_str(), SAMPLE_PREFIX) {
        Some(name)
    } else {
        None
    }
}

/// Says under which name an entry of the archive is unpacked, if it is.
pub fn filter_samples(entry: &ArchiveEntry) -> (kept: Option<String>)
    ensures
        kept is Some <==> sample_name(*entry) is Some,
        kept matches Some(name) ==> Some(name@) == sample_name(*entry),
{
    match &entry.enclosed_name {
        None => None,
        Some(path) => match file_name(path.as_str()) {
            None => None,
            Some(name) => keep_sample(name, entry.is_file),
        },
    }
}

/// Where an entry is unpacked to, if it is: under its name, directly in the
/// folder.
pub open spec fn unpacked_path(output_folder: Seq<char>, entry: ArchiveEntry) -> Option<
    Seq<char>,
> {
    match sample_name(entry) {
        Some(name) => Some(joined(output_folder, name)),
        None => None,
    }
}

/// Plans the unpacking of an archive into a folder: for each entry, in
/// order, the path of the file to write it to, or none where the entry is
/// passed over.
pub fn unzip_samples(entries: &Vec<ArchiveEntry>, output_folder: &str) -> (plan: Vec<
    Option<String>,
>)
    ensures
        plan.len() == entries.len(),
        forall|i: int|
            0 <= i < entries.len() ==> {
                &&& (#[trigger] plan[i]) is Some <==> unpacked_path(output_folder@, entries[i])
                    is Some
                &&& plan[i] matches Some(path) ==> Some(path@) == unpacked_path(
                    output_folder@,
                    entries[i],
                )
            },
{
    let mut plan: Vec<Option<String>> = Vec::new();
    let mut i: usize = 0;
    while i < entries.len()
        invariant
            i <= entries.len(),
            plan.len() == i,
            forall|k: int|
                0 <= k < i ==> {
                    &&& (#[trigger] plan[k]) is Some <==> unpacked_path(output_folder@, entries[k])
                        is Some
                    &&& plan[k] matches Some(path) ==> Some(path@) == unpacked_path(
                        output_folder@,
                        entries[k],
                    )
                },
        decreases entries.len() - i,
    {
        let target = match filter_samples(&entries[i]) {
            Some(name) => Some(join(output_folder, name.as_str())),
            None => None,
        };
        plan.push(target);
        i += 1;
    }
    plan
}

} // verus!

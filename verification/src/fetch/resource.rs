//! Files the program needs, and how each is had: it is there already, it is
//! fetched from the judge, or it is unpacked from another that is had first.
//!
//! Nothing here touches the file system or the network. A resource says what
//! is to be done next, given what has been found out and done so far.

use crate::paths::PathKind;
use crate::text::same_text;
use vstd::prelude::*;

verus! {

/// Something found out about a path, or done at it.
#[derive(Debug)]
pub enum Fact {
    /// What the file system held at the path.
    Kind(PathKind),
    /// How fetching the file at the path ended.
    Fetched(Result<(), String>),
    /// How unpacking into the folder at the path ended.
    Extracted(Result<(), String>),
}

/// The three sorts of facts.
#[derive(PartialEq, Eq, Structural, Debug, Clone, Copy)]
pub enum FactClass {
    Kind,
    Fetched,
    Extracted,
}

impl Fact {
    /// The sort of a fact.
    pub open spec fn class(&self) -> FactClass {
        match self {
            Fact::Kind(_) => FactClass::Kind,
            Fact::Fetched(_) => FactClass::Fetched,
            Fact::Extracted(_) => FactClass::Extracted,
        }
    }

    fn is_of(&self, class: FactClass) -> (same: bool)
        ensures
            same == (self.class() == class),
    {
        match self {
            Fact::Kind(_) => class == FactClass::Kind,
            Fact::Fetched(_) => class == FactClass::Fetched,
            Fact::Extracted(_) => class == FactClass::Extracted,
        }
    }
}

/// The first fact of a sort that was noted of a path.
pub open spec fn first_fact(
    facts: Seq<(String, Fact)>,
    path: Seq<char>,
    class: FactClass,
) -> Option<Fact>
    decreases facts.len(),
{
    if facts.len() == 0 {
        None
    } else if facts[0].0@ == path && facts[0].1.class() == class {
        Some(facts[0].1)
    } else {
        first_fact(facts.drop_first(), path, class)
    }
}

/// What was found out about a path.
pub open spec fn kind_of(facts: Seq<(String, Fact)>, path: Seq<char>) -> Option<PathKind> {
    match first_fact(facts, path, FactClass::Kind) {
        Some(Fact::Kind(kind)) => Some(kind),
        _ => None,
    }
}

/// How fetching the file at a path ended, if it was fetched.
pub open spec fn fetched(facts: Seq<(String, Fact)>, path: Seq<char>) -> Option<
    Result<(), String>,
> {
    match first_fact(facts, path, FactClass::Fetched) {
        Some(Fact::Fetched(outcome)) => Some(outcome),
        _ => None,
    }
}

/// How unpacking into the folder at a path ended, if it was unpacked.
pub open spec fn extracted(facts: Seq<(String, Fact)>, path: Seq<char>) -> Option<
    Result<(), String>,
> {
    match first_fact(facts, path, FactClass::Extracted) {
        Some(Fact::Extracted(outcome)) => Some(outcome),
        _ => None,
    }
}

/// What has been found out and done so far, in order.
#[derive(Debug)]
pub struct Facts {
    entries: Vec<(String, Fact)>,
}

impl View for Facts {
    type V = Seq<(String, Fact)>;

    closed spec fn view(&self) -> Seq<(String, Fact)> {
        self.entries@
    }
}

impl Facts {
    /// Nothing is known yet.
    pub fn new() -> (facts: Facts)
        ensures
            facts@ == Seq::<(String, Fact)>::empty(),
    {
        Facts { entries: Vec::new() }
    }

    /// Notes a fact of a path, behind those noted before.
    pub fn note(&mut self, path: String, fact: Fact)
        ensures
            final(self)@ == old(self)@.push((path, fact)),
    {
        self.entries.push((path, fact));
    }

    /// The first fact of a sort that was noted of a path.
    pub fn find(&self, path: &str, class: FactClass) -> (found: Option<&Fact>)
        ensures
            found is Some <==> first_fact(self@, path@, class) is Some,
            found matches Some(fact) ==> Some(*fact) == first_fact(self@, path@, class),
    {
        let mut i: usize = 0;
        assert(self.entries@.subrange(0, self.entries@.len() as int) =~= self.entries@);
        while i < self.entries.len()
            invariant
                i <= self.entries.len(),
                first_fact(self.entries@, path@, class) == first_fact(
                    self.entries@.subrange(i as int, self.entries@.len() as int),
                    path@,
                    class,
                ),
            decreases self.entries.len() - i,
        {
            let ghost rest = self.entries@.subrange(i as int, self.entries@.len() as int);
            assert(rest[0] == self.entries@[i as int]);
            assert(rest.drop_first() =~= self.entries@.subrange(
                i + 1,
                self.entries@.len() as int,
            ));
            if same_text(self.entries[i].0.as_str(), path) && self.entries[i].1.is_of(class) {
                return Some(&self.entries[i].1);
            }
            i += 1;
        }
        None
    }

    /// What was found out about a path.
    pub fn kind(&self, path: &str) -> (kind: Option<PathKind>)
        ensures
            kind == kind_of(self@, path@),
    {
        match self.find(path, FactClass::Kind) {
            Some(Fact::Kind(kind)) => Some(*kind),
            _ => None,
        }
    }
}

/// What is to be done next to have a resource.
#[derive(Debug, PartialEq, Eq)]
pub enum Acquisition {
    /// Nothing: the resource stands at this path.
    Ready(String),
    /// Nothing: the resource cannot be had, for this reason.
    Failed(String),
    /// The file system is to be asked what stands at this path.
    Inspect(String),
    /// The file at this address is to be fetched to this path.
    Download { url: String, path: String },
    /// This archive is to be unpacked into this folder.
    Extract { archive: String, folder: String },
}

/// What is to be done next, as plain sequences of characters.
pub enum AcquisitionView {
    Ready(Seq<char>),
    Failed(Seq<char>),
    Inspect(Seq<char>),
    Download { url: Seq<char>, path: Seq<char> },
    Extract { archive: Seq<char>, folder: Seq<char> },
}

impl View for Acquisition {
    type V = AcquisitionView;

    open spec fn view(&self) -> AcquisitionView {
        match self {
            Acquisition::Ready(path) => AcquisitionView::Ready(path@),
            Acquisition::Failed(cause) => AcquisitionView::Failed(cause@),
            Acquisition::Inspect(path) => AcquisitionView::Inspect(path@),
            Acquisition::Download { url, path } => AcquisitionView::Download {
                url: url@,
                path: path@,
            },
            Acquisition::Extract { archive, folder } => AcquisitionView::Extract {
                archive: archive@,
                folder: folder@,
            },
        }
    }
}

/// A file or folder that can be had.
pub trait Resource {
    /// What is to be done next to have the resource, given the facts.
    spec fn plan(&self, facts: Seq<(String, Fact)>) -> AcquisitionView;

    /// Says what is to be done next to have the resource. Whoever does it
    /// notes what came of it and asks again, until the resource is ready or
    /// has failed.
    fn acquire(&self, facts: &Facts) -> (next: Acquisition)
        ensures
            next@ == self.plan(facts@),
    ;
}

/// A file that the user provides.
#[derive(Debug)]
pub struct UserResource {
    path: String,
}

impl UserResource {
    /// The file at the given path.
    pub fn new(path: String) -> (resource: UserResource)
        ensures
            resource.path() == path@,
    {
        UserResource { path }
    }

    /// Where the file stands.
    pub closed spec fn path(&self) -> Seq<char> {
        self.path@
    }
}

impl Resource for UserResource {
    /// The file is ready if something stands at its path, and cannot be had
    /// if nothing does.
    open spec fn plan(&self, facts: Seq<(String, Fact)>) -> AcquisitionView {
        match kind_of(facts, self.path()) {
            None => AcquisitionView::Inspect(self.path()),
            Some(PathKind::Missing) => AcquisitionView::Failed("The path doesn't exist"@),
            Some(_) => AcquisitionView::Ready(self.path()),
        }
    }

    fn acquire(&self, facts: &Facts) -> (next: Acquisition) {
        match facts.kind(self.path.as_str()) {
            None => Acquisition::Inspect(self.path.clone()),
            Some(PathKind::Missing) => Acquisition::Failed("The path doesn't exist".to_owned()),
            Some(_) => Acquisition::Ready(self.path.clone()),
        }
    }
}

/// A file that the judge offers.
#[derive(Debug)]
pub struct OnlineResource {
    download_path: String,
    url: String,
}

impl OnlineResource {
    /// The file at the given address, to be kept at the given path.
    pub fn new(download_path: String, url: String) -> (resource: OnlineResource)
        ensures
            resource.download_path() == download_path@,
            resource.url() == url@,
    {
        OnlineResource { download_path, url }
    }

    /// Where the file is kept.
    pub closed spec fn download_path(&self) -> Seq<char> {
        self.download_path@
    }

    /// Where the judge offers the file.
    pub closed spec fn url(&self) -> Seq<char> {
        self.url@
    }
}

impl Resource for OnlineResource {
    /// A file that is kept already is ready. A directory in its place is an
    /// error. Otherwise the file is fetched, once, and is ready if that
    /// went well.
    open spec fn plan(&self, facts: Seq<(String, Fact)>) -> AcquisitionView {
        match kind_of(facts, self.download_path()) {
            None => AcquisitionView::Inspect(self.download_path()),
            Some(PathKind::File) => AcquisitionView::Ready(self.download_path()),
            Some(PathKind::Directory) => AcquisitionView::Failed(
                "The download path is a directory"@,
            ),
            Some(_) => match fetched(facts, self.download_path()) {
                None => AcquisitionView::Download { url: self.url(), path: self.download_path() },
                Some(Ok(())) => AcquisitionView::Ready(self.download_path()),
                Some(Err(cause)) => AcquisitionView::Failed(cause@),
            },
        }
    }

    fn acquire(&self, facts: &Facts) -> (next: Acquisition) {
        match facts.kind(self.download_path.as_str()) {
            None => Acquisition::Inspect(self.download_path.clone()),
            Some(PathKind::File) => Acquisition::Ready(self.download_path.clone()),
            Some(PathKind::Directory) => Acquisition::Failed(
                "The download path is a directory".to_owned(),
            ),
            Some(_) => match facts.find(self.download_path.as_str(), FactClass::Fetched) {
                Some(Fact::Fetched(Ok(()))) => Acquisition::Ready(self.download_path.clone()),
                Some(Fact::Fetched(Err(cause))) => Acquisition::Failed(cause.clone()),
                _ => Acquisition::Download {
                    url: self.url.clone(),
                    path: self.download_path.clone(),
                },
            },
        }
    }
}

/// A folder that is unpacked from an archive, which is a resource itself.
#[derive(Debug)]
pub struct UnzipResource<T: Resource> {
    output_path: String,
    source_resource: T,
}

impl<T: Resource> UnzipResource<T> {
    /// The folder at the given path, unpacked from the given archive.
    pub fn new(source_resource: T, output_path: String) -> (resource: UnzipResource<T>)
        ensures
            resource.output_path() == output_path@,
            resource.source_resource() == source_resource,
    {
        UnzipResource { source_resource, output_path }
    }

    /// Where the folder stands.
    pub closed spec fn output_path(&self) -> Seq<char> {
        self.output_path@
    }

    /// The archive the folder is unpacked from.
    pub closed spec fn source_resource(&self) -> T {
        self.source_resource
    }
}

impl<T: Resource> Resource for UnzipResource<T> {
    /// A folder that stands already is ready. A file in its place is an
    /// error. Otherwise the archive is had first, whatever that takes, then
    /// unpacked, once, and the folder is ready if that went well.
    open spec fn plan(&self, facts: Seq<(String, Fact)>) -> AcquisitionView {
        match kind_of(facts, self.output_path()) {
            None => AcquisitionView::Inspect(self.output_path()),
            Some(PathKind::Directory) => AcquisitionView::Ready(self.output_path()),
            Some(PathKind::File) => AcquisitionView::Failed("The extraction path is a file"@),
            Some(_) => match extracted(facts, self.output_path()) {
                Some(Ok(())) => AcquisitionView::Ready(self.output_path()),
                Some(Err(cause)) => AcquisitionView::Failed(cause@),
                None => match self.source_resource().plan(facts) {
                    AcquisitionView::Ready(archive) => AcquisitionView::Extract {
                        archive,
                        folder: self.output_path(),
                    },
                    other => other,
                },
            },
        }
    }

    fn acquire(&self, facts: &Facts) -> (next: Acquisition) {
        match facts.kind(self.output_path.as_str()) {
            None => Acquisition::Inspect(self.output_path.clone()),
            Some(PathKind::Directory) => Acquisition::Ready(self.output_path.clone()),
            Some(PathKind::File) => Acquisition::Failed("The extraction path is a file".to_owned()),
            Some(_) => match facts.find(self.output_path.as_str(), FactClass::Extracted) {
                Some(Fact::Extracted(Ok(()))) => Acquisition::Ready(self.output_path.clone()),
                Some(Fact::Extracted(Err(cause))) => Acquisition::Failed(cause.clone()),
                _ => match self.source_resource.acquire(facts) {
                    Acquisition::Ready(archive) => Acquisition::Extract {
                        archive,
                        folder: self.output_path.clone(),
                    },
                    other => other,
                },
            },
        }
    }
}

} // verus!

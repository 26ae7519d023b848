//! Where the versions of a run come from: the tree files of a directory, visited in the
//! order of their paths, or a range of version numbers, walked upwards.
use vstd::prelude::*;
use crate::error::RunError;
use crate::key::byte_strings;
use crate::path_order::{is_visiting_order, sort_paths};

verus! {

/// What a source is made of.
enum Origin {
    /// The paths of the tree files, in visiting order.
    Directory { paths: Vec<Vec<u8>> },
    /// Every version from `first` up to and including `last`.
    Range { first: u64, last: u64 },
}

/// A source of versions. A directory gives the version of each tree file once the file
/// has been read; a range gives its versions by itself.
pub struct VersionSource {
    origin: Origin,
}

/// The mathematical content of a [`VersionSource`].
pub ghost enum SourceView {
    /// The paths of the tree files, in visiting order.
    Directory { paths: Seq<Seq<u8>> },
    /// Every version from `first` up to and including `last`.
    Range { first: u64, last: u64 },
}

impl SourceView {
    /// The sources that can exist: the tree files can be counted, and a range does not
    /// begin above its end.
    pub open spec fn wf(self) -> bool {
        match self {
            SourceView::Directory { paths } => paths.len() <= usize::MAX,
            SourceView::Range { first, last } => first <= last,
        }
    }

    /// Whether this is the source that a directory listing gives: the listed paths, in
    /// visiting order.
    pub open spec fn is_scan_of(self, listing: Seq<Seq<u8>>) -> bool {
        self matches SourceView::Directory { paths } && is_visiting_order(paths, listing)
    }
}

impl View for VersionSource {
    type V = SourceView;

    closed spec fn view(&self) -> SourceView {
        match self.origin {
            Origin::Directory { paths } => SourceView::Directory { paths: byte_strings(paths@) },
            Origin::Range { first, last } => SourceView::Range { first, last },
        }
    }
}

/// Copies a byte string.
fn copy_bytes(bytes: &Vec<u8>) -> (copy: Vec<u8>)
    ensures
        copy@ == bytes@,
{
    let mut copy: Vec<u8> = Vec::new();
    let mut i: usize = 0;
    while i < bytes.len()
        invariant
            i <= bytes.len(),
            copy@ == bytes@.subrange(0, i as int),
        decreases bytes.len() - i,
    {
        copy.push(bytes[i]);
        assert(copy@ =~= bytes@.subrange(0, i + 1));
        i += 1;
    }
    assert(copy@ =~= bytes@);
    copy
}

/// Copies a list of paths.
fn copy_paths(paths: &Vec<Vec<u8>>) -> (copy: Vec<Vec<u8>>)
    ensures
        byte_strings(copy@) == byte_strings(paths@),
{
    let mut copy: Vec<Vec<u8>> = Vec::new();
    let mut i: usize = 0;
    while i < paths.len()
        invariant
            i <= paths.len(),
            byte_strings(copy@) == byte_strings(paths@).subrange(0, i as int),
        decreases paths.len() - i,
    {
        let ghost before = byte_strings(copy@);
        let path = copy_bytes(&paths[i]);
        copy.push(path);
        assert(byte_strings(copy@) =~= before.push(byte_strings(paths@)[i as int]));
        assert(byte_strings(copy@) =~= byte_strings(paths@).subrange(0, i + 1));
        i += 1;
    }
    assert(byte_strings(copy@) =~= byte_strings(paths@));
    copy
}

impl VersionSource {
    #[verifier::type_invariant]
    spec fn valid(self) -> bool {
        self@.wf()
    }

    /// The source that a directory gives: the listed paths, sorted into visiting order,
    /// whatever the order in which the directory listed them.
    pub fn scan(listing: &Vec<Vec<u8>>) -> (source: VersionSource)
        ensures
            source@.wf(),
            source@.is_scan_of(byte_strings(listing@)),
    {
        let paths = sort_paths(copy_paths(listing));
        assert(byte_strings(paths@).len() == paths.len());
        VersionSource { origin: Origin::Directory { paths } }
    }

    /// The source of the versions from `from_version` up to and including `to_version`.
    ///
    /// Fails with [`RunError::InvalidRange`] exactly where the first lies above the last.
    pub fn range(from_version: u64, to_version: u64) -> (made: Result<VersionSource, RunError>)
        ensures
            match made {
                Ok(source) => from_version <= to_version && source@ == (SourceView::Range {
                    first: from_version,
                    last: to_version,
                }),
                Err(error) => from_version > to_version && error == (RunError::InvalidRange {
                    from_version,
                    to_version,
                }),
            },
    {
        if from_version > to_version {
            Err(RunError::InvalidRange { from_version, to_version })
        } else {
            Ok(VersionSource { origin: Origin::Range { first: from_version, last: to_version } })
        }
    }

    /// The ends of the range, where the source is one.
    pub fn bounds(&self) -> (ends: Option<(u64, u64)>)
        ensures
            self@.wf(),
            match ends {
                Some((first, last)) => self@ == (SourceView::Range { first, last }),
                None => self@ is Directory,
            },
    {
        proof {
            use_type_invariant(self);
        }
        match &self.origin {
            Origin::Directory { .. } => None,
            Origin::Range { first, last } => Some((*first, *last)),
        }
    }

    /// The number of tree files of a directory; a range has none.
    pub fn file_count(&self) -> (count: usize)
        ensures
            self@.wf(),
            count == match self@ {
                SourceView::Directory { paths } => paths.len(),
                SourceView::Range { .. } => 0,
            },
    {
        proof {
            use_type_invariant(self);
        }
        match &self.origin {
            Origin::Directory { paths } => paths.len(),
            Origin::Range { .. } => 0,
        }
    }

    /// The path of the tree file at a position of the visiting order, or `None` where
    /// there is no file at that position.
    pub fn path_at(&self, position: usize) -> (path: Option<Vec<u8>>)
        ensures
            match path {
                Some(bytes) => self@ matches SourceView::Directory { paths } && position
                    < paths.len() && bytes@ == paths[position as int],
                None => !(self@ matches SourceView::Directory { paths } && position < paths.len()),
            },
    {
        match &self.origin {
            Origin::Directory { paths } => {
                if position < paths.len() {
                    Some(copy_bytes(&paths[position]))
                } else {
                    None
                }
            },
            Origin::Range { .. } => None,
        }
    }
}

} // verus!

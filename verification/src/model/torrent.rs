//! The resource descriptor: what is shared, in which pieces, and where its
//! tracker is.

use vstd::prelude::*;

use crate::error::{Error, ErrorKind};
use crate::model::{Sha1Hash, SHA1_HASH_LEN};
use crate::util::bytes::array_at;
use crate::util::common::{sha1_digest, sha1_hash};

verus! {

/// A descriptor as it was decoded from its file, before anything was derived
/// from it.
#[derive(Debug, Clone, PartialEq, Eq)]
pub struct TorrentFile {
    pub announce: String,
    /// The alternate trackers, in tiers.
    pub announce_list: Vec<Vec<String>>,
    pub created_by: String,
    pub comment: String,
    pub encoding: String,
    pub info: TorrentInfo,
}

/// The piece-layout dictionary of a descriptor.
#[derive(Debug, Clone, PartialEq, Eq)]
pub enum TorrentInfo {
    MultiFile { name: String, piece_length: u64, pieces: Vec<u8>, files: Vec<FileEntry> },
    SingleFile { name: String, piece_length: u64, pieces: Vec<u8>, length: u64 },
}

/// The piece-layout dictionary under the name that it has in a decoded file.
pub type TorrentFileInfo = TorrentInfo;

/// One file of a multi-file resource.
#[derive(Debug, Clone, PartialEq, Eq)]
pub struct FileEntry {
    /// The components of the path, relative to the resource's root.
    pub path: Vec<String>,
    pub length: u64,
}

/// A resource descriptor. Made once, never changed.
#[derive(Debug, Clone, PartialEq, Eq)]
pub struct Torrent {
    pub announce: String,
    pub announce_list: Vec<String>,
    pub created_by: String,
    pub comment: String,
    pub encoding: String,
    pub root_name: String,
    /// Bytes per piece; the last piece may be shorter.
    pub piece_length: u64,
    /// The SHA-1 digest of each piece, in order.
    pub pieces: Vec<Sha1Hash>,
    /// The identity of the resource: the SHA-1 digest of the canonical
    /// encoding of its piece-layout dictionary.
    pub info_hash: Sha1Hash,
    pub variant: TorrentVariant,
}

/// The two layouts of a resource.
#[derive(Debug, Clone, PartialEq, Eq)]
pub enum TorrentVariant {
    /// One file of this length.
    SingleFile(u64),
    MultiFile(Vec<FileEntry>),
}

/// The announce list of a descriptor that names none.
pub fn empty_vec() -> (tiers: Vec<Vec<String>>)
    ensures
        tiers@.len() == 0,
{
    Vec::new()
}

/// The value of a text field that a descriptor leaves out.
pub fn empty_string() -> (text: String)
    ensures
        text@.len() == 0,
{
    String::new()
}

/// The encoding of a descriptor that names none.
pub fn utf_8() -> (text: String)
    ensures
        text@ == "UTF-8"@,
{
    "UTF-8".to_owned()
}

impl TorrentInfo {
    /// The root name.
    pub open spec fn name(self) -> String {
        match self {
            TorrentInfo::MultiFile { name, .. } => name,
            TorrentInfo::SingleFile { name, .. } => name,
        }
    }

    /// The bytes per piece.
    pub open spec fn piece_length(self) -> u64 {
        match self {
            TorrentInfo::MultiFile { piece_length, .. } => piece_length,
            TorrentInfo::SingleFile { piece_length, .. } => piece_length,
        }
    }

    /// The piece digests, one after the other.
    pub open spec fn pieces(self) -> Seq<u8> {
        match self {
            TorrentInfo::MultiFile { pieces, .. } => pieces@,
            TorrentInfo::SingleFile { pieces, .. } => pieces@,
        }
    }

    /// The layout.
    pub open spec fn variant(self) -> TorrentVariant {
        match self {
            TorrentInfo::MultiFile { files, .. } => TorrentVariant::MultiFile(files),
            TorrentInfo::SingleFile { length, .. } => TorrentVariant::SingleFile(length),
        }
    }

}

/// The bytes of the files of a resource, taken together.
pub open spec fn files_length(files: Seq<FileEntry>) -> nat
    decreases files.len(),
{
    if files.len() == 0 {
        0
    } else {
        files_length(files.drop_last()) + files.last().length as nat
    }
}

/// The bytes of a resource.
pub open spec fn content_length(variant: TorrentVariant) -> nat {
    match variant {
        TorrentVariant::SingleFile(length) => length as nat,
        TorrentVariant::MultiFile(files) => files_length(files@),
    }
}

/// The first files of a resource are no longer than all of them.
pub proof fn lemma_files_length_grows(files: Seq<FileEntry>, n: int)
    requires
        0 <= n <= files.len(),
    ensures
        files_length(files.subrange(0, n)) <= files_length(files),
    decreases files.len(),
{
    if n == files.len() {
        assert(files.subrange(0, n) =~= files);
    } else {
        assert(files.drop_last().subrange(0, n) =~= files.subrange(0, n));
        lemma_files_length_grows(files.drop_last(), n);
    }
}

/// The digests that a blob of piece digests holds: one per twenty bytes.
pub open spec fn piece_hashes(blob: Seq<u8>) -> Seq<Seq<u8>> {
    Seq::new(blob.len() / 20, |i: int| blob.subrange(20 * i, 20 * i + 20))
}

/// Whether a piece-layout dictionary describes a resource: its pieces have a
/// length, and its blob of digests is made of whole digests.
pub open spec fn valid_info(info: TorrentInfo) -> bool {
    info.pieces().len() % 20 == 0 && info.piece_length() > 0
}

/// Cuts a blob of piece digests into digests.
fn split_piece_hashes(blob: &[u8]) -> (hashes: Vec<Sha1Hash>)
    requires
        blob@.len() % 20 == 0,
    ensures
        hashes.deep_view() == piece_hashes(blob@),
{
    let count: usize = blob.len() / SHA1_HASH_LEN;
    let mut hashes: Vec<Sha1Hash> = Vec::with_capacity(count);
    let mut i: usize = 0;
    while i < count
        invariant
            count == blob.len() / 20,
            i <= count,
            hashes@.len() == i,
            forall|k: int| 0 <= k < i ==> hashes@[k]@ == #[trigger] piece_hashes(blob@)[k],
        decreases count - i,
    {
        let hash: Sha1Hash = array_at(blob, i * SHA1_HASH_LEN);
        hashes.push(hash);
        i += 1;
    }
    assert(hashes.deep_view() =~~= piece_hashes(blob@));
    hashes
}

/// Joins the tiers of an announce list into one list, tier after tier.
fn flatten_announce_list(tiers: &Vec<Vec<String>>) -> (list: Vec<String>)
    ensures
        list.deep_view() == tiers.deep_view().flatten(),
{
    let mut list: Vec<String> = Vec::new();
    let mut i: usize = 0;
    assert(tiers.deep_view().subrange(0, 0) =~= Seq::<Seq<Seq<char>>>::empty());
    assert(list.deep_view() =~= Seq::<Seq<char>>::empty());
    while i < tiers.len()
        invariant
            i <= tiers@.len(),
            list.deep_view() == tiers.deep_view().subrange(0, i as int).flatten(),
        decreases tiers@.len() - i,
    {
        let tier = &tiers[i];
        let ghost before = list.deep_view();
        let mut j: usize = 0;
        assert(tier.deep_view().subrange(0, 0) =~= Seq::<Seq<char>>::empty());
        while j < tier.len()
            invariant
                j <= tier@.len(),
                list.deep_view() == before + tier.deep_view().subrange(0, j as int),
            decreases tier@.len() - j,
        {
            let ghost prior = list.deep_view();
            list.push(tier[j].clone());
            assert(list.deep_view() =~= prior.push(tier@[j as int]@));
            assert(tier.deep_view().subrange(0, j + 1) =~= tier.deep_view().subrange(
                0,
                j as int,
            ).push(tier@[j as int]@));
            j += 1;
        }
        proof {
            let done = tiers.deep_view().subrange(0, i as int);
            assert(tier.deep_view().subrange(0, tier@.len() as int) =~= tier.deep_view());
            assert(tiers.deep_view().subrange(0, i + 1) =~= done.push(tier.deep_view()));
            done.lemma_flatten_push(tier.deep_view());
        }
        i += 1;
    }
    assert(tiers.deep_view().subrange(0, tiers@.len() as int) =~= tiers.deep_view());
    list
}

impl Torrent {
    /// Builds the descriptor from a decoded file and from the canonical
    /// encoding of the file's piece-layout dictionary.
    ///
    /// Fails with `InvalidInput` where the blob of digests is not made of
    /// whole digests, or where pieces have no length. Otherwise the text
    /// fields are taken over, the announce list is flattened, the blob is cut
    /// into digests, and the identity is the digest of the encoding.
    pub fn from_bencode(file: TorrentFile, info_encoding: &[u8]) -> (result: Result<Self, Error>)
        ensures
            match result {
                Ok(torrent) => {
                    &&& valid_info(file.info)
                    &&& torrent.announce == file.announce
                    &&& torrent.announce_list.deep_view() == file.announce_list.deep_view().flatten()
                    &&& torrent.created_by == file.created_by
                    &&& torrent.comment == file.comment
                    &&& torrent.encoding == file.encoding
                    &&& torrent.root_name == file.info.name()
                    &&& torrent.piece_length == file.info.piece_length()
                    &&& torrent.pieces.deep_view() == piece_hashes(file.info.pieces())
                    &&& torrent.info_hash@ == sha1_digest(info_encoding@)
                    &&& torrent.variant == file.info.variant()
                },
                Err(e) => {
                    &&& !valid_info(file.info)
                    &&& e.kind == ErrorKind::InvalidInput
                    &&& e.context@ == (if file.info.pieces().len() % 20 != 0 {
                        "Pieces hashes aren't multiple of 20"@
                    } else {
                        "Piece length is zero"@
                    })
                },
            },
    {
        let TorrentFile { announce, announce_list, created_by, comment, encoding, info } = file;
        let info_hash = sha1_hash(info_encoding);
        let (name, piece_length, pieces, variant) = match info {
            TorrentInfo::MultiFile { name, piece_length, pieces, files } => (
                name,
                piece_length,
                pieces,
                TorrentVariant::MultiFile(files),
            ),
            TorrentInfo::SingleFile { name, piece_length, pieces, length } => (
                name,
                piece_length,
                pieces,
                TorrentVariant::SingleFile(length),
            ),
        };
        if pieces.len() % SHA1_HASH_LEN != 0 {
            return Err(Error::new(ErrorKind::InvalidInput, "Pieces hashes aren't multiple of 20"));
        }
        if piece_length == 0 {
            return Err(Error::new(ErrorKind::InvalidInput, "Piece length is zero"));
        }
        Ok(
            Torrent {
                announce,
                announce_list: flatten_announce_list(&announce_list),
                created_by,
                comment,
                encoding,
                root_name: name,
                piece_length,
                pieces: split_piece_hashes(pieces.as_slice()),
                info_hash,
                variant,
            },
        )
    }

    /// The bytes of the resource, unless they are more than a `u64` can count.
    pub fn total_length(&self) -> (total: Option<u64>)
        ensures
            match total {
                Some(n) => n == content_length(self.variant),
                None => content_length(self.variant) > u64::MAX,
            },
    {
        match &self.variant {
            TorrentVariant::SingleFile(length) => Some(*length),
            TorrentVariant::MultiFile(files) => {
                let mut total: u64 = 0;
                let mut i: usize = 0;
                assert(files@.subrange(0, 0) =~= Seq::<FileEntry>::empty());
                while i < files.len()
                    invariant
                        i <= files@.len(),
                        self.variant == TorrentVariant::MultiFile(*files),
                        total == files_length(files@.subrange(0, i as int)),
                    decreases files@.len() - i,
                {
                    proof {
                        assert(files@.subrange(0, i + 1).drop_last() =~= files@.subrange(
                            0,
                            i as int,
                        ));
                        assert(files@.subrange(0, i + 1).last() == files@[i as int]);
                        assert(files_length(files@.subrange(0, i + 1)) == total
                            + files@[i as int].length);
                        lemma_files_length_grows(files@, i + 1);
                    }
                    match total.checked_add(files[i].length) {
                        Some(sum) => {
                            total = sum;
                        },
                        None => {
                            return None;
                        },
                    }
                    i += 1;
                }
                assert(files@.subrange(0, files@.len() as int) =~= files@);
                Some(total)
            },
        }
    }

    /// Whether the resource is one file.
    pub fn is_single_file(&self) -> (single: bool)
        ensures
            single == (self.variant is SingleFile),
    {
        match self.variant {
            TorrentVariant::SingleFile(..) => true,
            TorrentVariant::MultiFile(..) => false,
        }
    }

    /// Whether the resource is a directory of files.
    pub fn is_multi_file(&self) -> (multi: bool)
        ensures
            multi == (self.variant is MultiFile),
    {
        match self.variant {
            TorrentVariant::SingleFile(..) => false,
            TorrentVariant::MultiFile(..) => true,
        }
    }

    /// The length of the file, for a resource that is one file.
    pub fn file_len(&self) -> (len: Option<u64>)
        ensures
            len == (match self.variant {
                TorrentVariant::SingleFile(length) => Some(length),
                TorrentVariant::MultiFile(_) => None,
            }),
    {
        if let TorrentVariant::SingleFile(len) = self.variant {
            Some(len)
        } else {
            None
        }
    }

    /// The files, for a resource that is a directory of files.
    pub fn get_files(&self) -> (files: Option<&[FileEntry]>)
        ensures
            match self.variant {
                TorrentVariant::SingleFile(_) => files is None,
                TorrentVariant::MultiFile(entries) => files matches Some(slice) && slice@
                    == entries@,
            },
    {
        if let TorrentVariant::MultiFile(entries) = &self.variant {
            Some(entries.as_slice())
        } else {
            None
        }
    }
}

} // verus!

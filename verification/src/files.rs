//! Reassembly of photos that arrive as chunked multi-piece transfers.
//!
//! A file is divided into pieces; each piece holds up to eight chunks, and a
//! chunk lands in slot `chunk_num mod 8` of its piece.  A duplicate of an
//! occupied slot is ignored by design.  The accumulated size always equals
//! the sum of the stored chunks' stated lengths, and the file is complete
//! when it reaches the expected size.

use vstd::prelude::*;

use crate::bytes::{get_u16, get_u32, spec_u16_le, spec_u32_le};

verus! {

/// The file types a transfer can announce; only JPEG is accepted.
#[derive(Clone, Copy, Debug, PartialEq, Eq, Structural)]
pub enum FileType {
    FtJPEG,
    FtUnknown,
}

/// The file type announced by a code byte.
pub open spec fn spec_file_type(v: u8) -> FileType {
    if v == 1 {
        FileType::FtJPEG
    } else {
        FileType::FtUnknown
    }
}

impl FileType {
    pub fn from_code(v: u8) -> (r: Self)
        ensures
            r == spec_file_type(v),
    {
        if v == 1 {
            FileType::FtJPEG
        } else {
            FileType::FtUnknown
        }
    }
}

/// One chunk of a piece, as carried by a file-data payload.
pub struct FileChunk {
    pub f_id: u16,
    pub piece_num: u32,
    pub chunk_num: u32,
    pub chunk_len: u16,
    pub chunk_data: Vec<u8>,
}

/// The mathematical image of a `FileChunk`.
pub struct ChunkModel {
    pub f_id: u16,
    pub piece_num: u32,
    pub chunk_num: u32,
    pub chunk_len: u16,
    pub chunk_data: Seq<u8>,
}

impl View for FileChunk {
    type V = ChunkModel;

    open spec fn view(&self) -> ChunkModel {
        ChunkModel {
            f_id: self.f_id,
            piece_num: self.piece_num,
            chunk_num: self.chunk_num,
            chunk_len: self.chunk_len,
            chunk_data: self.chunk_data@,
        }
    }
}

impl FileChunk {
    /// Parses a file-data payload: file id, piece number, chunk number and
    /// stated chunk length, all little-endian, then the chunk bytes.
    pub fn new(pl: &Vec<u8>) -> (r: Self)
        requires
            pl@.len() >= 14,
        ensures
            r@.f_id == spec_u16_le(pl@[0], pl@[1]),
            r@.piece_num == spec_u32_le(pl@[2], pl@[3], pl@[4], pl@[5]),
            r@.chunk_num == spec_u32_le(pl@[6], pl@[7], pl@[8], pl@[9]),
            r@.chunk_len == spec_u16_le(pl@[10], pl@[11]),
            r@.chunk_data == pl@.skip(12),
    {
        let mut chunk_data: Vec<u8> = Vec::new();
        let mut i: usize = 12;
        while i < pl.len()
            invariant
                12 <= i <= pl@.len(),
                pl@.len() >= 14,
                chunk_data@ =~= pl@.subrange(12, i as int),
            decreases pl@.len() - i,
        {
            chunk_data.push(pl[i]);
            proof {
                assert(chunk_data@ =~= pl@.subrange(12, i + 1));
            }
            i = i + 1;
        }
        proof {
            assert(chunk_data@ =~= pl@.skip(12));
        }
        FileChunk {
            f_id: get_u16(pl, 0, 1),
            piece_num: get_u32(pl, 2),
            chunk_num: get_u32(pl, 6),
            chunk_len: get_u16(pl, 10, 11),
            chunk_data,
        }
    }
}

/// One piece: up to eight chunks, indexed by chunk number modulo eight.
pub struct FilePiece {
    pub num_chunks: i32,
    pub chunks: Vec<Option<FileChunk>>,
}

/// The mathematical image of a `FilePiece`.
pub struct PieceModel {
    pub num_chunks: i32,
    pub chunks: Seq<Option<ChunkModel>>,
}

impl View for FilePiece {
    type V = PieceModel;

    open spec fn view(&self) -> PieceModel {
        PieceModel {
            num_chunks: self.num_chunks,
            chunks: Seq::new(
                self.chunks@.len(),
                |i: int|
                    match self.chunks@[i] {
                        Some(c) => Some(c@),
                        None => None,
                    },
            ),
        }
    }
}

/// How many slots of a piece are filled.
pub open spec fn spec_count_some(s: Seq<Option<ChunkModel>>) -> int
    decreases s.len(),
{
    if s.len() == 0 {
        0
    } else {
        spec_count_some(s.drop_last()) + (if s.last() is Some {
            1int
        } else {
            0int
        })
    }
}

/// The sum of the stated lengths of the chunks stored in a piece.
pub open spec fn spec_chunks_sum(s: Seq<Option<ChunkModel>>) -> int
    decreases s.len(),
{
    if s.len() == 0 {
        0
    } else {
        spec_chunks_sum(s.drop_last()) + (match s.last() {
            Some(c) => c.chunk_len as int,
            None => 0,
        })
    }
}

/// The bytes stored in a piece, in slot order.
pub open spec fn spec_chunks_bytes(s: Seq<Option<ChunkModel>>) -> Seq<u8>
    decreases s.len(),
{
    if s.len() == 0 {
        Seq::empty()
    } else {
        spec_chunks_bytes(s.drop_last()) + (match s.last() {
            Some(c) => c.chunk_data,
            None => Seq::empty(),
        })
    }
}

impl PieceModel {
    /// Eight slots, with the chunk counter agreeing with the slots.
    pub open spec fn wf(self) -> bool {
        &&& self.chunks.len() == 8
        &&& self.num_chunks == spec_count_some(self.chunks)
    }
}

/// A piece with all slots free.
pub open spec fn spec_empty_piece() -> PieceModel {
    PieceModel { num_chunks: 0, chunks: Seq::new(8, |i: int| None) }
}

impl FilePiece {
    pub fn new() -> (r: Self)
        ensures
            r@ == spec_empty_piece(),
            r@.wf(),
    {
        let mut chunks: Vec<Option<FileChunk>> = Vec::new();
        let mut i: usize = 0;
        while i < 8
            invariant
                i <= 8,
                chunks@.len() == i,
                forall|k: int| 0 <= k < i ==> chunks@[k] is None,
            decreases 8 - i,
        {
            chunks.push(None);
            i = i + 1;
        }
        let r = FilePiece { num_chunks: 0, chunks };
        proof {
            assert(r@.chunks =~= spec_empty_piece().chunks);
            lemma_count_some_all_none(r@.chunks);
        }
        r
    }
}

/// The sum of the piece sums of a file.
pub open spec fn spec_pieces_sum(ps: Seq<PieceModel>) -> int
    decreases ps.len(),
{
    if ps.len() == 0 {
        0
    } else {
        spec_pieces_sum(ps.drop_last()) + spec_chunks_sum(ps.last().chunks)
    }
}

/// The bytes of a file: every piece's bytes, in piece order.
pub open spec fn spec_pieces_bytes(ps: Seq<PieceModel>) -> Seq<u8>
    decreases ps.len(),
{
    if ps.len() == 0 {
        Seq::empty()
    } else {
        spec_pieces_bytes(ps.drop_last()) + spec_chunks_bytes(ps.last().chunks)
    }
}

/// One inbound photo transfer in progress.
pub struct FileInternal {
    pub f_id: u16,
    pub file_type: FileType,
    pub expected_size: u32,
    pub accum_size: u32,
    pub pieces: Vec<FilePiece>,
}

/// The mathematical image of a `FileInternal`.
pub struct FileModel {
    pub f_id: u16,
    pub file_type: FileType,
    pub expected_size: u32,
    pub accum_size: u32,
    pub pieces: Seq<PieceModel>,
}

impl View for FileInternal {
    type V = FileModel;

    open spec fn view(&self) -> FileModel {
        FileModel {
            f_id: self.f_id,
            file_type: self.file_type,
            expected_size: self.expected_size,
            accum_size: self.accum_size,
            pieces: Seq::new(self.pieces@.len(), |i: int| self.pieces@[i]@),
        }
    }
}

impl FileModel {
    /// Every piece well formed, and the accumulated size equal to the sum
    /// of the stored chunks' stated lengths.
    pub open spec fn wf(self) -> bool {
        &&& forall|i: int| 0 <= i < self.pieces.len() ==> (#[trigger] self.pieces[i]).wf()
        &&& self.accum_size == spec_pieces_sum(self.pieces)
    }

    /// Whether the transfer has reached its announced size.
    pub open spec fn complete(self) -> bool {
        self.accum_size == self.expected_size
    }
}

/// The pieces sequence grown with empty pieces until index `pn` exists.
pub open spec fn spec_grow_pieces(ps: Seq<PieceModel>, pn: int) -> Seq<PieceModel> {
    if ps.len() <= pn {
        ps + Seq::new((pn + 1 - ps.len()) as nat, |i: int| spec_empty_piece())
    } else {
        ps
    }
}

/// What one file-data chunk does to a transfer: the pieces list grows until
/// the chunk's piece exists; the chunk lands in slot `chunk_num mod 8` if
/// the slot is free, the piece is not already full, and the running size
/// cannot overflow; a duplicate changes nothing.
pub open spec fn spec_add_chunk(f: FileModel, c: ChunkModel) -> FileModel {
    let pn = c.piece_num as int;
    if pn + 1 > usize::MAX {
        f
    } else {
        let grown = spec_grow_pieces(f.pieces, pn);
        let piece = grown[pn];
        let idx = (c.chunk_num & 7) as int;
        if piece.num_chunks < 8 && piece.chunks[idx] is None && f.accum_size + c.chunk_len
            <= u32::MAX {
            let p2 = PieceModel {
                num_chunks: (piece.num_chunks + 1) as i32,
                chunks: piece.chunks.update(idx, Some(c)),
            };
            FileModel {
                f_id: f.f_id,
                file_type: f.file_type,
                expected_size: f.expected_size,
                accum_size: (f.accum_size + c.chunk_len) as u32,
                pieces: grown.update(pn, p2),
            }
        } else {
            FileModel {
                f_id: f.f_id,
                file_type: f.file_type,
                expected_size: f.expected_size,
                accum_size: f.accum_size,
                pieces: grown,
            }
        }
    }
}

/// What `add_chunk` reports back: whether the chunk's piece now holds all
/// eight chunks, and whether the whole transfer has reached its size.
#[derive(Clone, Copy, Debug)]
pub struct AddChunkResult {
    pub piece_complete: bool,
    pub file_complete: bool,
}

proof fn lemma_count_some_all_none(s: Seq<Option<ChunkModel>>)
    requires
        forall|k: int| 0 <= k < s.len() ==> s[k] is None,
    ensures
        spec_count_some(s) == 0,
        spec_chunks_sum(s) == 0,
    decreases s.len(),
{
    if s.len() > 0 {
        lemma_count_some_all_none(s.drop_last());
    }
}

proof fn lemma_pieces_sum_push(ps: Seq<PieceModel>, p: PieceModel)
    ensures
        spec_pieces_sum(ps.push(p)) == spec_pieces_sum(ps) + spec_chunks_sum(p.chunks),
{
    assert(ps.push(p).drop_last() =~= ps);
}

proof fn lemma_chunks_sum_update(s: Seq<Option<ChunkModel>>, i: int, c: ChunkModel)
    requires
        0 <= i < s.len(),
        s[i] is None,
    ensures
        spec_chunks_sum(s.update(i, Some(c))) == spec_chunks_sum(s) + c.chunk_len,
        spec_count_some(s.update(i, Some(c))) == spec_count_some(s) + 1,
    decreases s.len(),
{
    let s2 = s.update(i, Some(c));
    if i == s.len() - 1 {
        assert(s2.drop_last() =~= s.drop_last());
        assert(s2.last() == Some(c));
    } else {
        assert(s2.drop_last() =~= s.drop_last().update(i, Some(c)));
        lemma_chunks_sum_update(s.drop_last(), i, c);
        assert(s2.last() == s.last());
    }
}

proof fn lemma_pieces_sum_update(ps: Seq<PieceModel>, i: int, p: PieceModel)
    requires
        0 <= i < ps.len(),
    ensures
        spec_pieces_sum(ps.update(i, p)) == spec_pieces_sum(ps) + spec_chunks_sum(p.chunks)
            - spec_chunks_sum(ps[i].chunks),
    decreases ps.len(),
{
    let ps2 = ps.update(i, p);
    if i == ps.len() - 1 {
        assert(ps2.drop_last() =~= ps.drop_last());
        assert(ps2.last() == p);
    } else {
        assert(ps2.drop_last() =~= ps.drop_last().update(i, p));
        lemma_pieces_sum_update(ps.drop_last(), i, p);
        assert(ps2.last() == ps.last());
    }
}

impl FileInternal {
    /// Parses a file-size payload: type code, expected size and file id.
    pub fn new(pl: &Vec<u8>) -> (r: Self)
        requires
            pl@.len() >= 7,
        ensures
            r@.file_type == spec_file_type(pl@[0]),
            r@.expected_size == spec_u32_le(pl@[1], pl@[2], pl@[3], pl@[4]),
            r@.f_id == spec_u16_le(pl@[5], pl@[6]),
            r@.accum_size == 0,
            r@.pieces == Seq::<PieceModel>::empty(),
            r@.wf(),
    {
        let r = FileInternal {
            f_id: get_u16(pl, 5, 6),
            file_type: FileType::from_code(pl[0]),
            expected_size: get_u32(pl, 1),
            accum_size: 0,
            pieces: Vec::new(),
        };
        proof {
            assert(r@.pieces =~= Seq::<PieceModel>::empty());
        }
        r
    }

    /// Files one chunk, growing the pieces list as needed.  A duplicate of
    /// an occupied slot, a chunk for an already full piece, and a chunk
    /// whose stated length would overflow the running size are all ignored.
    pub fn add_chunk(&mut self, chunk: FileChunk) -> (r: AddChunkResult)
        requires
            old(self)@.wf(),
        ensures
            final(self)@ == spec_add_chunk(old(self)@, chunk@),
            final(self)@.wf(),
            r.piece_complete == (chunk@.piece_num < final(self)@.pieces.len()
                && final(self)@.pieces[chunk@.piece_num as int].num_chunks == 8),
            r.file_complete == final(self)@.complete(),
    {
        let pn = chunk.piece_num as usize;
        if pn == usize::MAX {
            let plen: usize = self.pieces.len();
            proof {
                assert(self@.pieces.len() == plen);
            }
            return AddChunkResult {
                piece_complete: false,
                file_complete: self.accum_size == self.expected_size,
            };
        }
        while self.pieces.len() <= pn
            invariant
                pn < usize::MAX,
                self@.f_id == old(self)@.f_id,
                self@.file_type == old(self)@.file_type,
                self@.expected_size == old(self)@.expected_size,
                self@.accum_size == old(self)@.accum_size,
                old(self)@.wf(),
                self@.wf(),
                old(self)@.pieces.len() <= self@.pieces.len(),
                self@.pieces.len() <= pn + 1 || self@.pieces.len() == old(self)@.pieces.len(),
                self@.pieces == spec_grow_pieces(old(self)@.pieces, self@.pieces.len() - 1),
            decreases pn + 1 - self.pieces@.len(),
        {
            let ghost pre = self@.pieces;
            self.pieces.push(FilePiece::new());
            proof {
                assert(self@.pieces =~= pre.push(spec_empty_piece()));
                lemma_count_some_all_none(spec_empty_piece().chunks);
                lemma_pieces_sum_push(pre, spec_empty_piece());
                assert(self@.pieces =~= spec_grow_pieces(
                    old(self)@.pieces,
                    self@.pieces.len() - 1,
                ));
            }
        }
        proof {
            assert(self@.pieces =~= spec_grow_pieces(old(self)@.pieces, chunk@.piece_num as int));
        }
        let ghost grown = self@.pieces;
        let cn = chunk.chunk_num;
        proof {
            assert((cn & 7) < 8) by (bit_vector);
        }
        let idx = (cn & 7) as usize;
        let l = chunk.chunk_len as u32;
        let can_store = self.pieces[pn].num_chunks < 8 && self.pieces[pn].chunks[idx].is_none()
            && self.accum_size <= u32::MAX - l;
        if can_store {
            let ghost old_piece = self@.pieces[pn as int];
            let mut piece = self.pieces.remove(pn);
            let _slot = piece.chunks.remove(idx);
            piece.chunks.insert(idx, Some(chunk));
            piece.num_chunks = piece.num_chunks + 1;
            proof {
                assert(piece@.chunks =~= old_piece.chunks.update(
                    idx as int,
                    Some(chunk@),
                ));
                lemma_chunks_sum_update(old_piece.chunks, idx as int, chunk@);
            }
            self.accum_size = self.accum_size + l;
            self.pieces.insert(pn, piece);
            proof {
                assert(self@.pieces =~= grown.update(pn as int, piece@));
                lemma_pieces_sum_update(grown, pn as int, piece@);
                assert(self@ == spec_add_chunk(old(self)@, chunk@));
            }
        }
        let piece_complete = {
            let p = &self.pieces[pn];
            p.num_chunks == 8
        };
        let file_complete = self.accum_size == self.expected_size;
        AddChunkResult { piece_complete, file_complete }
    }

    /// All stored bytes, in piece order and slot order within each piece.
    pub fn assemble(&self) -> (r: Vec<u8>)
        ensures
            r@ == spec_pieces_bytes(self@.pieces),
    {
        let mut out: Vec<u8> = Vec::new();
        let mut i: usize = 0;
        while i < self.pieces.len()
            invariant
                i <= self@.pieces.len(),
                out@ =~= spec_pieces_bytes(self@.pieces.take(i as int)),
            decreases self@.pieces.len() - i,
        {
            let piece = &self.pieces[i];
            let mut j: usize = 0;
            while j < piece.chunks.len()
                invariant
                    i < self@.pieces.len(),
                    piece@ == self@.pieces[i as int],
                    j <= piece@.chunks.len(),
                    out@ =~= spec_pieces_bytes(self@.pieces.take(i as int))
                        + spec_chunks_bytes(piece@.chunks.take(j as int)),
                decreases piece@.chunks.len() - j,
            {
                let ghost pre = out@;
                match &piece.chunks[j] {
                    Some(ch) => {
                        let mut k: usize = 0;
                        while k < ch.chunk_data.len()
                            invariant
                                k <= ch.chunk_data@.len(),
                                out@ =~= pre + ch.chunk_data@.take(k as int),
                            decreases ch.chunk_data@.len() - k,
                        {
                            out.push(ch.chunk_data[k]);
                            proof {
                                assert(out@ =~= pre + ch.chunk_data@.take(k + 1));
                            }
                            k = k + 1;
                        }
                        proof {
                            assert(out@ =~= pre + ch.chunk_data@);
                        }
                    },
                    None => {},
                }
                proof {
                    assert(piece@.chunks.take(j + 1).drop_last() =~= piece@.chunks.take(j as int));
                    assert(out@ =~= spec_pieces_bytes(self@.pieces.take(i as int))
                        + spec_chunks_bytes(piece@.chunks.take(j + 1)));
                }
                j = j + 1;
            }
            proof {
                assert(piece@.chunks.take(piece@.chunks.len() as int) =~= piece@.chunks);
                assert(self@.pieces.take(i + 1).drop_last() =~= self@.pieces.take(i as int));
                assert(self@.pieces.take(i + 1).last() == self@.pieces[i as int]);
                assert(out@ =~= spec_pieces_bytes(self@.pieces.take(i + 1)));
            }
            i = i + 1;
        }
        proof {
            assert(self@.pieces.take(self@.pieces.len() as int) =~= self@.pieces);
        }
        out
    }
}

} // verus!

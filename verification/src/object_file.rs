//! The object-file codec.
//!
//! An object file is a storage header followed by raw instruction bytes:
//!
//! ```text
//! u16 total_size                -- byte count of the item region
//! repeated until total_size consumed:
//!   u16 size_with_flag          -- bit 15: init data present; bits 14..0: size
//!   u16 offset                  -- offset within the variable space, unbiased
//!   size bytes of init data     -- only when bit 15 is set
//! instruction bytes             -- the rest of the file
//! ```
//!
//! All multi-byte integers are little-endian. Offsets are stored raw, from
//! the start of the variable space; the machine adds the `0x8000` bias when
//! it loads a file, so the codec round-trips byte-for-byte.

use vstd::prelude::*;
use vstd::slice::{slice_subrange, slice_to_vec};

verus! {

/// Why a byte stream is not a valid object file.
#[derive(Clone, Copy, Debug, PartialEq, Eq, Structural)]
pub enum DecodeError {
    /// Fewer than two bytes: no `total_size` field.
    TruncatedHeader,
    /// The item region promised by `total_size` extends past the end of
    /// the data.
    TruncatedStorage,
    /// An item's header or init data extends past the item region.
    TruncatedItem,
    /// An item with size zero.
    ZeroSizeItem,
    /// No instruction bytes follow the item region.
    EmptyInstructions,
}

/// The on-disk form of one variable: its reserved size, its offset within
/// the variable space, and optionally the bytes it starts out holding.
#[derive(Debug)]
pub struct StorageItem {
    /// Size of the reserved space, with the flag bit already removed; on
    /// the wire it never exceeds `0x7FFF`.
    pub size: u16,
    /// Offset to the start of the reserved space, from the start of the
    /// variable space (unbiased).
    pub offset: u16,
    /// The initial bytes, exactly `size` of them, if the variable starts
    /// out initialised.
    pub init_data: Option<Vec<u8>>,
}

/// The storage header: the items and the byte count of their encoding.
#[derive(Debug)]
pub struct Storage {
    /// Length in bytes of the encoded item region, as held by the first
    /// two bytes of the file.
    pub total_size: u16,
    /// The storage items.
    pub items: Vec<StorageItem>,
}

/// A whole object file: storage and instruction bytes.
#[derive(Debug)]
pub struct SmolFile {
    /// The storage header.
    pub storage: Storage,
    /// The program's instruction bytes.
    pub instructions: Vec<u8>,
}

/// The abstract value of a [`StorageItem`].
#[verifier::ext_equal]
pub struct ItemModel {
    /// Reserved size, flag removed.
    pub size: u16,
    /// Unbiased offset within the variable space.
    pub offset: u16,
    /// The initial bytes, if any.
    pub init: Option<Seq<u8>>,
}

/// The abstract value of a [`Storage`].
#[verifier::ext_equal]
pub struct StorageModel {
    /// Length in bytes of the encoded item region.
    pub total_size: u16,
    /// The items.
    pub items: Seq<ItemModel>,
}

/// The abstract value of a [`SmolFile`].
#[verifier::ext_equal]
pub struct SmolFileModel {
    /// The storage header.
    pub storage: StorageModel,
    /// The instruction bytes.
    pub instructions: Seq<u8>,
}

impl View for StorageItem {
    type V = ItemModel;

    open spec fn view(&self) -> ItemModel {
        ItemModel {
            size: self.size,
            offset: self.offset,
            init: match self.init_data {
                Some(ref d) => Some(d@),
                None => None,
            },
        }
    }
}

impl View for Storage {
    type V = StorageModel;

    open spec fn view(&self) -> StorageModel {
        StorageModel {
            total_size: self.total_size,
            items: Seq::new(self.items@.len(), |i: int| self.items@[i]@),
        }
    }
}

impl View for SmolFile {
    type V = SmolFileModel;

    open spec fn view(&self) -> SmolFileModel {
        SmolFileModel { storage: self.storage@, instructions: self.instructions@ }
    }
}

// ---------------------------------------------------------------------------
// Well-formedness
// ---------------------------------------------------------------------------
/// A storable item: a size the wire format can carry, and init data, when
/// present, of exactly that size.
pub open spec fn spec_item_wf(it: ItemModel) -> bool {
    &&& 1 <= it.size <= 0x7FFF
    &&& match it.init {
        Some(d) => d.len() == it.size,
        None => true,
    }
}

/// The number of bytes the encoding of `items` occupies: four header bytes
/// per item plus its init data.
pub open spec fn spec_items_size(items: Seq<ItemModel>) -> int
    decreases items.len(),
{
    if items.len() == 0 {
        0
    } else {
        spec_item_size(items[0]) + spec_items_size(items.drop_first())
    }
}

/// The number of bytes the encoding of one item occupies.
pub open spec fn spec_item_size(it: ItemModel) -> int {
    4 + match it.init {
        Some(d) => d.len() as int,
        None => 0,
    }
}

/// A storage header is well-formed when every item is and `total_size`
/// states the exact byte count of the item region.
pub open spec fn spec_storage_wf(st: StorageModel) -> bool {
    &&& forall|i: int| 0 <= i < st.items.len() ==> spec_item_wf(#[trigger] st.items[i])
    &&& st.total_size == spec_items_size(st.items)
}

/// An object file is well-formed when its storage is and it carries at
/// least one instruction byte.
pub open spec fn spec_file_wf(f: SmolFileModel) -> bool {
    &&& spec_storage_wf(f.storage)
    &&& f.instructions.len() >= 1
}

// ---------------------------------------------------------------------------
// Encoding
// ---------------------------------------------------------------------------
/// The two little-endian bytes of a 16-bit word.
pub open spec fn spec_le_bytes(x: u16) -> Seq<u8> {
    seq![x as u8, (x >> 8) as u8]
}

/// A 16-bit word assembled from two little-endian bytes.
pub open spec fn spec_le16(lo: u8, hi: u8) -> u16 {
    (lo as u16) | ((hi as u16) << 8)
}

/// Reading back the two little-endian bytes of a word yields the word.
pub proof fn lemma_le16_roundtrip(x: u16)
    ensures
        spec_le16(x as u8, (x >> 8) as u8) == x,
{
    assert(((x as u8) as u16) | ((((x >> 8) as u8) as u16) << 8) == x) by (bit_vector);
}

/// The encoding of one item: size word with the init flag in bit 15, then
/// the offset word, then the init bytes if present.
pub open spec fn spec_encode_item(it: ItemModel) -> Seq<u8> {
    let size_w: u16 = if it.init is Some {
        it.size | 0x8000
    } else {
        it.size
    };
    spec_le_bytes(size_w) + spec_le_bytes(it.offset) + match it.init {
        Some(d) => d,
        None => Seq::empty(),
    }
}

/// The encoding of a list of items, one after the other.
pub open spec fn spec_encode_items(items: Seq<ItemModel>) -> Seq<u8>
    decreases items.len(),
{
    if items.len() == 0 {
        Seq::empty()
    } else {
        spec_encode_item(items[0]) + spec_encode_items(items.drop_first())
    }
}

/// The encoding of a whole file: the `total_size` word, the item region,
/// the instruction bytes.
pub open spec fn spec_encode_file(f: SmolFileModel) -> Seq<u8> {
    spec_le_bytes(f.storage.total_size) + spec_encode_items(f.storage.items) + f.instructions
}

/// Encoding distributes over concatenation of item lists.
pub proof fn lemma_encode_items_concat(a: Seq<ItemModel>, b: Seq<ItemModel>)
    ensures
        spec_encode_items(a + b) == spec_encode_items(a) + spec_encode_items(b),
    decreases a.len(),
{
    if a.len() == 0 {
        assert(a + b =~= b);
        assert(spec_encode_items(a) + spec_encode_items(b) =~= spec_encode_items(b));
    } else {
        assert((a + b).drop_first() =~= a.drop_first() + b);
        lemma_encode_items_concat(a.drop_first(), b);
        assert(spec_encode_item((a + b)[0]) + (spec_encode_items(a.drop_first())
            + spec_encode_items(b)) =~= spec_encode_items(a) + spec_encode_items(b));
    }
}

/// The encoded item region occupies exactly [`spec_items_size`] bytes.
pub proof fn lemma_encode_items_len(items: Seq<ItemModel>)
    ensures
        spec_encode_items(items).len() == spec_items_size(items),
    decreases items.len(),
{
    if items.len() != 0 {
        lemma_encode_items_len(items.drop_first());
    }
}

// ---------------------------------------------------------------------------
// Decoding
// ---------------------------------------------------------------------------
/// Decoding of the item region: items are consumed until the region is
/// exhausted. A short header or short init data is a truncation; a size of
/// zero is rejected.
pub open spec fn spec_decode_items(bytes: Seq<u8>) -> Result<Seq<ItemModel>, DecodeError>
    decreases bytes.len(),
{
    if bytes.len() == 0 {
        Ok(Seq::empty())
    } else if bytes.len() < 4 {
        Err(DecodeError::TruncatedItem)
    } else {
        let size_w = spec_le16(bytes[0], bytes[1]);
        let rsize = size_w & 0x7FFF;
        let offset = spec_le16(bytes[2], bytes[3]);
        let has_init = size_w & 0x8000 == 0x8000;
        if rsize == 0 {
            Err(DecodeError::ZeroSizeItem)
        } else if has_init && 4 + rsize > bytes.len() {
            Err(DecodeError::TruncatedItem)
        } else {
            let it = ItemModel {
                size: rsize,
                offset,
                init: if has_init {
                    Some(bytes.subrange(4, 4 + rsize as int))
                } else {
                    None
                },
            };
            let consumed: int = if has_init {
                4 + rsize as int
            } else {
                4
            };
            match spec_decode_items(bytes.subrange(consumed, bytes.len() as int)) {
                Ok(items) => Ok(seq![it] + items),
                Err(e) => Err(e),
            }
        }
    }
}

/// Decoding of the storage header: the `total_size` word, then the items
/// held in the region of exactly that many bytes.
pub open spec fn spec_decode_storage(bytes: Seq<u8>) -> Result<StorageModel, DecodeError> {
    if bytes.len() < 2 {
        Err(DecodeError::TruncatedHeader)
    } else {
        let total = spec_le16(bytes[0], bytes[1]);
        if 2 + total > bytes.len() {
            Err(DecodeError::TruncatedStorage)
        } else {
            match spec_decode_items(bytes.subrange(2, 2 + total as int)) {
                Ok(items) => Ok(StorageModel { total_size: total, items }),
                Err(e) => Err(e),
            }
        }
    }
}

/// Decoding of a whole file: the storage header, then the instruction
/// bytes, which must not be empty.
pub open spec fn spec_decode_file(bytes: Seq<u8>) -> Result<SmolFileModel, DecodeError> {
    match spec_decode_storage(bytes) {
        Ok(storage) => {
            let instructions = bytes.subrange(2 + storage.total_size as int, bytes.len() as int);
            if instructions.len() == 0 {
                Err(DecodeError::EmptyInstructions)
            } else {
                Ok(SmolFileModel { storage, instructions })
            }
        },
        Err(e) => Err(e),
    }
}

// ---------------------------------------------------------------------------
// Round trip
// ---------------------------------------------------------------------------
/// Decoding the encoding of well-formed items yields the items back.
pub proof fn lemma_items_roundtrip(items: Seq<ItemModel>)
    requires
        forall|i: int| 0 <= i < items.len() ==> spec_item_wf(#[trigger] items[i]),
    ensures
        spec_decode_items(spec_encode_items(items)) == Ok::<Seq<ItemModel>, DecodeError>(items),
    decreases items.len(),
{
    if items.len() == 0 {
        assert(spec_encode_items(items) =~= Seq::<u8>::empty());
        assert(spec_decode_items(spec_encode_items(items)) == Ok::<Seq<ItemModel>, DecodeError>(
            Seq::<ItemModel>::empty(),
        ));
        assert(items =~= Seq::<ItemModel>::empty());
    } else {
        let it = items[0];
        let head = spec_encode_item(it);
        let tail = spec_encode_items(items.drop_first());
        let bytes = spec_encode_items(items);
        assert(bytes =~= head + tail);
        let size_w: u16 = if it.init is Some {
            it.size | 0x8000
        } else {
            it.size
        };
        assert(head =~= spec_le_bytes(size_w) + spec_le_bytes(it.offset) + (match it.init {
            Some(d) => d,
            None => Seq::<u8>::empty(),
        }));
        assert(head[0] == size_w as u8);
        assert(head[1] == (size_w >> 8) as u8);
        assert(head[2] == it.offset as u8);
        assert(head[3] == (it.offset >> 8) as u8);
        assert(bytes[0] == size_w as u8);
        assert(bytes[1] == (size_w >> 8) as u8);
        assert(bytes[2] == it.offset as u8);
        assert(bytes[3] == (it.offset >> 8) as u8);
        lemma_le16_roundtrip(size_w);
        lemma_le16_roundtrip(it.offset);
        assert(spec_item_wf(it));
        assert(forall|i: int|
            0 <= i < items.drop_first().len() ==> spec_item_wf(#[trigger] items.drop_first()[i]));
        let s = it.size;
        assert(s <= 0x7FFF ==> ((s | 0x8000) & 0x7FFF == s && (s | 0x8000) & 0x8000 == 0x8000))
            by (bit_vector);
        assert(s <= 0x7FFF ==> (s & 0x7FFF == s && s & 0x8000 == 0)) by (bit_vector);
        match it.init {
            Some(d) => {
                assert(bytes.subrange(4, 4 + it.size as int) =~= d);
                assert(bytes.subrange(4 + it.size as int, bytes.len() as int) =~= tail);
            },
            None => {
                assert(bytes.subrange(4, bytes.len() as int) =~= tail);
            },
        }
        lemma_items_roundtrip(items.drop_first());
        assert(seq![it] + items.drop_first() =~= items);
        assert(spec_le16(bytes[0], bytes[1]) == size_w);
        assert(spec_le16(bytes[2], bytes[3]) == it.offset);
        assert(spec_decode_items(bytes) == Ok::<Seq<ItemModel>, DecodeError>(items));
    }
}

/// Round-trip law: decoding the encoding of any well-formed object file
/// yields the file back, bit for bit.
pub proof fn lemma_file_roundtrip(f: SmolFileModel)
    requires
        spec_file_wf(f),
    ensures
        spec_decode_file(spec_encode_file(f)) == Ok::<SmolFileModel, DecodeError>(f),
{
    let bytes = spec_encode_file(f);
    let total = f.storage.total_size;
    lemma_encode_items_len(f.storage.items);
    lemma_le16_roundtrip(total);
    assert(bytes[0] == total as u8);
    assert(bytes[1] == (total >> 8) as u8);
    assert(bytes.subrange(2, 2 + total as int) =~= spec_encode_items(f.storage.items));
    lemma_items_roundtrip(f.storage.items);
    assert(bytes.subrange(2 + total as int, bytes.len() as int) =~= f.instructions);
    assert(spec_decode_file(spec_encode_file(f)) == Ok::<SmolFileModel, DecodeError>(f));
}

// ---------------------------------------------------------------------------
// Executable codec
// ---------------------------------------------------------------------------
impl Storage {
    /// Parse the storage header at the front of `data`: the `total_size`
    /// word and the item region it delimits.
    #[verifier::loop_isolation(false)]
    pub fn load(data: &[u8]) -> (r: Result<Storage, DecodeError>)
        ensures
            match r {
                Ok(st) => spec_decode_storage(data@) == Ok::<StorageModel, DecodeError>(st@),
                Err(e) => spec_decode_storage(data@) == Err::<StorageModel, DecodeError>(e),
            },
    {
        if data.len() < 2 {
            return Err(DecodeError::TruncatedHeader);
        }
        let total = le16(data[0], data[1]);
        if data.len() < 2 + total as usize {
            return Err(DecodeError::TruncatedStorage);
        }
        let ghost region = data@.subrange(2, 2 + total as int);
        let end: usize = 2 + total as usize;
        let mut pos: usize = 2;
        let mut items: Vec<StorageItem> = Vec::new();
        while pos < end
            invariant
                2 <= pos <= end,
                end == 2 + total,
                end <= data@.len(),
                region == data@.subrange(2, end as int),
                ({
                    let rest = data@.subrange(pos as int, end as int);
                    match spec_decode_items(rest) {
                        Ok(tail) => spec_decode_items(region) == Ok::<Seq<ItemModel>, DecodeError>(
                            Seq::new(items@.len(), |i: int| items@[i]@) + tail,
                        ),
                        Err(e) => spec_decode_items(region) == Err::<Seq<ItemModel>, DecodeError>(
                            e,
                        ),
                    }
                }),
            decreases end - pos,
        {
            let ghost rest = data@.subrange(pos as int, end as int);
            proof {
                assert(rest.len() == end - pos);
                if end - pos >= 4 {
                    assert(rest[0] == data@[pos as int]);
                    assert(rest[1] == data@[pos + 1]);
                    assert(rest[2] == data@[pos + 2]);
                    assert(rest[3] == data@[pos + 3]);
                }
            }
            if end - pos < 4 {
                return Err(DecodeError::TruncatedItem);
            }
            let size_w = le16(data[pos], data[pos + 1]);
            let rsize = size_w & 0x7FFF;
            let offset = le16(data[pos + 2], data[pos + 3]);
            let has_init = size_w & 0x8000 == 0x8000;
            if rsize == 0 {
                return Err(DecodeError::ZeroSizeItem);
            }
            let consumed: usize = if has_init {
                4 + rsize as usize
            } else {
                4
            };
            if has_init && consumed > end - pos {
                return Err(DecodeError::TruncatedItem);
            }
            let init_data: Option<Vec<u8>> = if has_init {
                Some(slice_to_vec(slice_subrange(data, pos + 4, pos + 4 + rsize as usize)))
            } else {
                None
            };
            let item = StorageItem { size: rsize, offset, init_data };
            proof {
                let it = ItemModel {
                    size: rsize,
                    offset,
                    init: if has_init {
                        Some(rest.subrange(4, 4 + rsize as int))
                    } else {
                        None
                    },
                };
                assert(rest[0] == data@[pos as int]);
                assert(rest[1] == data@[pos + 1]);
                assert(rest[2] == data@[pos + 2]);
                assert(rest[3] == data@[pos + 3]);
                if has_init {
                    assert(rest.subrange(4, 4 + rsize as int) =~= data@.subrange(
                        pos + 4,
                        pos + 4 + rsize as int,
                    ));
                }
                assert(item@ == it);
                assert(rest.subrange(consumed as int, rest.len() as int) =~= data@.subrange(
                    pos + consumed,
                    end as int,
                ));
            }
            let ghost old_items = Seq::new(items@.len(), |i: int| items@[i]@);
            items.push(item);
            pos = pos + consumed;
            proof {
                let new_items = Seq::new(items@.len(), |i: int| items@[i]@);
                assert(new_items =~= old_items + seq![item@]);
                let new_rest = data@.subrange(pos as int, end as int);
                match spec_decode_items(new_rest) {
                    Ok(tail) => {
                        assert(old_items + (seq![item@] + tail) =~= new_items + tail);
                    },
                    Err(e) => {},
                }
            }
        }
        proof {
            assert(data@.subrange(pos as int, end as int) =~= Seq::<u8>::empty());
            assert(Seq::new(items@.len(), |i: int| items@[i]@) + Seq::<ItemModel>::empty()
                =~= Seq::new(items@.len(), |i: int| items@[i]@));
        }
        Ok(Storage { total_size: total, items })
    }
}

impl SmolFile {
    /// Serialise this file into its on-disk bytes.
    pub fn encode(&self) -> (r: Vec<u8>)
        ensures
            r@ == spec_encode_file(self@),
    {
        let mut out: Vec<u8> = Vec::new();
        push_le16(&mut out, self.storage.total_size);
        let n = self.storage.items.len();
        let mut i: usize = 0;
        while i < n
            invariant
                i <= n,
                n == self.storage.items@.len(),
                out@ == spec_le_bytes(self.storage.total_size) + spec_encode_items(
                    self@.storage.items.take(i as int),
                ),
            decreases n - i,
        {
            let ghost done = self@.storage.items.take(i as int);
            let item = &self.storage.items[i];
            let size_w: u16 = if item.init_data.is_some() {
                item.size | 0x8000
            } else {
                item.size
            };
            push_le16(&mut out, size_w);
            push_le16(&mut out, item.offset);
            match item.init_data {
                Some(ref d) => {
                    let mut j: usize = 0;
                    let ghost out0 = out@;
                    while j < d.len()
                        invariant
                            j <= d@.len(),
                            out@ == out0 + d@.take(j as int),
                        decreases d@.len() - j,
                    {
                        out.push(d[j]);
                        proof {
                            assert(out0 + d@.take(j + 1) =~= out@);
                        }
                        j = j + 1;
                    }
                    proof {
                        assert(d@.take(d@.len() as int) =~= d@);
                    }
                },
                None => {},
            }
            proof {
                let it = self@.storage.items[i as int];
                lemma_encode_items_concat(done, seq![it]);
                assert(done + seq![it] =~= self@.storage.items.take(i + 1));
                assert((seq![it]).drop_first() =~= Seq::<ItemModel>::empty());
                assert(spec_encode_items(Seq::<ItemModel>::empty()) =~= Seq::<u8>::empty());
                assert(spec_encode_items(seq![it]) =~= spec_encode_item(it));
                assert(out@ =~= spec_le_bytes(self.storage.total_size) + spec_encode_items(
                    self@.storage.items.take(i + 1),
                ));
            }
            i = i + 1;
        }
        let m = self.instructions.len();
        let mut j: usize = 0;
        let ghost out1 = out@;
        while j < m
            invariant
                j <= m,
                m == self.instructions@.len(),
                out@ == out1 + self.instructions@.take(j as int),
            decreases m - j,
        {
            out.push(self.instructions[j]);
            proof {
                assert(out1 + self.instructions@.take(j + 1) =~= out@);
            }
            j = j + 1;
        }
        proof {
            assert(self@.storage.items.take(self@.storage.items.len() as int)
                =~= self@.storage.items);
            assert(self.instructions@.take(m as int) =~= self.instructions@);
            assert(out@ =~= spec_encode_file(self@));
        }
        out
    }

    /// Parse a whole object file from its on-disk bytes.
    pub fn decode(data: &[u8]) -> (r: Result<SmolFile, DecodeError>)
        ensures
            match r {
                Ok(f) => spec_decode_file(data@) == Ok::<SmolFileModel, DecodeError>(f@),
                Err(e) => spec_decode_file(data@) == Err::<SmolFileModel, DecodeError>(e),
            },
    {
        let storage = match Storage::load(data) {
            Ok(st) => st,
            Err(e) => {
                return Err(e);
            },
        };
        let start: usize = 2 + storage.total_size as usize;
        let instructions = slice_to_vec(slice_subrange(data, start, data.len()));
        if instructions.len() == 0 {
            return Err(DecodeError::EmptyInstructions);
        }
        Ok(SmolFile { storage, instructions })
    }
}

/// Append the two little-endian bytes of `x`.
fn push_le16(out: &mut Vec<u8>, x: u16)
    ensures
        final(out)@ == old(out)@ + spec_le_bytes(x),
{
    out.push(x as u8);
    out.push((x >> 8) as u8);
    proof {
        assert(out@ =~= old(out)@ + spec_le_bytes(x));
    }
}

/// Assemble a 16-bit word from two little-endian bytes.
fn le16(lo: u8, hi: u8) -> (r: u16)
    ensures
        r == spec_le16(lo, hi),
{
    (lo as u16) | ((hi as u16) << 8)
}

} // verus!

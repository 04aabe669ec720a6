//! Marshaling of an ordered list of strings as an array of owned native
//! buffers together with its element count.

use crate::codec::{
    can_encode, decode, encode, is_c_string, is_marshalable, lemma_encode_is_c_string,
    spec_encode, DecodeError,
};
use crate::text::texts;
use vstd::prelude::*;
use vstd::utf8::*;

verus! {

/// An array of owned NUL-terminated buffers and the number of its elements.
/// Whoever receives one owns the array and every element, and gives them
/// back through `release`, once.
#[derive(Debug)]
pub struct MarshaledBuffer {
    entries: Vec<Vec<u8>>,
    count: usize,
}

/// The buffers that hold the strings of `list`, in order.
pub open spec fn spec_pack(list: Seq<Seq<char>>) -> Seq<Seq<u8>> {
    Seq::new(list.len(), |i: int| spec_encode(list[i]))
}

/// Every element decodes.
pub open spec fn all_decodable(buffers: Seq<Seq<u8>>) -> bool {
    forall|i: int| 0 <= i < buffers.len() ==> valid_utf8(#[trigger] buffers[i].drop_last())
}

/// The strings that an array of buffers holds, in order.
pub open spec fn spec_unpack(buffers: Seq<Seq<u8>>) -> Result<Seq<Seq<char>>, DecodeError> {
    if all_decodable(buffers) {
        Ok(Seq::new(buffers.len(), |i: int| decode_utf8(buffers[i].drop_last())))
    } else {
        Err(DecodeError::InvalidEncoding)
    }
}

/// Every string of the list can cross the boundary.
pub open spec fn all_marshalable(list: Seq<Seq<char>>) -> bool {
    forall|i: int| 0 <= i < list.len() ==> is_marshalable(#[trigger] list[i])
}

/// The contents of the buffers of an array.
pub open spec fn contents(entries: Seq<Vec<u8>>) -> Seq<Seq<u8>> {
    Seq::new(entries.len(), |i: int| entries[i]@)
}

/// Unpacking what was packed gives the list back.
pub proof fn lemma_unpack_pack(list: Seq<Seq<char>>)
    ensures
        spec_unpack(spec_pack(list)) == Ok::<Seq<Seq<char>>, DecodeError>(list),
{
    let packed = spec_pack(list);
    assert forall|i: int| 0 <= i < packed.len() implies valid_utf8(
        #[trigger] packed[i].drop_last(),
    ) && decode_utf8(packed[i].drop_last()) == list[i] by {
        assert(packed[i].drop_last() =~= encode_utf8(list[i]));
        encode_utf8_valid_utf8(list[i]);
        encode_utf8_decode_utf8(list[i]);
    }
    assert(Seq::new(packed.len(), |i: int| decode_utf8(packed[i].drop_last())) =~= list);
}

/// What was packed from strings that can cross the boundary is an array of
/// NUL-terminated buffers.
pub proof fn lemma_pack_is_terminated(list: Seq<Seq<char>>)
    requires
        all_marshalable(list),
    ensures
        forall|i: int| 0 <= i < list.len() ==> is_c_string(#[trigger] spec_pack(list)[i]),
{
    assert forall|i: int| 0 <= i < list.len() implies is_c_string(
        #[trigger] spec_pack(list)[i],
    ) by {
        lemma_encode_is_c_string(list[i]);
    }
}

impl MarshaledBuffer {
    /// The contents of the element buffers, in order.
    pub closed spec fn view(&self) -> Seq<Seq<u8>> {
        contents(self.entries@)
    }

    /// The count agrees with the array, and every element is NUL-terminated.
    pub closed spec fn wf(&self) -> bool {
        &&& self.count == self.entries@.len()
        &&& forall|i: int| 0 <= i < self.entries@.len() ==> is_c_string(#[trigger] self.entries@[i]@)
    }

    /// The element count that travels with the array.
    pub closed spec fn spec_count(&self) -> int {
        self.count as int
    }

    /// Takes over an array of buffers read at the boundary. Gives `None`
    /// exactly when some element is not NUL-terminated.
    pub fn from_entries(entries: Vec<Vec<u8>>) -> (buffer: Option<MarshaledBuffer>)
        ensures
            buffer is Some <==> forall|i: int|
                0 <= i < entries@.len() ==> is_c_string(#[trigger] entries@[i]@),
            buffer matches Some(b) ==> b.wf() && b@ == contents(entries@),
    {
        let mut i: usize = 0;
        while i < entries.len()
            invariant
                i <= entries.len(),
                forall|j: int| 0 <= j < i ==> is_c_string(#[trigger] entries@[j]@),
            decreases entries.len() - i,
        {
            if !is_terminated(&entries[i]) {
                return None;
            }
            i += 1;
        }
        let count = entries.len();
        Some(MarshaledBuffer { entries, count })
    }

    /// The number of elements.
    pub fn count(&self) -> (n: usize)
        requires
            self.wf(),
        ensures
            n == self@.len(),
            n == self.spec_count(),
    {
        self.count
    }

    /// A copy of the element at `index`.
    pub fn entry(&self, index: usize) -> (bytes: Vec<u8>)
        requires
            self.wf(),
            index < self@.len(),
        ensures
            bytes@ == self@[index as int],
    {
        copy_bytes(&self.entries[index])
    }
}

/// Whether `bytes` is a NUL-terminated buffer.
pub fn is_terminated(bytes: &Vec<u8>) -> (ok: bool)
    ensures
        ok == is_c_string(bytes@),
{
    let n = bytes.len();
    if n == 0 {
        return false;
    }
    if bytes[n - 1] != 0 {
        return false;
    }
    let mut i: usize = 0;
    while i < n - 1
        invariant
            n == bytes@.len(),
            n > 0,
            i <= n - 1,
            forall|j: int| 0 <= j < i ==> bytes@[j] != 0u8,
        decreases n - 1 - i,
    {
        if bytes[i] == 0 {
            return false;
        }
        i += 1;
    }
    true
}

/// A fresh copy of `bytes`.
pub fn copy_bytes(bytes: &Vec<u8>) -> (copy: Vec<u8>)
    ensures
        copy@ == bytes@,
{
    let mut copy: Vec<u8> = Vec::new();
    let mut i: usize = 0;
    while i < bytes.len()
        invariant
            i <= bytes.len(),
            copy@ == bytes@.subrange(0, i as int),
        decreases bytes.len() - i,
    {
        copy.push(bytes[i]);
        proof {
            assert(bytes@.subrange(0, i as int).push(bytes@[i as int]) =~= bytes@.subrange(
                0,
                i as int + 1,
            ));
        }
        i += 1;
    }
    proof {
        assert(bytes@.subrange(0, bytes@.len() as int) =~= bytes@);
    }
    copy
}

/// Whether every string of `list` can cross the boundary.
pub fn can_pack(list: &Vec<String>) -> (ok: bool)
    ensures
        ok == all_marshalable(texts(list@)),
{
    let mut i: usize = 0;
    while i < list.len()
        invariant
            i <= list.len(),
            forall|j: int| 0 <= j < i ==> is_marshalable(#[trigger] texts(list@)[j]),
        decreases list.len() - i,
    {
        if !can_encode(list[i].as_str()) {
            proof {
                assert(texts(list@)[i as int] == list@[i as int]@);
            }
            return false;
        }
        proof {
            assert(texts(list@)[i as int] == list@[i as int]@);
        }
        i += 1;
    }
    true
}

/// Encodes every string of `list` into a buffer of its own and collects the
/// buffers, in order, into an array. The array and its elements pass to the
/// receiver.
pub fn pack(list: &Vec<String>) -> (buffer: MarshaledBuffer)
    requires
        all_marshalable(texts(list@)),
    ensures
        buffer.wf(),
        buffer@ == spec_pack(texts(list@)),
        buffer.spec_count() == list@.len(),
{
    let mut entries: Vec<Vec<u8>> = Vec::new();
    let mut i: usize = 0;
    while i < list.len()
        invariant
            i <= list.len(),
            all_marshalable(texts(list@)),
            entries@.len() == i,
            forall|j: int| 0 <= j < i ==> #[trigger] entries@[j]@ == spec_encode(list@[j]@),
            forall|j: int| 0 <= j < i ==> is_c_string(#[trigger] entries@[j]@),
        decreases list.len() - i,
    {
        proof {
            assert(texts(list@)[i as int] == list@[i as int]@);
        }
        let bytes = encode(list[i].as_str());
        entries.push(bytes);
        i += 1;
    }
    let count = entries.len();
    let buffer = MarshaledBuffer { entries, count };
    proof {
        assert(buffer@ =~= spec_pack(texts(list@)));
    }
    buffer
}

/// Reads the elements of the array and decodes each, in order. The array is
/// left as it is: giving it back is `release`. Fails with `InvalidEncoding`
/// exactly when some element is not valid UTF-8.
pub fn unpack(buffer: &MarshaledBuffer) -> (list: Result<Vec<String>, DecodeError>)
    requires
        buffer.wf(),
    ensures
        list is Ok <==> all_decodable(buffer@),
        list matches Ok(v) ==> spec_unpack(buffer@) == Ok::<Seq<Seq<char>>, DecodeError>(
            texts(v@),
        ),
        list matches Err(e) ==> spec_unpack(buffer@) == Err::<Seq<Seq<char>>, DecodeError>(e),
{
    let mut out: Vec<String> = Vec::new();
    let mut i: usize = 0;
    while i < buffer.entries.len()
        invariant
            buffer.wf(),
            i <= buffer.entries@.len(),
            out@.len() == i,
            forall|j: int| 0 <= j < i ==> valid_utf8(#[trigger] buffer@[j].drop_last()),
            forall|j: int|
                0 <= j < i ==> #[trigger] out@[j]@ == decode_utf8(buffer@[j].drop_last()),
        decreases buffer.entries@.len() - i,
    {
        let bytes = copy_bytes(&buffer.entries[i]);
        proof {
            assert(buffer@[i as int] == buffer.entries@[i as int]@);
        }
        match decode(bytes) {
            Ok(s) => {
                out.push(s);
            },
            Err(e) => {
                return Err(e);
            },
        }
        i += 1;
    }
    proof {
        assert(texts(out@) =~= Seq::new(
            buffer@.len(),
            |k: int| decode_utf8(buffer@[k].drop_last()),
        ));
    }
    Ok(out)
}

/// Gives the array and every element back, and says how many elements went.
///
/// Every array is released once. The array is consumed here, so it cannot
/// be released again; and releasing what is not a well-formed array, as
/// `pack` makes it and `from_entries` admits it, breaks the precondition:
/// nothing is promised of such a call.
pub fn release(buffer: MarshaledBuffer) -> (released: usize)
    requires
        buffer.wf(),
    ensures
        released == buffer@.len(),
{
    let MarshaledBuffer { entries, count } = buffer;
    let mut entries = entries;
    let mut released: usize = 0;
    while entries.len() > 0
        invariant
            released + entries@.len() == count,
        decreases entries@.len(),
    {
        let _ = entries.pop();
        released += 1;
    }
    released
}

} // verus!

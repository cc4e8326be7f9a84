//! The envelope that a stored file travels in: eight bytes that give the
//! length of the file name as a big-endian number, the file name in UTF-8,
//! and then the content, untouched.

use crate::error::{CorruptionError, PilviError};
use vstd::prelude::*;
use vstd::string::StringExecFns;
use vstd::utf8::{
    decode_utf8, encode_utf8, encode_utf8_decode_utf8, encode_utf8_valid_utf8, valid_utf8,
};

verus! {

/// The number of bytes of the length prefix.
pub const PREFIX_LENGTH: usize = 8;

/// The number that a byte string spells, most significant byte first.
pub open spec fn be_value(bytes: Seq<u8>) -> nat
    decreases bytes.len(),
{
    if bytes.len() == 0 {
        0
    } else {
        256 * be_value(bytes.drop_last()) + bytes.last() as nat
    }
}

/// The `count` bytes that spell `n` modulo `256^count`, most significant
/// byte first.
pub open spec fn be_digits(n: nat, count: nat) -> Seq<u8>
    decreases count,
{
    if count == 0 {
        Seq::empty()
    } else {
        be_digits(n / 256, (count - 1) as nat).push((n % 256) as u8)
    }
}

/// The eight bytes that spell `n`, most significant byte first.
pub open spec fn be_bytes(n: u64) -> Seq<u8> {
    be_digits(n as nat, 8)
}

/// 256 to the power of `k`.
pub open spec fn pow256(k: nat) -> nat
    decreases k,
{
    if k == 0 {
        1
    } else {
        256 * pow256((k - 1) as nat)
    }
}

/// A byte string of length `k` spells a number below `256^k`.
pub proof fn lemma_be_value_bound(bytes: Seq<u8>)
    ensures
        be_value(bytes) < pow256(bytes.len()),
    decreases bytes.len(),
{
    if bytes.len() > 0 {
        lemma_be_value_bound(bytes.drop_last());
    }
}

/// Writing out the number that a byte string spells gives the string back.
pub proof fn lemma_digits_of_value(bytes: Seq<u8>)
    ensures
        be_digits(be_value(bytes), bytes.len()) == bytes,
    decreases bytes.len(),
{
    if bytes.len() > 0 {
        let front = bytes.drop_last();
        lemma_digits_of_value(front);
        let v = be_value(bytes);
        assert(v / 256 == be_value(front));
        assert(v % 256 == bytes.last());
        assert(be_digits(v, bytes.len()) =~= bytes);
    } else {
        assert(be_digits(be_value(bytes), 0) =~= bytes);
    }
}

/// The `count` bytes written for `n` spell `n`, if `n` is below `256^count`.
pub proof fn lemma_value_of_digits(n: nat, count: nat)
    requires
        n < pow256(count),
    ensures
        be_digits(n, count).len() == count,
        be_value(be_digits(n, count)) == n,
    decreases count,
{
    if count > 0 {
        lemma_value_of_digits(n / 256, (count - 1) as nat);
        let digits = be_digits(n, count);
        assert(digits.drop_last() =~= be_digits(n / 256, (count - 1) as nat));
    }
}

/// `256^8` is one more than the largest 64-bit number.
pub proof fn lemma_pow256_eight()
    ensures
        pow256(8) == 0x1_0000_0000_0000_0000,
{
    reveal_with_fuel(pow256, 9);
}

/// Eight bytes spell a number that fits in 64 bits, and writing that number
/// out gives the same eight bytes back.
pub proof fn lemma_be_bytes_of_value(bytes: Seq<u8>)
    requires
        bytes.len() == 8,
    ensures
        be_value(bytes) <= u64::MAX,
        be_bytes(be_value(bytes) as u64) == bytes,
{
    lemma_be_value_bound(bytes);
    lemma_pow256_eight();
    lemma_digits_of_value(bytes);
}

/// The number spelled by the eight bytes of `n` is `n`.
pub proof fn lemma_be_value_of_bytes(n: u64)
    ensures
        be_bytes(n).len() == 8,
        be_value(be_bytes(n)) == n,
{
    lemma_pow256_eight();
    lemma_value_of_digits(n as nat, 8);
}

/// Writes `n` as eight bytes, most significant first.
pub fn length_prefix(n: u64) -> (bytes: Vec<u8>)
    ensures
        bytes@ == be_bytes(n),
{
    let mut bytes: Vec<u8> = vec![0, 0, 0, 0, 0, 0, 0, 0];
    let mut rest = n;
    let mut i: usize = 8;
    assert(be_bytes(n) =~= be_digits(rest as nat, 8) + bytes@.subrange(8, 8));
    while i > 0
        invariant
            i <= 8,
            bytes@.len() == 8,
            be_bytes(n) == be_digits(rest as nat, i as nat) + bytes@.subrange(i as int, 8),
        decreases i,
    {
        let ghost before = bytes@;
        i = i - 1;
        bytes.set(i, (rest % 256) as u8);
        proof {
            assert(be_digits(rest as nat, (i + 1) as nat) == be_digits(
                (rest / 256) as nat,
                i as nat,
            ).push((rest % 256) as u8));
            assert(bytes@.subrange(i as int, 8) =~= seq![(rest % 256) as u8] + before.subrange(
                i + 1,
                8,
            ));
            assert(be_bytes(n) =~= be_digits((rest / 256) as nat, i as nat) + bytes@.subrange(
                i as int,
                8,
            ));
        }
        rest = rest / 256;
    }
    assert(be_bytes(n) =~= bytes@);
    bytes
}

/// Reads the number that the first eight bytes of `bytes` spell; none where
/// there are fewer than eight.
pub fn read_length(bytes: &[u8]) -> (length: Option<u64>)
    ensures
        length == if bytes@.len() >= 8 {
            Some(be_value(bytes@.subrange(0, 8)) as u64)
        } else {
            None
        },
        bytes@.len() >= 8 ==> be_value(bytes@.subrange(0, 8)) <= u64::MAX,
{
    if bytes.len() < PREFIX_LENGTH {
        return None;
    }
    let mut n: u64 = 0;
    let mut i: usize = 0;
    assert(bytes@.subrange(0, 0) =~= Seq::<u8>::empty());
    while i < 8
        invariant
            i <= 8,
            bytes@.len() >= 8,
            n == be_value(bytes@.subrange(0, i as int)),
        decreases 8 - i,
    {
        proof {
            let next = bytes@.subrange(0, i + 1);
            assert(next.drop_last() =~= bytes@.subrange(0, i as int));
            assert(next.last() == bytes@[i as int]);
            lemma_be_value_bound(bytes@.subrange(0, i as int));
            lemma_pow256_bound(i as nat);
        }
        n = n * 256 + bytes[i] as u64;
        i = i + 1;
    }
    Some(n)
}

proof fn lemma_pow256_bound(k: nat)
    ensures
        k <= 7 ==> pow256(k) <= 0x100_0000_0000_0000,
{
    reveal_with_fuel(pow256, 9);
}

/// The header of the envelope of a file called `file_name`: the length of
/// the name in bytes, then the name.
pub open spec fn header(file_name: Seq<char>) -> Seq<u8> {
    be_bytes(encode_utf8(file_name).len() as u64) + encode_utf8(file_name)
}

/// The envelope of a file: its header, then its content.
pub open spec fn envelope(file_name: Seq<char>, content: Seq<u8>) -> Seq<u8> {
    header(file_name) + content
}

/// The bytes of a stream of chunks, in order.
pub open spec fn joined(chunks: Seq<Vec<u8>>) -> Seq<u8>
    decreases chunks.len(),
{
    if chunks.len() == 0 {
        Seq::empty()
    } else {
        joined(chunks.drop_last()) + chunks.last()@
    }
}

/// What a byte string holds when it is read as the start of an envelope.
pub enum Parsed {
    /// The header is not complete: more bytes are needed.
    Incomplete,
    /// The header is complete, and the file name is not valid UTF-8.
    Corrupted,
    /// The header is complete; the file name and the content that follows it.
    Header { file_name: Seq<char>, content: Seq<u8> },
}

/// Reads `bytes` as the start of an envelope.
pub open spec fn parse(bytes: Seq<u8>) -> Parsed {
    if bytes.len() < 8 {
        Parsed::Incomplete
    } else {
        let length = be_value(bytes.subrange(0, 8)) as int;
        if bytes.len() < 8 + length {
            Parsed::Incomplete
        } else {
            let name = bytes.subrange(8, 8 + length);
            if valid_utf8(name) {
                Parsed::Header {
                    file_name: decode_utf8(name),
                    content: bytes.subrange(8 + length, bytes.len() as int),
                }
            } else {
                Parsed::Corrupted
            }
        }
    }
}

/// Reading an envelope gives back the file name and the content that it was
/// made of, for every file name whose length fits the prefix.
pub proof fn lemma_round_trip(file_name: Seq<char>, content: Seq<u8>)
    requires
        encode_utf8(file_name).len() <= u64::MAX,
    ensures
        parse(envelope(file_name, content)) == (Parsed::Header { file_name, content }),
{
    let name = encode_utf8(file_name);
    let size = name.len() as int;
    let bytes = envelope(file_name, content);
    lemma_be_value_of_bytes(name.len() as u64);
    assert(bytes.subrange(0, 8) =~= be_bytes(name.len() as u64));
    assert(bytes.subrange(8, 8 + size) =~= name);
    assert(bytes.subrange(8 + size, bytes.len() as int) =~= content);
    encode_utf8_valid_utf8(file_name);
    encode_utf8_decode_utf8(file_name);
}

/// A stream that is cut into chunks differently holds the same bytes, and so
/// is read alike: the envelope of a file gives the file back however the
/// chunks fall.
pub proof fn lemma_round_trip_chunked(
    file_name: Seq<char>,
    content: Seq<u8>,
    chunks: Seq<Vec<u8>>,
)
    requires
        encode_utf8(file_name).len() <= u64::MAX,
        joined(chunks) == envelope(file_name, content),
    ensures
        parse(joined(chunks)) == (Parsed::Header { file_name, content }),
{
    lemma_round_trip(file_name, content);
}

/// Two streams that hold the same bytes are read alike, so reading a stored
/// envelope again gives the same file name and content.
pub proof fn lemma_reads_agree(first: Seq<Vec<u8>>, second: Seq<Vec<u8>>)
    requires
        joined(first) == joined(second),
    ensures
        parse(joined(first)) == parse(joined(second)),
{
}

/// A complete header fixes what is read: bytes that follow belong to the
/// content.
pub proof fn lemma_parse_extends(bytes: Seq<u8>, more: Seq<u8>)
    requires
        !(parse(bytes) is Incomplete),
    ensures
        match parse(bytes) {
            Parsed::Header { file_name, content } => parse(bytes + more) == (Parsed::Header {
                file_name,
                content: content + more,
            }),
            _ => parse(bytes + more) == parse(bytes),
        },
{
    let all = bytes + more;
    assert(all.subrange(0, 8) =~= bytes.subrange(0, 8));
    let length = be_value(bytes.subrange(0, 8)) as int;
    assert(all.subrange(8, 8 + length) =~= bytes.subrange(8, 8 + length));
    assert(all.subrange(8 + length, all.len() as int) =~= bytes.subrange(
        8 + length,
        bytes.len() as int,
    ) + more);
}

/// Hands `bytes` to `String::from_utf8`. The standard library accepts
/// exactly the byte strings that are valid UTF-8, and the string that it
/// returns is made of the bytes it was given.
#[verifier::external_body]
fn string_from_utf8(bytes: Vec<u8>) -> (text: Option<String>)
    ensures
        text is Some <==> valid_utf8(bytes@),
        text matches Some(s) ==> encode_utf8(s@) == bytes@,
{
    String::from_utf8(bytes).ok()
}

/// Appends `chunk` to `buffer`.
fn append_bytes(buffer: &mut Vec<u8>, chunk: &[u8])
    ensures
        final(buffer)@ == old(buffer)@ + chunk@,
{
    let mut i: usize = 0;
    while i < chunk.len()
        invariant
            i <= chunk@.len(),
            buffer@ == old(buffer)@ + chunk@.subrange(0, i as int),
        decreases chunk@.len() - i,
    {
        buffer.push(chunk[i]);
        i = i + 1;
        assert(buffer@ =~= old(buffer)@ + chunk@.subrange(0, i as int));
    }
    assert(chunk@.subrange(0, i as int) =~= chunk@);
}

/// Writes the header of the envelope of a file called `file_name`.
pub fn encode_header(file_name: &str) -> (bytes: Vec<u8>)
    ensures
        bytes@ == header(file_name@),
{
    let name = file_name.as_bytes();
    let mut bytes = length_prefix(name.len() as u64);
    append_bytes(&mut bytes, name);
    bytes
}

/// Puts a file into its envelope: the length prefix, the file name, and then
/// each chunk of `content`, unchanged and in order.
pub fn encode(file_name: &str, content: Vec<Vec<u8>>) -> (stream: Vec<Vec<u8>>)
    ensures
        stream@.len() == content@.len() + 2,
        stream@[0]@ == be_bytes(encode_utf8(file_name@).len() as u64),
        stream@[1]@ == encode_utf8(file_name@),
        stream@.subrange(2, stream@.len() as int) == content@,
        joined(stream@) == envelope(file_name@, joined(content@)),
{
    let name = file_name.as_bytes();
    let prefix = length_prefix(name.len() as u64);
    let mut stream: Vec<Vec<u8>> = Vec::new();
    stream.push(prefix);
    stream.push(vstd::slice::slice_to_vec(name));
    let mut content = content;
    let ghost chunks = content@;
    stream.append(&mut content);
    proof {
        let head = stream@.subrange(0, 2);
        assert(stream@ =~= head + chunks);
        assert(stream@.subrange(2, stream@.len() as int) =~= chunks);
        lemma_joined_concat(head, chunks);
        assert(head.drop_last().drop_last() =~= Seq::<Vec<u8>>::empty());
        assert(joined(head.drop_last()) =~= head[0]@) by {
            assert(joined(head.drop_last().drop_last()) =~= Seq::<u8>::empty());
        }
        assert(joined(head) =~= header(file_name@));
    }
    stream
}

/// The bytes of two streams, one after the other, are the bytes of the first
/// followed by those of the second.
pub proof fn lemma_joined_concat(first: Seq<Vec<u8>>, second: Seq<Vec<u8>>)
    ensures
        joined(first + second) == joined(first) + joined(second),
    decreases second.len(),
{
    if second.len() == 0 {
        assert(first + second =~= first);
        assert(joined(first) + joined(second) =~= joined(first));
    } else {
        lemma_joined_concat(first, second.drop_last());
        assert((first + second).drop_last() =~= first + second.drop_last());
        assert(joined(first + second) =~= joined(first) + joined(second));
    }
}

/// The start of an envelope, as far as it has been received: fewer bytes
/// than its header needs.
pub struct HeaderDecoder {
    buffer: Vec<u8>,
}

/// What a decoder has become after one more chunk.
pub enum Fed {
    /// The header is still incomplete: the decoder, which holds the chunk.
    Pending(HeaderDecoder),
    /// The header is complete: the file name, and the bytes of the chunks so
    /// far that follow the header. They are the start of the content.
    Header { file_name: String, head: Vec<u8> },
    /// The header is complete and the file name is not valid UTF-8.
    Corrupted,
}

impl HeaderDecoder {
    #[verifier::type_invariant]
    spec fn incomplete(&self) -> bool {
        parse(self.buffer@) is Incomplete
    }

    /// The bytes received so far.
    pub closed spec fn view(&self) -> Seq<u8> {
        self.buffer@
    }

    /// A decoder that has received nothing.
    pub fn new() -> (decoder: HeaderDecoder)
        ensures
            decoder@ == Seq::<u8>::empty(),
    {
        HeaderDecoder { buffer: Vec::new() }
    }

    /// Takes the next chunk of the stream, however the stream was cut. What
    /// comes back depends only on the bytes received so far, this chunk
    /// included.
    pub fn feed(self, chunk: &[u8]) -> (fed: Fed)
        ensures
            match parse(self@ + chunk@) {
                Parsed::Incomplete => fed matches Fed::Pending(decoder) && decoder@ == self@
                    + chunk@,
                Parsed::Corrupted => fed is Corrupted,
                Parsed::Header { file_name, content } => fed matches Fed::Header {
                    file_name: name,
                    head,
                } && name@ == file_name && head@ == content,
            },
    {
        let ghost all = self@ + chunk@;
        let mut buffer = self.buffer;
        append_bytes(&mut buffer, chunk);
        let length = match read_length(buffer.as_slice()) {
            Some(length) => length,
            None => {
                return Fed::Pending(HeaderDecoder { buffer });
            },
        };
        if ((buffer.len() - PREFIX_LENGTH) as u64) < length {
            return Fed::Pending(HeaderDecoder { buffer });
        }
        let head = buffer.split_off(PREFIX_LENGTH + length as usize);
        let name = buffer.split_off(PREFIX_LENGTH);
        assert(name@ =~= all.subrange(8, 8 + length));
        let ghost name_bytes = name@;
        match string_from_utf8(name) {
            Some(file_name) => {
                proof {
                    encode_utf8_decode_utf8(file_name@);
                }
                Fed::Header { file_name, head }
            },
            None => Fed::Corrupted,
        }
    }

    /// The stream has ended before the header was complete: the failure to
    /// report.
    pub fn end(self) -> (error: PilviError)
        ensures
            error is ContentRead,
            parse(self@) is Incomplete,
    {
        proof {
            use_type_invariant(&self);
        }
        PilviError::ContentRead(String::from_str("the stream ended inside the header"))
    }
}

/// Takes a whole stream out of its envelope: the file name, and the content
/// as the chunks that follow the header. The bytes that arrived in one chunk
/// with the end of the header come first. However the stream was cut, the
/// result depends on its bytes alone.
pub fn decode(stream: Vec<Vec<u8>>) -> (file: Result<(String, Vec<Vec<u8>>), PilviError>)
    ensures
        match parse(joined(stream@)) {
            Parsed::Incomplete => file matches Err(PilviError::ContentRead(_)),
            Parsed::Corrupted => file matches Err(
                PilviError::FileCorrupted(CorruptionError::FileName),
            ),
            Parsed::Header { file_name, content } => file matches Ok((name, chunks)) && name@
                == file_name && joined(chunks@) == content,
        },
{
    let ghost whole = stream@;
    let mut rest = stream;
    let mut decoder = HeaderDecoder::new();
    let mut i: usize = 0;
    assert(joined(stream@.subrange(0, 0)) =~= Seq::<u8>::empty());
    while i < rest.len()
        invariant
            i <= rest@.len(),
            rest@ == whole,
            whole == stream@,
            decoder@ == joined(whole.subrange(0, i as int)),
        decreases rest@.len() - i,
    {
        let ghost before = whole.subrange(0, i as int);
        let ghost upto = whole.subrange(0, i + 1);
        let ghost after = whole.subrange(i + 1, whole.len() as int);
        proof {
            assert(upto.drop_last() =~= before);
            assert(upto + after =~= whole);
            lemma_joined_concat(upto, after);
        }
        match decoder.feed(rest[i].as_slice()) {
            Fed::Pending(next) => {
                decoder = next;
            },
            Fed::Header { file_name, head } => {
                let mut tail = rest.split_off(i + 1);
                let mut chunks: Vec<Vec<u8>> = Vec::new();
                chunks.push(head);
                chunks.append(&mut tail);
                proof {
                    lemma_parse_extends(joined(upto), joined(after));
                    let first = chunks@.subrange(0, 1);
                    assert(chunks@ =~= first + after);
                    lemma_joined_concat(first, after);
                    assert(first.drop_last() =~= Seq::<Vec<u8>>::empty());
                    assert(joined(first.drop_last()) =~= Seq::<u8>::empty());
                    assert(first.last() == head);
                    assert(joined(first) =~= head@);
                }
                return Ok((file_name, chunks));
            },
            Fed::Corrupted => {
                proof {
                    lemma_parse_extends(joined(upto), joined(after));
                }
                return Err(PilviError::FileCorrupted(CorruptionError::FileName));
            },
        }
        i = i + 1;
    }
    proof {
        assert(whole.subrange(0, i as int) =~= whole);
    }
    Err(decoder.end())
}

/// The length of an envelope whose content has `content_length` bytes and
/// whose file name has `name_length`: absent where the content's length is
/// unknown, or where the sum does not fit in 64 bits.
pub open spec fn spec_framed_length(content_length: Option<u64>, name_length: nat) -> Option<u64> {
    match content_length {
        Some(length) if length + name_length + 8 <= u64::MAX => Some(
            (length + name_length + 8) as u64,
        ),
        _ => None,
    }
}

/// The total number of bytes to announce to a store that is about to take
/// the envelope of a file called `file_name`.
pub fn framed_length(content_length: Option<u64>, file_name: &str) -> (total: Option<u64>)
    ensures
        total == spec_framed_length(content_length, encode_utf8(file_name@).len()),
{
    match content_length {
        Some(length) => {
            let name_length = file_name.as_bytes().len() as u64;
            match length.checked_add(name_length) {
                Some(sum) => sum.checked_add(PREFIX_LENGTH as u64),
                None => None,
            }
        },
        None => None,
    }
}

/// The length of the content of an envelope of `total` bytes whose file name
/// has `name_length` bytes: absent where the total is unknown or too small
/// to hold the header.
pub open spec fn spec_content_length(total: Option<u64>, name_length: u64) -> Option<u64> {
    match total {
        Some(size) if size >= name_length + 8 => Some((size - name_length - 8) as u64),
        _ => None,
    }
}

/// The number of content bytes that follow the header, from the size of the
/// whole envelope.
pub fn content_length(total: Option<u64>, name_length: u64) -> (length: Option<u64>)
    ensures
        length == spec_content_length(total, name_length),
{
    match total {
        Some(size) => match size.checked_sub(name_length) {
            Some(rest) => rest.checked_sub(PREFIX_LENGTH as u64),
            None => None,
        },
        None => None,
    }
}

/// An envelope of known length has a content of the length it was made
/// from.
pub proof fn lemma_lengths_agree(content_length: u64, name_length: u64)
    requires
        content_length + name_length + 8 <= u64::MAX,
    ensures
        spec_content_length(spec_framed_length(Some(content_length), name_length as nat), name_length)
            == Some(content_length),
{
}

} // verus!

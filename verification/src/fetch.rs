use crate::address::ContentAddress;
use crate::error::ErrorKind;
use crate::loader::{check_payload, check_prefix, payload_verdict};
use vstd::prelude::*;

verus! {

/// Number of bytes of the length prefix that opens a stream.
pub const PREFIX_LEN: usize = 8;

/// The number that `bytes` spell, most significant byte first.
pub open spec fn be_value(bytes: Seq<u8>) -> nat
    decreases bytes.len(),
{
    if bytes.len() == 0 {
        0
    } else {
        be_value(bytes.drop_last()) * 256 + bytes.last() as nat
    }
}

/// The number of values that `n` bytes can spell.
spec fn span(n: nat) -> nat
    decreases n,
{
    if n == 0 {
        1
    } else {
        256 * span((n - 1) as nat)
    }
}

proof fn lemma_be_value_below_span(bytes: Seq<u8>)
    ensures
        be_value(bytes) < span(bytes.len()),
    decreases bytes.len(),
{
    if bytes.len() > 0 {
        lemma_be_value_below_span(bytes.drop_last());
    }
}

proof fn lemma_span_of_prefix(n: nat)
    requires
        n <= 8,
    ensures
        span(n) <= 0x1_0000_0000_0000_0000,
{
    assert(span(0) == 1);
    assert(span(1) == 0x100);
    assert(span(2) == 0x1_0000);
    assert(span(3) == 0x100_0000);
    assert(span(4) == 0x1_0000_0000);
    assert(span(5) == 0x100_0000_0000);
    assert(span(6) == 0x1_0000_0000_0000);
    assert(span(7) == 0x100_0000_0000_0000);
    assert(span(8) == 0x1_0000_0000_0000_0000);
}

/// Reads the length prefix at the head of `stream`: its first eight bytes,
/// most significant first. `None` if the stream is shorter than that.
pub fn read_prefix(stream: &[u8]) -> (r: Option<u64>)
    ensures
        stream@.len() < 8 ==> r.is_none(),
        stream@.len() >= 8 ==> r == Some(be_value(stream@.take(8)) as u64) && be_value(
            stream@.take(8),
        ) <= u64::MAX,
{
    if stream.len() < PREFIX_LEN {
        return None;
    }
    let mut value: u64 = 0;
    let mut i: usize = 0;
    while i < PREFIX_LEN
        invariant
            i <= 8,
            stream@.len() >= 8,
            value == be_value(stream@.take(i as int)),
        decreases 8 - i,
    {
        proof {
            let head = stream@.take(i + 1);
            assert(head.drop_last() =~= stream@.take(i as int));
            assert(head.last() == stream@[i as int]);
            lemma_be_value_below_span(head);
            lemma_span_of_prefix((i + 1) as nat);
        }
        value = value * 256 + stream[i] as u64;
        i += 1;
    }
    Some(value)
}

/// What a whole stream yields for `address`: the bytes after the prefix,
/// if the prefix and their number both agree with the declared length.
pub open spec fn unframed(address: ContentAddress, stream: Seq<u8>) -> Result<Seq<u8>, ErrorKind> {
    if stream.len() < 8 {
        Err(ErrorKind::Transport)
    } else if be_value(stream.take(8)) != address.len as nat {
        Err(ErrorKind::Integrity)
    } else {
        match payload_verdict(address, (stream.len() - 8) as nat) {
            Some(kind) => Err(kind),
            None => Ok(stream.skip(8)),
        }
    }
}

/// Takes the model's bytes out of a stream that was read to its end.
pub fn unframe(address: &ContentAddress, stream: &[u8]) -> (r: Result<Vec<u8>, ErrorKind>)
    ensures
        match unframed(*address, stream@) {
            Ok(bytes) => r.is_ok() && r.unwrap()@ == bytes && bytes.len() == address.len,
            Err(kind) => r == Err::<Vec<u8>, ErrorKind>(kind),
        },
{
    let prefix = match read_prefix(stream) {
        Some(prefix) => prefix,
        None => {
            return Err(ErrorKind::Transport);
        },
    };
    match check_prefix(address, prefix) {
        Ok(_) => {},
        Err(kind) => {
            return Err(kind);
        },
    }
    match check_payload(address, stream.len() - PREFIX_LEN) {
        Ok(_) => {},
        Err(kind) => {
            return Err(kind);
        },
    }
    let mut bytes: Vec<u8> = Vec::new();
    let mut i: usize = PREFIX_LEN;
    while i < stream.len()
        invariant
            8 <= i <= stream@.len(),
            bytes@ == stream@.subrange(8, i as int),
        decreases stream@.len() - i,
    {
        bytes.push(stream[i]);
        assert(bytes@ =~= stream@.subrange(8, i + 1));
        i += 1;
    }
    assert(bytes@ =~= stream@.skip(8));
    Ok(bytes)
}

} // verus!

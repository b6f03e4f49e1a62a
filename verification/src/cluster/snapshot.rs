//! Snapshots of the state machine: their ids, which files are kept, and the format in which
//! the rows of each keyspace are written.
//!
//! A snapshot file starts with the magic bytes `COYOTE01`, followed by a zip archive that
//! holds a manifest and, per keyspace, chunk files of sorted rows. Each row of a chunk is
//! `[key length: u16 BE] [value length: u32 BE] [key] [value]`.
use vstd::prelude::*;
use vstd::string::*;

use crate::text::{chars_of, decimal, lemma_decimal_digits, parse_unsigned, parse_unsigned_bounded, u64_to_decimal, is_digit, all_digits};

verus! {

fn lit(s: &str) -> (r: String)
    ensures
        r@ == s@,
{
    String::from_str(s)
}

/// The text after the last `-` of an id (all of it where there is none).
pub open spec fn last_segment(s: Seq<char>) -> Seq<char>
    decreases s.len(),
{
    if s.len() == 0 {
        s
    } else if s.last() == '-' {
        Seq::empty()
    } else {
        last_segment(s.drop_last()).push(s.last())
    }
}

/// The id of a snapshot: the leader and index of the last log entry it holds, then the
/// snapshot counter; `x-x-<counter>` where it holds none.
pub open spec fn snapshot_id_spec(last: Option<(Seq<char>, u64)>, idx: u64) -> Seq<char> {
    match last {
        Some((leader, index)) => leader + "-"@ + decimal(index as nat) + "-"@ + decimal(idx as nat),
        None => "x-x-"@ + decimal(idx as nat),
    }
}

pub fn snapshot_id(last: Option<(&str, u64)>, idx: u64) -> (id: String)
    ensures
        id@ == snapshot_id_spec(
            match last {
                Some((l, i)) => Some((l@, i)),
                None => None,
            },
            idx,
        ),
{
    let n = u64_to_decimal(idx);
    match last {
        Some((leader, index)) => {
            let i = u64_to_decimal(index);
            lit(leader).concat("-").concat(i.as_str()).concat("-").concat(n.as_str())
        },
        None => lit("x-x-").concat(n.as_str()),
    }
}

/// The file a snapshot is kept in: `coyote-<id>` in the snapshot directory.
pub fn snapshot_file_name(id: &str) -> (r: String)
    ensures
        r@ == "coyote-"@ + id@,
{
    lit("coyote-").concat(id)
}

/// A received snapshot is moved into place once; a snapshot already in place cannot be.
pub fn check_persistable(is_final: bool) -> (r: Result<(), &'static str>)
    ensures
        is_final ==> (r matches Err(m) && m@ == "cannot persist a final snapshot"@),
        !is_final ==> r is Ok,
{
    if is_final {
        Err("cannot persist a final snapshot")
    } else {
        Ok(())
    }
}

/// Why the counter of a snapshot id could not be read.
#[derive(Clone, Copy, Debug, PartialEq, Eq, Structural)]
pub enum SnapshotIdError {
    /// The text after the last `-` is not an unsigned 64-bit number.
    NotANumber,
}

/// The snapshot counter that an id ends with.
pub open spec fn snapshot_idx_spec(id: Seq<char>) -> Result<u64, SnapshotIdError> {
    match parse_unsigned(last_segment(id), u64::MAX as nat) {
        Some(v) => Ok(v as u64),
        None => Err(SnapshotIdError::NotANumber),
    }
}

#[verifier::spinoff_prover]
pub fn snapshot_idx(id: &str) -> (r: Result<u64, SnapshotIdError>)
    ensures
        r == snapshot_idx_spec(id@),
{
    let cs = chars_of(id);
    let mut start: usize = cs.len();
    assert(cs@.subrange(0, cs@.len() as int) =~= cs@);
    assert(last_segment(cs@) + cs@.subrange(cs@.len() as int, cs@.len() as int) =~= last_segment(cs@));
    while start > 0 && cs[start - 1] != '-'
        invariant
            start <= cs@.len(),
            last_segment(cs@) == last_segment(cs@.subrange(0, start as int)) + cs@.subrange(start as int, cs@.len() as int),
        decreases start,
    {
        let ghost pre = cs@.subrange(0, start as int);
        assert(pre.drop_last() =~= cs@.subrange(0, start - 1));
        assert(last_segment(pre) == last_segment(cs@.subrange(0, start - 1)).push(cs@[start - 1]));
        assert(cs@.subrange(start - 1, cs@.len() as int) =~= seq![cs@[start - 1]] + cs@.subrange(start as int, cs@.len() as int));
        assert(last_segment(cs@.subrange(0, start - 1)).push(cs@[start - 1]) + cs@.subrange(start as int, cs@.len() as int)
            =~= last_segment(cs@.subrange(0, start - 1)) + cs@.subrange(start - 1, cs@.len() as int));
        start = start - 1;
    }
    proof {
        let pre = cs@.subrange(0, start as int);
        if start > 0 {
            assert(pre.last() == '-');
            assert(last_segment(pre) == Seq::<char>::empty());
        } else {
            assert(pre.len() == 0);
        }
        assert(last_segment(cs@) =~= cs@.subrange(start as int, cs@.len() as int));
    }
    let mut seg: Vec<char> = Vec::new();
    let mut i: usize = start;
    while i < cs.len()
        invariant
            start <= i <= cs@.len(),
            seg@ == cs@.subrange(start as int, i as int),
        decreases cs@.len() - i,
    {
        seg.push(cs[i]);
        i = i + 1;
    }
    match parse_unsigned_bounded(seg.as_slice(), u64::MAX) {
        Some(v) => Ok(v),
        None => Err(SnapshotIdError::NotANumber),
    }
}

proof fn lemma_last_segment_after_dash(a: Seq<char>, d: Seq<char>)
    requires
        forall|i: int| 0 <= i < d.len() ==> #[trigger] d[i] != '-',
    ensures
        last_segment(a + seq!['-'] + d) == d,
    decreases d.len(),
{
    if d.len() == 0 {
        assert(a + seq!['-'] + d =~= (a + seq!['-']));
        assert((a + seq!['-']).last() == '-');
    } else {
        lemma_last_segment_after_dash(a, d.drop_last());
        assert((a + seq!['-'] + d).drop_last() =~= a + seq!['-'] + d.drop_last());
        assert(d.drop_last().push(d.last()) =~= d);
    }
}

/// The counter read back from an id is the one it was made with, whatever the leader's text.
pub proof fn lemma_snapshot_idx_of_id(last: Option<(Seq<char>, u64)>, idx: u64)
    ensures
        snapshot_idx_spec(snapshot_id_spec(last, idx)) == Ok::<u64, SnapshotIdError>(idx),
{
    let d = decimal(idx as nat);
    lemma_decimal_digits(idx as nat);
    assert forall|i: int| 0 <= i < d.len() implies #[trigger] d[i] != '-' by {
        assert(is_digit(d[i]));
    }
    let prefix = match last {
        Some((leader, index)) => leader + "-"@ + decimal(index as nat),
        None => seq!['x', '-', 'x'],
    };
    reveal_strlit("-");
    reveal_strlit("x-x-");
    assert(snapshot_id_spec(last, idx) =~= prefix + seq!['-'] + d);
    lemma_last_segment_after_dash(prefix, d);
}

/// The counter of the next snapshot: past the current one, and no lower than that of a
/// snapshot installed from the leader.
pub fn next_snapshot_idx(current: u64, installed: u64) -> (r: u64)
    requires
        current < u64::MAX,
    ensures
        r == (if current + 1 >= installed { current + 1 } else { installed as int }),
{
    if current + 1 >= installed {
        current + 1
    } else {
        installed
    }
}

/// The keyspaces that a snapshot holds: all of a database's but the Raft metadata.
pub fn snapshot_keyspaces(names: &Vec<String>) -> (r: Vec<String>)
    ensures
        r@.map_values(|s: String| s@) == names@.map_values(|s: String| s@).filter(|n: Seq<char>| n != "_raft_metadata"@),
{
    let meta = lit("_raft_metadata");
    let mut r: Vec<String> = Vec::new();
    let mut i: usize = 0;
    while i < names.len()
        invariant
            i <= names@.len(),
            meta@ == "_raft_metadata"@,
            r@.map_values(|s: String| s@) == names@.subrange(0, i as int).map_values(|s: String| s@).filter(
                |n: Seq<char>| n != "_raft_metadata"@,
            ),
        decreases names@.len() - i,
    {
        let ghost prev = names@.subrange(0, i as int).map_values(|s: String| s@);
        let ghost next = names@.subrange(0, i + 1).map_values(|s: String| s@);
        assert(next =~= prev.push(names@[i as int]@));
        proof {
            reveal(Seq::filter);
            assert(next.drop_last() =~= prev);
        }
        let ghost r0 = r@;
        if names[i] != meta {
            r.push(names[i].clone());
            assert(r@.map_values(|s: String| s@) =~= r0.map_values(|s: String| s@).push(names@[i as int]@));
        }
        i = i + 1;
    }
    assert(names@.subrange(0, names@.len() as int) =~= names@);
    r
}

/// Whether a file of the snapshot directory is kept when unused snapshots are removed: the
/// snapshot just written and the last recorded one are kept.
pub fn keep_snapshot_file(file_name: &str, keep_name: Option<&str>, last_name: Option<&str>) -> (b: bool)
    ensures
        b == ((keep_name matches Some(k) && k@ == file_name@) || (last_name matches Some(l) && l@ == file_name@)),
{
    let f = lit(file_name);
    let by_keep = match keep_name {
        Some(k) => lit(k) == f,
        None => false,
    };
    let by_last = match last_name {
        Some(l) => lit(l) == f,
        None => false,
    };
    by_keep || by_last
}

/// The magic bytes that a snapshot file starts with: `COYOTE01`.
pub open spec fn magic_spec() -> Seq<u8> {
    seq![67u8, 79u8, 89u8, 79u8, 84u8, 69u8, 48u8, 49u8]
}

pub fn snapshot_magic() -> (m: Vec<u8>)
    ensures
        m@ == magic_spec(),
{
    let m = vec![67u8, 79u8, 89u8, 79u8, 84u8, 69u8, 48u8, 49u8];
    assert(m@ =~= magic_spec());
    m
}

pub fn is_snapshot_magic(bytes: &[u8]) -> (b: bool)
    ensures
        b == (bytes@ == magic_spec()),
{
    let m = snapshot_magic();
    if bytes.len() != 8 {
        return false;
    }
    let mut i: usize = 0;
    while i < 8
        invariant
            i <= 8,
            bytes@.len() == 8,
            m@ == magic_spec(),
            forall|j: int| 0 <= j < i ==> bytes@[j] == #[trigger] magic_spec()[j],
        decreases 8 - i,
    {
        if bytes[i] != m[i] {
            return false;
        }
        i = i + 1;
    }
    assert(bytes@ =~= magic_spec());
    true
}

/// A 16-bit big-endian number.
pub open spec fn be16(n: nat) -> Seq<u8> {
    seq![((n / 256) % 256) as u8, (n % 256) as u8]
}

/// A 32-bit big-endian number.
pub open spec fn be32(n: nat) -> Seq<u8> {
    seq![((n / 0x100_0000) % 256) as u8, ((n / 0x1_0000) % 256) as u8, ((n / 256) % 256) as u8, (n % 256) as u8]
}

pub open spec fn record_bytes(key: Seq<u8>, value: Seq<u8>) -> Seq<u8> {
    be16(key.len()) + be32(value.len()) + key + value
}

/// The bytes of a run of rows, in order.
#[verifier::opaque]
pub open spec fn records_bytes(rs: Seq<(Seq<u8>, Seq<u8>)>) -> Seq<u8>
    decreases rs.len(),
{
    if rs.len() == 0 {
        Seq::empty()
    } else {
        record_bytes(rs[0].0, rs[0].1) + records_bytes(rs.drop_first())
    }
}

/// A row can be written when its key fits a 16-bit length and its value a 32-bit one.
pub open spec fn writable(rs: Seq<(Seq<u8>, Seq<u8>)>) -> bool {
    forall|i: int| 0 <= i < rs.len() ==> #[trigger] rs[i].0.len() <= u16::MAX && rs[i].1.len() <= u32::MAX
}

proof fn lemma_records_bytes_push(rs: Seq<(Seq<u8>, Seq<u8>)>, r: (Seq<u8>, Seq<u8>))
    ensures
        records_bytes(rs.push(r)) == records_bytes(rs) + record_bytes(r.0, r.1),
    decreases rs.len(),
{
    reveal(records_bytes);
    if rs.len() == 0 {
        let s1 = rs.push(r);
        assert(s1[0] == r);
        assert(s1.drop_first() =~= Seq::<(Seq<u8>, Seq<u8>)>::empty());
        assert(records_bytes(s1.drop_first()) == Seq::<u8>::empty());
        assert(records_bytes(s1) == record_bytes(r.0, r.1) + Seq::<u8>::empty());
        assert(records_bytes(s1) =~= records_bytes(rs) + record_bytes(r.0, r.1));
    } else {
        lemma_records_bytes_push(rs.drop_first(), r);
        assert(rs.push(r).drop_first() =~= rs.drop_first().push(r));
        assert(records_bytes(rs.push(r)) =~= records_bytes(rs) + record_bytes(r.0, r.1));
    }
}

/// Appends one row to a chunk being written.
pub fn encode_record(buf: &mut Vec<u8>, key: &[u8], value: &[u8])
    requires
        key@.len() <= u16::MAX,
        value@.len() <= u32::MAX,
    ensures
        final(buf)@ == old(buf)@ + record_bytes(key@, value@),
{
    let k = key.len();
    let v = value.len();
    buf.push(((k / 256) % 256) as u8);
    buf.push((k % 256) as u8);
    buf.push(((v / 0x100_0000) % 256) as u8);
    buf.push(((v / 0x1_0000) % 256) as u8);
    buf.push(((v / 256) % 256) as u8);
    buf.push((v % 256) as u8);
    let ghost header = buf@;
    let mut i: usize = 0;
    while i < k
        invariant
            k == key@.len(),
            i <= k,
            buf@ == header + key@.subrange(0, i as int),
        decreases k - i,
    {
        buf.push(key[i]);
        i = i + 1;
    }
    let ghost with_key = buf@;
    let mut j: usize = 0;
    while j < v
        invariant
            v == value@.len(),
            j <= v,
            buf@ == with_key + value@.subrange(0, j as int),
        decreases v - j,
    {
        buf.push(value[j]);
        j = j + 1;
    }
    assert(key@.subrange(0, k as int) =~= key@);
    assert(value@.subrange(0, v as int) =~= value@);
    assert(buf@ =~= old(buf)@ + record_bytes(key@, value@));
}

/// One row read from the front of `b`, and how many bytes it took, where `b` holds a whole
/// row.
pub open spec fn parse_record(b: Seq<u8>) -> Option<((Seq<u8>, Seq<u8>), nat)> {
    if b.len() < 6 {
        None
    } else {
        let klen: int = b[0] as int * 256 + b[1] as int;
        let vlen: int = b[2] as int * 0x100_0000 + b[3] as int * 0x1_0000 + b[4] as int * 256 + b[5] as int;
        if 6 + klen + vlen > b.len() {
            None
        } else {
            Some(((b.subrange(6, 6 + klen), b.subrange(6 + klen, 6 + klen + vlen)), (6 + klen + vlen) as nat))
        }
    }
}

/// The first `n` rows of a chunk; `None` where the chunk ends before them. Bytes after them
/// are not read.
#[verifier::opaque]
pub open spec fn decode_spec(b: Seq<u8>, n: nat) -> Option<Seq<(Seq<u8>, Seq<u8>)>>
    decreases n,
{
    if n == 0 {
        Some(Seq::empty())
    } else {
        match parse_record(b) {
            None => None,
            Some((r, used)) => match decode_spec(b.subrange(used as int, b.len() as int), (n - 1) as nat) {
                Some(rest) => Some(seq![r] + rest),
                None => None,
            },
        }
    }
}

/// Why a chunk could not be read.
#[derive(Clone, Copy, Debug, PartialEq, Eq, Structural)]
pub enum ChunkError {
    /// The chunk ends before the rows that its manifest entry counts.
    UnexpectedEof,
}

/// Reads the `num_records` rows of a chunk.
pub fn decode_chunk(bytes: &[u8], num_records: u32) -> (r: Result<Vec<(Vec<u8>, Vec<u8>)>, ChunkError>)
    ensures
        match r {
            Ok(rows) => decode_spec(bytes@, num_records as nat) == Some(
                rows@.map_values(|p: (Vec<u8>, Vec<u8>)| (p.0@, p.1@)),
            ),
            Err(_) => decode_spec(bytes@, num_records as nat) is None,
        },
{
    let mut rows: Vec<(Vec<u8>, Vec<u8>)> = Vec::new();
    let mut pos: usize = 0;
    let mut n: u32 = 0;
    proof {
        reveal(decode_spec);
        assert(bytes@.subrange(0, bytes@.len() as int) =~= bytes@);
        assert(rows@.map_values(|p: (Vec<u8>, Vec<u8>)| (p.0@, p.1@)) =~= Seq::<(Seq<u8>, Seq<u8>)>::empty());
        match decode_spec(bytes@, num_records as nat) {
            Some(rest) => {
                assert(Seq::<(Seq<u8>, Seq<u8>)>::empty() + rest =~= rest);
            },
            None => {},
        }
    }
    while n < num_records
        invariant
            pos <= bytes@.len(),
            n <= num_records,
            decode_spec(bytes@, num_records as nat) == match decode_spec(
                bytes@.subrange(pos as int, bytes@.len() as int),
                (num_records - n) as nat,
            ) {
                Some(rest) => Some(rows@.map_values(|p: (Vec<u8>, Vec<u8>)| (p.0@, p.1@)) + rest),
                None => None,
            },
        decreases num_records - n,
    {
        proof {
            reveal(decode_spec);
        }
        let ghost rest = bytes@.subrange(pos as int, bytes@.len() as int);
        if bytes.len() - pos < 6 {
            assert(parse_record(rest) is None);
            return Err(ChunkError::UnexpectedEof);
        }
        let klen: usize = (bytes[pos] as usize) * 256 + (bytes[pos + 1] as usize);
        let vlen: u64 = (bytes[pos + 2] as u64) * 0x100_0000 + (bytes[pos + 3] as u64) * 0x1_0000 + (bytes[pos + 4] as u64)
            * 256 + (bytes[pos + 5] as u64);
        let avail: usize = bytes.len() - pos - 6;
        assert(rest[0] == bytes@[pos as int]);
        assert(rest[1] == bytes@[pos + 1]);
        assert(rest[2] == bytes@[pos + 2]);
        assert(rest[3] == bytes@[pos + 3]);
        assert(rest[4] == bytes@[pos + 4]);
        assert(rest[5] == bytes@[pos + 5]);
        if klen > avail || vlen > (avail - klen) as u64 {
            assert(parse_record(rest) is None);
            return Err(ChunkError::UnexpectedEof);
        }
        let vlen: usize = vlen as usize;
        let mut key: Vec<u8> = Vec::new();
        let mut i: usize = 0;
        let kstart = pos + 6;
        while i < klen
            invariant
                kstart + klen <= bytes.len(),
                bytes.len() == bytes@.len(),
                i <= klen,
                key@ == bytes@.subrange(kstart as int, kstart + i),
            decreases klen - i,
        {
            key.push(bytes[kstart + i]);
            i = i + 1;
        }
        let mut value: Vec<u8> = Vec::new();
        let vstart = kstart + klen;
        let mut j: usize = 0;
        while j < vlen
            invariant
                vstart + vlen <= bytes.len(),
                bytes.len() == bytes@.len(),
                j <= vlen,
                value@ == bytes@.subrange(vstart as int, vstart + j),
            decreases vlen - j,
        {
            value.push(bytes[vstart + j]);
            j = j + 1;
        }
        proof {
            assert(rest.subrange(6, 6 + klen) =~= key@);
            assert(rest.subrange(6 + klen, 6 + klen + vlen) =~= value@);
            assert(parse_record(rest) == Some(((key@, value@), (6 + klen + vlen) as nat)));
            assert(rest.subrange((6 + klen + vlen) as int, rest.len() as int) =~= bytes@.subrange(
                (vstart + vlen) as int,
                bytes@.len() as int,
            ));
        }
        let ghost before = rows@.map_values(|p: (Vec<u8>, Vec<u8>)| (p.0@, p.1@));
        let ghost kv = key@;
        let ghost vv = value@;
        rows.push((key, value));
        proof {
            assert(rows@.map_values(|p: (Vec<u8>, Vec<u8>)| (p.0@, p.1@)) =~= before.push((kv, vv)));
            let tail = bytes@.subrange((vstart + vlen) as int, bytes@.len() as int);
            match decode_spec(tail, (num_records - n - 1) as nat) {
                Some(r2) => {
                    assert(before + (seq![(kv, vv)] + r2) =~= before.push((kv, vv)) + r2);
                },
                None => {},
            }
        }
        pos = vstart + vlen;
        n = n + 1;
    }
    proof {
        assert(decode_spec(bytes@.subrange(pos as int, bytes@.len() as int), 0) == Some(Seq::<(Seq<u8>, Seq<u8>)>::empty()));
        assert(rows@.map_values(|p: (Vec<u8>, Vec<u8>)| (p.0@, p.1@)) + Seq::<(Seq<u8>, Seq<u8>)>::empty()
            =~= rows@.map_values(|p: (Vec<u8>, Vec<u8>)| (p.0@, p.1@)));
    }
    Ok(rows)
}

proof fn lemma_be16_value(k: int)
    requires
        0 <= k <= 0xffff,
    ensures
        ((k / 256) % 256) * 256 + k % 256 == k,
        0 <= (k / 256) % 256 < 256,
        0 <= k % 256 < 256,
{
    assert(k / 256 < 256);
    assert((k / 256) % 256 == k / 256);
}

proof fn lemma_be32_value(v: int)
    requires
        0 <= v <= 0xffff_ffff,
    ensures
        ((v / 0x100_0000) % 256) * 0x100_0000 + ((v / 0x1_0000) % 256) * 0x1_0000 + ((v / 256) % 256) * 256 + v % 256
            == v,
        0 <= (v / 0x100_0000) % 256 < 256,
        0 <= (v / 0x1_0000) % 256 < 256,
        0 <= (v / 256) % 256 < 256,
        0 <= v % 256 < 256,
{
    let q1 = v / 256;
    let q2 = v / 0x1_0000;
    let q3 = v / 0x100_0000;
    assert(q2 == q1 / 256);
    assert(q3 == q2 / 256);
    assert(q3 < 256);
    assert(q3 % 256 == q3);
    assert(v == q1 * 256 + v % 256);
    assert(q1 == q2 * 256 + q1 % 256);
    assert(q2 == q3 * 256 + q2 % 256);
}

proof fn lemma_record_header(key: Seq<u8>, value: Seq<u8>, tail: Seq<u8>)
    requires
        key.len() <= u16::MAX,
        value.len() <= u32::MAX,
    ensures
        ({
            let b = record_bytes(key, value) + tail;
            &&& b.len() >= 6 + key.len() + value.len()
            &&& b[0] as int * 256 + b[1] as int == key.len()
            &&& b[2] as int * 0x100_0000 + b[3] as int * 0x1_0000 + b[4] as int * 256 + b[5] as int == value.len()
        }),
{
    let k: int = key.len() as int;
    let v: int = value.len() as int;
    lemma_be16_value(k);
    lemma_be32_value(v);
    let b = record_bytes(key, value) + tail;
    assert(b[0] as int == (k / 256) % 256);
    assert(b[1] as int == k % 256);
    assert(b[2] as int == (v / 0x100_0000) % 256);
    assert(b[3] as int == (v / 0x1_0000) % 256);
    assert(b[4] as int == (v / 256) % 256);
    assert(b[5] as int == v % 256);
}

proof fn lemma_parse_record_bytes(key: Seq<u8>, value: Seq<u8>, tail: Seq<u8>)
    requires
        key.len() <= u16::MAX,
        value.len() <= u32::MAX,
    ensures
        parse_record(record_bytes(key, value) + tail) == Some(
            ((key, value), (6 + key.len() + value.len()) as nat),
        ),
{
    lemma_record_header(key, value, tail);
    let b = record_bytes(key, value) + tail;
    let k: int = key.len() as int;
    let v: int = value.len() as int;
    assert(b.subrange(6, 6 + k) =~= key);
    assert(b.subrange(6 + k, 6 + k + v) =~= value);
}

proof fn lemma_decode_step(b: Seq<u8>, n: nat, r: (Seq<u8>, Seq<u8>), used: nat, rest: Seq<(Seq<u8>, Seq<u8>)>)
    requires
        n > 0,
        parse_record(b) == Some((r, used)),
        decode_spec(b.subrange(used as int, b.len() as int), (n - 1) as nat) == Some(rest),
    ensures
        decode_spec(b, n) == Some(seq![r] + rest),
{
    reveal(decode_spec);
}

proof fn lemma_records_bytes_first(rows: Seq<(Seq<u8>, Seq<u8>)>)
    requires
        rows.len() > 0,
    ensures
        records_bytes(rows) == record_bytes(rows[0].0, rows[0].1) + records_bytes(rows.drop_first()),
{
    reveal(records_bytes);
}

proof fn lemma_writable_rest(rows: Seq<(Seq<u8>, Seq<u8>)>)
    requires
        writable(rows),
        rows.len() > 0,
    ensures
        writable(rows.drop_first()),
        rows[0].0.len() <= u16::MAX,
        rows[0].1.len() <= u32::MAX,
{
    let rest = rows.drop_first();
    assert forall|i: int| 0 <= i < rest.len() implies #[trigger] rest[i].0.len() <= u16::MAX && rest[i].1.len()
        <= u32::MAX by {
        assert(rest[i] == rows[i + 1]);
    }
}

proof fn lemma_round_trip_empty(rows: Seq<(Seq<u8>, Seq<u8>)>, tail: Seq<u8>)
    requires
        rows.len() == 0,
    ensures
        decode_spec(records_bytes(rows) + tail, rows.len()) == Some(rows),
{
    reveal(records_bytes);
    reveal(decode_spec);
    assert(rows =~= Seq::<(Seq<u8>, Seq<u8>)>::empty());
}

proof fn lemma_skip_prefix(a: Seq<u8>, b: Seq<u8>)
    ensures
        (a + b).subrange(a.len() as int, (a + b).len() as int) == b,
{
    assert((a + b).subrange(a.len() as int, (a + b).len() as int) =~= b);
}

proof fn lemma_concat_assoc(a: Seq<u8>, b: Seq<u8>, c: Seq<u8>)
    ensures
        (a + b) + c == a + (b + c),
{
    assert((a + b) + c =~= a + (b + c));
}

/// Reading back the rows of a chunk gives the rows that were written, whatever follows
/// them.
pub proof fn lemma_chunk_round_trip(rows: Seq<(Seq<u8>, Seq<u8>)>, tail: Seq<u8>)
    requires
        writable(rows),
    ensures
        decode_spec(records_bytes(rows) + tail, rows.len()) == Some(rows),
    decreases rows.len(),
{
    if rows.len() == 0 {
        lemma_round_trip_empty(rows, tail);
    } else {
        let r = rows[0];
        let rest = rows.drop_first();
        lemma_writable_rest(rows);
        lemma_chunk_round_trip(rest, tail);
        let rb = record_bytes(r.0, r.1);
        let after = records_bytes(rest) + tail;
        lemma_parse_record_bytes(r.0, r.1, after);
        lemma_records_bytes_first(rows);
        lemma_concat_assoc(rb, records_bytes(rest), tail);
        let used: nat = (6 + r.0.len() + r.1.len()) as nat;
        assert(rb.len() == used);
        lemma_skip_prefix(rb, after);
        lemma_decode_step(rb + after, rows.len(), r, used, rest);
        assert(seq![r] + rest =~= rows);
    }
}

/// A chunk of a keyspace: its file name in the archive and how many rows it holds.
#[derive(Debug)]
pub struct Chunk {
    pub num_records: u32,
    pub name: String,
}

/// Past this many bytes, a chunk is closed before the next row.
pub const MAX_BYTES_PER_CHUNK: usize = 10_000_000;

/// Writes the rows of one keyspace into chunks of about `MAX_BYTES_PER_CHUNK` bytes,
/// named `<keyspace>/part<n>`.
pub struct KeyspaceChunker {
    keyspace_name: String,
    current_buffer: Vec<u8>,
    current_index: u32,
    current_count: u32,
    chunks: Vec<Chunk>,
}

/// A finished chunk: its manifest entry and its bytes.
pub struct FinishedChunk {
    pub chunk: Chunk,
    pub data: Vec<u8>,
}

/// The manifest entries of chunks: the number of rows and the name of each.
pub open spec fn chunk_views(chunks: Seq<Chunk>) -> Seq<(u32, Seq<char>)> {
    chunks.map_values(|c: Chunk| (c.num_records, c.name@))
}

pub open spec fn chunk_name_spec(keyspace: Seq<char>, index: u32) -> Seq<char> {
    keyspace + "/part"@ + decimal(index as nat)
}

impl KeyspaceChunker {
    /// The rows of the chunk being written.
    pub closed spec fn current_rows_bytes(&self) -> Seq<u8> {
        self.current_buffer@
    }

    pub closed spec fn keyspace(&self) -> Seq<char> {
        self.keyspace_name@
    }

    pub closed spec fn next_index(&self) -> u32 {
        self.current_index
    }

    pub closed spec fn current_count_spec(&self) -> u32 {
        self.current_count
    }

    /// The manifest entries of the chunks closed so far.
    pub closed spec fn closed_chunks(&self) -> Seq<(u32, Seq<char>)> {
        chunk_views(self.chunks@)
    }

    pub closed spec fn wf(&self) -> bool {
        &&& self.current_count as int * 6 <= self.current_buffer@.len()
        &&& self.current_buffer@.len() == 0 <==> self.current_count == 0
        &&& self.current_buffer@.len() <= MAX_BYTES_PER_CHUNK ==> self.current_count < u32::MAX
    }

    pub fn new(keyspace_name: String) -> (c: KeyspaceChunker)
        ensures
            c.wf(),
            c.keyspace() == keyspace_name@,
            c.current_rows_bytes().len() == 0,
            c.current_count_spec() == 0,
            c.next_index() == 0,
            c.closed_chunks() == Seq::<(u32, Seq<char>)>::empty(),
    {
        KeyspaceChunker { keyspace_name, current_buffer: Vec::new(), current_index: 0, current_count: 0, chunks: Vec::new() }
    }

    fn flush_current(&mut self) -> (r: Option<FinishedChunk>)
        requires
            old(self).wf(),
            old(self).current_index < u32::MAX,
        ensures
            final(self).wf(),
            final(self).keyspace() == old(self).keyspace(),
            final(self).current_rows_bytes().len() == 0,
            final(self).current_count_spec() == 0,
            old(self).current_buffer@.len() == 0 ==> r is None && final(self).next_index() == old(self).next_index()
                && final(self).closed_chunks() == old(self).closed_chunks(),
            old(self).current_buffer@.len() > 0 ==> (r matches Some(f) && {
                &&& f.data@ == old(self).current_buffer@
                &&& f.chunk.num_records == old(self).current_count
                &&& f.chunk.name@ == chunk_name_spec(old(self).keyspace_name@, old(self).current_index)
                &&& final(self).next_index() == old(self).next_index() + 1
                &&& final(self).closed_chunks() == old(self).closed_chunks().push((f.chunk.num_records, f.chunk.name@))
            }),
    {
        if self.current_buffer.len() == 0 {
            return None;
        }
        let n = u64_to_decimal(self.current_index as u64);
        let name = self.keyspace_name.clone().concat("/part").concat(n.as_str());
        self.current_index = self.current_index + 1;
        let chunk = Chunk { num_records: self.current_count, name: name.clone() };
        let ghost before = self.chunks@;
        self.chunks.push(Chunk { num_records: self.current_count, name });
        assert(chunk_views(self.chunks@) =~= chunk_views(before).push((chunk.num_records, chunk.name@)));
        let mut data: Vec<u8> = Vec::new();
        std::mem::swap(&mut data, &mut self.current_buffer);
        self.current_count = 0;
        Some(FinishedChunk { chunk, data })
    }

    /// Adds one row. The chunk written so far is closed first, and returned, where it is
    /// already past the size limit.
    pub fn add(&mut self, key: &[u8], value: &[u8]) -> (r: Option<FinishedChunk>)
        requires
            old(self).wf(),
            old(self).next_index() < u32::MAX,
            key@.len() <= u16::MAX,
            value@.len() <= u32::MAX,
            MAX_BYTES_PER_CHUNK + 6 + key@.len() + value@.len() < usize::MAX,
        ensures
            final(self).wf(),
            final(self).keyspace() == old(self).keyspace(),
            old(self).current_rows_bytes().len() > MAX_BYTES_PER_CHUNK ==> (r matches Some(f) && {
                &&& f.data@ == old(self).current_rows_bytes()
                &&& f.chunk.num_records == old(self).current_count_spec()
                &&& f.chunk.name@ == chunk_name_spec(old(self).keyspace(), old(self).next_index())
                &&& final(self).next_index() == old(self).next_index() + 1
                &&& final(self).current_rows_bytes() == record_bytes(key@, value@)
                &&& final(self).current_count_spec() == 1
                &&& final(self).closed_chunks() == old(self).closed_chunks().push((f.chunk.num_records, f.chunk.name@))
            }),
            old(self).current_rows_bytes().len() <= MAX_BYTES_PER_CHUNK ==> (r is None && {
                &&& final(self).next_index() == old(self).next_index()
                &&& final(self).current_rows_bytes() == old(self).current_rows_bytes() + record_bytes(key@, value@)
                &&& final(self).current_count_spec() == old(self).current_count_spec() + 1
                &&& final(self).closed_chunks() == old(self).closed_chunks()
            }),
    {
        let flushed = if self.current_buffer.len() > MAX_BYTES_PER_CHUNK {
            self.flush_current()
        } else {
            None
        };
        self.current_count = self.current_count + 1;
        encode_record(&mut self.current_buffer, key, value);
        proof {
            assert(self.current_buffer@.len() >= 6);
        }
        flushed
    }

    /// Closes the last chunk, if it holds any row.
    pub fn finish(&mut self) -> (r: Option<FinishedChunk>)
        requires
            old(self).wf(),
            old(self).next_index() < u32::MAX,
        ensures
            final(self).wf(),
            old(self).current_rows_bytes().len() == 0 ==> r is None && final(self).closed_chunks() == old(self).closed_chunks(),
            old(self).current_rows_bytes().len() > 0 ==> (r matches Some(f) && {
                &&& f.data@ == old(self).current_rows_bytes()
                &&& f.chunk.num_records == old(self).current_count_spec()
                &&& f.chunk.name@ == chunk_name_spec(old(self).keyspace(), old(self).next_index())
                &&& final(self).closed_chunks() == old(self).closed_chunks().push((f.chunk.num_records, f.chunk.name@))
            }),
    {
        self.flush_current()
    }

    /// The manifest entries of the chunks closed so far, in order.
    pub fn into_chunks(self) -> (c: Vec<Chunk>)
        ensures
            chunk_views(c@) == self.closed_chunks(),
    {
        self.chunks
    }
}

} // verus!

use vstd::prelude::*;

verus! {

/// The byte at index `j`, or zero past the end: the final partial word of a
/// byte string is zero-padded.
pub open spec fn byte_or_zero(s: Seq<u8>, j: int) -> u8 {
    if 0 <= j < s.len() {
        s[j]
    } else {
        0
    }
}

/// Word `i` of the byte string: eight consecutive bytes, little endian,
/// zero-padded past the end.
pub open spec fn word_of(s: Seq<u8>, i: int) -> u64 {
    (byte_or_zero(s, 8 * i) as u64) | ((byte_or_zero(s, 8 * i + 1) as u64) << 8) | ((byte_or_zero(
        s,
        8 * i + 2,
    ) as u64) << 16) | ((byte_or_zero(s, 8 * i + 3) as u64) << 24) | ((byte_or_zero(
        s,
        8 * i + 4,
    ) as u64) << 32) | ((byte_or_zero(s, 8 * i + 5) as u64) << 40) | ((byte_or_zero(
        s,
        8 * i + 6,
    ) as u64) << 48) | ((byte_or_zero(s, 8 * i + 7) as u64) << 56)
}

/// How many 64-bit words cover `len` bytes, the last word zero-padded.
pub open spec fn word_count(len: nat) -> nat {
    if len % 8 == 0 {
        len / 8
    } else {
        len / 8 + 1
    }
}

/// The byte string seen as a sequence of little-endian 64-bit words.
pub open spec fn words_of(s: Seq<u8>) -> Seq<u64> {
    Seq::new(word_count(s.len()), |i: int| word_of(s, i))
}

/// XOR of all words of a sequence.
pub open spec fn xor_all(ws: Seq<u64>) -> u64
    decreases ws.len(),
{
    if ws.len() == 0 {
        0u64
    } else {
        xor_all(ws.drop_last()) ^ ws.last()
    }
}

/// The word checksum of a byte string: XOR over its zero-padded
/// little-endian 64-bit words. Because XOR is associative and commutative,
/// this is what the device reduction yields whatever lane count it uses.
pub open spec fn gpu_checksum(s: Seq<u8>) -> u64 {
    xor_all(words_of(s))
}

/// Pack a byte slice into little-endian 64-bit words, zero-padding the
/// final partial word.
pub fn pack_words(bytes: &[u8]) -> (ws: Vec<u64>)
    ensures
        ws@ == words_of(bytes@),
{
    let n: usize = bytes.len();
    let m: usize = if n % 8 == 0 {
        n / 8
    } else {
        n / 8 + 1
    };
    let mut ws: Vec<u64> = Vec::new();
    let mut i: usize = 0;
    while i < m
        invariant
            i <= m,
            n == bytes@.len(),
            m == word_count(n as nat),
            ws@.len() == i as int,
            forall|t: int| 0 <= t < i ==> ws@[t] == word_of(bytes@, t),
        decreases m - i,
    {
        proof {
            assert(8 * (i as int) < n as int);
        }
        let base: usize = 8 * i;
        let b0: u8 = bytes[base];
        let b1: u8 = if n - base > 1 {
            bytes[base + 1]
        } else {
            0
        };
        let b2: u8 = if n - base > 2 {
            bytes[base + 2]
        } else {
            0
        };
        let b3: u8 = if n - base > 3 {
            bytes[base + 3]
        } else {
            0
        };
        let b4: u8 = if n - base > 4 {
            bytes[base + 4]
        } else {
            0
        };
        let b5: u8 = if n - base > 5 {
            bytes[base + 5]
        } else {
            0
        };
        let b6: u8 = if n - base > 6 {
            bytes[base + 6]
        } else {
            0
        };
        let b7: u8 = if n - base > 7 {
            bytes[base + 7]
        } else {
            0
        };
        let w: u64 = (b0 as u64) | ((b1 as u64) << 8) | ((b2 as u64) << 16) | ((b3 as u64) << 24)
            | ((b4 as u64) << 32) | ((b5 as u64) << 40) | ((b6 as u64) << 48) | ((b7 as u64)
            << 56);
        assert(w == word_of(bytes@, i as int));
        ws.push(w);
        i = i + 1;
    }
    proof {
        assert(ws@ =~= words_of(bytes@));
    }
    ws
}

/// XOR-reduce a word slice into a single value.
pub fn xor_reduce(ws: &[u64]) -> (r: u64)
    ensures
        r == xor_all(ws@),
{
    let mut acc: u64 = 0;
    let mut i: usize = 0;
    while i < ws.len()
        invariant
            i <= ws@.len(),
            acc == xor_all(ws@.take(i as int)),
        decreases ws@.len() - i,
    {
        proof {
            assert(ws@.take(i as int + 1).drop_last() =~= ws@.take(i as int));
            assert(ws@.take(i as int + 1).last() == ws@[i as int]);
        }
        acc = acc ^ ws[i];
        i = i + 1;
    }
    proof {
        assert(ws@.take(ws@.len() as int) =~= ws@);
    }
    acc
}

/// Updating one slot of a sequence with `old ^ w` folds `w` into the XOR of
/// the whole sequence.
proof fn lemma_xor_all_update(s: Seq<u64>, k: int, w: u64)
    requires
        0 <= k < s.len(),
    ensures
        xor_all(s.update(k, s[k] ^ w)) == xor_all(s) ^ w,
    decreases s.len(),
{
    let t = s.update(k, s[k] ^ w);
    if k == s.len() - 1 {
        assert(t.drop_last() =~= s.drop_last());
        let a = xor_all(s.drop_last());
        let b = s[k];
        assert(a ^ (b ^ w) == (a ^ b) ^ w) by (bit_vector);
    } else {
        assert(t.drop_last() =~= s.drop_last().update(k, s[k] ^ w));
        assert(s.drop_last()[k] == s[k]);
        lemma_xor_all_update(s.drop_last(), k, w);
        assert(t.last() == s.last());
        let a = xor_all(s.drop_last());
        let b = s.last();
        assert((a ^ w) ^ b == (a ^ b) ^ w) by (bit_vector);
    }
}

/// A sequence of zero words XOR-reduces to zero.
proof fn lemma_xor_all_zero_seq(s: Seq<u64>)
    requires
        forall|i: int| 0 <= i < s.len() ==> s[i] == 0,
    ensures
        xor_all(s) == 0,
    decreases s.len(),
{
    if s.len() > 0 {
        lemma_xor_all_zero_seq(s.drop_last());
        assert(0u64 ^ 0u64 == 0u64) by (bit_vector);
    }
}

/// The word checksum of a byte string, computed the way the device path
/// does: partition the words over `lanes` accumulators and XOR-reduce the
/// accumulators. The result is the checksum of the bytes alone — it does
/// not depend on the lane count.
pub fn xor64_lanes(bytes: &[u8], lanes: usize) -> (r: u64)
    requires
        1 <= lanes,
    ensures
        r == gpu_checksum(bytes@),
{
    let words = pack_words(bytes);
    let n: usize = words.len();
    if n == 0 {
        return 0;
    }
    let wg: usize = if lanes < n {
        lanes
    } else {
        n
    };
    let mut partials: Vec<u64> = vec![0u64; wg];
    proof {
        lemma_xor_all_zero_seq(partials@);
        assert(words@.take(0) =~= Seq::<u64>::empty());
    }
    let mut i: usize = 0;
    while i < n
        invariant
            i <= n,
            n == words@.len(),
            words@ == words_of(bytes@),
            1 <= wg,
            partials@.len() == wg as int,
            xor_all(partials@) == xor_all(words@.take(i as int)),
        decreases n - i,
    {
        let g: usize = i % wg;
        let w: u64 = words[i];
        proof {
            lemma_xor_all_update(partials@, g as int, w);
            assert(words@.take(i as int + 1).drop_last() =~= words@.take(i as int));
            assert(words@.take(i as int + 1).last() == words@[i as int]);
            assert(xor_all(words@.take(i as int)) ^ w == xor_all(words@.take(i as int + 1)));
        }
        let cur: u64 = partials[g];
        partials[g] = cur ^ w;
        i = i + 1;
    }
    proof {
        assert(words@.take(n as int) =~= words@);
    }
    xor_reduce(partials.as_slice())
}

} // verus!

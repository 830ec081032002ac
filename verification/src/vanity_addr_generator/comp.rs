//! Byte matchers over address bytes: case-sensitive prefix, suffix and
//! substring checks through wide memory comparison, and case-insensitive
//! variants with an adaptive substring search.

use vstd::prelude::*;

verus! {

/// ASCII uppercase bytes mapped to lowercase; every other byte unchanged.
pub open spec fn spec_lower_byte(b: u8) -> u8 {
    if 65 <= b && b <= 90 {
        (b + 32) as u8
    } else {
        b
    }
}

/// A byte sequence with every ASCII uppercase byte lowered.
pub open spec fn lower_bytes(s: Seq<u8>) -> Seq<u8> {
    s.map_values(|b: u8| spec_lower_byte(b))
}

/// `pat` occurs in `s` at position `pos`.
pub open spec fn spec_matches_at(s: Seq<u8>, pat: Seq<u8>, pos: int) -> bool {
    &&& 0 <= pos
    &&& pos + pat.len() <= s.len()
    &&& forall|j: int| 0 <= j < pat.len() ==> s[pos + j] == pat[j]
}

/// `pat` is a prefix of `s`.
pub open spec fn spec_is_prefix(pat: Seq<u8>, s: Seq<u8>) -> bool {
    spec_matches_at(s, pat, 0)
}

/// `pat` is a suffix of `s`.
pub open spec fn spec_is_suffix(pat: Seq<u8>, s: Seq<u8>) -> bool {
    pat.len() <= s.len() && spec_matches_at(s, pat, s.len() - pat.len())
}

/// `pat` occurs somewhere in `s`.
pub open spec fn spec_contains(s: Seq<u8>, pat: Seq<u8>) -> bool {
    exists|pos: int| spec_matches_at(s, pat, pos)
}

/// The pre-lowered pattern `pattern` occurs at `pos` once `data` is
/// lowered byte by byte.
pub open spec fn spec_ci_match_at(data: Seq<u8>, pattern: Seq<u8>, pos: int) -> bool {
    &&& 0 <= pos
    &&& pos + pattern.len() <= data.len()
    &&& forall|j: int| 0 <= j < pattern.len() ==> spec_lower_byte(data[pos + j]) == pattern[j]
}

/// The pre-lowered pattern is a prefix of the lowered data.
pub open spec fn spec_ci_prefix(data: Seq<u8>, pattern: Seq<u8>) -> bool {
    spec_ci_match_at(data, pattern, 0)
}

/// The pre-lowered pattern is a suffix of the lowered data.
pub open spec fn spec_ci_suffix(data: Seq<u8>, pattern: Seq<u8>) -> bool {
    pattern.len() <= data.len() && spec_ci_match_at(data, pattern, data.len() - pattern.len())
}

/// The pre-lowered pattern occurs somewhere in the lowered data.
pub open spec fn spec_ci_contains(data: Seq<u8>, pattern: Seq<u8>) -> bool {
    exists|pos: int| spec_ci_match_at(data, pattern, pos)
}

/// Relies on memx::memeq: true exactly when the two byte slices are equal.
#[verifier::external_body]
fn memeq_bytes(a: &[u8], b: &[u8]) -> (r: bool)
    ensures
        r == (a@ == b@),
{
    memx::memeq(a, b)
}

/// Relies on memx::memmem: a position where `needle` occurs in
/// `haystack`, or None when it occurs nowhere.
#[verifier::external_body]
fn memmem_bytes(haystack: &[u8], needle: &[u8]) -> (r: Option<usize>)
    ensures
        r matches Some(pos) ==> spec_matches_at(haystack@, needle@, pos as int),
        r is None ==> !spec_contains(haystack@, needle@),
{
    memx::memmem(haystack, needle)
}

/// A copy of the bytes with every ASCII uppercase byte lowered.
pub(crate) fn lower_bytes_vec(bytes: &[u8]) -> (r: Vec<u8>)
    ensures
        r@ == lower_bytes(bytes@),
{
    let mut out: Vec<u8> = Vec::new();
    let mut i: usize = 0;
    while i < bytes.len()
        invariant
            0 <= i <= bytes@.len(),
            out@.len() == i,
            forall|j: int| 0 <= j < i ==> out@[j] == spec_lower_byte(#[trigger] bytes@[j]),
        decreases bytes@.len() - i,
    {
        out.push(lower_byte(bytes[i]));
        i += 1;
    }
    proof {
        assert(out@ =~= lower_bytes(bytes@));
    }
    out
}

/// One byte lowered: ASCII uppercase becomes lowercase.
fn lower_byte(b: u8) -> (r: u8)
    ensures
        r == spec_lower_byte(b),
{
    if b >= 65 && b <= 90 {
        b + 32
    } else {
        b
    }
}

/// Case-sensitive prefix match through wide memory comparison.
pub fn eq_prefix_memx(addr: &[u8], pat: &[u8]) -> (r: bool)
    ensures
        r == spec_is_prefix(pat@, addr@),
{
    if addr.len() < pat.len() {
        return false;
    }
    let head = &addr[0..pat.len()];
    let r = memeq_bytes(head, pat);
    proof {
        if spec_is_prefix(pat@, addr@) {
            assert(head@ =~= pat@);
        }
    }
    r
}

/// Case-sensitive suffix match through wide memory comparison.
pub fn eq_suffix_memx(addr: &[u8], pat: &[u8]) -> (r: bool)
    ensures
        r == spec_is_suffix(pat@, addr@),
{
    if addr.len() < pat.len() {
        return false;
    }
    let start = addr.len() - pat.len();
    let tail = &addr[start..addr.len()];
    let r = memeq_bytes(tail, pat);
    proof {
        if spec_is_suffix(pat@, addr@) {
            assert(tail@ =~= pat@);
        }
        if tail@ == pat@ {
            assert(forall|j: int|
                0 <= j < pat@.len() ==> addr@[start + j] == #[trigger] tail@[j]);
        }
    }
    r
}

/// Case-sensitive substring match through wide memory search.
pub fn contains_memx(addr: &[u8], pat: &[u8]) -> (r: bool)
    ensures
        r == spec_contains(addr@, pat@),
{
    memmem_bytes(addr, pat).is_some()
}

/// Case-insensitive prefix match: `pattern` must already be lowered.
pub fn eq_prefix_case_insensitive(data: &[u8], pattern: &[u8]) -> (r: bool)
    ensures
        r == spec_ci_prefix(data@, pattern@),
{
    let pattern_len = pattern.len();
    if data.len() < pattern_len {
        return false;
    }
    if pattern_len == 0 {
        return true;
    }
    let mut i: usize = 0;
    while i < pattern_len
        invariant
            pattern_len == pattern@.len() <= data@.len(),
            0 <= i <= pattern_len,
            forall|j: int|
                0 <= j < i ==> spec_lower_byte(data@[j]) == #[trigger] pattern@[j],
        decreases pattern_len - i,
    {
        if lower_byte(data[i]) != pattern[i] {
            return false;
        }
        i += 1;
    }
    true
}

/// Case-insensitive suffix match: `pattern` must already be lowered.
pub fn eq_suffix_case_insensitive(data: &[u8], pattern: &[u8]) -> (r: bool)
    ensures
        r == spec_ci_suffix(data@, pattern@),
{
    let pattern_len = pattern.len();
    if data.len() < pattern_len {
        return false;
    }
    if pattern_len == 0 {
        return true;
    }
    let dlen = data.len();
    let start = dlen - pattern_len;
    let mut i: usize = 0;
    while i < pattern_len
        invariant
            pattern_len == pattern@.len() <= data@.len(),
            dlen == data@.len(),
            start == data@.len() - pattern_len,
            0 <= i <= pattern_len,
            forall|j: int|
                0 <= j < i ==> spec_lower_byte(data@[start + j]) == #[trigger] pattern@[j],
        decreases pattern_len - i,
    {
        if lower_byte(data[start + i]) != pattern[i] {
            return false;
        }
        i += 1;
    }
    true
}

/// One entry of the bad-character table is correct for the pattern bytes
/// seen so far: `v` is the pattern length when `c` does not occur among
/// the first `upto` pattern bytes, and otherwise records the distance
/// from the last occurrence of `c` to the end of the pattern.
spec fn bad_char_entry_ok(pat: Seq<u8>, c: u8, upto: int, v: int) -> bool {
    &&& 0 <= v <= pat.len()
    &&& (v == pat.len() ==> forall|j: int| 0 <= j < upto ==> pat[j] != c)
    &&& (v < pat.len() ==> {
        &&& 0 <= pat.len() - 1 - v < upto
        &&& pat[pat.len() - 1 - v] == c
        &&& forall|j: int| pat.len() - 1 - v < j < upto ==> pat[j] != c
    })
}

/// A finished table entry leaves no occurrence of `c` in the last `v`
/// pattern positions before the end.
proof fn lemma_bad_char_entry_final(pat: Seq<u8>, c: u8, v: int)
    requires
        bad_char_entry_ok(pat, c, pat.len() as int, v),
    ensures
        forall|j: int| pat.len() - 1 - v < j < pat.len() ==> pat[j] != c,
{
}

/// Case-insensitive substring match with adaptive algorithm selection:
/// a linear scan for one-byte patterns, a bad-character-table search for
/// patterns up to 16 bytes, and a naive scan beyond that. `pattern` must
/// already be lowered.
pub fn contains_case_insensitive(data: &[u8], pattern: &[u8]) -> (r: bool)
    ensures
        r == spec_ci_contains(data@, pattern@),
{
    let data_len = data.len();
    let pattern_len = pattern.len();

    if data_len < pattern_len {
        return false;
    }

    if pattern_len == 0 {
        proof {
            assert(spec_ci_match_at(data@, pattern@, 0));
        }
        return true;
    }

    // Fast path: scan for the single target byte.
    if pattern_len == 1 {
        let target = pattern[0];
        let mut i: usize = 0;
        while i < data_len
            invariant
                data_len == data@.len(),
                pattern@.len() == 1,
                target == pattern@[0],
                0 <= i <= data_len,
                forall|p: int| 0 <= p < i ==> spec_lower_byte(#[trigger] data@[p]) != target,
            decreases data_len - i,
        {
            if lower_byte(data[i]) == target {
                proof {
                    assert(spec_ci_match_at(data@, pattern@, i as int));
                }
                return true;
            }
            i += 1;
        }
        proof {
            assert forall|pos: int| !spec_ci_match_at(data@, pattern@, pos) by {
                if 0 <= pos && pos + 1 <= data@.len() {
                    assert(spec_lower_byte(data@[pos]) != target);
                }
            }
        }
        return false;
    }

    // Patterns up to 16 bytes: bad-character-table search.
    if pattern_len <= 16 {
        let mut bad_char: Vec<usize> = Vec::new();
        while bad_char.len() < 256
            invariant
                bad_char@.len() <= 256,
                forall|c: int| 0 <= c < bad_char@.len() ==> bad_char@[c] == pattern_len,
            decreases 256 - bad_char.len(),
        {
            bad_char.push(pattern_len);
        }
        let mut k: usize = 0;
        while k < pattern_len
            invariant
                pattern_len == pattern@.len(),
                2 <= pattern_len <= 16,
                bad_char@.len() == 256,
                0 <= k <= pattern_len,
                forall|c: u8|
                    bad_char_entry_ok(
                        pattern@,
                        c,
                        k as int,
                        #[trigger] bad_char@[c as int] as int,
                    ),
            decreases pattern_len - k,
        {
            let ghost old_table = bad_char@;
            let pk = pattern[k];
            bad_char[pk as usize] = pattern_len - 1 - k;
            k += 1;
            proof {
                assert forall|c: u8|
                    bad_char_entry_ok(
                        pattern@,
                        c,
                        k as int,
                        #[trigger] bad_char@[c as int] as int,
                    ) by {
                    if c == pk {
                        assert(bad_char@[c as int] == pattern_len - 1 - (k - 1));
                    } else {
                        assert(bad_char@[c as int] == old_table[c as int]);
                        assert(bad_char_entry_ok(pattern@, c, k as int - 1, old_table[c as int] as int));
                        assert(pattern@[k - 1] != c);
                    }
                }
            }
        }

        let mut pos: usize = 0;
        while pos <= data_len - pattern_len
            invariant
                data_len == data@.len(),
                pattern_len == pattern@.len(),
                2 <= pattern_len <= 16,
                pattern_len <= data_len,
                bad_char@.len() == 256,
                forall|c: u8|
                    bad_char_entry_ok(
                        pattern@,
                        c,
                        pattern_len as int,
                        #[trigger] bad_char@[c as int] as int,
                    ),
                forall|p: int| 0 <= p < pos ==> !spec_ci_match_at(data@, pattern@, p),
            decreases data_len - pos,
        {
            let mut j: usize = pattern_len;
            let mut found_mismatch = false;

            while j > 0
                invariant
                    data_len == data@.len(),
                    pattern_len == pattern@.len(),
                    pos + pattern_len <= data_len,
                    0 <= j <= pattern_len,
                    !found_mismatch ==> forall|jj: int|
                        j <= jj < pattern_len ==> spec_lower_byte(data@[pos + jj])
                            == #[trigger] pattern@[jj],
                    found_mismatch ==> exists|jj: int|
                        0 <= jj < pattern_len && spec_lower_byte(data@[pos + jj])
                            != #[trigger] pattern@[jj],
                ensures
                    j == 0 || found_mismatch,
                    !found_mismatch ==> forall|jj: int|
                        j <= jj < pattern_len ==> spec_lower_byte(data@[pos + jj])
                            == #[trigger] pattern@[jj],
                    found_mismatch ==> exists|jj: int|
                        0 <= jj < pattern_len && spec_lower_byte(data@[pos + jj])
                            != #[trigger] pattern@[jj],
                decreases j,
            {
                j -= 1;
                if lower_byte(data[pos + j]) != pattern[j] {
                    found_mismatch = true;
                    break;
                }
            }

            if j == 0 && !found_mismatch {
                proof {
                    assert(spec_ci_match_at(data@, pattern@, pos as int));
                }
                return true;
            }

            let last_idx = pos + pattern_len - 1;
            let c = lower_byte(data[last_idx]);
            let skip = bad_char[c as usize];
            let step = if skip > 0 {
                skip
            } else {
                1
            };
            proof {
                assert(found_mismatch);
                let jw = choose|jj: int|
                    0 <= jj < pattern_len && spec_lower_byte(data@[pos + jj]) != pattern@[jj];
                assert(!spec_ci_match_at(data@, pattern@, pos as int)) by {
                    if spec_ci_match_at(data@, pattern@, pos as int) {
                        assert(spec_lower_byte(data@[pos + jw]) == pattern@[jw]);
                    }
                }
                let v = bad_char@[c as int] as int;
                lemma_bad_char_entry_final(pattern@, c, v);
                assert forall|p: int|
                    pos < p < pos + step implies !spec_ci_match_at(data@, pattern@, p) by {
                    let s = p - pos;
                    if spec_ci_match_at(data@, pattern@, p) {
                        let jj = pattern_len - 1 - s;
                        assert(spec_lower_byte(data@[p + jj]) == pattern@[jj]);
                        assert(pattern@[jj] == c);
                        assert(pattern_len - 1 - v < jj < pattern_len);
                        assert(false);
                    }
                }
            }
            pos += step;
        }
        proof {
            assert forall|p: int| !spec_ci_match_at(data@, pattern@, p) by {
                if 0 <= p && p + pattern@.len() <= data@.len() {
                    assert(p < pos);
                }
            }
        }
        return false;
    }

    // Long patterns: naive scan.
    let mut start: usize = 0;
    while start <= data_len - pattern_len
        invariant
            data_len == data@.len(),
            pattern_len == pattern@.len(),
            0 < pattern_len <= data_len,
            forall|p: int| 0 <= p < start ==> !spec_ci_match_at(data@, pattern@, p),
        decreases data_len - start,
    {
        let mut i: usize = 0;
        let mut matches = true;
        while i < pattern_len
            invariant
                data_len == data@.len(),
                pattern_len == pattern@.len(),
                start + pattern_len <= data_len,
                0 <= i <= pattern_len,
                matches ==> forall|jj: int|
                    0 <= jj < i ==> spec_lower_byte(data@[start + jj]) == #[trigger] pattern@[jj],
                !matches ==> exists|jj: int|
                    0 <= jj < pattern_len && spec_lower_byte(data@[start + jj])
                        != #[trigger] pattern@[jj],
            ensures
                matches ==> i == pattern_len,
                matches ==> forall|jj: int|
                    0 <= jj < i ==> spec_lower_byte(data@[start + jj]) == #[trigger] pattern@[jj],
                !matches ==> exists|jj: int|
                    0 <= jj < pattern_len && spec_lower_byte(data@[start + jj])
                        != #[trigger] pattern@[jj],
            decreases pattern_len - i,
        {
            if lower_byte(data[start + i]) != pattern[i] {
                matches = false;
                break;
            }
            i += 1;
        }
        if matches {
            proof {
                assert(spec_ci_match_at(data@, pattern@, start as int));
            }
            return true;
        }
        proof {
            let jw = choose|jj: int|
                0 <= jj < pattern_len && spec_lower_byte(data@[start + jj]) != pattern@[jj];
            assert(!spec_ci_match_at(data@, pattern@, start as int)) by {
                if spec_ci_match_at(data@, pattern@, start as int) {
                    assert(spec_lower_byte(data@[start + jw]) == pattern@[jw]);
                }
            }
        }
        start += 1;
    }
    proof {
        assert forall|p: int| !spec_ci_match_at(data@, pattern@, p) by {
            if 0 <= p && p + pattern@.len() <= data@.len() {
                assert(p < start);
            }
        }
    }
    false
}

/// Law: the case-insensitive prefix matcher applied to a pre-lowered
/// pattern decides exactly "lowercase both operands, then compare as a
/// prefix".
pub proof fn lemma_ci_prefix_is_lowercase_compare(data: Seq<u8>, pattern: Seq<u8>)
    ensures
        spec_ci_prefix(data, lower_bytes(pattern)) == spec_is_prefix(
            lower_bytes(pattern),
            lower_bytes(data),
        ),
{
    assert(lower_bytes(data).len() == data.len());
    assert(lower_bytes(pattern).len() == pattern.len());
}

/// Law: the case-insensitive suffix matcher applied to a pre-lowered
/// pattern decides exactly "lowercase both operands, then compare as a
/// suffix".
pub proof fn lemma_ci_suffix_is_lowercase_compare(data: Seq<u8>, pattern: Seq<u8>)
    ensures
        spec_ci_suffix(data, lower_bytes(pattern)) == spec_is_suffix(
            lower_bytes(pattern),
            lower_bytes(data),
        ),
{
    assert(lower_bytes(data).len() == data.len());
    assert(lower_bytes(pattern).len() == pattern.len());
}

/// Law: the case-insensitive substring matcher applied to a pre-lowered
/// pattern decides exactly "lowercase both operands, then search".
pub proof fn lemma_ci_contains_is_lowercase_compare(data: Seq<u8>, pattern: Seq<u8>)
    ensures
        spec_ci_contains(data, lower_bytes(pattern)) == spec_contains(
            lower_bytes(data),
            lower_bytes(pattern),
        ),
{
    assert(lower_bytes(data).len() == data.len());
    assert(lower_bytes(pattern).len() == pattern.len());
    if spec_ci_contains(data, lower_bytes(pattern)) {
        let pos = choose|pos: int| spec_ci_match_at(data, lower_bytes(pattern), pos);
        assert(spec_matches_at(lower_bytes(data), lower_bytes(pattern), pos));
    }
    if spec_contains(lower_bytes(data), lower_bytes(pattern)) {
        let pos = choose|pos: int| spec_matches_at(lower_bytes(data), lower_bytes(pattern), pos);
        assert(spec_ci_match_at(data, lower_bytes(pattern), pos));
    }
}

/// Law: boundary lengths for the case-insensitive matchers. An empty
/// pattern matches everywhere; a pattern longer than the data matches
/// nowhere; a pattern as long as the data matches only whole.
pub proof fn lemma_ci_matcher_boundaries(data: Seq<u8>, pattern: Seq<u8>)
    ensures
        pattern.len() == 0 ==> spec_ci_prefix(data, pattern) && spec_ci_suffix(data, pattern)
            && spec_ci_contains(data, pattern),
        pattern.len() > data.len() ==> !spec_ci_prefix(data, pattern) && !spec_ci_suffix(
            data,
            pattern,
        ) && !spec_ci_contains(data, pattern),
        pattern.len() == data.len() ==> (spec_ci_prefix(data, pattern) == spec_ci_suffix(
            data,
            pattern,
        ) && spec_ci_prefix(data, pattern) == spec_ci_contains(data, pattern)),
{
    if pattern.len() == 0 {
        assert(spec_ci_match_at(data, pattern, 0));
        assert(spec_ci_match_at(data, pattern, data.len() - pattern.len()));
    }
    if pattern.len() > data.len() {
        assert forall|pos: int| !spec_ci_match_at(data, pattern, pos) by {}
    }
    if pattern.len() == data.len() {
        assert(spec_ci_suffix(data, pattern) == spec_ci_match_at(data, pattern, 0));
        if spec_ci_contains(data, pattern) {
            let pos = choose|pos: int| spec_ci_match_at(data, pattern, pos);
            assert(pos == 0);
        }
    }
}

} // verus!

//! Cross-cutting helpers: mutex-guarded read and write against the shared
//! transport connection, strict UTF-8 decoding with a typed failure,
//! delimiter splitting, and random cookie generation.

use vstd::prelude::*;
use vstd::string::{StrSliceExecFns, StringExecFns};
use vstd::utf8::{decode_utf8, valid_utf8};
use rand::Rng;
use crate::client::Client;
use crate::error::{SshError, SshResult};
use crate::global::{Registry, RegistrySlot};

verus! {

/// Writes one payload through the shared transport connection under its
/// lock: the whole payload reaches the stream as one contiguous run, so
/// payloads written by different holders can only follow one another,
/// never interleave byte by byte. Lock failure surfaces the normalized
/// mutex kind; an uninstalled client its not-initialized kind.
pub fn write(client: &mut Registry<Client>, v: &[u8]) -> (r: SshResult<()>)
    ensures
        old(client).slot matches RegistrySlot::Ready(c) ==> {
            &&& r == Ok::<(), SshError>(())
            &&& final(client).slot matches RegistrySlot::Ready(c2) && c2.stream@ == c.stream@ + v@
                && c2.inbound == c.inbound
        },
        old(client).slot is Empty ==> r == Err::<(), SshError>(old(client).missing) && *final(client) == *old(client),
        old(client).slot is Held ==> r == Err::<(), SshError>(SshError::MutexError) && *final(client) == *old(client),
        final(client).missing == old(client).missing,
{
    match client.acquire() {
        Ok(mut c) => {
            match c.write(v) {
                Ok(_) => {
                    client.release(c);
                    Ok(())
                },
                Err(e) => {
                    client.release(c);
                    Err(e)
                },
            }
        },
        Err(e) => Err(e),
    }
}

/// Collects, under the client's lock, every packet the transport has
/// already delivered, in arrival order, leaving the queue empty. Error
/// normalization as in `write`.
pub fn read(client: &mut Registry<Client>) -> (r: SshResult<Vec<Vec<u8>>>)
    ensures
        old(client).slot matches RegistrySlot::Ready(c) ==> {
            &&& r matches Ok(ps) && ps@ == c.inbound@
            &&& final(client).slot matches RegistrySlot::Ready(c2) && c2.inbound@ == Seq::<
                Vec<u8>,
            >::empty() && c2.stream == c.stream
        },
        old(client).slot is Empty ==> r == Err::<Vec<Vec<u8>>, SshError>(old(client).missing)
            && *final(client) == *old(client),
        old(client).slot is Held ==> r == Err::<Vec<Vec<u8>>, SshError>(SshError::MutexError)
            && *final(client) == *old(client),
        final(client).missing == old(client).missing,
{
    match client.acquire() {
        Ok(mut c) => {
            match c.read() {
                Ok(ps) => {
                    client.release(c);
                    Ok(ps)
                },
                Err(e) => {
                    client.release(c);
                    Err(e)
                },
            }
        },
        Err(e) => Err(e),
    }
}

/// Relies on `String::from_utf8`: it succeeds exactly on the byte
/// sequences that are valid UTF-8, and returns the string those bytes
/// encode.
#[verifier::external_body]
fn string_from_utf8(v: Vec<u8>) -> (r: Option<String>)
    ensures
        r is Some <==> valid_utf8(v@),
        r matches Some(s) ==> s@ == decode_utf8(v@),
{
    String::from_utf8(v).ok()
}

/// Strict UTF-8 decoding: succeeds on exactly the valid byte sequences,
/// returning the text they encode; anything else is the decode-failure
/// kind. No lossy fallback, no partial recovery.
pub fn from_utf8(v: Vec<u8>) -> (r: SshResult<String>)
    ensures
        r is Ok <==> valid_utf8(v@),
        r matches Ok(s) ==> s@ == decode_utf8(v@),
        !valid_utf8(v@) ==> r == Err::<String, SshError>(SshError::FromUtf8Error),
{
    match string_from_utf8(v) {
        Some(s) => Ok(s),
        None => Err(SshError::FromUtf8Error),
    }
}

/// Relies on rand's `OsRng` and `Rng::gen`: sixteen bytes drawn from the
/// operating system's cryptographic randomness source. Nothing is assumed
/// of the drawn values; only their count is fixed.
#[verifier::external_body]
fn os_random_16() -> (r: Vec<u8>)
    ensures
        r@.len() == 16,
{
    let c: [u8; 16] = rand::rngs::OsRng.gen();
    c.to_vec()
}

/// Sixteen bytes of cryptographically sourced randomness, for handshake
/// nonces outside this core.
pub fn cookie() -> (r: Vec<u8>)
    ensures
        r@.len() == 16,
{
    os_random_16()
}

/// The delimiter's characters stand at position `m` of `s`.
pub open spec fn match_at(s: Seq<char>, p: Seq<char>, m: int) -> bool {
    &&& 0 <= m
    &&& m + p.len() <= s.len()
    &&& s.subrange(m, m + p.len()) == p
}

/// The parts of `s` split on the delimiter `p`, in original order, empty
/// parts kept, leftmost matches taken first. An empty delimiter matches at
/// every character boundary, as the standard splitter has it: one empty
/// part before, every character alone, one empty part after.
pub open spec fn split_chars(s: Seq<char>, p: Seq<char>) -> Seq<Seq<char>>
    decreases s.len(),
{
    if p.len() == 0 {
        seq![Seq::<char>::empty()] + Seq::new(s.len(), |i: int| seq![s[i]]) + seq![
            Seq::<char>::empty(),
        ]
    } else if s.len() < p.len() {
        seq![s]
    } else if s.subrange(0, p.len() as int) == p {
        seq![Seq::<char>::empty()] + split_chars(s.skip(p.len() as int), p)
    } else {
        let rest = split_chars(s.skip(1), p);
        seq![seq![s[0]] + rest[0]] + rest.skip(1)
    }
}

/// The parts joined back with the delimiter between them.
pub open spec fn join_chars(parts: Seq<Seq<char>>, p: Seq<char>) -> Seq<char>
    decreases parts.len(),
{
    if parts.len() == 0 {
        Seq::empty()
    } else if parts.len() == 1 {
        parts[0]
    } else {
        parts[0] + p + join_chars(parts.skip(1), p)
    }
}

/// Splitting always yields at least one part.
pub proof fn lemma_split_len(s: Seq<char>, p: Seq<char>)
    ensures
        split_chars(s, p).len() >= 1,
    decreases s.len(),
{
    if p.len() == 0 {
    } else if s.len() < p.len() {
    } else if s.subrange(0, p.len() as int) == p {
        lemma_split_len(s.skip(p.len() as int), p);
    } else {
        lemma_split_len(s.skip(1), p);
    }
}

/// Splitting loses nothing: joining the parts with the delimiter rebuilds
/// the original text exactly, so every character survives in its original
/// order and no part is dropped.
pub proof fn lemma_split_join(s: Seq<char>, p: Seq<char>)
    requires
        p.len() >= 1,
    ensures
        join_chars(split_chars(s, p), p) == s,
    decreases s.len(),
{
    if s.len() < p.len() {
    } else if s.subrange(0, p.len() as int) == p {
        let tail = s.skip(p.len() as int);
        lemma_split_join(tail, p);
        lemma_split_len(tail, p);
        let parts = seq![Seq::<char>::empty()] + split_chars(tail, p);
        assert(split_chars(s, p) == parts);
        assert(parts.skip(1) =~= split_chars(tail, p));
        assert(parts[0] + p + join_chars(split_chars(tail, p), p) =~= s);
    } else {
        let s1 = s.skip(1);
        let rest = split_chars(s1, p);
        lemma_split_join(s1, p);
        lemma_split_len(s1, p);
        let parts = seq![seq![s[0]] + rest[0]] + rest.skip(1);
        assert(split_chars(s, p) == parts);
        if rest.len() == 1 {
            assert(parts.len() == 1);
            assert(join_chars(rest, p) == rest[0]);
            assert(parts[0] =~= s);
        } else {
            assert(parts.len() >= 2);
            assert(parts.skip(1) =~= rest.skip(1));
            assert(join_chars(rest, p) == rest[0] + p + join_chars(rest.skip(1), p));
            assert(parts[0] + p + join_chars(rest.skip(1), p) =~= seq![s[0]] + (rest[0] + p
                + join_chars(rest.skip(1), p)));
            assert(seq![s[0]] + s1 =~= s);
        }
    }
}

/// Splitting at the leftmost match: everything before it is the first
/// part, and the rest splits on its own.
pub proof fn lemma_split_first_match(s: Seq<char>, p: Seq<char>, m: int)
    requires
        p.len() >= 1,
        match_at(s, p, m),
        forall|t: int| 0 <= t < m ==> !match_at(s, p, t),
    ensures
        split_chars(s, p) == seq![s.take(m)] + split_chars(s.skip(m + p.len()), p),
    decreases m,
{
    if m == 0 {
        assert(s.subrange(0, p.len() as int) == p);
        assert(s.take(0int) =~= Seq::<char>::empty());
        assert(s.skip(0 + p.len() as int) =~= s.skip(p.len() as int));
        assert(split_chars(s, p) =~= seq![s.take(0int)] + split_chars(s.skip(0 + p.len() as int), p));
    } else {
        assert(s.len() >= p.len());
        assert(s.subrange(0, p.len() as int) != p) by {
            if s.subrange(0, p.len() as int) == p {
                assert(match_at(s, p, 0));
            }
        }
        let s1 = s.skip(1);
        assert(match_at(s1, p, m - 1)) by {
            assert(s1.subrange(m - 1, m - 1 + p.len()) =~= s.subrange(m, m + p.len()));
        }
        assert forall|t: int| 0 <= t < m - 1 implies !match_at(s1, p, t) by {
            if match_at(s1, p, t) {
                assert(s.subrange(t + 1, t + 1 + p.len()) =~= s1.subrange(t, t + p.len()));
                assert(match_at(s, p, t + 1));
            }
        }
        lemma_split_first_match(s1, p, m - 1);
        let rest = split_chars(s1, p);
        assert(rest[0] == s1.take(m - 1));
        assert(rest.skip(1) =~= split_chars(s1.skip(m - 1 + p.len()), p));
        assert(seq![s[0]] + s1.take(m - 1) =~= s.take(m));
        assert(s1.skip(m - 1 + p.len()) =~= s.skip(m + p.len()));
        assert(split_chars(s, p) =~= seq![s.take(m)] + split_chars(s.skip(m + p.len()), p));
    }
}

/// Where the delimiter matches nowhere, the whole text is the one part.
pub proof fn lemma_split_no_match(s: Seq<char>, p: Seq<char>)
    requires
        p.len() >= 1,
        forall|t: int| !match_at(s, p, t),
    ensures
        split_chars(s, p) == seq![s],
    decreases s.len(),
{
    if s.len() < p.len() {
    } else {
        assert(s.subrange(0, p.len() as int) != p) by {
            if s.subrange(0, p.len() as int) == p {
                assert(match_at(s, p, 0));
            }
        }
        let s1 = s.skip(1);
        assert forall|t: int| !match_at(s1, p, t) by {
            if match_at(s1, p, t) {
                assert(s.subrange(t + 1, t + 1 + p.len()) =~= s1.subrange(t, t + p.len()));
                assert(match_at(s, p, t + 1));
            }
        }
        lemma_split_no_match(s1, p);
        assert(split_chars(s1, p).skip(1) =~= Seq::<Seq<char>>::empty());
        assert(seq![s[0]] + s1 =~= s);
        assert(split_chars(s, p) =~= seq![s]);
    }
}

/// Whether the delimiter's characters stand at position `i` of `s`.
fn is_match_at(s: &str, pat: &str, i: usize, n: usize, plen: usize) -> (r: bool)
    requires
        n == s@.len(),
        plen == pat@.len(),
        i + plen <= n,
    ensures
        r == match_at(s@, pat@, i as int),
{
    let mut j: usize = 0;
    while j < plen
        invariant
            j <= plen,
            n == s@.len(),
            plen == pat@.len(),
            i + plen <= n,
            forall|t: int| 0 <= t < j ==> s@[i as int + t] == pat@[t],
        decreases plen - j,
    {
        let c1 = s.get_char(i + j);
        let c2 = pat.get_char(j);
        if c1 != c2 {
            proof {
                assert(!match_at(s@, pat@, i as int)) by {
                    if s@.subrange(i as int, i as int + pat@.len()) == pat@ {
                        assert(s@.subrange(i as int, i as int + pat@.len())[j as int] == s@[i as int
                            + j]);
                    }
                }
            }
            return false;
        }
        j += 1;
    }
    proof {
        assert(s@.subrange(i as int, i as int + pat@.len()) =~= pat@);
    }
    true
}

/// Decodes the bytes as strict UTF-8 and splits the text on the
/// delimiter, returning the parts in original order with none dropped,
/// empty parts between consecutive delimiters included. The decode
/// failure propagates unchanged.
pub fn vec_u8_to_string(v: Vec<u8>, pat: &str) -> (r: SshResult<Vec<String>>)
    ensures
        r is Ok <==> valid_utf8(v@),
        r matches Ok(parts) ==> parts.deep_view() == split_chars(decode_utf8(v@), pat@),
        !valid_utf8(v@) ==> r == Err::<Vec<String>, SshError>(SshError::FromUtf8Error),
{
    let ghost vbytes: Seq<u8> = v@;
    let string = match from_utf8(v) {
        Ok(s) => s,
        Err(e) => {
            return Err(e);
        },
    };
    let s: &str = string.as_str();
    let ghost full: Seq<char> = s@;
    proof {
        assert(full == decode_utf8(vbytes));
    }
    let n: usize = s.unicode_len();
    let plen: usize = pat.unicode_len();
    let mut parts: Vec<String> = Vec::new();
    if plen == 0 {
        parts.push(String::new());
        let mut i: usize = 0;
        proof {
            assert(parts.deep_view() =~~= seq![Seq::<char>::empty()] + Seq::new(
                0nat,
                |t: int| seq![full[t]],
            ));
        }
        while i < n
            invariant
                i <= n,
                n == full.len(),
                full == s@,
                parts.deep_view() == seq![Seq::<char>::empty()] + Seq::new(
                    i as nat,
                    |t: int| seq![full[t]],
                ),
            decreases n - i,
        {
            let piece = s.substring_char(i, i + 1);
            let ghost pdv = parts.deep_view();
            parts.push(String::from_str(piece));
            proof {
                assert(piece@ =~= seq![full[i as int]]);
                assert(parts.deep_view() =~~= pdv.push(seq![full[i as int]]));
                assert(parts.deep_view() =~= seq![Seq::<char>::empty()] + Seq::new(
                    (i + 1) as nat,
                    |t: int| seq![full[t]],
                ));
            }
            i += 1;
        }
        let ghost pdv = parts.deep_view();
        parts.push(String::new());
        proof {
            assert(parts.deep_view() =~~= pdv.push(Seq::<char>::empty()));
            assert(parts.deep_view() =~= split_chars(full, pat@));
        }
        return Ok(parts);
    }
    let mut seg_start: usize = 0;
    let mut i: usize = 0;
    proof {
        assert(full.skip(0int) =~= full);
        assert(parts.deep_view() =~= Seq::<Seq<char>>::empty());
        assert(Seq::<Seq<char>>::empty() + split_chars(full, pat@) =~= split_chars(full, pat@));
    }
    while plen <= n - i
        invariant
            n == full.len(),
            plen == pat@.len(),
            plen >= 1,
            full == s@,
            seg_start <= i,
            i <= n,
            forall|t: int| seg_start <= t < i ==> !match_at(full, pat@, t),
            split_chars(full, pat@) == parts.deep_view() + split_chars(
                full.skip(seg_start as int),
                pat@,
            ),
        decreases n - i,
    {
        if is_match_at(s, pat, i, n, plen) {
            let piece = s.substring_char(seg_start, i);
            let ghost pdv = parts.deep_view();
            parts.push(String::from_str(piece));
            proof {
                let u = full.skip(seg_start as int);
                let mp = i - seg_start;
                assert(match_at(u, pat@, mp as int)) by {
                    assert(u.subrange(mp as int, mp + pat@.len()) =~= full.subrange(
                        i as int,
                        i + pat@.len(),
                    ));
                }
                assert forall|t: int| 0 <= t < mp implies !match_at(u, pat@, t) by {
                    if match_at(u, pat@, t) {
                        assert(full.subrange(
                            seg_start + t,
                            seg_start + t + pat@.len(),
                        ) =~= u.subrange(t, t + pat@.len()));
                        assert(match_at(full, pat@, seg_start + t));
                    }
                }
                lemma_split_first_match(u, pat@, mp as int);
                assert(u.take(mp as int) =~= full.subrange(seg_start as int, i as int));
                assert(u.skip(mp + pat@.len()) =~= full.skip(i + pat@.len()));
                assert(piece@ == u.take(mp as int));
                assert(parts.deep_view() =~~= pdv.push(piece@));
                assert(pdv + (seq![piece@] + split_chars(full.skip(i + pat@.len()), pat@)) =~= pdv.push(
                    piece@,
                ) + split_chars(full.skip(i + pat@.len()), pat@));
            }
            seg_start = i + plen;
            i = seg_start;
        } else {
            i += 1;
        }
    }
    let piece = s.substring_char(seg_start, n);
    let ghost pdv = parts.deep_view();
    parts.push(String::from_str(piece));
    proof {
        let u = full.skip(seg_start as int);
        assert forall|t: int| !match_at(u, pat@, t) by {
            if match_at(u, pat@, t) {
                assert(full.subrange(seg_start + t, seg_start + t + pat@.len()) =~= u.subrange(
                    t,
                    t + pat@.len(),
                ));
                assert(match_at(full, pat@, seg_start + t));
            }
        }
        lemma_split_no_match(u, pat@);
        assert(piece@ =~= u);
        assert(parts.deep_view() =~~= pdv.push(piece@));
        assert(pdv + seq![u] =~= pdv.push(piece@));
        assert(parts.deep_view() == split_chars(full, pat@));
    }
    Ok(parts)
}

} // verus!

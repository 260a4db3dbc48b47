//! Verification of the payment provider's signed confirmations: the
//! `t=<ts>,v1=<hex>` header, the HMAC-SHA256 of `"<ts>.<body>"`, and the
//! accepted clock skew.
use vstd::prelude::*;
use crate::error::GameError;

verus! {

/// Largest accepted distance, in seconds, between a confirmation's timestamp and now.
pub const SIGNATURE_TOLERANCE_SECONDS: i64 = 300;

/// The HMAC-SHA256 of `msg` under `key`.
pub uninterp spec fn hmac_sha256_of(key: Seq<u8>, msg: Seq<u8>) -> Seq<u8>;

/// Relies on hmac::Hmac<sha2::Sha256>: `new_from_slice` accepts a key of any
/// length, and `update` then `finalize` give the MAC of the message.
#[verifier::external_body]
fn hmac_sha256(key: &[u8], msg: &[u8]) -> (r: Vec<u8>)
    ensures
        r@ == hmac_sha256_of(key@, msg@),
{
    match <hmac::Hmac<sha2::Sha256> as hmac::Mac>::new_from_slice(key) {
        Ok(mut mac) => {
            hmac::Mac::update(&mut mac, msg);
            hmac::Mac::finalize(mac).into_bytes().to_vec()
        },
        Err(_) => Vec::new(),
    }
}

/// The view of an optional byte vector.
pub open spec fn opt_view(o: Option<Vec<u8>>) -> Option<Seq<u8>> {
    match o {
        Some(v) => Some(v@),
        None => None,
    }
}

/// The ASCII lowercase hex digit of a nibble.
pub open spec fn hex_digit(n: int) -> u8 {
    if n < 10 {
        (48 + n) as u8
    } else {
        (87 + n) as u8
    }
}

/// Lowercase hex of `b`: two digits per byte, high nibble first.
pub open spec fn hex_of(b: Seq<u8>) -> Seq<u8>
    decreases b.len(),
{
    if b.len() == 0 {
        seq![]
    } else {
        hex_of(b.drop_last()) + seq![hex_digit(b.last() as int / 16), hex_digit(b.last() as int % 16)]
    }
}

/// Relies on hex::encode: two lowercase hex digits per byte, high nibble first.
#[verifier::external_body]
fn hex_encode(b: &[u8]) -> (r: Vec<u8>)
    ensures
        r@ == hex_of(b@),
{
    hex::encode(b).into_bytes()
}

/// The index of the last `,` in `h`, or −1.
pub open spec fn last_comma(h: Seq<u8>) -> int
    decreases h.len(),
{
    if h.len() == 0 {
        -1
    } else if h.last() == 44 {
        h.len() - 1
    } else {
        last_comma(h.drop_last())
    }
}

/// `h` split at every `,`.
pub open spec fn split_commas(h: Seq<u8>) -> Seq<Seq<u8>>
    decreases h.len(),
{
    let k = last_comma(h);
    if k < 0 || k >= h.len() {
        seq![h]
    } else {
        split_commas(h.take(k)).push(h.skip(k + 1))
    }
}

/// The index of the first `=` in `p`, or −1.
pub open spec fn first_eq(p: Seq<u8>) -> int
    decreases p.len(),
{
    if p.len() == 0 {
        -1
    } else if p[0] == 61 {
        0
    } else {
        let r = first_eq(p.drop_first());
        if r < 0 {
            -1
        } else {
            r + 1
        }
    }
}

/// The timestamp and the signature read so far.
pub type HeaderFields = (Option<Seq<u8>>, Option<Seq<u8>>);

/// Reads one `key=value` part: key `t` sets the timestamp, key `v1` the
/// signature; a part without `=` or with another key changes nothing.
pub open spec fn apply_part(st: HeaderFields, p: Seq<u8>) -> HeaderFields {
    let k = first_eq(p);
    if k < 0 {
        st
    } else if p.take(k) == seq![116u8] {
        (Some(p.skip(k + 1)), st.1)
    } else if p.take(k) == seq![118u8, 49u8] {
        (st.0, Some(p.skip(k + 1)))
    } else {
        st
    }
}

/// Reads the parts in order, so a later part overrides an earlier one.
pub open spec fn read_parts(ps: Seq<Seq<u8>>) -> HeaderFields
    decreases ps.len(),
{
    if ps.len() == 0 {
        (None, None)
    } else {
        apply_part(read_parts(ps.drop_last()), ps.last())
    }
}

/// The timestamp and signature that a signature header carries.
pub open spec fn header_fields(h: Seq<u8>) -> HeaderFields {
    read_parts(split_commas(h))
}

/// Every byte is an ASCII digit.
pub open spec fn all_digits(d: Seq<u8>) -> bool {
    forall|i: int| 0 <= i < d.len() ==> 48 <= #[trigger] d[i] <= 57
}

/// The number that the decimal digits `d` write.
pub open spec fn digits_value(d: Seq<u8>) -> int
    decreases d.len(),
{
    if d.len() == 0 {
        0
    } else {
        digits_value(d.drop_last()) * 10 + (d.last() - 48)
    }
}

/// `s` read as an `i64`: an optional `+` or `-`, then one or more decimal
/// digits, with a value in range.
pub open spec fn parse_i64_spec(s: Seq<u8>) -> Option<i64> {
    let neg = s.len() > 0 && s[0] == 45;
    let body = if s.len() > 0 && (s[0] == 45 || s[0] == 43) {
        s.drop_first()
    } else {
        s
    };
    let v = if neg {
        -digits_value(body)
    } else {
        digits_value(body)
    };
    if body.len() == 0 || !all_digits(body) || v < i64::MIN || v > i64::MAX {
        None
    } else {
        Some(v as i64)
    }
}

/// The outcome of checking a timestamp and signature against the `mac`
/// computed for them: the hex of `mac` must equal the signature, the
/// timestamp must be a number, and it must lie within the tolerance of `now`.
pub open spec fn signature_outcome(ts: Seq<u8>, sig: Seq<u8>, mac: Seq<u8>, now: int) -> Result<
    (),
    GameError,
> {
    if hex_of(mac) != sig {
        Err(GameError::InvalidSignature)
    } else {
        match parse_i64_spec(ts) {
            None => Err(GameError::InvalidTimestamp),
            Some(t) => if now - t > SIGNATURE_TOLERANCE_SECONDS || t - now > SIGNATURE_TOLERANCE_SECONDS {
                Err(GameError::TimestampOutOfTolerance)
            } else {
                Ok(())
            },
        }
    }
}

/// The message that the provider signs: the timestamp, a `.`, then the body.
pub open spec fn signed_message(ts: Seq<u8>, body: Seq<u8>) -> Seq<u8> {
    ts + seq![46u8] + body
}

/// The outcome of verifying a confirmation `body` with signature header
/// `header` under `secret` at `now` (seconds since the epoch).
pub open spec fn webhook_outcome(body: Seq<u8>, header: Seq<u8>, secret: Seq<u8>, now: int) -> Result<
    (),
    GameError,
> {
    let f = header_fields(header);
    match f.0 {
        None => Err(GameError::MissingTimestamp),
        Some(ts) => match f.1 {
            None => Err(GameError::MissingSignature),
            Some(sig) => signature_outcome(ts, sig, hmac_sha256_of(secret, signed_message(ts, body)), now),
        },
    }
}

proof fn lemma_last_comma(h: Seq<u8>, s: int)
    requires
        0 <= s <= h.len(),
        s == 0 || h[s - 1] == 44,
        forall|j: int| s <= j < h.len() ==> #[trigger] h[j] != 44,
    ensures
        last_comma(h) == s - 1,
    decreases h.len(),
{
    if h.len() > 0 && h.len() > s {
        let init = h.drop_last();
        assert(h.last() == h[h.len() - 1]);
        assert forall|j: int| s <= j < init.len() implies #[trigger] init[j] != 44 by {
            assert(init[j] == h[j]);
        }
        if s > 0 {
            assert(init[s - 1] == h[s - 1]);
        }
        lemma_last_comma(init, s);
    }
}

proof fn lemma_first_eq_at(p: Seq<u8>, k: int)
    requires
        0 <= k < p.len(),
        p[k] == 61,
        forall|m: int| 0 <= m < k ==> #[trigger] p[m] != 61,
    ensures
        first_eq(p) == k,
    decreases p.len(),
{
    if k > 0 {
        let rest = p.drop_first();
        assert(p[0] != 61);
        assert forall|m: int| 0 <= m < k - 1 implies #[trigger] rest[m] != 61 by {
            assert(rest[m] == p[m + 1]);
        }
        assert(rest[k - 1] == p[k]);
        lemma_first_eq_at(rest, k - 1);
    }
}

proof fn lemma_first_eq_none(p: Seq<u8>)
    requires
        forall|m: int| 0 <= m < p.len() ==> #[trigger] p[m] != 61,
    ensures
        first_eq(p) == -1,
    decreases p.len(),
{
    if p.len() > 0 {
        let rest = p.drop_first();
        assert(p[0] != 61);
        assert forall|m: int| 0 <= m < rest.len() implies #[trigger] rest[m] != 61 by {
            assert(rest[m] == p[m + 1]);
        }
        lemma_first_eq_none(rest);
    }
}

proof fn lemma_digits_nonneg(d: Seq<u8>)
    requires
        all_digits(d),
    ensures
        digits_value(d) >= 0,
    decreases d.len(),
{
    if d.len() > 0 {
        let init = d.drop_last();
        assert forall|i: int| 0 <= i < init.len() implies 48 <= #[trigger] init[i] <= 57 by {
            assert(init[i] == d[i]);
        }
        assert(d.last() == d[d.len() - 1]);
        lemma_digits_nonneg(init);
    }
}

/// A longer run of digits is worth at least as much as any prefix of it.
proof fn lemma_digits_prefix_le(d: Seq<u8>, i: int)
    requires
        all_digits(d),
        0 <= i <= d.len(),
    ensures
        digits_value(d.take(i)) <= digits_value(d),
    decreases d.len() - i,
{
    if i < d.len() {
        lemma_digits_prefix_le(d, i + 1);
        let p = d.take(i + 1);
        assert(p.drop_last() =~= d.take(i));
        assert(p.last() == d[i]);
        assert forall|k: int| 0 <= k < d.take(i).len() implies 48 <= #[trigger] d.take(i)[k] <= 57 by {
            assert(d.take(i)[k] == d[k]);
        }
        lemma_digits_nonneg(d.take(i));
    } else {
        assert(d.take(i) =~= d);
    }
}

/// Copies `h[lo..hi]`.
fn copy_range(h: &[u8], lo: usize, hi: usize) -> (r: Vec<u8>)
    requires
        lo <= hi <= h@.len(),
    ensures
        r@ == h@.subrange(lo as int, hi as int),
{
    let mut r: Vec<u8> = Vec::new();
    let mut i: usize = lo;
    while i < hi
        invariant
            lo <= i <= hi <= h@.len(),
            r@ == h@.subrange(lo as int, i as int),
        decreases hi - i,
    {
        r.push(h[i]);
        proof {
            assert(r@ =~= h@.subrange(lo as int, i + 1));
        }
        i = i + 1;
    }
    r
}

/// Applies the part `h[lo..hi]` to the fields read so far.
fn read_part(h: &[u8], lo: usize, hi: usize, ts: &mut Option<Vec<u8>>, sig: &mut Option<Vec<u8>>)
    requires
        lo <= hi <= h@.len(),
    ensures
        ({
            let st = apply_part(
                (
                    opt_view(*old(ts)),
                    opt_view(*old(sig)),
                ),
                h@.subrange(lo as int, hi as int),
            );
            &&& st.0 == opt_view(*final(ts))
            &&& st.1 == opt_view(*final(sig))
        }),
{
    let ghost p = h@.subrange(lo as int, hi as int);
    let mut k: usize = lo;
    while k < hi && h[k] != 61
        invariant
            lo <= k <= hi <= h@.len(),
            p == h@.subrange(lo as int, hi as int),
            forall|m: int| 0 <= m < k - lo ==> #[trigger] p[m] != 61,
        decreases hi - k,
    {
        k = k + 1;
    }
    if k == hi {
        proof {
            lemma_first_eq_none(p);
        }
        return;
    }
    proof {
        lemma_first_eq_at(p, k - lo);
    }
    let key_len = k - lo;
    let value = copy_range(h, k + 1, hi);
    proof {
        assert(p.skip(k - lo + 1) =~= h@.subrange(k + 1, hi as int));
    }
    if key_len == 1 && h[lo] == 116 {
        proof {
            assert(p.take(k - lo) =~= seq![116u8]);
        }
        *ts = Some(value);
    } else if key_len == 2 && h[lo] == 118 && h[lo + 1] == 49 {
        proof {
            assert(p.take(k - lo) =~= seq![118u8, 49u8]);
        }
        *sig = Some(value);
    } else {
        proof {
            if key_len == 1 {
                assert(p.take(1)[0] == h[lo as int]);
                assert(seq![118u8, 49u8].len() == 2);
                assert(p.take(1) != seq![118u8, 49u8]);
                if p.take(1) == seq![116u8] {
                    assert(seq![116u8][0] == 116u8);
                }
            } else if key_len == 2 {
                assert(p.take(2)[0] == h[lo as int] && p.take(2)[1] == h[lo + 1]);
                assert(seq![116u8].len() == 1);
                assert(p.take(2) != seq![116u8]);
                if p.take(2) == seq![118u8, 49u8] {
                    assert(seq![118u8, 49u8][0] == 118u8 && seq![118u8, 49u8][1] == 49u8);
                }
            } else {
                assert(p.take(key_len as int).len() != 1 && p.take(key_len as int).len() != 2);
            }
        }
    }
}

/// Reads the timestamp and the signature out of a signature header; a later
/// part overrides an earlier one.
pub fn parse_signature_header(header: &[u8]) -> (r: (Option<Vec<u8>>, Option<Vec<u8>>))
    ensures
        header_fields(header@).0 == opt_view(r.0),
        header_fields(header@).1 == opt_view(r.1),
{
    let mut ts: Option<Vec<u8>> = None;
    let mut sig: Option<Vec<u8>> = None;
    let mut start: usize = 0;
    let mut i: usize = 0;
    while i < header.len()
        invariant
            start <= i <= header@.len(),
            start == 0 || header@[start - 1] == 44,
            forall|j: int| start <= j < i ==> #[trigger] header@[j] != 44,
            start == 0 ==> ts is None && sig is None,
            start > 0 ==> ({
                let st = read_parts(split_commas(header@.take(start - 1)));
                &&& st.0 == opt_view(ts)
                &&& st.1 == opt_view(sig)
            }),
        decreases header@.len() - i,
    {
        if header[i] == 44 {
            read_part(header, start, i, &mut ts, &mut sig);
            proof {
                let hi = header@.take(i as int);
                assert forall|j: int| start <= j < hi.len() implies #[trigger] hi[j] != 44 by {
                    assert(hi[j] == header@[j]);
                }
                if start > 0 {
                    assert(hi[start - 1] == header@[start - 1]);
                }
                lemma_last_comma(hi, start as int);
                assert(hi.skip(start as int) =~= header@.subrange(start as int, i as int));
                let ps = split_commas(hi);
                if start > 0 {
                    assert(hi.take(start - 1) =~= header@.take(start - 1));
                    assert(ps == split_commas(hi.take(start - 1)).push(hi.skip(start as int)));
                    assert(ps.drop_last() =~= split_commas(hi.take(start - 1)));
                    assert(ps.last() == hi.skip(start as int));
                } else {
                    assert(ps == seq![hi]);
                    assert(ps.drop_last() =~= Seq::<Seq<u8>>::empty());
                    assert(ps.last() == hi);
                    assert(hi =~= header@.subrange(0, i as int));
                    assert(read_parts(ps.drop_last()) == (None::<Seq<u8>>, None::<Seq<u8>>));
                }
                assert(read_parts(ps) == apply_part(read_parts(ps.drop_last()), ps.last()));
                assert(header@.take(i + 1 - 1) == hi);
            }
            start = i + 1;
        }
        i = i + 1;
    }
    read_part(header, start, header.len(), &mut ts, &mut sig);
    proof {
        let h = header@;
        lemma_last_comma(h, start as int);
        assert(h.skip(start as int) =~= h.subrange(start as int, h.len() as int));
        let ps = split_commas(h);
        if start > 0 {
            assert(ps.drop_last() =~= split_commas(h.take(start - 1)));
            assert(ps.last() == h.skip(start as int));
        } else {
            assert(ps == seq![h]);
            assert(ps.drop_last() =~= Seq::<Seq<u8>>::empty());
            assert(ps.last() == h);
            assert(h =~= h.subrange(0, h.len() as int));
            assert(read_parts(ps.drop_last()) == (None::<Seq<u8>>, None::<Seq<u8>>));
        }
        assert(read_parts(ps) == apply_part(read_parts(ps.drop_last()), ps.last()));
    }
    (ts, sig)
}

/// Reads `s` as an `i64`: an optional sign, then one or more decimal digits.
pub fn parse_i64(s: &[u8]) -> (r: Option<i64>)
    ensures
        r == parse_i64_spec(s@),
{
    let n = s.len();
    let neg = n > 0 && s[0] == 45;
    let start: usize = if n > 0 && (s[0] == 45 || s[0] == 43) {
        1
    } else {
        0
    };
    let ghost body = if s@.len() > 0 && (s@[0] == 45 || s@[0] == 43) {
        s@.drop_first()
    } else {
        s@
    };
    proof {
        assert(body =~= s@.skip(start as int));
    }
    if start == n {
        return None;
    }
    let mut acc: i128 = 0;
    let mut i: usize = start;
    while i < n
        invariant
            start <= i <= n == s@.len(),
            body == s@.skip(start as int),
            body == (if s@.len() > 0 && (s@[0] == 45 || s@[0] == 43) {
                s@.drop_first()
            } else {
                s@
            }),
            neg == (s@.len() > 0 && s@[0] == 45),
            all_digits(body.take(i - start)),
            acc == digits_value(body.take(i - start)),
            0 <= acc <= 0x8000_0000_0000_0000,
        decreases n - i,
    {
        let c = s[i];
        let ghost pre = body.take(i - start);
        let ghost next = body.take(i - start + 1);
        proof {
            assert(next.drop_last() =~= pre);
            assert(next.last() == c);
        }
        if c < 48 || c > 57 {
            proof {
                assert(body[i - start] == c);
                assert(!all_digits(body));
            }
            return None;
        }
        acc = acc * 10 + (c - 48) as i128;
        proof {
            assert forall|k: int| 0 <= k < next.len() implies 48 <= #[trigger] next[k] <= 57 by {
                if k < pre.len() {
                    assert(next[k] == pre[k]);
                }
            }
        }
        if acc > 0x8000_0000_0000_0000 {
            proof {
                assert(next == body.take(i - start + 1));
                if all_digits(body) {
                    lemma_digits_prefix_le(body, i - start + 1);
                    assert(digits_value(body) > 0x8000_0000_0000_0000);
                }
            }
            return None;
        }
        i = i + 1;
    }
    proof {
        assert(body.take(n - start) =~= body);
    }
    if neg {
        Some((-acc) as i64)
    } else if acc > 0x7fff_ffff_ffff_ffff {
        None
    } else {
        Some(acc as i64)
    }
}

/// Checks a timestamp and a signature against `mac`, the MAC computed for
/// them, at `now` (seconds since the epoch).
pub fn check_signature(timestamp: &[u8], signature: &[u8], mac: &[u8], now: i64) -> (r: Result<(), GameError>)
    ensures
        r == signature_outcome(timestamp@, signature@, mac@, now as int),
{
    let expected = hex_encode(mac);
    let mut same = expected.len() == signature.len();
    let mut i: usize = 0;
    while same && i < expected.len()
        invariant
            i <= expected@.len(),
            same ==> expected@.len() == signature@.len(),
            same ==> expected@.take(i as int) == signature@.take(i as int),
            !same ==> expected@ != signature@,
        decreases expected@.len() - i,
    {
        if expected[i] != signature[i] {
            same = false;
        } else {
            proof {
                assert(expected@.take(i + 1) =~= expected@.take(i as int).push(expected@[i as int]));
                assert(signature@.take(i + 1) =~= signature@.take(i as int).push(signature@[i as int]));
            }
        }
        i = i + 1;
    }
    proof {
        if same {
            assert(expected@.take(expected@.len() as int) =~= expected@);
            assert(signature@.take(signature@.len() as int) =~= signature@);
        }
    }
    if !same {
        return Err(GameError::InvalidSignature);
    }
    let ts = match parse_i64(timestamp) {
        Some(t) => t,
        None => {
            return Err(GameError::InvalidTimestamp);
        },
    };
    let diff = now as i128 - ts as i128;
    if diff > SIGNATURE_TOLERANCE_SECONDS as i128 || -diff > SIGNATURE_TOLERANCE_SECONDS as i128 {
        return Err(GameError::TimestampOutOfTolerance);
    }
    Ok(())
}

/// Verifies a payment confirmation: reads the header, computes the
/// HMAC-SHA256 of `"<timestamp>.<body>"` under `secret`, and checks it.
pub fn verify_webhook_signature(body: &[u8], header: &[u8], secret: &[u8], now: i64) -> (r: Result<
    (),
    GameError,
>)
    ensures
        r == webhook_outcome(body@, header@, secret@, now as int),
{
    let (ts, sig) = parse_signature_header(header);
    let ts = match ts {
        Some(t) => t,
        None => {
            return Err(GameError::MissingTimestamp);
        },
    };
    let sig = match sig {
        Some(s) => s,
        None => {
            return Err(GameError::MissingSignature);
        },
    };
    let mut message: Vec<u8> = Vec::new();
    let mut i: usize = 0;
    while i < ts.len()
        invariant
            i <= ts@.len(),
            message@ == ts@.take(i as int),
        decreases ts@.len() - i,
    {
        message.push(ts[i]);
        proof {
            assert(message@ =~= ts@.take(i + 1));
        }
        i = i + 1;
    }
    message.push(46);
    let mut j: usize = 0;
    while j < body.len()
        invariant
            j <= body@.len(),
            message@ == ts@ + seq![46u8] + body@.take(j as int),
        decreases body@.len() - j,
    {
        message.push(body[j]);
        proof {
            assert(message@ =~= ts@ + seq![46u8] + body@.take(j + 1));
        }
        j = j + 1;
    }
    proof {
        assert(ts@.take(ts@.len() as int) =~= ts@);
        assert(body@.take(body@.len() as int) =~= body@);
    }
    let mac = hmac_sha256(secret, message.as_slice());
    check_signature(ts.as_slice(), sig.as_slice(), mac.as_slice(), now)
}

} // verus!

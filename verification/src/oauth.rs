//! The OAuth1 request signer used for every call to the PaaS API.
//!
//! A request carries an `Authorization` header computed from the HTTP
//! method, the target URL, the client credentials, a nonce and a Unix
//! timestamp.  The signature base string is
//! `METHOD & URL-without-query & URL-encoded(sorted(k=v&...))`, the signing
//! key is `URL-encoded(consumerSecret) & URL-encoded(tokenSecret)`, and the
//! signature is `base64(HMAC-SHA512(key, base))`.  Query-string parameters
//! of the target URL are merged into the parameter set; they never
//! overwrite an OAuth parameter, and of duplicate query keys the first
//! occurrence wins.
//!
//! Every step of that computation is a spec function of the signer's
//! fields, the method and the URL alone, so for fixed inputs the signature
//! is pinned bit for bit.

use vstd::prelude::*;
use vstd::string::StringSliceAdditionalSpecFns;
use vstd::string::StringExecFns;
use vstd::utf8::encode_utf8;

use crate::text::{
    bytes_eq, bytes_lt, dec_digits, find_byte, lex_lt, pct_encoded, percent_encode, str_bytes,
    u64_to_dec,
};

verus! {

/// The UTF-8 bytes of a piece of text.
pub open spec fn bytes_of(s: Seq<char>) -> Seq<u8> {
    encode_utf8(s)
}

// ---------------------------------------------------------------------------
// Credentials

/// OAuth1 client credentials: a consumer pair identifying the operator and
/// a token pair identifying the account.
#[derive(Clone, Debug)]
pub struct ClientCredentials {
    pub token: String,
    pub secret: String,
    pub consumer_key: String,
    pub consumer_secret: String,
}

// ---------------------------------------------------------------------------
// Errors

/// What can go wrong while computing a signature.
#[derive(Clone, Debug)]
pub enum SignerError {
    /// A query parameter of the target URL has no `=` sign.
    Parse(String),
    /// The system clock reported a moment before the Unix epoch.
    UnixEpochTime,
}

// ---------------------------------------------------------------------------
// Trusted items: HMAC-SHA512, base64, nonce and clock

/// The HMAC-SHA512 digest of `msg` under `key`: a function of its
/// arguments alone.
pub uninterp spec fn hmac_sha512_of(key: Seq<u8>, msg: Seq<u8>) -> Seq<u8>;

/// Relies on `hmac::Hmac::<sha2::Sha512>` (`new_from_slice`, `update`,
/// `finalize`): the digest depends on the key and the message alone and is
/// 64 bytes long; HMAC accepts keys of any length, so construction cannot
/// fail.
#[verifier::external_body]
fn hmac_sha512(key: &[u8], msg: &[u8]) -> (r: Vec<u8>)
    ensures
        r@ == hmac_sha512_of(key@, msg@),
        r@.len() == 64,
{
    let mut mac = <hmac::Hmac<sha2::Sha512> as hmac::KeyInit>::new_from_slice(key)
        .expect("HMAC accepts keys of any length");
    hmac::Mac::update(&mut mac, msg);
    hmac::Mac::finalize(mac).into_bytes().to_vec()
}

/// The standard base64 encoding (with padding) of a byte string: a
/// function of its argument alone.
pub uninterp spec fn base64_of(b: Seq<u8>) -> Seq<char>;

/// Relies on `base64::engine::general_purpose::STANDARD.encode`: the
/// encoding depends on the input bytes alone.
#[verifier::external_body]
fn base64_encode(b: &[u8]) -> (r: String)
    ensures
        r@ == base64_of(b@),
{
    base64::Engine::encode(&base64::engine::general_purpose::STANDARD, b)
}

/// Relies on `uuid::Uuid::new_v4` and its `Display` form: a fresh random
/// UUID, rendered hyphenated as 36 characters.
#[verifier::external_body]
fn fresh_nonce() -> (r: String)
    ensures
        r@.len() == 36,
{
    uuid::Uuid::new_v4().to_string()
}

/// Relies on `std::time::SystemTime::now` and
/// `SystemTime::duration_since(UNIX_EPOCH)`: the seconds elapsed since the
/// Unix epoch, or `None` when the clock reads before the epoch.  Nothing
/// can be promised of the clock's value.
#[verifier::external_body]
fn unix_timestamp() -> (r: Option<u64>)
{
    match std::time::SystemTime::now().duration_since(std::time::SystemTime::UNIX_EPOCH) {
        Ok(d) => Some(d.as_secs()),
        Err(_) => None,
    }
}

// ---------------------------------------------------------------------------
// Sorting parameter lists

/// The view of a list of key/value byte-string pairs.
pub open spec fn pairs_view(v: Seq<(Vec<u8>, Vec<u8>)>) -> Seq<(Seq<u8>, Seq<u8>)> {
    v.map(|_i: int, p: (Vec<u8>, Vec<u8>)| (p.0@, p.1@))
}

/// Inserts `p` before the first pair whose key is strictly greater.
pub open spec fn sorted_insert_pair(
    s: Seq<(Seq<u8>, Seq<u8>)>,
    p: (Seq<u8>, Seq<u8>),
) -> Seq<(Seq<u8>, Seq<u8>)>
    decreases s.len(),
{
    if s.len() == 0 {
        seq![p]
    } else if lex_lt(p.0, s[0].0) {
        seq![p] + s
    } else {
        seq![s[0]] + sorted_insert_pair(s.drop_first(), p)
    }
}

/// Insertion sort of key/value pairs by key, in lexicographic order.
pub open spec fn sort_pairs(s: Seq<(Seq<u8>, Seq<u8>)>) -> Seq<(Seq<u8>, Seq<u8>)>
    decreases s.len(),
{
    if s.len() == 0 {
        Seq::empty()
    } else {
        sorted_insert_pair(sort_pairs(s.drop_last()), s.last())
    }
}

proof fn lemma_sorted_insert_pair_at(s: Seq<(Seq<u8>, Seq<u8>)>, p: (Seq<u8>, Seq<u8>), i: int)
    requires
        0 <= i <= s.len(),
        forall|j: int| 0 <= j < i ==> !lex_lt(p.0, s[j].0),
        i < s.len() ==> lex_lt(p.0, s[i as int].0),
    ensures
        sorted_insert_pair(s, p) == s.take(i) + seq![p] + s.skip(i),
    decreases s.len(),
{
    if s.len() == 0 {
        assert(sorted_insert_pair(s, p) =~= s.take(i) + seq![p] + s.skip(i));
    } else if lex_lt(p.0, s[0].0) {
        assert(i == 0);
        assert(s.take(0) =~= Seq::<(Seq<u8>, Seq<u8>)>::empty());
        assert(s.skip(0) =~= s);
        assert(sorted_insert_pair(s, p) =~= s.take(i) + seq![p] + s.skip(i));
    } else {
        assert(i >= 1);
        let rest = s.drop_first();
        assert(forall|j: int| 0 <= j < i - 1 ==> rest[j] == s[j + 1]);
        lemma_sorted_insert_pair_at(rest, p, i - 1);
        assert(rest.take(i - 1) =~= s.take(i).drop_first());
        assert(rest.skip(i - 1) =~= s.skip(i));
        assert(seq![s[0]] + (rest.take(i - 1) + seq![p] + rest.skip(i - 1)) =~= s.take(i)
            + seq![p] + s.skip(i));
    }
}

/// First position in `out` whose key is strictly greater than `key`.
fn insert_pos(out: &Vec<(Vec<u8>, Vec<u8>)>, key: &Vec<u8>) -> (i: usize)
    ensures
        i <= out@.len(),
        forall|j: int| 0 <= j < i ==> !lex_lt(key@, pairs_view(out@)[j].0),
        i < out@.len() ==> lex_lt(key@, pairs_view(out@)[i as int].0),
{
    let mut i: usize = 0;
    while i < out.len()
        invariant
            i <= out@.len(),
            forall|j: int| 0 <= j < i ==> !lex_lt(key@, pairs_view(out@)[j].0),
        decreases out@.len() - i,
    {
        if bytes_lt(key.as_slice(), out[i].0.as_slice()) {
            assert(lex_lt(key@, pairs_view(out@)[i as int].0));
            return i;
        }
        assert(!lex_lt(key@, pairs_view(out@)[i as int].0));
        i = i + 1;
    }
    i
}

/// Sorts key/value pairs by key, inserting each pair in turn.
pub fn sort_params(v: Vec<(Vec<u8>, Vec<u8>)>) -> (r: Vec<(Vec<u8>, Vec<u8>)>)
    ensures
        pairs_view(r@) == sort_pairs(pairs_view(v@)),
{
    let mut out: Vec<(Vec<u8>, Vec<u8>)> = Vec::new();
    let mut rest = v;
    proof {
        assert(pairs_view(out@) =~= sort_pairs(pairs_view(out@)));
        assert(pairs_view(out@) + pairs_view(rest@) =~= pairs_view(v@));
    }
    // Repeatedly move the first remaining pair into its sorted position.
    // The invariant keeps `out` equal to the spec-level sort of what has
    // been consumed so far.
    let ghost full = pairs_view(v@);
    let mut consumed: usize = 0;
    while consumed < rest.len()
        invariant
            consumed <= rest@.len(),
            rest@.len() == v@.len(),
            pairs_view(rest@) == pairs_view(v@),
            pairs_view(out@) == sort_pairs(pairs_view(v@).take(consumed as int)),
        decreases rest@.len() - consumed,
    {
        let ghost done = pairs_view(v@).take(consumed as int);
        let p = (rest[consumed].0.clone(), rest[consumed].1.clone());
        let ghost pv = (p.0@, p.1@);
        assert(pv == pairs_view(v@)[consumed as int]);

        let i = insert_pos(&out, &p.0);
        let ghost old_out = pairs_view(out@);
        proof {
            lemma_sorted_insert_pair_at(old_out, pv, i as int);
        }
        out.insert(i, p);
        proof {
            assert(pairs_view(out@) =~= old_out.take(i as int) + seq![pv] + old_out.skip(
                i as int,
            ));
            assert(pairs_view(out@) == sorted_insert_pair(old_out, pv));
            assert(pairs_view(v@).take(consumed + 1).drop_last() =~= done);
            assert(pairs_view(v@).take(consumed + 1).last() == pv);
            assert(sort_pairs(pairs_view(v@).take(consumed + 1)) == sorted_insert_pair(
                sort_pairs(done),
                pv,
            ));
        }
        consumed = consumed + 1;
    }
    proof {
        assert(pairs_view(v@).take(v@.len() as int) =~= pairs_view(v@));
    }
    out
}


// ---------------------------------------------------------------------------
// Views

/// The mathematical content of a signer: the text of each field.
#[verifier::ext_equal]
pub struct SignerView {
    pub nonce: Seq<char>,
    pub timestamp: u64,
    pub token: Seq<char>,
    pub secret: Seq<char>,
    pub consumer_key: Seq<char>,
    pub consumer_secret: Seq<char>,
}

impl View for ClientCredentials {
    type V = SignerView;

    open spec fn view(&self) -> SignerView {
        SignerView {
            nonce: Seq::empty(),
            timestamp: 0,
            token: self.token@,
            secret: self.secret@,
            consumer_key: self.consumer_key@,
            consumer_secret: self.consumer_secret@,
        }
    }
}

// ---------------------------------------------------------------------------
// The OAuth parameter set

/// The OAuth1 parameters carried by every request, without the signature,
/// in insertion order.
pub open spec fn oauth_params(v: SignerView) -> Seq<(Seq<u8>, Seq<u8>)> {
    seq![
        (bytes_of("oauth_consumer_key"@), bytes_of(v.consumer_key)),
        (bytes_of("oauth_nonce"@), bytes_of(v.nonce)),
        (bytes_of("oauth_signature_method"@), bytes_of("HMAC-SHA512"@)),
        (bytes_of("oauth_timestamp"@), dec_digits(v.timestamp as nat)),
        (bytes_of("oauth_version"@), bytes_of("1.0"@)),
        (bytes_of("oauth_token"@), bytes_of(v.token)),
    ]
}

// ---------------------------------------------------------------------------
// Query strings

/// First index of `b` in `s`, or `-1`.
pub open spec fn find_idx(s: Seq<u8>, b: u8) -> int
    decreases s.len(),
{
    if s.len() == 0 {
        -1
    } else if s[0] == b {
        0
    } else {
        let r = find_idx(s.drop_first(), b);
        if r < 0 {
            -1
        } else {
            r + 1
        }
    }
}

pub proof fn lemma_find_idx(s: Seq<u8>, b: u8)
    ensures
        find_idx(s, b) < 0 ==> forall|j: int| 0 <= j < s.len() ==> s[j] != b,
        find_idx(s, b) >= 0 ==> find_idx(s, b) < s.len() && s[find_idx(s, b)] == b,
        find_idx(s, b) >= 0 ==> forall|j: int| 0 <= j < find_idx(s, b) ==> s[j] != b,
    decreases s.len(),
{
    if s.len() > 0 && s[0] != b {
        let rest = s.drop_first();
        lemma_find_idx(rest, b);
        assert(forall|j: int| 0 <= j < rest.len() ==> rest[j] == s[j + 1]);
        let r = find_idx(rest, b);
        if r < 0 {
            assert(forall|j: int| 1 <= j < s.len() ==> s[j] == rest[j - 1]);
        }
        if r >= 0 {
            assert(find_idx(s, b) == r + 1);
            assert(s[r + 1] == rest[r]);
            assert(forall|j: int| 1 <= j < r + 1 ==> s[j] == rest[j - 1]);
        }
    }
}

/// The target URL up to its first `?`, or whole when it has none.
pub open spec fn endpoint_host(e: Seq<u8>) -> Seq<u8> {
    let i = find_idx(e, 0x3F);
    if i < 0 {
        e
    } else {
        e.take(i)
    }
}

/// What follows the first `?` of the target URL; empty when it has none.
pub open spec fn endpoint_query(e: Seq<u8>) -> Seq<u8> {
    let i = find_idx(e, 0x3F);
    if i < 0 {
        Seq::empty()
    } else {
        e.skip(i + 1)
    }
}

/// One `k=v` query segment, split at its first `=`; `None` when the
/// segment holds no `=` sign.
pub open spec fn parse_segment(seg: Seq<u8>) -> Option<(Seq<u8>, Seq<u8>)> {
    let j = find_idx(seg, 0x3D);
    if j < 0 {
        None
    } else {
        Some((seg.take(j), seg.skip(j + 1)))
    }
}

/// The `&`-separated segments of a non-empty query, each split at its
/// first `=`; `None` as soon as one segment holds no `=` sign.
pub open spec fn parse_query(q: Seq<u8>) -> Option<Seq<(Seq<u8>, Seq<u8>)>>
    decreases q.len(),
    via parse_query_decreases
{
    let i = find_idx(q, 0x26);
    if i < 0 {
        match parse_segment(q) {
            None => None,
            Some(p) => Some(seq![p]),
        }
    } else {
        match parse_segment(q.take(i)) {
            None => None,
            Some(p) => match parse_query(q.skip(i + 1)) {
                None => None,
                Some(r) => Some(seq![p] + r),
            },
        }
    }
}

#[via_fn]
proof fn parse_query_decreases(q: Seq<u8>) {
    lemma_find_idx(q, 0x26);
}

/// The key/value pairs of a query string; an empty query has none.
pub open spec fn query_pairs(q: Seq<u8>) -> Option<Seq<(Seq<u8>, Seq<u8>)>> {
    if q.len() == 0 {
        Some(Seq::empty())
    } else {
        parse_query(q)
    }
}

/// Whether some pair of `s` carries the key `k`.
pub open spec fn has_key(s: Seq<(Seq<u8>, Seq<u8>)>, k: Seq<u8>) -> bool {
    exists|i: int| 0 <= i < s.len() && s[i].0 == k
}

/// Appends each query pair whose key is still free: an existing key is
/// never overwritten, and of duplicate query keys the first wins.
pub open spec fn merge_query(
    acc: Seq<(Seq<u8>, Seq<u8>)>,
    q: Seq<(Seq<u8>, Seq<u8>)>,
) -> Seq<(Seq<u8>, Seq<u8>)>
    decreases q.len(),
{
    if q.len() == 0 {
        acc
    } else {
        let acc2 = if has_key(acc, q[0].0) {
            acc
        } else {
            acc.push(q[0])
        };
        merge_query(acc2, q.drop_first())
    }
}

// ---------------------------------------------------------------------------
// Formatting and joining

/// The view of a list of byte strings.
pub open spec fn seqs_view(v: Seq<Vec<u8>>) -> Seq<Seq<u8>> {
    v.map(|_i: int, x: Vec<u8>| x@)
}

/// `k=v`.
pub open spec fn format_kv(p: (Seq<u8>, Seq<u8>)) -> Seq<u8> {
    p.0 + seq![0x3Du8] + p.1
}

/// Each pair written `k=v`, in order.
pub open spec fn formatted_list(s: Seq<(Seq<u8>, Seq<u8>)>) -> Seq<Seq<u8>> {
    s.map(|_i: int, p: (Seq<u8>, Seq<u8>)| format_kv(p))
}

/// Inserts `x` before the first byte string that is strictly greater.
pub open spec fn sorted_insert_seq(s: Seq<Seq<u8>>, x: Seq<u8>) -> Seq<Seq<u8>>
    decreases s.len(),
{
    if s.len() == 0 {
        seq![x]
    } else if lex_lt(x, s[0]) {
        seq![x] + s
    } else {
        seq![s[0]] + sorted_insert_seq(s.drop_first(), x)
    }
}

/// Insertion sort of byte strings in lexicographic order.
pub open spec fn sort_seqs(s: Seq<Seq<u8>>) -> Seq<Seq<u8>>
    decreases s.len(),
{
    if s.len() == 0 {
        Seq::empty()
    } else {
        sorted_insert_seq(sort_seqs(s.drop_last()), s.last())
    }
}

/// The elements of `s` joined by `sep`.
pub open spec fn join_sep(s: Seq<Seq<u8>>, sep: Seq<u8>) -> Seq<u8>
    decreases s.len(),
{
    if s.len() == 0 {
        Seq::empty()
    } else if s.len() == 1 {
        s[0]
    } else {
        s[0] + sep + join_sep(s.drop_first(), sep)
    }
}

// ---------------------------------------------------------------------------
// The signature pipeline, at the spec level

/// The parameters of the signature base string: the OAuth parameters and
/// the query pairs of the target URL, each written `k=v` and sorted.
pub open spec fn base_items(v: SignerView, endpoint: Seq<u8>) -> Seq<Seq<u8>> {
    let merged = merge_query(oauth_params(v), query_pairs(endpoint_query(endpoint)).unwrap());
    sort_seqs(formatted_list(merged))
}

/// The signature base string:
/// `enc(method) & enc(url-without-query) & enc(sorted(k=v&...))`.
pub open spec fn base_string_of(v: SignerView, method: Seq<char>, endpoint: Seq<char>) -> Seq<u8> {
    let e = bytes_of(endpoint);
    pct_encoded(bytes_of(method)) + seq![0x26u8] + pct_encoded(endpoint_host(e)) + seq![0x26u8]
        + pct_encoded(join_sep(base_items(v, e), seq![0x26u8]))
}

/// The signing key: `enc(consumerSecret) & enc(tokenSecret)`.
pub open spec fn signing_key_of(v: SignerView) -> Seq<u8> {
    pct_encoded(bytes_of(v.consumer_secret)) + seq![0x26u8] + pct_encoded(bytes_of(v.secret))
}

/// The signature: `base64(HMAC-SHA512(key, base))`.  A function of the
/// signer's fields, the method and the target URL alone.
pub open spec fn signature_of(v: SignerView, method: Seq<char>, endpoint: Seq<char>) -> Seq<char> {
    base64_of(hmac_sha512_of(signing_key_of(v), base_string_of(v, method, endpoint)))
}

/// Whether the target URL's query parses: every `&`-separated segment
/// holds an `=` sign.
pub open spec fn endpoint_ok(endpoint: Seq<char>) -> bool {
    query_pairs(endpoint_query(bytes_of(endpoint))) is Some
}

/// One `Authorization` header item: `k="enc(v)"`.
pub open spec fn header_item(p: (Seq<u8>, Seq<u8>)) -> Seq<u8> {
    p.0 + bytes_of("=\""@) + pct_encoded(p.1) + seq![0x22u8]
}

/// Each pair written `k="enc(v)"`, in order.
pub open spec fn header_formatted(s: Seq<(Seq<u8>, Seq<u8>)>) -> Seq<Seq<u8>> {
    s.map(|_i: int, p: (Seq<u8>, Seq<u8>)| header_item(p))
}

/// The items of the `Authorization` header: the OAuth parameters and the
/// signature, each written `k="enc(v)"` and sorted.
pub open spec fn header_items(v: SignerView, method: Seq<char>, endpoint: Seq<char>) -> Seq<
    Seq<u8>,
> {
    let with_sig = oauth_params(v).push(
        (bytes_of("oauth_signature"@), bytes_of(signature_of(v, method, endpoint))),
    );
    sort_seqs(header_formatted(with_sig))
}

/// The `Authorization` header value:
/// `OAuth k="enc(v)", ...` with the pairs sorted.
pub open spec fn authorization_of(v: SignerView, method: Seq<char>, endpoint: Seq<char>) -> Seq<
    char,
> {
    let joined = join_sep(header_items(v, method, endpoint), bytes_of(", "@));
    "OAuth "@ + crate::text::ascii_chars_of(joined)
}


// ---------------------------------------------------------------------------
// Executable helpers

/// Whether some pair of `v` carries the key `k`.
fn has_key_exec(v: &Vec<(Vec<u8>, Vec<u8>)>, k: &[u8]) -> (r: bool)
    ensures
        r == has_key(pairs_view(v@), k@),
{
    let mut i: usize = 0;
    while i < v.len()
        invariant
            i <= v@.len(),
            forall|j: int| 0 <= j < i ==> pairs_view(v@)[j].0 != k@,
        decreases v@.len() - i,
    {
        if bytes_eq(v[i].0.as_slice(), k) {
            assert(pairs_view(v@)[i as int].0 == k@);
            return true;
        }
        assert(pairs_view(v@)[i as int].0 != k@);
        i = i + 1;
    }
    false
}

/// Splits a non-empty query into `k=v` pairs, each segment at its first
/// `=`; fails as soon as a segment holds no `=` sign, returning that
/// segment.
fn parse_query_exec(q: &[u8]) -> (r: Result<Vec<(Vec<u8>, Vec<u8>)>, Vec<u8>>)
    ensures
        match r {
            Ok(v) => parse_query(q@) == Some(pairs_view(v@)),
            Err(seg) => parse_query(q@) is None,
        },
{
    let mut acc: Vec<(Vec<u8>, Vec<u8>)> = Vec::new();
    let mut pos: usize = 0;
    proof {
        assert(q@.skip(0) =~= q@);
        assert(pairs_view(acc@) =~= Seq::<(Seq<u8>, Seq<u8>)>::empty());
    }
    loop
        invariant
            pos <= q@.len(),
            match parse_query(q@.skip(pos as int)) {
                None => parse_query(q@) is None,
                Some(t) => parse_query(q@) == Some(pairs_view(acc@) + t),
            },
        decreases q@.len() - pos,
    {
        let rem = vstd::slice::slice_subrange(q, pos, q.len());
        let ghost remv = q@.skip(pos as int);
        proof {
            assert(rem@ =~= remv);
        }
        let amp = find_byte(rem, 0x26);
        proof {
            lemma_find_idx(remv, 0x26);
        }
        let seg_end: usize = match amp {
            Some(i) => {
                proof {
                    assert(find_idx(remv, 0x26) == i as int);
                }
                i
            },
            None => {
                proof {
                    assert(find_idx(remv, 0x26) < 0);
                }
                rem.len()
            },
        };
        let seg = vstd::slice::slice_subrange(rem, 0, seg_end);
        let ghost segv = if find_idx(remv, 0x26) < 0 { remv } else { remv.take(find_idx(remv, 0x26)) };
        proof {
            assert(seg@ =~= segv);
        }
        let eq = find_byte(seg, 0x3D);
        proof {
            lemma_find_idx(segv, 0x3D);
        }
        match eq {
            None => {
                proof {
                    assert(find_idx(segv, 0x3D) < 0);
                    assert(parse_segment(segv) is None);
                    assert(parse_query(remv) is None);
                }
                return Err(vstd::slice::slice_to_vec(seg));
            },
            Some(j) => {
                proof {
                    assert(find_idx(segv, 0x3D) == j as int);
                }
                let k = vstd::slice::slice_to_vec(vstd::slice::slice_subrange(seg, 0, j));
                let v = vstd::slice::slice_to_vec(
                    vstd::slice::slice_subrange(seg, j + 1, seg.len()),
                );
                let ghost p = (segv.take(j as int), segv.skip(j + 1));
                proof {
                    assert(k@ =~= p.0);
                    assert(v@ =~= p.1);
                    assert(parse_segment(segv) == Some(p));
                }
                let ghost old_acc = pairs_view(acc@);
                acc.push((k, v));
                proof {
                    assert(pairs_view(acc@) =~= old_acc.push(p));
                }
                match amp {
                    None => {
                        proof {
                            assert(parse_query(remv) == Some(seq![p]));
                            assert(old_acc + seq![p] =~= pairs_view(acc@));
                        }
                        return Ok(acc);
                    },
                    Some(i) => {
                        proof {
                            let rest = remv.skip(i + 1);
                            assert(rest =~= q@.skip(pos + i + 1));
                            match parse_query(rest) {
                                None => {
                                    assert(parse_query(remv) is None);
                                },
                                Some(t) => {
                                    assert(parse_query(remv) == Some(seq![p] + t));
                                    assert(old_acc + (seq![p] + t) =~= pairs_view(acc@) + t);
                                },
                            }
                        }
                        pos = pos + i + 1;
                    },
                }
            },
        }
    }
}

/// Appends each query pair whose key is still free to the parameter set.
fn merge_query_exec(acc: Vec<(Vec<u8>, Vec<u8>)>, q: &Vec<(Vec<u8>, Vec<u8>)>) -> (r: Vec<
    (Vec<u8>, Vec<u8>),
>)
    ensures
        pairs_view(r@) == merge_query(pairs_view(acc@), pairs_view(q@)),
{
    let ghost acc0 = pairs_view(acc@);
    let ghost qv = pairs_view(q@);
    let mut out = acc;
    let mut i: usize = 0;
    proof {
        assert(qv.skip(0) =~= qv);
    }
    while i < q.len()
        invariant
            i <= q@.len(),
            qv == pairs_view(q@),
            merge_query(acc0, qv) == merge_query(pairs_view(out@), qv.skip(i as int)),
        decreases q@.len() - i,
    {
        let ghost outv = pairs_view(out@);
        let ghost remq = qv.skip(i as int);
        proof {
            assert(remq[0] == qv[i as int]);
            assert(remq.drop_first() =~= qv.skip(i + 1));
        }
        if !has_key_exec(&out, q[i].0.as_slice()) {
            let p = (q[i].0.clone(), q[i].1.clone());
            out.push(p);
            proof {
                assert(pairs_view(out@) =~= outv.push(qv[i as int]));
            }
        }
        i = i + 1;
    }
    proof {
        assert(qv.skip(qv.len() as int) =~= Seq::<(Seq<u8>, Seq<u8>)>::empty());
    }
    out
}

/// First position in `out` strictly greater than `x`.
fn insert_pos_seq(out: &Vec<Vec<u8>>, x: &Vec<u8>) -> (i: usize)
    ensures
        i <= out@.len(),
        forall|j: int| 0 <= j < i ==> !lex_lt(x@, seqs_view(out@)[j]),
        i < out@.len() ==> lex_lt(x@, seqs_view(out@)[i as int]),
{
    let mut i: usize = 0;
    while i < out.len()
        invariant
            i <= out@.len(),
            forall|j: int| 0 <= j < i ==> !lex_lt(x@, seqs_view(out@)[j]),
        decreases out@.len() - i,
    {
        if bytes_lt(x.as_slice(), out[i].as_slice()) {
            assert(lex_lt(x@, seqs_view(out@)[i as int]));
            return i;
        }
        assert(!lex_lt(x@, seqs_view(out@)[i as int]));
        i = i + 1;
    }
    i
}

proof fn lemma_sorted_insert_seq_at(s: Seq<Seq<u8>>, x: Seq<u8>, i: int)
    requires
        0 <= i <= s.len(),
        forall|j: int| 0 <= j < i ==> !lex_lt(x, s[j]),
        i < s.len() ==> lex_lt(x, s[i as int]),
    ensures
        sorted_insert_seq(s, x) == s.take(i) + seq![x] + s.skip(i),
    decreases s.len(),
{
    if s.len() == 0 {
        assert(sorted_insert_seq(s, x) =~= s.take(i) + seq![x] + s.skip(i));
    } else if lex_lt(x, s[0]) {
        assert(i == 0);
        assert(s.take(0) =~= Seq::<Seq<u8>>::empty());
        assert(s.skip(0) =~= s);
        assert(sorted_insert_seq(s, x) =~= s.take(i) + seq![x] + s.skip(i));
    } else {
        assert(i >= 1);
        let rest = s.drop_first();
        assert(forall|j: int| 0 <= j < i - 1 ==> rest[j] == s[j + 1]);
        lemma_sorted_insert_seq_at(rest, x, i - 1);
        assert(rest.take(i - 1) =~= s.take(i).drop_first());
        assert(rest.skip(i - 1) =~= s.skip(i));
        assert(seq![s[0]] + (rest.take(i - 1) + seq![x] + rest.skip(i - 1)) =~= s.take(i)
            + seq![x] + s.skip(i));
    }
}

/// Sorts byte strings lexicographically, inserting each in turn.
fn sort_seqs_exec(v: Vec<Vec<u8>>) -> (r: Vec<Vec<u8>>)
    ensures
        seqs_view(r@) == sort_seqs(seqs_view(v@)),
{
    let mut out: Vec<Vec<u8>> = Vec::new();
    let rest = v;
    let mut consumed: usize = 0;
    proof {
        assert(seqs_view(out@) =~= sort_seqs(seqs_view(rest@).take(0)));
    }
    while consumed < rest.len()
        invariant
            consumed <= rest@.len(),
            seqs_view(out@) == sort_seqs(seqs_view(rest@).take(consumed as int)),
        decreases rest@.len() - consumed,
    {
        let ghost done = seqs_view(rest@).take(consumed as int);
        let x = rest[consumed].clone();
        let ghost xv = x@;
        assert(xv == seqs_view(rest@)[consumed as int]);
        let i = insert_pos_seq(&out, &x);
        let ghost old_out = seqs_view(out@);
        proof {
            lemma_sorted_insert_seq_at(old_out, xv, i as int);
        }
        out.insert(i, x);
        proof {
            assert(seqs_view(out@) =~= old_out.take(i as int) + seq![xv] + old_out.skip(i as int));
            assert(seqs_view(out@) == sorted_insert_seq(old_out, xv));
            assert(seqs_view(rest@).take(consumed + 1).drop_last() =~= done);
            assert(seqs_view(rest@).take(consumed + 1).last() == xv);
        }
        consumed = consumed + 1;
    }
    proof {
        assert(seqs_view(rest@).take(rest@.len() as int) =~= seqs_view(rest@));
    }
    out
}

proof fn lemma_join_sep_push(s: Seq<Seq<u8>>, x: Seq<u8>, sep: Seq<u8>)
    requires
        s.len() >= 1,
    ensures
        join_sep(s.push(x), sep) == join_sep(s, sep) + sep + x,
    decreases s.len(),
{
    if s.len() == 1 {
        assert(s.push(x).drop_first() =~= seq![x]);
        assert(join_sep(seq![x], sep) == x);
        assert(join_sep(s.push(x), sep) =~= join_sep(s, sep) + sep + x);
    } else {
        assert(s.push(x).drop_first() =~= s.drop_first().push(x));
        lemma_join_sep_push(s.drop_first(), x, sep);
        assert(join_sep(s.push(x), sep) =~= join_sep(s, sep) + sep + x);
    }
}

fn join_sep_exec(v: &[Vec<u8>], sep: &Vec<u8>) -> (r: Vec<u8>)
    ensures
        r@ == (join_sep(seqs_view(v@), sep@)),
{
    let mut out: Vec<u8> = Vec::new();
    if v.len() == 0 {
        assert(out@ =~= join_sep(seqs_view(v@), sep@));
        return out;
    }
    out.extend_from_slice(v[0].as_slice());
    proof {
        assert(seqs_view(v@).take(1) =~= seq![seqs_view(v@)[0]]);
        assert(out@ =~= join_sep(seqs_view(v@).take(1), sep@));
    }
    let mut i: usize = 1;
    while i < v.len()
        invariant
            1 <= i,
            i <= v@.len(),
            out@ == join_sep(seqs_view(v@).take(i as int), sep@),
        decreases v@.len() - i,
    {
        let ghost done = seqs_view(v@).take(i as int);
        out.extend_from_slice(sep.as_slice());
        out.extend_from_slice(v[i].as_slice());
        proof {
            lemma_join_sep_push(done, seqs_view(v@)[i as int], sep@);
            assert(seqs_view(v@).take(i + 1) =~= done.push(seqs_view(v@)[i as int]));
        }
        i = i + 1;
    }
    proof {
        assert(seqs_view(v@).take(v@.len() as int) =~= seqs_view(v@));
    }
    out
}


// ---------------------------------------------------------------------------
// The signer

/// Signs one request: a nonce, a timestamp and the client credentials.
#[derive(Clone, Debug)]
pub struct Signer {
    pub nonce: String,
    pub timestamp: u64,
    pub credentials: ClientCredentials,
}

impl View for Signer {
    type V = SignerView;

    open spec fn view(&self) -> SignerView {
        SignerView {
            nonce: self.nonce@,
            timestamp: self.timestamp,
            token: self.credentials.token@,
            secret: self.credentials.secret@,
            consumer_key: self.credentials.consumer_key@,
            consumer_secret: self.credentials.consumer_secret@,
        }
    }
}

impl Signer {
    /// Builds a signer with a fresh random nonce and the clock's Unix
    /// timestamp; fails when the clock reads before the Unix epoch.
    pub fn try_new(credentials: ClientCredentials) -> (r: Result<Signer, SignerError>)
        ensures
            (r matches Ok(s) ==> {
                &&& s@.token == credentials.token@
                &&& s@.secret == credentials.secret@
                &&& s@.consumer_key == credentials.consumer_key@
                &&& s@.consumer_secret == credentials.consumer_secret@
                &&& s@.nonce.len() == 36
            }),
            (r matches Err(e) ==> e is UnixEpochTime),
    {
        let nonce = fresh_nonce();
        match unix_timestamp() {
            Some(timestamp) => Ok(Signer { nonce, timestamp, credentials }),
            None => Err(SignerError::UnixEpochTime),
        }
    }

    /// The OAuth1 parameters of this signer, without the signature, in
    /// insertion order.
    fn raw_params(&self) -> (r: Vec<(Vec<u8>, Vec<u8>)>)
        ensures
            pairs_view(r@) == oauth_params(self@),
    {
        let mut raw: Vec<(Vec<u8>, Vec<u8>)> = Vec::new();
        raw.push((
            str_bytes("oauth_consumer_key"),
            str_bytes(self.credentials.consumer_key.as_str()),
        ));
        raw.push((str_bytes("oauth_nonce"), str_bytes(self.nonce.as_str())));
        raw.push((str_bytes("oauth_signature_method"), str_bytes("HMAC-SHA512")));
        raw.push((str_bytes("oauth_timestamp"), u64_to_dec(self.timestamp)));
        raw.push((str_bytes("oauth_version"), str_bytes("1.0")));
        raw.push((str_bytes("oauth_token"), str_bytes(self.credentials.token.as_str())));
        proof {
            assert(pairs_view(raw@) =~= oauth_params(self@));
        }
        raw
    }

    /// The OAuth1 parameters of this signer, without the signature, sorted
    /// by name.
    pub fn params(&self) -> (r: Vec<(Vec<u8>, Vec<u8>)>)
        ensures
            pairs_view(r@) == sort_pairs(oauth_params(self@)),
    {
        sort_params(self.raw_params())
    }

    /// The signing key: `enc(consumerSecret) & enc(tokenSecret)`.
    pub fn signing_key(&self) -> (r: Vec<u8>)
        ensures
            r@ == signing_key_of(self@),
    {
        let cs = str_bytes(self.credentials.consumer_secret.as_str());
        let ts = str_bytes(self.credentials.secret.as_str());
        let mut out = percent_encode(cs.as_slice());
        out.push(0x26);
        let pt = percent_encode(ts.as_slice());
        out.extend_from_slice(pt.as_slice());
        proof {
            assert(out@ =~= signing_key_of(self@));
        }
        out
    }

    /// The signature of one request: `base64(HMAC-SHA512(key, base))`,
    /// a function of the signer's fields, the method and the URL alone.
    /// Fails exactly when a query parameter of the URL has no `=` sign.
    pub fn signature(&self, method: &str, endpoint: &str) -> (r: Result<String, SignerError>)
        ensures
            r is Ok <==> endpoint_ok(endpoint@),
            (r matches Ok(s) ==> s@ == signature_of(self@, method@, endpoint@)),
            (r matches Err(e) ==> e is Parse),
    {
        let e = str_bytes(endpoint);
        let n = e.len();
        let qpos = find_byte(e.as_slice(), 0x3F);
        proof {
            lemma_find_idx(e@, 0x3F);
        }
        let host: Vec<u8>;
        let query: Vec<u8>;
        match qpos {
            Some(i) => {
                proof {
                    assert(find_idx(e@, 0x3F) == i as int);
                }
                assert(i < n);
                host = vstd::slice::slice_to_vec(vstd::slice::slice_subrange(e.as_slice(), 0, i));
                query = vstd::slice::slice_to_vec(
                    vstd::slice::slice_subrange(e.as_slice(), i + 1, n),
                );
                proof {
                    assert(host@ =~= endpoint_host(e@));
                    assert(query@ =~= endpoint_query(e@));
                }
            },
            None => {
                proof {
                    assert(find_idx(e@, 0x3F) < 0);
                }
                host = e.clone();
                query = Vec::new();
                proof {
                    assert(host@ =~= endpoint_host(e@));
                    assert(query@ =~= endpoint_query(e@));
                }
            },
        }
        let qp: Vec<(Vec<u8>, Vec<u8>)>;
        if query.len() == 0 {
            qp = Vec::new();
            proof {
                assert(pairs_view(qp@) =~= Seq::<(Seq<u8>, Seq<u8>)>::empty());
            }
        } else {
            match parse_query_exec(query.as_slice()) {
                Ok(v) => {
                    qp = v;
                },
                Err(seg) => {
                    // name the offending parameter where its bytes read as text
                    let msg = if crate::text::all_ascii(seg.as_slice()) {
                        String::from_str("query parameter without an = sign: ").concat(
                            crate::text::ascii_to_string(seg.as_slice()).as_str(),
                        )
                    } else {
                        String::from_str("query parameter without an = sign")
                    };
                    return Err(SignerError::Parse(msg));
                },
            }
        }
        assert(query_pairs(endpoint_query(e@)) == Some(pairs_view(qp@)));
        let raw = self.raw_params();
        let merged = merge_query_exec(raw, &qp);

        let mut formatted: Vec<Vec<u8>> = Vec::new();
        let mut i: usize = 0;
        proof {
            assert(seqs_view(formatted@) =~= formatted_list(pairs_view(merged@).take(0)));
        }
        while i < merged.len()
            invariant
                i <= merged@.len(),
                seqs_view(formatted@) == formatted_list(pairs_view(merged@).take(i as int)),
            decreases merged@.len() - i,
        {
            let mut item: Vec<u8> = Vec::new();
            item.extend_from_slice(merged[i].0.as_slice());
            item.push(0x3D);
            item.extend_from_slice(merged[i].1.as_slice());
            proof {
                assert(item@ =~= format_kv(pairs_view(merged@)[i as int]));
            }
            let ghost before = seqs_view(formatted@);
            formatted.push(item);
            proof {
                assert(seqs_view(formatted@) =~= before.push(
                    format_kv(pairs_view(merged@)[i as int]),
                ));
                assert(seqs_view(formatted@) =~= formatted_list(pairs_view(merged@).take(i + 1)));
            }
            i = i + 1;
        }
        proof {
            assert(pairs_view(merged@).take(merged@.len() as int) =~= pairs_view(merged@));
        }
        let sorted = sort_seqs_exec(formatted);
        let mut amp: Vec<u8> = Vec::new();
        amp.push(0x26);
        let joined = join_sep_exec(sorted.as_slice(), &amp);
        proof {
            assert(amp@ =~= seq![0x26u8]);
            assert(joined@ == join_sep(base_items(self@, e@), seq![0x26u8]));
        }

        let m = str_bytes(method);
        let mut base = percent_encode(m.as_slice());
        base.push(0x26);
        let ph = percent_encode(host.as_slice());
        base.extend_from_slice(ph.as_slice());
        base.push(0x26);
        let pj = percent_encode(joined.as_slice());
        base.extend_from_slice(pj.as_slice());
        proof {
            assert(base@ =~= base_string_of(self@, method@, endpoint@));
        }

        let key = self.signing_key();
        let digest = hmac_sha512(key.as_slice(), base.as_slice());
        Ok(base64_encode(digest.as_slice()))
    }

    /// The `Authorization` header value: `OAuth k="enc(v)", ...` with the
    /// pairs (the OAuth parameters and the signature) sorted.  Fails
    /// exactly when the URL's query is malformed or a parameter name is
    /// not ASCII.
    pub fn sign(&self, method: &str, endpoint: &str) -> (r: Result<String, SignerError>)
        ensures
            r is Ok <==> endpoint_ok(endpoint@),
            (r matches Ok(s) ==> s@ == authorization_of(self@, method@, endpoint@)),
            (r matches Err(e) ==> e is Parse),
    {
        let sig = match self.signature(method, endpoint) {
            Ok(s) => s,
            Err(e) => {
                return Err(e);
            },
        };
        let mut with_sig = self.raw_params();
        let ghost before = pairs_view(with_sig@);
        with_sig.push((str_bytes("oauth_signature"), str_bytes(sig.as_str())));
        proof {
            assert(pairs_view(with_sig@) =~= before.push(
                (bytes_of("oauth_signature"@), bytes_of(signature_of(self@, method@, endpoint@))),
            ));
        }

        let eq_quote = str_bytes("=\"");
        let mut items: Vec<Vec<u8>> = Vec::new();
        let mut i: usize = 0;
        proof {
            assert(seqs_view(items@) =~= header_formatted(pairs_view(with_sig@).take(0)));
        }
        while i < with_sig.len()
            invariant
                i <= with_sig@.len(),
                eq_quote@ == bytes_of("=\""@),
                seqs_view(items@) == header_formatted(pairs_view(with_sig@).take(i as int)),
            decreases with_sig@.len() - i,
        {
            let mut item: Vec<u8> = Vec::new();
            item.extend_from_slice(with_sig[i].0.as_slice());
            item.extend_from_slice(eq_quote.as_slice());
            let pv = percent_encode(with_sig[i].1.as_slice());
            item.extend_from_slice(pv.as_slice());
            item.push(0x22);
            proof {
                assert(item@ =~= header_item(pairs_view(with_sig@)[i as int]));
            }
            let ghost done = seqs_view(items@);
            items.push(item);
            proof {
                assert(seqs_view(items@) =~= done.push(
                    header_item(pairs_view(with_sig@)[i as int]),
                ));
                assert(seqs_view(items@) =~= header_formatted(
                    pairs_view(with_sig@).take(i + 1),
                ));
            }
            i = i + 1;
        }
        proof {
            assert(pairs_view(with_sig@).take(with_sig@.len() as int) =~= pairs_view(with_sig@));
        }
        let sorted = sort_seqs_exec(items);
        let comma = str_bytes(", ");
        let joined = join_sep_exec(sorted.as_slice(), &comma);
        proof {
            assert(joined@ == join_sep(
                header_items(self@, method@, endpoint@),
                bytes_of(", "@),
            ));
        }
        proof {
            lemma_header_ascii(self@, method@, endpoint@);
        }
        let body = crate::text::ascii_to_string(joined.as_slice());
        let out = String::from_str("OAuth ").concat(body.as_str());
        Ok(out)
    }
}


// ---------------------------------------------------------------------------
// The header is ASCII

/// Every byte string of the list is ASCII.
pub open spec fn all_items_ascii(s: Seq<Seq<u8>>) -> bool {
    forall|i: int| 0 <= i < s.len() ==> crate::text::spec_all_ascii(#[trigger] s[i])
}

/// The UTF-8 bytes of ASCII text are ASCII.
proof fn lemma_lit_ascii(s: Seq<char>)
    requires
        vstd::utf8::is_ascii_chars(s),
    ensures
        crate::text::spec_all_ascii(bytes_of(s)),
    decreases s.len(),
{
    if s.len() > 0 {
        let c0 = s[0] as u32;
        assert('\0' <= s[0] <= '\u{7f}');
        assert(vstd::utf8::has_width_1_encoding(c0));
        assert(vstd::utf8::encode_scalar(c0) =~= seq![vstd::utf8::leading_byte_width_1(c0)]);
        assert(((c0 & 0x7F) as u8) < 128) by (bit_vector);
        assert(vstd::utf8::is_ascii_chars(s.drop_first())) by {
            assert(forall|i: int| 0 <= i < s.drop_first().len() ==> s.drop_first()[i] == s[
                i + 1
            ]);
        }
        lemma_lit_ascii(s.drop_first());
        crate::text::lemma_ascii_concat(
            vstd::utf8::encode_scalar(c0),
            bytes_of(s.drop_first()),
        );
    }
}

/// One header item is ASCII when its parameter name is: the value is
/// percent-encoded and the punctuation is ASCII.
proof fn lemma_header_item_ascii(p: (Seq<u8>, Seq<u8>))
    requires
        crate::text::spec_all_ascii(p.0),
    ensures
        crate::text::spec_all_ascii(header_item(p)),
{
    reveal_strlit("=\"");
    lemma_lit_ascii("=\""@);
    crate::text::lemma_pct_encoded_ascii(p.1);
    crate::text::lemma_ascii_concat(p.0, bytes_of("=\""@));
    crate::text::lemma_ascii_concat(p.0 + bytes_of("=\""@), pct_encoded(p.1));
    assert(crate::text::spec_all_ascii(seq![0x22u8]));
    crate::text::lemma_ascii_concat(
        p.0 + bytes_of("=\""@) + pct_encoded(p.1),
        seq![0x22u8],
    );
}

/// Sorted insertion keeps every item ASCII.
proof fn lemma_sorted_insert_seq_ascii(s: Seq<Seq<u8>>, x: Seq<u8>)
    requires
        all_items_ascii(s),
        crate::text::spec_all_ascii(x),
    ensures
        all_items_ascii(sorted_insert_seq(s, x)),
    decreases s.len(),
{
    if s.len() == 0 {
    } else if lex_lt(x, s[0]) {
        assert forall|i: int| 0 <= i < (seq![x] + s).len() implies crate::text::spec_all_ascii(
            #[trigger] (seq![x] + s)[i],
        ) by {
            if i > 0 {
                assert((seq![x] + s)[i] == s[i - 1]);
            }
        }
    } else {
        assert(all_items_ascii(s.drop_first())) by {
            assert(forall|i: int| 0 <= i < s.drop_first().len() ==> s.drop_first()[i] == s[
                i + 1
            ]);
        }
        lemma_sorted_insert_seq_ascii(s.drop_first(), x);
        let rest = sorted_insert_seq(s.drop_first(), x);
        assert forall|i: int| 0 <= i < (seq![s[0]] + rest).len() implies crate::text::spec_all_ascii(
            #[trigger] (seq![s[0]] + rest)[i],
        ) by {
            if i > 0 {
                assert((seq![s[0]] + rest)[i] == rest[i - 1]);
            }
        }
    }
}

/// Sorting keeps every item ASCII.
proof fn lemma_sort_seqs_ascii(s: Seq<Seq<u8>>)
    requires
        all_items_ascii(s),
    ensures
        all_items_ascii(sort_seqs(s)),
    decreases s.len(),
{
    if s.len() > 0 {
        assert(all_items_ascii(s.drop_last())) by {
            assert(forall|i: int| 0 <= i < s.drop_last().len() ==> s.drop_last()[i] == s[i]);
        }
        lemma_sort_seqs_ascii(s.drop_last());
        lemma_sorted_insert_seq_ascii(sort_seqs(s.drop_last()), s.last());
    }
}

/// Joining ASCII items with an ASCII separator yields ASCII bytes.
proof fn lemma_join_sep_ascii(s: Seq<Seq<u8>>, sep: Seq<u8>)
    requires
        all_items_ascii(s),
        crate::text::spec_all_ascii(sep),
    ensures
        crate::text::spec_all_ascii(join_sep(s, sep)),
    decreases s.len(),
{
    if s.len() == 0 {
    } else if s.len() == 1 {
        assert(join_sep(s, sep) == s[0]);
    } else {
        assert(all_items_ascii(s.drop_first())) by {
            assert(forall|i: int| 0 <= i < s.drop_first().len() ==> s.drop_first()[i] == s[
                i + 1
            ]);
        }
        lemma_join_sep_ascii(s.drop_first(), sep);
        crate::text::lemma_ascii_concat(s[0], sep);
        crate::text::lemma_ascii_concat(s[0] + sep, join_sep(s.drop_first(), sep));
    }
}

/// The `Authorization` header's bytes are ASCII: parameter names are
/// ASCII literals, values are percent-encoded, and the punctuation is
/// ASCII.
proof fn lemma_header_ascii(v: SignerView, method: Seq<char>, endpoint: Seq<char>)
    ensures
        crate::text::spec_all_ascii(
            join_sep(header_items(v, method, endpoint), bytes_of(", "@)),
        ),
{
    reveal_strlit("oauth_consumer_key");
    reveal_strlit("oauth_nonce");
    reveal_strlit("oauth_signature_method");
    reveal_strlit("oauth_timestamp");
    reveal_strlit("oauth_version");
    reveal_strlit("oauth_token");
    reveal_strlit("oauth_signature");
    reveal_strlit(", ");
    lemma_lit_ascii("oauth_consumer_key"@);
    lemma_lit_ascii("oauth_nonce"@);
    lemma_lit_ascii("oauth_signature_method"@);
    lemma_lit_ascii("oauth_timestamp"@);
    lemma_lit_ascii("oauth_version"@);
    lemma_lit_ascii("oauth_token"@);
    lemma_lit_ascii("oauth_signature"@);
    lemma_lit_ascii(", "@);
    let with_sig = oauth_params(v).push(
        (bytes_of("oauth_signature"@), bytes_of(signature_of(v, method, endpoint))),
    );
    let formatted = header_formatted(with_sig);
    assert forall|i: int| 0 <= i < formatted.len() implies crate::text::spec_all_ascii(
        #[trigger] formatted[i],
    ) by {
        assert(formatted[i] == header_item(with_sig[i]));
        assert(crate::text::spec_all_ascii(with_sig[i].0));
        lemma_header_item_ascii(with_sig[i]);
    }
    lemma_sort_seqs_ascii(formatted);
    lemma_join_sep_ascii(sort_seqs(formatted), bytes_of(", "@));
}

/// OAuth1 signatures are reproducible: the signature is a function of the
/// method, the URL, the credentials, the nonce and the timestamp alone, so
/// two signers that agree on those fields produce bit-identical
/// signatures.
pub proof fn lemma_signature_reproducible(
    a: SignerView,
    b: SignerView,
    method: Seq<char>,
    endpoint: Seq<char>,
)
    requires
        a.nonce == b.nonce,
        a.timestamp == b.timestamp,
        a.token == b.token,
        a.secret == b.secret,
        a.consumer_key == b.consumer_key,
        a.consumer_secret == b.consumer_secret,
    ensures
        signature_of(a, method, endpoint) == signature_of(b, method, endpoint),
{
    assert(a =~= b);
}

} // verus!\n
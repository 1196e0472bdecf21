use vstd::prelude::*;

use crate::error::AgentError;

verus! {

#[verifier::external_type_specification]
#[verifier::external_body]
pub struct ExBase64Error(base64ct::Error);

/// The 128-bit MD5 digest of a byte sequence.
pub uninterp spec fn md5_of(b: Seq<u8>) -> Seq<u8>;

/// What Base64 (standard alphabet, padded) decoding makes of a text, if it is
/// valid encoding.
pub uninterp spec fn base64_decoded(s: Seq<char>) -> Option<Seq<u8>>;

/// The standard, padded Base64 encoding of a byte sequence.
pub uninterp spec fn base64_encoded(b: Seq<u8>) -> Seq<char>;

/// The lower-case hexadecimal digit of a value below 16.
pub open spec fn hex_digit(n: int) -> char {
    seq!['0', '1', '2', '3', '4', '5', '6', '7', '8', '9', 'a', 'b', 'c', 'd', 'e', 'f'][n]
}

/// Lower-case hexadecimal text of bytes: two digits per byte, high half first.
pub open spec fn hex_lower(b: Seq<u8>) -> Seq<char>
    decreases b.len(),
{
    if b.len() == 0 {
        Seq::empty()
    } else {
        seq![hex_digit(b[0] as int / 16), hex_digit(b[0] as int % 16)] + hex_lower(b.drop_first())
    }
}

/// The content fingerprint of a file: the lower-case hex text of its MD5 digest.
pub open spec fn fingerprint_of(b: Seq<u8>) -> Seq<char> {
    hex_lower(md5_of(b))
}

/// Relies on md5::Md5::digest (RustCrypto `md-5`): the 16-byte digest of `b`.
#[verifier::external_body]
fn md5_digest(b: &[u8]) -> (r: Vec<u8>)
    ensures
        r@ == md5_of(b@),
        r@.len() == 16,
{
    <md5::Md5 as md5::Digest>::digest(b).to_vec()
}

/// Relies on base16ct::lower::encode_string: two lower-case hex digits per byte.
#[verifier::external_body]
fn lower_hex(b: &[u8]) -> (r: String)
    requires
        b@.len() <= usize::MAX / 2,
    ensures
        r@ == hex_lower(b@),
{
    base16ct::lower::encode_string(b)
}

/// Relies on base64ct::Base64::decode_vec: the decoded bytes, or an error for
/// text that is not valid padded Base64.
#[verifier::external_body]
fn base64_decode(s: &str) -> (r: Result<Vec<u8>, base64ct::Error>)
    ensures
        r is Ok <==> base64_decoded(s@) is Some,
        r is Ok ==> base64_decoded(s@) == Some(r->Ok_0@),
{
    <base64ct::Base64 as base64ct::Encoding>::decode_vec(s)
}

/// Relies on base64ct::Base64::encode_string, which panics when four times
/// the input length overflows.
#[verifier::external_body]
fn base64_encode(b: &[u8]) -> (r: String)
    requires
        b@.len() <= usize::MAX / 4,
    ensures
        r@ == base64_encoded(b@),
{
    <base64ct::Base64 as base64ct::Encoding>::encode_string(b)
}

/// The content fingerprint of `b`.
pub fn fingerprint(b: &[u8]) -> (r: String)
    ensures
        r@ == fingerprint_of(b@),
{
    let d = md5_digest(b);
    lower_hex(d.as_slice())
}

/// The local bytes of a file, if it exists.
pub open spec fn local_bytes(o: Option<Vec<u8>>) -> Option<Seq<u8>> {
    match o {
        Some(v) => Some(v@),
        None => None,
    }
}

/// A file must be uploaded unless it exists with the expected fingerprint.
pub open spec fn is_stale(expected: Seq<char>, local: Option<Seq<u8>>) -> bool {
    match local {
        Some(b) => fingerprint_of(b) != expected,
        None => true,
    }
}

/// Whether the file offered with fingerprint `expected` must be uploaded,
/// given its local content (`None` where it does not exist).
pub fn needs_upload(expected: &String, local: &Option<Vec<u8>>) -> (r: bool)
    ensures
        r == is_stale(expected@, local_bytes(*local)),
{
    match local {
        Some(b) => {
            let f = fingerprint(b.as_slice());
            !(f == *expected)
        },
        None => true,
    }
}

/// The names, in order, of the offered files that must be uploaded.
pub open spec fn stale_names(offers: Seq<(String, String)>, local: Seq<Option<Vec<u8>>>) -> Seq<
    Seq<char>,
>
    decreases offers.len(),
{
    if offers.len() == 0 {
        Seq::empty()
    } else {
        let rest = stale_names(offers.drop_last(), local.drop_last());
        if is_stale(offers.last().1@, local_bytes(local.last())) {
            rest.push(offers.last().0@)
        } else {
            rest
        }
    }
}

/// The diff of the sync protocol: each offer is a (file name, expected
/// fingerprint) pair and `local[i]` is the content of the `i`-th offered file
/// in the working directory, if it exists. Returns the names to upload.
pub fn diff_files(offers: &Vec<(String, String)>, local: &Vec<Option<Vec<u8>>>) -> (r: Vec<String>)
    requires
        offers@.len() == local@.len(),
    ensures
        r@.map_values(|s: String| s@) == stale_names(offers@, local@),
{
    let mut out: Vec<String> = Vec::new();
    let mut i: usize = 0;
    while i < offers.len()
        invariant
            offers@.len() == local@.len(),
            i <= offers@.len(),
            out@.map_values(|s: String| s@) == stale_names(offers@.take(i as int), local@.take(i as int)),
        decreases offers@.len() - i,
    {
        let stale = needs_upload(&offers[i].1, &local[i]);
        proof {
            let o = offers@.take(i + 1);
            let l = local@.take(i + 1);
            assert(o.drop_last() =~= offers@.take(i as int));
            assert(l.drop_last() =~= local@.take(i as int));
            assert(o.last() == offers@[i as int]);
            assert(l.last() == local@[i as int]);
        }
        if stale {
            let name = offers[i].0.clone();
            out.push(name);
            assert(out@.map_values(|s: String| s@) =~= stale_names(offers@.take(i as int), local@.take(i as int)).push(offers@[i as int].0@));
        }
        i = i + 1;
    }
    assert(offers@.take(offers@.len() as int) =~= offers@);
    assert(local@.take(local@.len() as int) =~= local@);
    out
}

/// Where no offered file exists locally, every offered name must be uploaded.
pub proof fn lemma_missing_files_all_stale(
    offers: Seq<(String, String)>,
    local: Seq<Option<Vec<u8>>>,
)
    requires
        offers.len() == local.len(),
        forall|i: int| 0 <= i < local.len() ==> local[i] is None,
    ensures
        stale_names(offers, local) == offers.map_values(|p: (String, String)| p.0@),
        stale_names(offers, local).len() == offers.len(),
    decreases offers.len(),
{
    if offers.len() > 0 {
        lemma_missing_files_all_stale(offers.drop_last(), local.drop_last());
        assert(offers.map_values(|p: (String, String)| p.0@) =~= offers.drop_last().map_values(
            |p: (String, String)| p.0@,
        ).push(offers.last().0@));
    }
}

/// Where every offered file exists with its expected fingerprint, nothing must
/// be uploaded.
pub proof fn lemma_matching_files_none_stale(
    offers: Seq<(String, String)>,
    local: Seq<Option<Vec<u8>>>,
)
    requires
        offers.len() == local.len(),
        forall|i: int|
            0 <= i < local.len() ==> (#[trigger] local[i] matches Some(b) && fingerprint_of(b@)
                == offers[i].1@),
    ensures
        stale_names(offers, local) == Seq::<Seq<char>>::empty(),
    decreases offers.len(),
{
    if offers.len() > 0 {
        let n = (offers.len() - 1) as int;
        assert(local[n] matches Some(b) && fingerprint_of(b@) == offers[n].1@);
        assert forall|i: int| 0 <= i < local.drop_last().len() implies (
        #[trigger] local.drop_last()[i] matches Some(b) && fingerprint_of(b@) == offers.drop_last()[i].1@) by {
            assert(local.drop_last()[i] == local[i]);
        }
        lemma_matching_files_none_stale(offers.drop_last(), local.drop_last());
    }
}

/// The permission bits given to a pushed file: read, write and execute for
/// everyone when it is marked executable, unchanged otherwise.
pub fn permission_mode(executable: bool) -> (r: Option<u32>)
    ensures
        r == (if executable {
            Some(0o777u32)
        } else {
            None::<u32>
        }),
        r matches Some(m) ==> m & 0o100 == 0o100,
{
    if executable {
        assert(0o777u32 & 0o100u32 == 0o100u32) by (bit_vector);
        Some(0o777)
    } else {
        None
    }
}

/// A file of a push, ready to be written: its content and, if any, its mode.
pub struct PreparedFile {
    pub bytes: Vec<u8>,
    pub mode: Option<u32>,
}

/// Decodes the transported payload of one pushed file and settles its mode.
pub fn prepare_upload(data: &str, executable: bool) -> (r: Result<PreparedFile, AgentError>)
    ensures
        match base64_decoded(data@) {
            Some(b) => r matches Ok(p) && p.bytes@ == b && p.mode == (if executable {
                Some(0o777u32)
            } else {
                None::<u32>
            }),
            None => r == Err::<PreparedFile, AgentError>(AgentError::MalformedPayload),
        },
{
    match base64_decode(data) {
        Ok(bytes) => Ok(PreparedFile { bytes, mode: permission_mode(executable) }),
        Err(_) => Err(AgentError::MalformedPayload),
    }
}

/// The pull of the sync protocol: the transport encoding of a file's content,
/// or an error where the file does not exist (`None`).
pub fn pull_payload(local: &Option<Vec<u8>>) -> (r: Result<String, AgentError>)
    requires
        local matches Some(b) ==> b@.len() <= usize::MAX / 4,
    ensures
        match local {
            Some(b) => r matches Ok(t) && t@ == base64_encoded(b@),
            None => r == Err::<String, AgentError>(AgentError::MissingFile),
        },
{
    match local {
        Some(b) => Ok(base64_encode(b.as_slice())),
        None => Err(AgentError::MissingFile),
    }
}

} // verus!

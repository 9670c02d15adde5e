//! The answer to a scrape of the exporter's `/metrics` endpoint.
//!
//! A scrape first encodes the process-wide metrics, then (after the devices have been
//! polled) the exporter's own registry, both in the Prometheus text format. Either
//! encoding failing turns the answer into an internal-server-error response.
use vstd::prelude::*;
use vstd::string::*;
use vstd::utf8::*;
use prometheus::Encoder;
use crate::collectors::{
    family_kind, family_kind_of, family_name, family_name_of, family_sample_count,
    family_sample_count_of, FamilyKind,
};

verus! {

broadcast use {
    vstd::utf8::encode_utf8_valid_utf8,
    vstd::utf8::encode_utf8_decode_utf8,
    vstd::utf8::decode_utf8_encode_utf8,
};

/// The body sent when the metrics cannot be encoded.
pub open spec fn internal_error_body() -> Seq<char> {
    "Something went wrong"@
}

/// The content type of the Prometheus text format.
pub open spec fn text_format_content_type() -> Seq<char> {
    "text/plain; version=0.0.4"@
}

/// An HTTP answer: status code, optional `Content-Type` header, and body text.
#[derive(Debug, Clone)]
pub struct MetricsResponse {
    pub status: u16,
    pub content_type: Option<String>,
    pub body: String,
}

/// `r` is the internal-server-error answer.
pub open spec fn is_internal_error(r: MetricsResponse) -> bool {
    &&& r.status == 500
    &&& r.content_type is None
    &&& r.body@ == internal_error_body()
}

/// `r` is a successful answer carrying `text` in the Prometheus text format.
pub open spec fn is_text_response(r: MetricsResponse, text: Seq<char>) -> bool {
    &&& r.status == 200
    &&& r.content_type matches Some(t) && t@ == text_format_content_type()
    &&& r.body@ == text
}

/// The families' check before encoding passes: a name and at least one metric.
pub open spec fn family_encodable(f: prometheus::proto::MetricFamily) -> bool {
    family_name(f).len() > 0 && family_sample_count(f) > 0
}

/// Every family passes the encoder's check.
pub open spec fn encodable(families: Seq<prometheus::proto::MetricFamily>) -> bool {
    forall|i: int| 0 <= i < families.len() ==> family_encodable(#[trigger] families[i])
}

/// The encoder reaches an untyped family with metrics, which it does not support: some
/// untyped family passes the check, and so do all the families before it.
pub open spec fn encode_panics(families: Seq<prometheus::proto::MetricFamily>) -> bool {
    exists|i: int|
        0 <= i < families.len() && family_encodable(#[trigger] families[i]) && family_kind(
            families[i],
        ) == FamilyKind::Untyped && forall|j: int|
            0 <= j < i ==> family_encodable(#[trigger] families[j])
}

/// The text the Prometheus text encoder writes for `families`.
pub uninterp spec fn prometheus_text(families: Seq<prometheus::proto::MetricFamily>) -> Seq<char>;

/// Calls `<prometheus::TextEncoder as prometheus::Encoder>::encode` with `buffer` as the
/// writer. In the crate's source the encoder goes through the families in order: it
/// returns an error at the first one without a name or without metrics, and panics
/// (`unimplemented!`) on the metrics of an untyped family, which `requires` rules out.
/// It only ever writes whole `&str`s, as their UTF-8 bytes, and writing to a `Vec<u8>`
/// appends and cannot fail. So it succeeds exactly when every family has a name and
/// metrics, and then has appended the encoding of `prometheus_text(families)`; whatever
/// the result, the buffer has grown by the UTF-8 encoding of some text; with no
/// families it writes nothing.
#[verifier::external_body]
fn encode_text(families: &Vec<prometheus::proto::MetricFamily>, buffer: &mut Vec<u8>) -> (r: Result<
    (),
    prometheus::Error,
>)
    requires
        !encode_panics(families@),
    ensures
        exists|t: Seq<char>| final(buffer)@ == old(buffer)@ + encode_utf8(t),
        r is Ok <==> encodable(families@),
        r is Ok ==> final(buffer)@ == old(buffer)@ + encode_utf8(prometheus_text(families@)),
        families@.len() == 0 ==> final(buffer)@ == old(buffer)@,
{
    prometheus::TextEncoder::new().encode(families, buffer)
}

/// Whether encoding `families` would reach an untyped family with metrics.
pub fn encode_would_panic(families: &Vec<prometheus::proto::MetricFamily>) -> (b: bool)
    ensures
        b == encode_panics(families@),
{
    let n = families.len();
    let mut i: usize = 0;
    while i < n
        invariant
            n == families@.len(),
            i <= n,
            forall|j: int| 0 <= j < i ==> family_encodable(#[trigger] families@[j]),
            forall|j: int|
                0 <= j < i ==> family_kind(#[trigger] families@[j]) != FamilyKind::Untyped,
        decreases n - i,
    {
        let f = &families[i];
        let ok = family_name_of(f).unicode_len() > 0 && family_sample_count_of(f) > 0;
        if !ok {
            proof {
                assert(!family_encodable(families@[i as int]));
                assert forall|k: int|
                    0 <= k < families@.len() && family_encodable(#[trigger] families@[k])
                        && family_kind(families@[k]) == FamilyKind::Untyped implies !(forall|j: int|
                    0 <= j < k ==> family_encodable(#[trigger] families@[j])) by {
                    if k > i {
                        assert(!family_encodable(families@[i as int]));
                    }
                }
            }
            return false;
        }
        if family_kind_of(f) == FamilyKind::Untyped {
            proof {
                assert(family_encodable(families@[i as int]));
            }
            return true;
        }
        i = i + 1;
    }
    false
}

/// Calls `String::from_utf8`. Its documentation: it returns the string when the bytes
/// are valid UTF-8, and an error otherwise.
#[verifier::external_body]
fn string_from_utf8(bytes: Vec<u8>) -> (r: Option<String>)
    ensures
        r is Some <==> valid_utf8(bytes@),
        r matches Some(s) ==> encode_utf8(s@) == bytes@,
{
    String::from_utf8(bytes).ok()
}

/// Calls `prometheus::gather`, which reports the collectors of the process-wide default
/// registry. Nothing is claimed of the result: it depends on the state of the process.
#[verifier::external_body]
fn default_registry_gather() -> (families: Vec<prometheus::proto::MetricFamily>) {
    prometheus::gather()
}

/// The internal-server-error answer.
pub fn internal_error() -> (r: MetricsResponse)
    ensures
        is_internal_error(r),
{
    MetricsResponse { status: 500, content_type: None, body: String::from_str("Something went wrong") }
}

/// The successful answer carrying `body` in the Prometheus text format.
pub fn text_response(body: String) -> (r: MetricsResponse)
    ensures
        is_text_response(r, body@),
{
    MetricsResponse {
        status: 200,
        content_type: Some(String::from_str("text/plain; version=0.0.4")),
        body,
    }
}

/// Metrics text in the Prometheus text format, being built up family list by family list.
#[derive(Debug)]
pub struct Exposition {
    bytes: Vec<u8>,
}

impl View for Exposition {
    type V = Seq<char>;

    /// The text gathered so far.
    closed spec fn view(&self) -> Seq<char> {
        decode_utf8(self.bytes@)
    }
}

impl Exposition {
    /// The bytes are always UTF-8 text.
    #[verifier::type_invariant]
    spec fn inv(&self) -> bool {
        valid_utf8(self.bytes@)
    }

    /// An empty exposition.
    pub fn new() -> (e: Exposition)
        ensures
            e@ == Seq::<char>::empty(),
    {
        let bytes: Vec<u8> = Vec::new();
        proof {
            assert(bytes@ =~= encode_utf8(Seq::<char>::empty()));
        }
        Exposition { bytes }
    }

    /// Appends the encoding of `families`; returns whether the encoder succeeded.
    /// Whatever the outcome, the text only grows; an empty list of families always
    /// encodes, to nothing.
    pub fn append(&mut self, families: &Vec<prometheus::proto::MetricFamily>) -> (ok: bool)
        requires
            !encode_panics(families@),
        ensures
            ok == encodable(families@),
            ok ==> final(self)@ == old(self)@ + prometheus_text(families@),
            old(self)@.is_prefix_of(final(self)@),
            families@.len() == 0 ==> final(self)@ == old(self)@,
    {
        proof {
            use_type_invariant(&*self);
        }
        let ghost before = self@;
        let mut bytes: Vec<u8> = Vec::new();
        std::mem::swap(&mut bytes, &mut self.bytes);
        let ghost old_bytes = bytes@;
        let r = encode_text(families, &mut bytes);
        proof {
            let t = choose|t: Seq<char>| bytes@ == old_bytes + encode_utf8(t);
            assert(old_bytes == encode_utf8(before));
            lemma_encode_utf8_concat(before, t);
            assert(bytes@ == encode_utf8(before + t));
            assert(decode_utf8(bytes@) == before + t);
            assert(before.is_prefix_of(before + t));
            if r is Ok {
                lemma_encode_utf8_concat(before, prometheus_text(families@));
            }
        }
        self.bytes = bytes;
        r.is_ok()
    }

    /// The successful answer carrying the text gathered so far.
    pub fn into_response(self) -> (r: MetricsResponse)
        ensures
            is_text_response(r, self@),
    {
        proof {
            use_type_invariant(&self);
        }
        let Exposition { bytes } = self;
        match string_from_utf8(bytes) {
            Some(body) => text_response(body),
            None => {
                proof {
                    assert(false);
                }
                internal_error()
            },
        }
    }
}

/// The UTF-8 encoding of two texts one after the other is the encoding of the joined text.
proof fn lemma_encode_utf8_concat(a: Seq<char>, b: Seq<char>)
    ensures
        encode_utf8(a + b) == encode_utf8(a) + encode_utf8(b),
    decreases a.len(),
{
    if a.len() == 0 {
        assert(a + b =~= b);
        assert(encode_utf8(a) =~= Seq::<u8>::empty());
        assert(encode_utf8(a) + encode_utf8(b) =~= encode_utf8(b));
    } else {
        lemma_encode_utf8_concat(a.drop_first(), b);
        assert((a + b).drop_first() =~= a.drop_first() + b);
        assert((a + b)[0] == a[0]);
    }
}

/// The answer once the encoder has reported on the last family list: the gathered text
/// when it succeeded, the internal-server-error answer when it failed.
pub fn respond(encoded: bool, e: Exposition) -> (r: MetricsResponse)
    ensures
        encoded ==> is_text_response(r, e@),
        !encoded ==> is_internal_error(r),
{
    if encoded {
        e.into_response()
    } else {
        internal_error()
    }
}

/// Starts an answer from the given process-wide metric families: an exposition holding
/// their encoding when every family can be encoded, the internal-server-error answer
/// otherwise.
pub fn start_exposition(families: &Vec<prometheus::proto::MetricFamily>) -> (r: Result<
    Exposition,
    MetricsResponse,
>)
    requires
        !encode_panics(families@),
    ensures
        r is Ok <==> encodable(families@),
        r matches Ok(e) ==> e@ == prometheus_text(families@),
        r matches Err(resp) ==> is_internal_error(resp),
        families@.len() == 0 ==> (r matches Ok(e) && e@ == Seq::<char>::empty()),
{
    let mut e = Exposition::new();
    if e.append(families) {
        assert(Seq::<char>::empty() + prometheus_text(families@) =~= prometheus_text(families@));
        Ok(e)
    } else {
        Err(internal_error())
    }
}

/// `r` is the start of an answer for `families`: the internal-server-error answer when
/// encoding them would reach an untyped family (which the encoder does not support) or
/// would fail, else an exposition holding their text.
pub open spec fn starts_exposition(
    families: Seq<prometheus::proto::MetricFamily>,
    r: Result<Exposition, MetricsResponse>,
) -> bool {
    &&& encode_panics(families) ==> r is Err
    &&& !encode_panics(families) ==> (r is Ok <==> encodable(families))
    &&& r matches Ok(e) ==> e@ == prometheus_text(families)
    &&& r matches Err(resp) ==> is_internal_error(resp)
}

/// Starts an answer from any list of process-wide metric families (see
/// `starts_exposition`).
pub fn open_exposition(families: &Vec<prometheus::proto::MetricFamily>) -> (r: Result<
    Exposition,
    MetricsResponse,
>)
    ensures
        starts_exposition(families@, r),
{
    if encode_would_panic(families) {
        return Err(internal_error());
    }
    start_exposition(families)
}

/// Starts an answer from the process-wide default registry: `open_exposition` on the
/// families it reports.
pub fn begin_exposition() -> (r: Result<Exposition, MetricsResponse>)
    ensures
        exists|families: Seq<prometheus::proto::MetricFamily>| starts_exposition(families, r),
{
    let families = default_registry_gather();
    let r = open_exposition(&families);
    assert(starts_exposition(families@, r));
    r
}

/// Finishes an answer with the exporter's own metric families: the text gathered so
/// far followed by their encoding when every family can be encoded, the
/// internal-server-error answer otherwise.
pub fn finish_exposition(e: Exposition, families: &Vec<prometheus::proto::MetricFamily>) -> (r:
    MetricsResponse)
    requires
        !encode_panics(families@),
    ensures
        encodable(families@) ==> is_text_response(r, e@ + prometheus_text(families@)),
        !encodable(families@) ==> is_internal_error(r),
{
    let mut e = e;
    let ok = e.append(families);
    respond(ok, e)
}

} // verus!

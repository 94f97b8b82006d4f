//! The tags that every request to the speech services carries.
use crate::clients::ApiClients;
use std::str::FromStr;
use tonic::metadata::{Ascii, MetadataMap, MetadataValue};
use vstd::prelude::*;
use vstd::string::*;
use vstd::utf8::encode_utf8;

verus! {

/// The metadata of a request.
#[verifier::external_type_specification]
#[verifier::external_body]
pub struct ExMetadataMap(tonic::metadata::MetadataMap);

/// What else travels with a request inside the process.
#[verifier::external_type_specification]
#[verifier::external_body]
pub struct ExExtensions(tonic::Extensions);

/// With at most this many names in a `MetadataMap`, another entry always finds room. The map's
/// table has at most 2^15 places; it is never made larger for an entry while less than a fifth of
/// them are taken.
pub const ROOMY_NAMES: usize = 6553;

/// What a `MetadataMap` holds: under each name, the values in their order.
pub uninterp spec fn metadata_entries(metadata: MetadataMap) -> Map<Seq<char>, Seq<Seq<u8>>>;

/// Whether a text can be the value of a tag: it holds no ASCII control character but tabs.
pub open spec fn taggable(value: Seq<char>) -> bool {
    forall|i: int| 0 <= i < value.len() ==> tag_char(#[trigger] value[i])
}

/// A character that the value of a tag may hold.
pub open spec fn tag_char(c: char) -> bool {
    c as u32 >= 0x20 && c as u32 != 0x7f || c == '\t'
}

/// The most characters that the name of a tag may have.
pub const TAG_NAME_LIMIT: usize = 0xffff;

/// Whether a text can be the name of a tag: small letters, digits and hyphens, not too many of
/// them, and not ending in the mark of a binary value.
pub open spec fn tag_name(name: Seq<char>) -> bool {
    &&& 0 < name.len() <= TAG_NAME_LIMIT
    &&& forall|i: int| 0 <= i < name.len() ==> {
        let c = #[trigger] name[i] as u32;
        0x61 <= c <= 0x7a || 0x30 <= c <= 0x39 || c == 0x2d
    }
    &&& !"-bin"@.is_suffix_of(name)
}

/// Calls `MetadataValue::<Ascii>::from_str` of tonic. Claimed of it: it takes the texts that hold no
/// byte below 32 other than a tab and no byte 127 (of a text in UTF-8, only an ASCII character has
/// such a byte), and no others.
#[verifier::external_body]
fn is_metadata_value(value: &str) -> (r: bool)
    ensures
        r == taggable(value@),
{
    MetadataValue::<Ascii>::from_str(value).is_ok()
}

/// Calls `MetadataMap::insert` of tonic with a text that `MetadataValue::<Ascii>::from_str` takes.
/// Claimed of it: under the name, the bytes of the text replace all values that were there; nothing
/// else changes, so there is at most one name more than before.
#[verifier::external_body]
fn insert_value(metadata: &mut MetadataMap, name: &'static str, value: &str)
    requires
        tag_name(name@),
        taggable(value@),
        metadata_entries(*old(metadata)).dom().len() <= ROOMY_NAMES,
    ensures
        metadata_entries(*final(metadata)) == metadata_entries(*old(metadata)).insert(
            name@,
            seq![encode_utf8(value@)],
        ),
        metadata_entries(*final(metadata)).dom().len() <= metadata_entries(
            *old(metadata),
        ).dom().len() + 1,
{
    if let Ok(value) = MetadataValue::<Ascii>::from_str(value) {
        metadata.insert(name, value);
    }
}

/// Calls `MetadataMap::keys_len` of tonic: the number of names, each counted once.
#[verifier::external_body]
fn names_len(metadata: &MetadataMap) -> (r: usize)
    ensures
        r == metadata_entries(*metadata).dom().len(),
{
    metadata.keys_len()
}

/// A request with what travels with it.
pub struct GrpcRequest<T> {
    pub metadata: MetadataMap,
    pub extensions: tonic::Extensions,
    pub message: T,
}

impl<T> GrpcRequest<T> {
    /// What the metadata of the request holds.
    pub open spec fn entries(self) -> Map<Seq<char>, Seq<Seq<u8>>> {
        metadata_entries(self.metadata)
    }

    /// Whether three tags always find room in the metadata.
    pub open spec fn roomy(self) -> bool {
        self.entries().dom().len() + 2 <= ROOMY_NAMES
    }
}

/// Metadata with one tag put in; a text that cannot be a tag's value is passed over.
pub open spec fn tagged(
    entries: Map<Seq<char>, Seq<Seq<u8>>>,
    name: Seq<char>,
    value: Seq<char>,
) -> Map<Seq<char>, Seq<Seq<u8>>> {
    if taggable(value) {
        entries.insert(name, seq![encode_utf8(value)])
    } else {
        entries
    }
}

/// Metadata with the tags for a trace, a span and a tenant put in.
pub open spec fn injected(
    entries: Map<Seq<char>, Seq<Seq<u8>>>,
    trace_id: Seq<char>,
    span_id: Seq<char>,
    tenant_id: Seq<char>,
) -> Map<Seq<char>, Seq<Seq<u8>>> {
    let traced = tagged(entries, "x-trace-id"@, trace_id);
    let spanned = tagged(traced, "x-span-id"@, span_id);
    tagged(spanned, "x-tenant-id"@, tenant_id)
}

/// Puts one tag in.
fn tag(metadata: &mut MetadataMap, name: &'static str, value: &str)
    requires
        tag_name(name@),
        metadata_entries(*old(metadata)).dom().len() <= ROOMY_NAMES,
    ensures
        metadata_entries(*final(metadata)) == tagged(
            metadata_entries(*old(metadata)),
            name@,
            value@,
        ),
        metadata_entries(*final(metadata)).dom().len() <= metadata_entries(
            *old(metadata),
        ).dom().len() + 1,
{
    if is_metadata_value(value) {
        insert_value(metadata, name, value);
    }
}

/// The names of the tags are names of tags.
proof fn lemma_tag_names()
    ensures
        tag_name("x-trace-id"@),
        tag_name("x-span-id"@),
        tag_name("x-tenant-id"@),
{
    reveal_strlit("-bin");
    reveal_strlit("x-trace-id");
    reveal_strlit("x-span-id");
    reveal_strlit("x-tenant-id");
    assert("x-trace-id"@.subrange(6, 10)[3] == 'd');
    assert("x-span-id"@.subrange(5, 9)[3] == 'd');
    assert("x-tenant-id"@.subrange(7, 11)[3] == 'd');
}

impl ApiClients {
    /// Tags a request with a trace, a span and a tenant.
    pub fn inject_metadata<T>(
        &self,
        req: GrpcRequest<T>,
        trace_id: &str,
        span_id: &str,
        tenant_id: &str,
    ) -> (r: GrpcRequest<T>)
        requires
            req.roomy(),
        ensures
            r.message == req.message,
            r.extensions == req.extensions,
            r.entries() == injected(req.entries(), trace_id@, span_id@, tenant_id@),
    {
        proof {
            lemma_tag_names();
        }
        let mut metadata = req.metadata;
        tag(&mut metadata, "x-trace-id", trace_id);
        tag(&mut metadata, "x-span-id", span_id);
        tag(&mut metadata, "x-tenant-id", tenant_id);
        GrpcRequest { metadata, extensions: req.extensions, message: req.message }
    }

    /// Tags a request with a trace, a span and a tenant, or gives it back as it is where its
    /// metadata is so full that a tag might find no room.
    pub fn try_inject_metadata<T>(
        &self,
        req: GrpcRequest<T>,
        trace_id: &str,
        span_id: &str,
        tenant_id: &str,
    ) -> (r: Result<GrpcRequest<T>, GrpcRequest<T>>)
        ensures
            r is Ok <==> req.roomy(),
            r matches Ok(t) ==> {
                &&& t.message == req.message
                &&& t.extensions == req.extensions
                &&& t.entries() == injected(req.entries(), trace_id@, span_id@, tenant_id@)
            },
            r matches Err(t) ==> t == req,
    {
        if names_len(&req.metadata) <= ROOMY_NAMES - 2 {
            Ok(self.inject_metadata(req, trace_id, span_id, tenant_id))
        } else {
            Err(req)
        }
    }
}

/// A request carries each tag whose value can be one, and nothing else of its metadata changes.
pub proof fn lemma_request_is_tagged(
    entries: Map<Seq<char>, Seq<Seq<u8>>>,
    trace_id: Seq<char>,
    span_id: Seq<char>,
    tenant_id: Seq<char>,
)
    ensures
        ({
            let after = injected(entries, trace_id, span_id, tenant_id);
            &&& taggable(trace_id) ==> after.dom().contains("x-trace-id"@) && after["x-trace-id"@]
                == seq![encode_utf8(trace_id)]
            &&& taggable(span_id) ==> after.dom().contains("x-span-id"@) && after["x-span-id"@]
                == seq![encode_utf8(span_id)]
            &&& taggable(tenant_id) ==> after.dom().contains("x-tenant-id"@)
                && after["x-tenant-id"@] == seq![encode_utf8(tenant_id)]
            &&& forall|name: Seq<char>|
                name != "x-trace-id"@ && name != "x-span-id"@ && name != "x-tenant-id"@ ==> (
                #[trigger] after.dom().contains(name) <==> entries.dom().contains(name))
                    && after[name] == entries[name]
        }),
{
    lemma_tag_names_differ();
}

/// Tagging a request once more with the same values changes nothing.
pub proof fn lemma_tagging_is_idempotent(
    entries: Map<Seq<char>, Seq<Seq<u8>>>,
    trace_id: Seq<char>,
    span_id: Seq<char>,
    tenant_id: Seq<char>,
)
    ensures
        injected(injected(entries, trace_id, span_id, tenant_id), trace_id, span_id, tenant_id)
            == injected(entries, trace_id, span_id, tenant_id),
{
    lemma_tag_names_differ();
    assert(injected(
        injected(entries, trace_id, span_id, tenant_id),
        trace_id,
        span_id,
        tenant_id,
    ) =~= injected(entries, trace_id, span_id, tenant_id));
}

/// The last tags win: whatever a request was tagged with before, tagging it with values that can be
/// tags leaves it as if it had been tagged with these alone.
pub proof fn lemma_last_tags_win(
    entries: Map<Seq<char>, Seq<Seq<u8>>>,
    earlier_trace_id: Seq<char>,
    earlier_span_id: Seq<char>,
    earlier_tenant_id: Seq<char>,
    trace_id: Seq<char>,
    span_id: Seq<char>,
    tenant_id: Seq<char>,
)
    requires
        taggable(trace_id),
        taggable(span_id),
        taggable(tenant_id),
    ensures
        injected(
            injected(entries, earlier_trace_id, earlier_span_id, earlier_tenant_id),
            trace_id,
            span_id,
            tenant_id,
        ) == injected(entries, trace_id, span_id, tenant_id),
{
    lemma_tag_names_differ();
    assert(injected(
        injected(entries, earlier_trace_id, earlier_span_id, earlier_tenant_id),
        trace_id,
        span_id,
        tenant_id,
    ) =~= injected(entries, trace_id, span_id, tenant_id));
}

/// The names of the tags are three different names.
proof fn lemma_tag_names_differ()
    ensures
        "x-trace-id"@ != "x-span-id"@,
        "x-trace-id"@ != "x-tenant-id"@,
        "x-span-id"@ != "x-tenant-id"@,
{
    reveal_strlit("x-trace-id");
    reveal_strlit("x-span-id");
    reveal_strlit("x-tenant-id");
    assert("x-trace-id"@.len() == 10);
    assert("x-span-id"@.len() == 9);
    assert("x-tenant-id"@.len() == 11);
}

/// A tag's value may hold every character but the control characters of ASCII; of these, the tab.
pub proof fn lemma_tag_characters(c: char)
    ensures
        c as u32 >= 0x80 ==> tag_char(c),
        0x20 <= c as u32 <= 0x7e ==> tag_char(c),
        tag_char('\t'),
        (c as u32) < 0x20 && c != '\t' ==> !tag_char(c),
        c as u32 == 0x7f ==> !tag_char(c),
{
}

/// A text can be a tag's value exactly where each of its characters may stand in one: a text can be
/// one where its parts can.
pub proof fn lemma_taggable_parts(a: Seq<char>, b: Seq<char>)
    ensures
        taggable(a + b) <==> taggable(a) && taggable(b),
        taggable(Seq::empty()),
        a.len() == 1 ==> (taggable(a) <==> tag_char(a[0])),
{
    if taggable(a + b) {
        assert forall|i: int| 0 <= i < a.len() implies tag_char(#[trigger] a[i]) by {
            assert((a + b)[i] == a[i]);
        }
        assert forall|i: int| 0 <= i < b.len() implies tag_char(#[trigger] b[i]) by {
            assert((a + b)[a.len() + i] == b[i]);
        }
    }
}

/// What cannot be a tag's value leaves the tag as it was, and does not keep the other tags out.
pub proof fn lemma_bad_value_leaves_its_tag(
    entries: Map<Seq<char>, Seq<Seq<u8>>>,
    trace_id: Seq<char>,
    span_id: Seq<char>,
    tenant_id: Seq<char>,
)
    ensures
        ({
            let after = injected(entries, trace_id, span_id, tenant_id);
            &&& !taggable(trace_id) ==> (after.dom().contains("x-trace-id"@)
                <==> entries.dom().contains("x-trace-id"@)) && after["x-trace-id"@]
                == entries["x-trace-id"@]
            &&& !taggable(span_id) ==> (after.dom().contains("x-span-id"@)
                <==> entries.dom().contains("x-span-id"@)) && after["x-span-id"@]
                == entries["x-span-id"@]
            &&& !taggable(tenant_id) ==> (after.dom().contains("x-tenant-id"@)
                <==> entries.dom().contains("x-tenant-id"@)) && after["x-tenant-id"@]
                == entries["x-tenant-id"@]
        }),
{
    lemma_tag_names_differ();
}

/// A request has room for its tags exactly where its metadata has at most 6551 names; its entries
/// are those of its metadata.
pub proof fn lemma_roomy_requests<T>(req: GrpcRequest<T>)
    ensures
        req.entries() == metadata_entries(req.metadata),
        req.roomy() <==> metadata_entries(req.metadata).dom().len() <= 6551,
{
}

}

//! The NanoTDF header and its parser.
//!
//! A header is laid out as follows, in this order:
//!
//! ```text
//! format    'L' '1' version          version is 'L' or 'M'
//! locator   protocol(1) len(1) body(len)
//! policy    type(1) body binding
//!             type 0, remote:              body is a locator
//!             type 1, embedded plaintext:  body is len(2, big endian) bytes(len)
//!             type 2, embedded encrypted:  body is len(2, big endian) bytes(len)
//!             binding is 8 bytes for types 0 and 1 and absent for type 2,
//!             whose body authenticates itself
//! key       len(1) bytes(len)         len is 32 or 33
//! cipher    suite(1)
//! ```
//!
//! The parser checks shape only. The binding tag is handed out as it was
//! read: verifying it is a later step of its own.

use vstd::prelude::*;
use vstd::slice::slice_subrange;
use vstd::slice::slice_to_vec;
use crate::error::KasError;

verus! {

/// Length of a policy binding tag.
pub const BINDING_LEN: usize = 8;

/// Length of an ephemeral key that is raw key-agreement material.
pub const RAW_KEY_LEN: usize = 32;

/// Length of an ephemeral key that carries a leading format byte.
pub const PREFIXED_KEY_LEN: usize = 33;

/// Where a resource is found: a protocol and a body.
#[derive(Clone, Debug)]
pub struct ResourceLocator {
    pub protocol: u8,
    pub body: Vec<u8>,
}

/// The mathematical value of a `ResourceLocator`.
pub struct LocatorView {
    pub protocol: u8,
    pub body: Seq<u8>,
}

impl View for ResourceLocator {
    type V = LocatorView;

    open spec fn view(&self) -> LocatorView {
        LocatorView { protocol: self.protocol, body: self.body@ }
    }
}

/// How a header carries its policy.
#[derive(Clone, Copy, Debug, PartialEq, Eq, Structural)]
pub enum PolicyType {
    Remote,
    EmbeddedPlaintext,
    EmbeddedEncrypted,
}

impl PolicyType {
    /// Whether a binding tag follows a policy of this type.
    pub open spec fn spec_requires_binding(self) -> bool {
        self != PolicyType::EmbeddedEncrypted
    }

    /// Whether a binding tag follows a policy of this type.
    pub fn requires_binding(self) -> (b: bool)
        ensures
            b == self.spec_requires_binding(),
    {
        match self {
            PolicyType::Remote => true,
            PolicyType::EmbeddedPlaintext => true,
            PolicyType::EmbeddedEncrypted => false,
        }
    }

    /// Decodes the type byte of a policy.
    pub fn from_u8(tag: u8) -> (r: Option<PolicyType>)
        ensures
            r == spec_policy_type(tag),
    {
        match tag {
            0 => Some(PolicyType::Remote),
            1 => Some(PolicyType::EmbeddedPlaintext),
            2 => Some(PolicyType::EmbeddedEncrypted),
            _ => None,
        }
    }
}

/// The policy itself, or where to find it.
#[derive(Clone, Debug)]
pub enum PolicyBody {
    Reference(ResourceLocator),
    Embedded(Vec<u8>),
}

/// The mathematical value of a `PolicyBody`.
pub enum PolicyBodyView {
    Reference(LocatorView),
    Embedded(Seq<u8>),
}

impl View for PolicyBody {
    type V = PolicyBodyView;

    open spec fn view(&self) -> PolicyBodyView {
        match self {
            PolicyBody::Reference(locator) => PolicyBodyView::Reference(locator@),
            PolicyBody::Embedded(bytes) => PolicyBodyView::Embedded(bytes@),
        }
    }
}

/// The policy block of a header.
#[derive(Clone, Debug)]
pub struct Policy {
    pub policy_type: PolicyType,
    pub body: PolicyBody,
    pub binding: Option<Vec<u8>>,
}

/// The mathematical value of a `Policy`.
pub struct PolicyView {
    pub policy_type: PolicyType,
    pub body: PolicyBodyView,
    pub binding: Option<Seq<u8>>,
}

impl PolicyView {
    /// The body and the binding have the shape that the type calls for.
    pub open spec fn wf(self) -> bool {
        &&& (self.policy_type == PolicyType::Remote <==> self.body is Reference)
        &&& (self.policy_type.spec_requires_binding() <==> self.binding is Some)
        &&& (self.binding matches Some(tag) ==> tag.len() == BINDING_LEN)
    }
}

impl View for Policy {
    type V = PolicyView;

    open spec fn view(&self) -> PolicyView {
        PolicyView {
            policy_type: self.policy_type,
            body: self.body@,
            binding: match self.binding {
                Some(tag) => Some(tag@),
                None => None,
            },
        }
    }
}

impl Policy {
    /// How the policy is carried.
    pub fn get_type(&self) -> (t: PolicyType)
        ensures
            t == self@.policy_type,
    {
        self.policy_type
    }

    /// The policy, or the reference to it.
    pub fn get_body(&self) -> (b: &PolicyBody)
        ensures
            b@ == self@.body,
    {
        &self.body
    }

    /// The binding tag as it was read, unverified.
    pub fn get_binding(&self) -> (b: &Option<Vec<u8>>)
        ensures
            *b == self.binding,
    {
        &self.binding
    }
}

/// A parsed header.
#[derive(Clone, Debug)]
pub struct Header {
    pub version: u8,
    pub kas: ResourceLocator,
    pub policy: Policy,
    pub ephemeral_key: Vec<u8>,
    pub cipher_suite: u8,
}

/// The mathematical value of a `Header`.
pub struct HeaderView {
    pub version: u8,
    pub kas: LocatorView,
    pub policy: PolicyView,
    pub ephemeral_key: Seq<u8>,
    pub cipher_suite: u8,
}

impl HeaderView {
    /// What holds of every header that the parser hands out.
    pub open spec fn wf(self) -> bool {
        &&& spec_known_version(self.version)
        &&& self.policy.wf()
        &&& (self.ephemeral_key.len() == RAW_KEY_LEN || self.ephemeral_key.len()
            == PREFIXED_KEY_LEN)
    }
}

impl View for Header {
    type V = HeaderView;

    open spec fn view(&self) -> HeaderView {
        HeaderView {
            version: self.version,
            kas: self.kas@,
            policy: self.policy@,
            ephemeral_key: self.ephemeral_key@,
            cipher_suite: self.cipher_suite,
        }
    }
}

impl Header {
    /// The version byte of the format marker.
    pub fn get_version(&self) -> (v: u8)
        ensures
            v == self@.version,
    {
        self.version
    }

    /// Where the key access server of the object is found.
    pub fn get_kas(&self) -> (k: &ResourceLocator)
        ensures
            k@ == self@.kas,
    {
        &self.kas
    }

    /// The policy block, binding tag included.
    pub fn get_policy(&self) -> (p: &Policy)
        ensures
            p@ == self@.policy,
    {
        &self.policy
    }

    /// The ephemeral-key field as it was read.
    pub fn get_ephemeral_key(&self) -> (k: &Vec<u8>)
        ensures
            k@ == self@.ephemeral_key,
    {
        &self.ephemeral_key
    }

    /// The descriptor of the symmetric cipher suite.
    pub fn get_cipher_suite(&self) -> (c: u8)
        ensures
            c == self@.cipher_suite,
    {
        self.cipher_suite
    }
}

/// The `n` bytes at `pos` and the position behind them, or the failure of a
/// read that would pass the end.
pub open spec fn spec_take(b: Seq<u8>, pos: int, n: int) -> Result<(Seq<u8>, int), KasError> {
    if pos + n <= b.len() {
        Ok((b.subrange(pos, pos + n), pos + n))
    } else {
        Err(KasError::TruncatedHeader)
    }
}

/// The versions of the format that are known.
pub open spec fn spec_known_version(version: u8) -> bool {
    version == 0x4C || version == 0x4D
}

/// The format marker at `pos`: its version byte.
pub open spec fn spec_format(b: Seq<u8>, pos: int) -> Result<(u8, int), KasError> {
    match spec_take(b, pos, 3) {
        Err(e) => Err(e),
        Ok((m, end)) => if m[0] == 0x4C && m[1] == 0x31 && spec_known_version(m[2]) {
            Ok((m[2], end))
        } else {
            Err(KasError::InvalidHeaderField)
        },
    }
}

/// The locator at `pos`.
pub open spec fn spec_locator(b: Seq<u8>, pos: int) -> Result<(LocatorView, int), KasError> {
    match spec_take(b, pos, 2) {
        Err(e) => Err(e),
        Ok((head, pos1)) => match spec_take(b, pos1, head[1] as int) {
            Err(e) => Err(e),
            Ok((body, pos2)) => Ok((LocatorView { protocol: head[0], body: body }, pos2)),
        },
    }
}

/// The policy type that a type byte stands for, if any.
pub open spec fn spec_policy_type(tag: u8) -> Option<PolicyType> {
    if tag == 0 {
        Some(PolicyType::Remote)
    } else if tag == 1 {
        Some(PolicyType::EmbeddedPlaintext)
    } else if tag == 2 {
        Some(PolicyType::EmbeddedEncrypted)
    } else {
        None
    }
}

/// The body of a policy of type `ty` at `pos`.
pub open spec fn spec_policy_body(b: Seq<u8>, pos: int, ty: PolicyType) -> Result<
    (PolicyBodyView, int),
    KasError,
> {
    if ty == PolicyType::Remote {
        match spec_locator(b, pos) {
            Err(e) => Err(e),
            Ok((locator, end)) => Ok((PolicyBodyView::Reference(locator), end)),
        }
    } else {
        match spec_take(b, pos, 2) {
            Err(e) => Err(e),
            Ok((len, pos1)) => match spec_take(b, pos1, len[0] as int * 256 + len[1] as int) {
                Err(e) => Err(e),
                Ok((body, pos2)) => Ok((PolicyBodyView::Embedded(body), pos2)),
            },
        }
    }
}

/// The binding tag at `pos` behind a policy of type `ty`.
pub open spec fn spec_binding(b: Seq<u8>, pos: int, ty: PolicyType) -> Result<
    (Option<Seq<u8>>, int),
    KasError,
> {
    if ty.spec_requires_binding() {
        match spec_take(b, pos, BINDING_LEN as int) {
            Err(e) => Err(e),
            Ok((tag, end)) => Ok((Some(tag), end)),
        }
    } else {
        Ok((None, pos))
    }
}

/// The policy block at `pos`.
pub open spec fn spec_policy(b: Seq<u8>, pos: int) -> Result<(PolicyView, int), KasError> {
    match spec_take(b, pos, 1) {
        Err(e) => Err(e),
        Ok((t, pos1)) => match spec_policy_type(t[0]) {
            None => Err(KasError::InvalidHeaderField),
            Some(ty) => match spec_policy_body(b, pos1, ty) {
                Err(e) => Err(e),
                Ok((body, pos2)) => match spec_binding(b, pos2, ty) {
                    Err(e) => Err(e),
                    Ok((binding, pos3)) => Ok(
                        (PolicyView { policy_type: ty, body: body, binding: binding }, pos3),
                    ),
                },
            },
        },
    }
}

/// The ephemeral-key field at `pos`. A length that is not accepted is
/// refused whatever follows it.
pub open spec fn spec_ephemeral_key(b: Seq<u8>, pos: int) -> Result<(Seq<u8>, int), KasError> {
    match spec_take(b, pos, 1) {
        Err(e) => Err(e),
        Ok((len, pos1)) => if len[0] == RAW_KEY_LEN || len[0] == PREFIXED_KEY_LEN {
            spec_take(b, pos1, len[0] as int)
        } else {
            Err(KasError::EphemeralKeyLengthMismatch)
        },
    }
}

/// The header at `pos` and the position behind it.
pub open spec fn spec_header_at(b: Seq<u8>, pos: int) -> Result<(HeaderView, int), KasError> {
    match spec_format(b, pos) {
        Err(e) => Err(e),
        Ok((version, pos1)) => match spec_locator(b, pos1) {
            Err(e) => Err(e),
            Ok((kas, pos2)) => match spec_policy(b, pos2) {
                Err(e) => Err(e),
                Ok((policy, pos3)) => match spec_ephemeral_key(b, pos3) {
                    Err(e) => Err(e),
                    Ok((key, pos4)) => match spec_take(b, pos4, 1) {
                        Err(e) => Err(e),
                        Ok((suite, pos5)) => Ok(
                            (
                                HeaderView {
                                    version: version,
                                    kas: kas,
                                    policy: policy,
                                    ephemeral_key: key,
                                    cipher_suite: suite[0],
                                },
                                pos5,
                            ),
                        ),
                    },
                },
            },
        },
    }
}

/// The header that `b` begins with.
pub open spec fn spec_parse_header(b: Seq<u8>) -> Result<HeaderView, KasError> {
    match spec_header_at(b, 0) {
        Err(e) => Err(e),
        Ok((header, end)) => Ok(header),
    }
}

/// The number of bytes that the header at the start of `b` takes up.
pub open spec fn spec_header_len(b: Seq<u8>) -> int {
    match spec_header_at(b, 0) {
        Err(e) => 0,
        Ok((header, end)) => end,
    }
}

/// A cursor over the bytes of a header.
pub struct BinaryParser<'a> {
    data: &'a [u8],
    position: usize,
}

impl<'a> BinaryParser<'a> {
    /// The bytes that the cursor runs over.
    pub closed spec fn bytes(&self) -> Seq<u8> {
        self.data@
    }

    /// The position of the next byte to read.
    pub closed spec fn cursor(&self) -> int {
        self.position as int
    }

    /// The cursor stands inside the bytes or at their end.
    pub open spec fn wf(&self) -> bool {
        0 <= self.cursor() <= self.bytes().len()
    }

    /// A cursor at the start of `data`.
    pub fn new(data: &'a [u8]) -> (p: Self)
        ensures
            p.bytes() == data@,
            p.cursor() == 0,
            p.wf(),
    {
        BinaryParser { data: data, position: 0 }
    }

    /// Reads `n` bytes and moves behind them. A read that would pass the end
    /// fails and leaves the cursor where it was.
    pub fn read(&mut self, n: usize) -> (r: Result<Vec<u8>, KasError>)
        requires
            old(self).wf(),
        ensures
            final(self).wf(),
            final(self).bytes() == old(self).bytes(),
            match spec_take(old(self).bytes(), old(self).cursor(), n as int) {
                Ok((bytes, end)) => r matches Ok(v) && v@ == bytes && final(self).cursor() == end,
                Err(e) => r matches Err(x) && x == e && final(self).cursor() == old(self).cursor(),
            },
    {
        if n > self.data.len() - self.position {
            return Err(KasError::TruncatedHeader);
        }
        let end: usize = self.position + n;
        let bytes = slice_to_vec(slice_subrange(self.data, self.position, end));
        self.position = end;
        Ok(bytes)
    }

    /// Reads a locator: a protocol byte, a length byte and a body of that
    /// length.
    pub fn read_locator(&mut self) -> (r: Result<ResourceLocator, KasError>)
        requires
            old(self).wf(),
        ensures
            final(self).wf(),
            final(self).bytes() == old(self).bytes(),
            match spec_locator(old(self).bytes(), old(self).cursor()) {
                Ok((locator, end)) => r matches Ok(v) && v@ == locator && final(self).cursor()
                    == end,
                Err(e) => r matches Err(x) && x == e,
            },
    {
        let head = self.read(2)?;
        let len: usize = head[1] as usize;
        let body = self.read(len)?;
        Ok(ResourceLocator { protocol: head[0], body: body })
    }

    /// Reads a policy block: the type, the body that the type calls for, and
    /// the binding tag where the type requires one.
    pub fn read_policy(&mut self) -> (r: Result<Policy, KasError>)
        requires
            old(self).wf(),
        ensures
            final(self).wf(),
            final(self).bytes() == old(self).bytes(),
            match spec_policy(old(self).bytes(), old(self).cursor()) {
                Ok((policy, end)) => r matches Ok(v) && v@ == policy && final(self).cursor()
                    == end,
                Err(e) => r matches Err(x) && x == e,
            },
    {
        let tag = self.read(1)?;
        let policy_type = match PolicyType::from_u8(tag[0]) {
            Some(t) => t,
            None => {
                return Err(KasError::InvalidHeaderField);
            },
        };
        let body = match policy_type {
            PolicyType::Remote => PolicyBody::Reference(self.read_locator()?),
            _ => {
                let len = self.read(2)?;
                let n: usize = len[0] as usize * 256 + len[1] as usize;
                PolicyBody::Embedded(self.read(n)?)
            },
        };
        let binding = if policy_type.requires_binding() {
            Some(self.read(BINDING_LEN)?)
        } else {
            None
        };
        Ok(Policy { policy_type: policy_type, body: body, binding: binding })
    }

    /// Reads the ephemeral-key field: a length byte, which must announce one
    /// of the two accepted lengths, and the key.
    pub fn read_ephemeral_key(&mut self) -> (r: Result<Vec<u8>, KasError>)
        requires
            old(self).wf(),
        ensures
            final(self).wf(),
            final(self).bytes() == old(self).bytes(),
            match spec_ephemeral_key(old(self).bytes(), old(self).cursor()) {
                Ok((key, end)) => r matches Ok(v) && v@ == key && final(self).cursor() == end,
                Err(e) => r matches Err(x) && x == e,
            },
    {
        let len = self.read(1)?;
        let n: usize = len[0] as usize;
        if n != RAW_KEY_LEN && n != PREFIXED_KEY_LEN {
            return Err(KasError::EphemeralKeyLengthMismatch);
        }
        self.read(n)
    }

    /// Reads a whole header. On any failure no header is handed out.
    pub fn parse_header(&mut self) -> (r: Result<Header, KasError>)
        requires
            old(self).wf(),
        ensures
            final(self).wf(),
            final(self).bytes() == old(self).bytes(),
            match spec_header_at(old(self).bytes(), old(self).cursor()) {
                Ok((header, end)) => r matches Ok(v) && v@ == header && header.wf() && final(self).cursor() == end,
                Err(e) => r matches Err(x) && x == e,
            },
    {
        let marker = self.read(3)?;
        if marker[0] != 0x4C || marker[1] != 0x31 || (marker[2] != 0x4C && marker[2] != 0x4D) {
            return Err(KasError::InvalidHeaderField);
        }
        let kas = self.read_locator()?;
        let policy = self.read_policy()?;
        let ephemeral_key = self.read_ephemeral_key()?;
        let suite = self.read(1)?;
        Ok(
            Header {
                version: marker[2],
                kas: kas,
                policy: policy,
                ephemeral_key: ephemeral_key,
                cipher_suite: suite[0],
            },
        )
    }
}

/// Parses the header that `payload` begins with.
pub fn parse_header(payload: &[u8]) -> (r: Result<Header, KasError>)
    ensures
        match spec_parse_header(payload@) {
            Ok(header) => r matches Ok(v) && v@ == header && header.wf(),
            Err(e) => r matches Err(x) && x == e,
        },
{
    let mut parser = BinaryParser::new(payload);
    parser.parse_header()
}

/// Whether a field that parses from `whole` behaves on the first `n` bytes
/// of `whole` as a cut-off field must: where the field ends within the first
/// `n` bytes it parses as before, and where it does not the read is
/// truncated.
pub open spec fn spec_cut<T>(
    whole: Result<(T, int), KasError>,
    cut: Result<(T, int), KasError>,
    n: int,
) -> bool {
    whole matches Ok((value, end)) ==> if end <= n {
        cut == whole
    } else {
        cut == Err::<(T, int), KasError>(KasError::TruncatedHeader)
    }
}

proof fn lemma_take_cut(b: Seq<u8>, n: int, pos: int, k: int)
    requires
        0 <= n <= b.len(),
        0 <= pos,
        0 <= k,
    ensures
        spec_cut(spec_take(b, pos, k), spec_take(b.subrange(0, n), pos, k), n),
        spec_take(b, pos, k) matches Ok((bytes, end)) ==> end == pos + k && bytes.len() == k,
{
    if pos + k <= n {
        assert(b.subrange(0, n).subrange(pos, pos + k) =~= b.subrange(pos, pos + k));
    }
}

proof fn lemma_locator_cut(b: Seq<u8>, n: int, pos: int)
    requires
        0 <= n <= b.len(),
        0 <= pos,
    ensures
        spec_cut(spec_locator(b, pos), spec_locator(b.subrange(0, n), pos), n),
        spec_locator(b, pos) matches Ok((locator, end)) ==> end >= pos,
{
    lemma_take_cut(b, n, pos, 2);
    if let Ok((head, pos1)) = spec_take(b, pos, 2) {
        lemma_take_cut(b, n, pos1, head[1] as int);
    }
}

proof fn lemma_policy_cut(b: Seq<u8>, n: int, pos: int)
    requires
        0 <= n <= b.len(),
        0 <= pos,
    ensures
        spec_cut(spec_policy(b, pos), spec_policy(b.subrange(0, n), pos), n),
        spec_policy(b, pos) matches Ok((policy, end)) ==> end >= pos,
{
    lemma_take_cut(b, n, pos, 1);
    if let Ok((t, pos1)) = spec_take(b, pos, 1) {
        if let Some(ty) = spec_policy_type(t[0]) {
            lemma_locator_cut(b, n, pos1);
            lemma_take_cut(b, n, pos1, 2);
            if let Ok((len, p)) = spec_take(b, pos1, 2) {
                lemma_take_cut(b, n, p, len[0] as int * 256 + len[1] as int);
            }
            if let Ok((body, pos2)) = spec_policy_body(b, pos1, ty) {
                lemma_take_cut(b, n, pos2, BINDING_LEN as int);
            }
        }
    }
}

proof fn lemma_ephemeral_key_cut(b: Seq<u8>, n: int, pos: int)
    requires
        0 <= n <= b.len(),
        0 <= pos,
    ensures
        spec_cut(spec_ephemeral_key(b, pos), spec_ephemeral_key(b.subrange(0, n), pos), n),
        spec_ephemeral_key(b, pos) matches Ok((key, end)) ==> end >= pos,
{
    lemma_take_cut(b, n, pos, 1);
    if let Ok((len, pos1)) = spec_take(b, pos, 1) {
        lemma_take_cut(b, n, pos1, len[0] as int);
    }
}

/// Whatever parses is well formed: the version is known, the policy has the
/// body and the binding tag that its type calls for, and the ephemeral key
/// has one of the two accepted lengths.
pub proof fn lemma_parsed_header_is_well_formed(b: Seq<u8>)
    ensures
        spec_parse_header(b) matches Ok(header) ==> header.wf(),
        spec_parse_header(b) is Ok ==> 0 < spec_header_len(b) <= b.len(),
{
}

/// A header that is cut off before its end is refused as truncated, and as
/// nothing else: whatever the first `n` bytes of a well-formed header hold,
/// no header is handed out for them.
pub proof fn lemma_truncated_header_refused(b: Seq<u8>, n: int)
    requires
        spec_parse_header(b) is Ok,
        0 <= n < spec_header_len(b),
    ensures
        spec_header_len(b) <= b.len(),
        spec_parse_header(b.subrange(0, n)) == Err::<HeaderView, KasError>(
            KasError::TruncatedHeader,
        ),
{
    lemma_take_cut(b, b.len() as int, 0, 3);
    let (version, pos1) = spec_format(b, 0)->Ok_0;
    lemma_locator_cut(b, b.len() as int, pos1);
    let (kas, pos2) = spec_locator(b, pos1)->Ok_0;
    lemma_policy_cut(b, b.len() as int, pos2);
    let (policy, pos3) = spec_policy(b, pos2)->Ok_0;
    lemma_ephemeral_key_cut(b, b.len() as int, pos3);
    let (key, pos4) = spec_ephemeral_key(b, pos3)->Ok_0;
    lemma_take_cut(b, b.len() as int, pos4, 1);
    lemma_take_cut(b, n, 0, 3);
    lemma_locator_cut(b, n, pos1);
    lemma_policy_cut(b, n, pos2);
    lemma_ephemeral_key_cut(b, n, pos3);
    lemma_take_cut(b, n, pos4, 1);
}

/// Bytes that follow a header do not change how it parses.
pub proof fn lemma_trailing_bytes_ignored(b: Seq<u8>, rest: Seq<u8>)
    requires
        spec_parse_header(b) is Ok,
    ensures
        spec_header_at(b + rest, 0) == spec_header_at(b, 0),
{
    let whole = b + rest;
    let n = b.len() as int;
    assert(whole.subrange(0, n) =~= b);
    lemma_take_cut(whole, n, 0, 3);
    lemma_take_cut(whole, whole.len() as int, 0, 3);
    lemma_take_cut(b, n, 0, 3);
    let (version, pos1) = spec_format(b, 0)->Ok_0;
    lemma_locator_cut(whole, n, pos1);
    lemma_locator_cut(b, n, pos1);
    let (kas, pos2) = spec_locator(b, pos1)->Ok_0;
    lemma_policy_cut(whole, n, pos2);
    lemma_policy_cut(b, n, pos2);
    let (policy, pos3) = spec_policy(b, pos2)->Ok_0;
    lemma_ephemeral_key_cut(whole, n, pos3);
    lemma_ephemeral_key_cut(b, n, pos3);
    let (key, pos4) = spec_ephemeral_key(b, pos3)->Ok_0;
    lemma_take_cut(whole, n, pos4, 1);
    lemma_take_cut(b, n, pos4, 1);
}

} // verus!

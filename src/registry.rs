use vstd::prelude::*;
use crate::model::{Issuer, VerificationMethod};
use crate::url::URL;

verus! {

/// Why a registry operation failed.
#[derive(Debug)]
pub enum RegistryError {
    SerializationError(String),
    DatabaseError(String),
    ArgumentError(String),
}

impl RegistryError {
    /// A one-line description of the error.
    pub fn message(&self) -> (r: String)
        ensures
            self matches RegistryError::SerializationError(e) ==> r@ == "Serialization error: "@ + e@,
            self matches RegistryError::DatabaseError(e) ==> r@ == "Database error: "@ + e@,
            self matches RegistryError::ArgumentError(e) ==> r@ == "Authorization error: "@ + e@,
    {
        match self {
            RegistryError::SerializationError(e) => "Serialization error: ".to_string().concat(e.as_str()),
            RegistryError::DatabaseError(e) => "Database error: ".to_string().concat(e.as_str()),
            RegistryError::ArgumentError(e) => "Authorization error: ".to_string().concat(e.as_str()),
        }
    }
}

/// The column family that holds issuers.
pub const ISSUER_PATH: &'static str = "issuer";

/// The column family that holds schemas.
pub const SCHEMA_PATH: &'static str = "schema";

/// How many records a listing returns when the caller names no limit.
pub const DEFAULT_RESOURCE_LIMIT: usize = 20;

/// The key a record is stored under: its identifier's UTF-8 bytes.
pub open spec fn key_of(id: Seq<char>) -> Seq<u8> {
    vstd::utf8::encode_utf8(id)
}

/// A column family after a record is written: the key now holds the bytes.
pub open spec fn put_record(store: Map<Seq<u8>, Seq<u8>>, key: Seq<u8>, value: Seq<u8>) -> Map<
    Seq<u8>,
    Seq<u8>,
> {
    store.insert(key, value)
}

/// The records that decoded, in scan order.
pub open spec fn decoded_records<T>(s: Seq<Option<T>>) -> Seq<T>
    decreases s.len(),
{
    if s.len() == 0 {
        seq![]
    } else {
        match s[0] {
            Some(x) => seq![x] + decoded_records(s.drop_first()),
            None => decoded_records(s.drop_first()),
        }
    }
}

/// The limit a listing uses.
pub open spec fn limit_of(limit: Option<usize>) -> nat {
    match limit {
        Some(l) => l as nat,
        None => DEFAULT_RESOURCE_LIMIT as nat,
    }
}

/// The key under which a record with this identifier is stored.
pub fn record_key(id: &URL) -> (r: Vec<u8>)
    ensures
        r@ == key_of(id@),
{
    let bytes = id.get_str().as_bytes();
    let mut key: Vec<u8> = Vec::new();
    let mut i: usize = 0;
    while i < bytes.len()
        invariant
            i <= bytes@.len(),
            bytes@ == key_of(id@),
            key@ == bytes@.take(i as int),
        decreases bytes.len() - i,
    {
        proof {
            assert(bytes@.take(i + 1) =~= bytes@.take(i as int).push(bytes@[i as int]));
        }
        key.push(bytes[i]);
        i = i + 1;
    }
    proof {
        assert(bytes@.take(i as int) =~= bytes@);
    }
    key
}

/// The value of a string of decimal digits.
pub open spec fn decimal_value(s: Seq<u8>) -> nat
    decreases s.len(),
{
    if s.len() == 0 {
        0
    } else {
        decimal_value(s.drop_last()) * 10 + (s.last() - 48) as nat
    }
}

/// Every byte is an ASCII decimal digit.
pub open spec fn all_digits(s: Seq<u8>) -> bool {
    forall|i: int| 0 <= i < s.len() ==> 48 <= #[trigger] s[i] <= 57
}

/// The limit that query text asks for: a non-empty run of decimal digits
/// whose value fits a `usize`; anything else (a sign, other text, an
/// overflow) asks for the default.
pub open spec fn query_limit(s: Seq<u8>) -> nat {
    if s.len() > 0 && all_digits(s) && decimal_value(s) <= usize::MAX {
        decimal_value(s)
    } else {
        DEFAULT_RESOURCE_LIMIT as nat
    }
}

proof fn lemma_decimal_value_grows(s: Seq<u8>, k: int)
    requires
        all_digits(s),
        0 <= k <= s.len(),
    ensures
        decimal_value(s.take(k)) <= decimal_value(s),
    decreases s.len(),
{
    if k < s.len() {
        let p = s.drop_last();
        assert(p.take(k) =~= s.take(k));
        lemma_decimal_value_grows(p, k);
    } else {
        assert(s.take(k) =~= s);
    }
}

/// Reads the limit of a listing from query text.
pub fn limit_from_query(text: &str) -> (r: usize)
    ensures
        r as nat == query_limit(vstd::utf8::encode_utf8(text@)),
{
    let bytes = text.as_bytes();
    let ghost s = bytes@;
    if bytes.len() == 0 {
        return DEFAULT_RESOURCE_LIMIT;
    }
    let mut value: usize = 0;
    let mut i: usize = 0;
    while i < bytes.len()
        invariant
            i <= s.len(),
            bytes@ == s,
            s == vstd::utf8::encode_utf8(text@),
            s.len() > 0,
            all_digits(s.take(i as int)),
            value as nat == decimal_value(s.take(i as int)),
        decreases bytes.len() - i,
    {
        let b = bytes[i];
        proof {
            assert(s.take(i + 1).drop_last() =~= s.take(i as int));
            assert(s.take(i + 1).last() == b);
        }
        if b < 48 || b > 57 {
            proof {
                assert(!all_digits(s)) by {
                    assert(s[i as int] == b);
                }
            }
            return DEFAULT_RESOURCE_LIMIT;
        }
        let next = match value.checked_mul(10) {
            Some(v) => v.checked_add((b - 48) as usize),
            None => None,
        };
        match next {
            Some(v) => {
                value = v;
            },
            None => {
                proof {
                    if all_digits(s) {
                        lemma_decimal_value_grows(s, i + 1);
                    }
                }
                return DEFAULT_RESOURCE_LIMIT;
            },
        }
        i = i + 1;
        proof {
            assert forall|k: int| 0 <= k < i implies 48 <= #[trigger] s.take(i as int)[k] <= 57 by {
                if k < i - 1 {
                    assert(s.take(i as int)[k] == s.take(i - 1)[k]);
                }
            }
        }
    }
    proof {
        assert(s.take(i as int) =~= s);
    }
    value
}

/// The limit a listing uses: the caller's, else the default.
pub fn resource_limit(limit: Option<usize>) -> (r: usize)
    ensures
        r as nat == limit_of(limit),
{
    match limit {
        Some(l) => l,
        None => DEFAULT_RESOURCE_LIMIT,
    }
}

/// The result of a forward scan: the records that decoded, in scan order,
/// at most `limit` of them (the default limit when none is named). A record
/// that did not decode is skipped and does not count.
pub fn select_listed<T>(decoded: Vec<Option<T>>, limit: Option<usize>) -> (r: Vec<T>)
    ensures
        decoded_records(decoded@).len() <= limit_of(limit) ==> r@ == decoded_records(decoded@),
        decoded_records(decoded@).len() > limit_of(limit) ==> r@ == decoded_records(decoded@).take(
            limit_of(limit) as int,
        ),
{
    let lim = resource_limit(limit);
    let ghost all = decoded_records(decoded@);
    let mut rest = decoded;
    let mut out: Vec<T> = Vec::new();
    while rest.len() > 0 && out.len() < lim
        invariant
            all == out@ + decoded_records(rest@),
            out@.len() <= lim,
            lim as nat == limit_of(limit),
        decreases rest.len(),
    {
        let ghost before = rest@;
        let item = rest.remove(0);
        proof {
            assert(rest@ =~= before.drop_first());
        }
        match item {
            Some(x) => {
                proof {
                    assert(out@.push(x) + decoded_records(rest@) =~= out@ + (seq![x]
                        + decoded_records(rest@)));
                }
                out.push(x);
            },
            None => {},
        }
    }
    proof {
        if rest@.len() == 0 {
            assert(all =~= out@);
        } else {
            assert(all.take(lim as int) =~= out@);
        }
    }
    out
}

/// Appends a verification method to the issuer that was looked up. A missing
/// issuer is an argument error, and so is a method that names another
/// controller; otherwise the method goes at the end of the issuer's list.
pub fn attach_verification_method(
    current: Option<Issuer>,
    issuer_id: &URL,
    verification_method: VerificationMethod,
) -> (r: Result<Issuer, RegistryError>)
    requires
        current matches Some(i) ==> i.wf(),
    ensures
        current is None ==> r is Err && r->Err_0 is ArgumentError,
        current matches Some(i) ==> (verification_method.controller_id@ != i.id@ <==> r is Err),
        r matches Ok(i2) ==> {
            &&& current is Some
            &&& i2.id == current->0.id
            &&& i2.name == current->0.name
            &&& i2.verification_methods@ == current->0.verification_methods@.push(verification_method)
            &&& i2.wf()
        },
{
    match current {
        Some(mut issuer) => {
            if !verification_method.controller_id.same_as(&issuer.id) {
                return Err(
                    RegistryError::ArgumentError(
                        "Verification method is controlled by another issuer.".to_string(),
                    ),
                );
            }
            issuer.new_verification_method(verification_method);
            Ok(issuer)
        },
        None => Err(
            RegistryError::ArgumentError(
                "Issuer ".to_string().concat(issuer_id.get_str()).concat(
                    " does not exist in the registry.",
                ),
            ),
        ),
    }
}

/// Writing the same issuer record twice leaves a column family as writing it
/// once.
pub proof fn lemma_put_issuer_idempotent(
    store: Map<Seq<u8>, Seq<u8>>,
    issuer: Issuer,
    value: Seq<u8>,
)
    ensures
        put_record(put_record(store, key_of(issuer.id@), value), key_of(issuer.id@), value)
            == put_record(store, key_of(issuer.id@), value),
{
    assert(put_record(put_record(store, key_of(issuer.id@), value), key_of(issuer.id@), value)
        =~= put_record(store, key_of(issuer.id@), value));
}

/// A request to list issuers, with an optional limit.
pub struct GetAllIssuersRequest {
    pub limit: Option<usize>,
}

/// A request to list schemas, with an optional limit.
pub struct GetAllSchemasRequest {
    pub limit: Option<usize>,
}

/// A request to list verifier policies, with an optional limit.
pub struct GetAllVerifiersRequest {
    pub limit: Option<usize>,
}

impl GetAllIssuersRequest {
    /// The limit the listing uses.
    pub fn resolved_limit(&self) -> (r: usize)
        ensures
            r as nat == limit_of(self.limit),
    {
        resource_limit(self.limit)
    }
}

impl GetAllSchemasRequest {
    /// The limit the listing uses.
    pub fn resolved_limit(&self) -> (r: usize)
        ensures
            r as nat == limit_of(self.limit),
    {
        resource_limit(self.limit)
    }
}

impl GetAllVerifiersRequest {
    /// The limit the listing uses.
    pub fn resolved_limit(&self) -> (r: usize)
        ensures
            r as nat == limit_of(self.limit),
    {
        resource_limit(self.limit)
    }
}

} // verus!

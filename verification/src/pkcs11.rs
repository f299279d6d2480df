//! PKCS #11 URIs: the attributes naming a token and a key on a hardware
//! security device, decoded from the `pkcs11:` URI scheme.
//!
//! A URI is a `;`-separated list of `name=value` attributes, percent-encoded,
//! optionally followed by a `?query` part that is ignored. The attributes
//! relevant here get fields of their own; everything else is kept as a list
//! of name/value pairs. Duplicate attribute names are an error.

use vstd::prelude::*;

use vstd::string::StrSliceExecFns;
use vstd::string::StringSliceAdditionalSpecFns;

use crate::text::bytes_to_string_lossy;
use crate::text::utf8_lossy_of;

verus! {

/// The URI scheme, as bytes: `pkcs11:`.
pub open spec fn scheme_key() -> Seq<u8> {
    seq![0x70u8, 0x6bu8, 0x63u8, 0x73u8, 0x31u8, 0x31u8, 0x3au8]
}

/// The attribute name `token`, as bytes.
pub open spec fn token_key() -> Seq<u8> {
    seq![0x74u8, 0x6fu8, 0x6bu8, 0x65u8, 0x6eu8]
}

/// The attribute name `serial`, as bytes.
pub open spec fn serial_key() -> Seq<u8> {
    seq![0x73u8, 0x65u8, 0x72u8, 0x69u8, 0x61u8, 0x6cu8]
}

/// The attribute name `id`, as bytes.
pub open spec fn id_key() -> Seq<u8> {
    seq![0x69u8, 0x64u8]
}

/// The attribute name `object`, as bytes.
pub open spec fn object_key() -> Seq<u8> {
    seq![0x6fu8, 0x62u8, 0x6au8, 0x65u8, 0x63u8, 0x74u8]
}

/// Whether a byte is an ASCII hexadecimal digit.
pub open spec fn spec_is_hex_digit(b: u8) -> bool {
    (0x30 <= b <= 0x39) || (0x41 <= b <= 0x46) || (0x61 <= b <= 0x66)
}

/// The value of an ASCII hexadecimal digit.
pub open spec fn spec_hex_val(b: u8) -> u8 {
    if 0x30 <= b <= 0x39 {
        (b - 0x30) as u8
    } else if 0x41 <= b <= 0x46 {
        (b - 0x41 + 10) as u8
    } else if 0x61 <= b <= 0x66 {
        (b - 0x61 + 10) as u8
    } else {
        0
    }
}

/// Percent-decoding: a `%` followed by two hexadecimal digits becomes the
/// byte they spell; any other byte, a lone `%` included, passes through.
pub open spec fn spec_percent_decode(b: Seq<u8>) -> Seq<u8>
    decreases b.len(),
{
    if b.len() == 0 {
        Seq::empty()
    } else if b[0] == 0x25 && b.len() >= 3 && spec_is_hex_digit(b[1]) && spec_is_hex_digit(b[2]) {
        seq![(spec_hex_val(b[1]) * 16 + spec_hex_val(b[2])) as u8] + spec_percent_decode(b.skip(3))
    } else {
        seq![b[0]] + spec_percent_decode(b.skip(1))
    }
}

/// The index of the first `sep` in `b`, or `b`'s length if it has none.
pub open spec fn split_at(b: Seq<u8>, sep: u8) -> nat
    decreases b.len(),
{
    if b.len() == 0 {
        0
    } else if b[0] == sep {
        0
    } else {
        1 + split_at(b.skip(1), sep)
    }
}

/// The `name=value` attributes of a URI body, in order: the body is split at
/// every `;`, and each piece with an `=` contributes the pair around its
/// first `=`; pieces without one contribute nothing.
pub open spec fn spec_pairs(b: Seq<u8>) -> Seq<(Seq<u8>, Seq<u8>)>
    decreases b.len(),
{
    let e = split_at(b, 0x3b);
    let segment = b.take(e as int);
    let rest = if e < b.len() {
        spec_pairs(b.skip(e + 1int))
    } else {
        Seq::empty()
    };
    let eq = split_at(segment, 0x3d);
    if eq < segment.len() {
        seq![(segment.take(eq as int), segment.skip(eq + 1int))] + rest
    } else {
        rest
    }
}

/// Whether some pair carries this attribute name.
pub open spec fn spec_has_key(pairs: Seq<(Seq<u8>, Seq<u8>)>, key: Seq<u8>) -> bool {
    exists|i: int| 0 <= i < pairs.len() && (#[trigger] pairs[i]).0 == key
}

/// The name of the first attribute that repeats an earlier one, walking the
/// pairs in order; `None` if every name is distinct.
pub open spec fn spec_first_dup(pairs: Seq<(Seq<u8>, Seq<u8>)>) -> Option<Seq<u8>>
    decreases pairs.len(),
{
    if pairs.len() == 0 {
        None
    } else {
        match spec_first_dup(pairs.drop_last()) {
            Some(k) => Some(k),
            None => if spec_has_key(pairs.drop_last(), pairs.last().0) {
                Some(pairs.last().0)
            } else {
                None
            },
        }
    }
}

/// The value of the first pair carrying this attribute name, if any.
pub open spec fn spec_lookup(pairs: Seq<(Seq<u8>, Seq<u8>)>, key: Seq<u8>) -> Option<Seq<u8>>
    decreases pairs.len(),
{
    if pairs.len() == 0 {
        None
    } else if pairs[0].0 == key {
        Some(pairs[0].1)
    } else {
        spec_lookup(pairs.skip(1), key)
    }
}

/// Whether an attribute name has a field of its own instead of a place in
/// the `other` list.
pub open spec fn spec_is_reserved(key: Seq<u8>) -> bool {
    key == token_key() || key == serial_key() || key == id_key() || key == object_key()
}

/// The pairs that keep no field of their own, in order.
pub open spec fn spec_others(pairs: Seq<(Seq<u8>, Seq<u8>)>) -> Seq<(Seq<u8>, Seq<u8>)>
    decreases pairs.len(),
{
    if pairs.len() == 0 {
        Seq::empty()
    } else {
        let rest = spec_others(pairs.drop_last());
        if spec_is_reserved(pairs.last().0) {
            rest
        } else {
            rest.push(pairs.last())
        }
    }
}

/// Why a PKCS #11 URI was rejected.
#[derive(Debug, Clone, PartialEq, Eq)]
pub enum Pkcs11UriError {
    /// The URI does not start with the `pkcs11:` scheme.
    MissingScheme,
    /// The named attribute occurs twice.
    DuplicateAttribute(String),
}

impl Pkcs11UriError {
    /// A short description of what is wrong with the URI.
    pub fn message(&self) -> (r: String)
        ensures
            *self is MissingScheme ==> r@ == "missing PKCS #11 URI scheme"@,
            self matches Pkcs11UriError::DuplicateAttribute(k) ==> r@
                == "PKCS#11 URI contains duplicate attribute ("@ + k@ + ")"@,
    {
        match self {
            Pkcs11UriError::MissingScheme => {
                let mut m = String::new();
                m.append("missing PKCS #11 URI scheme");
                m
            },
            Pkcs11UriError::DuplicateAttribute(k) => {
                let mut m = String::new();
                m.append("PKCS#11 URI contains duplicate attribute (");
                m.append(k.as_str());
                m.append(")");
                proof {
                    assert(m@ =~= "PKCS#11 URI contains duplicate attribute ("@ + k@ + ")"@);
                }
                m
            },
        }
    }
}

/// Attributes decoded from a PKCS #11 URI.
///
/// The attributes relevant to choosing a token and a key are fields; the
/// rest is kept as name/value pairs, each name at most once.
#[derive(Debug, Clone, Default)]
pub struct Pkcs11Uri {
    /// The label of the token to use.
    pub token: Option<String>,
    /// The serial number of the token to use.
    pub serial: Option<String>,
    /// The identifier of the key object, as raw bytes.
    pub id: Option<Vec<u8>>,
    /// The label of the key object.
    pub object: Option<String>,
    /// Every other attribute, as decoded name/value pairs, in URI order.
    pub other: Vec<(String, String)>,
}

impl Pkcs11Uri {
    /// Whether this value holds exactly what the given attribute pairs say:
    /// each reserved attribute decoded into its field, every other pair
    /// decoded into the `other` list, in order.
    pub open spec fn from_pairs(self, pairs: Seq<(Seq<u8>, Seq<u8>)>) -> bool {
        &&& (match spec_lookup(pairs, token_key()) {
            Some(v) => self.token matches Some(t) && t@ == utf8_lossy_of(spec_percent_decode(v)),
            None => self.token is None,
        })
        &&& (match spec_lookup(pairs, serial_key()) {
            Some(v) => self.serial matches Some(t) && t@ == utf8_lossy_of(spec_percent_decode(v)),
            None => self.serial is None,
        })
        &&& (match spec_lookup(pairs, id_key()) {
            Some(v) => self.id matches Some(b) && b@ == spec_percent_decode(v),
            None => self.id is None,
        })
        &&& (match spec_lookup(pairs, object_key()) {
            Some(v) => self.object matches Some(t) && t@ == utf8_lossy_of(spec_percent_decode(v)),
            None => self.object is None,
        })
        &&& ({
            let os = spec_others(pairs);
            &&& self.other@.len() == os.len()
            &&& forall|i: int|
                0 <= i < os.len() ==> (#[trigger] self.other@[i]).0@ == utf8_lossy_of(os[i].0)
                    && self.other@[i].1@ == utf8_lossy_of(spec_percent_decode(os[i].1))
        })
    }

    /// Decode a PKCS #11 URI.
    ///
    /// The URI must carry the `pkcs11:` scheme and no repeated attribute
    /// name; everything after a `?` is ignored. On success the result holds
    /// exactly the URI's attributes, reserved ones in their fields and the
    /// rest in order in `other`.
    pub fn parse(uri: &str) -> (r: Result<Pkcs11Uri, Pkcs11UriError>)
        ensures
            ({
                let b = uri.spec_bytes();
                &&& (b.len() < 7 || b.take(7) != scheme_key()) ==> r == Result::<
                    Pkcs11Uri,
                    Pkcs11UriError,
                >::Err(Pkcs11UriError::MissingScheme)
                &&& (b.len() >= 7 && b.take(7) == scheme_key()) ==> ({
                    let body = b.skip(7).take(split_at(b.skip(7), 0x3f) as int);
                    let pairs = spec_pairs(body);
                    match spec_first_dup(pairs) {
                        Some(k) => r matches Err(e) && e matches
                            Pkcs11UriError::DuplicateAttribute(s) && s@ == utf8_lossy_of(k),
                        None => r matches Ok(u) && u.from_pairs(pairs),
                    }
                })
            }),
    {
        let bytes = uri.as_bytes_vec();
        if bytes.len() < 7 {
            return Err(Pkcs11UriError::MissingScheme);
        }
        let prefix = copy_range(&bytes, 0, 7);
        let scheme = scheme_bytes();
        if !bytes_eq(&prefix, &scheme) {
            proof {
                assert(uri.spec_bytes().take(7) =~= prefix@);
            }
            return Err(Pkcs11UriError::MissingScheme);
        }
        proof {
            assert(uri.spec_bytes().take(7) =~= prefix@);
        }

        let qpos = find_byte(&bytes, 7, 0x3f);
        let body = copy_range(&bytes, 7, qpos);
        proof {
            let tail = uri.spec_bytes().skip(7);
            lemma_split_at_position(tail, 0x3f, qpos - 7);
            assert(body@ =~= tail.take(split_at(tail, 0x3f) as int));
        }

        let pairs = collect_pairs(&body);

        if let Some(dup) = find_dup(&pairs) {
            return Err(Pkcs11UriError::DuplicateAttribute(bytes_to_string_lossy(&dup)));
        }

        let token = lookup_decoded(&pairs, &token_key_bytes());
        let serial = lookup_decoded(&pairs, &serial_key_bytes());
        let id = lookup_decoded(&pairs, &id_key_bytes());
        let object = lookup_decoded(&pairs, &object_key_bytes());
        let other = build_others(&pairs);

        let token = match token {
            Some(v) => Some(bytes_to_string_lossy(&v)),
            None => None,
        };
        let serial = match serial {
            Some(v) => Some(bytes_to_string_lossy(&v)),
            None => None,
        };
        let object = match object {
            Some(v) => Some(bytes_to_string_lossy(&v)),
            None => None,
        };

        Ok(Pkcs11Uri { token, serial, id, object, other })
    }

    /// Whether an attribute of this name stands in the `other` list.
    #[verifier::loop_isolation(false)]
    pub fn has_other(&self, key: &str) -> (r: bool)
        ensures
            r == exists|i: int| 0 <= i < self.other@.len() && (#[trigger] self.other@[i]).0@ == key@,
    {
        let n = self.other.len();
        let mut i: usize = 0;
        while i < n
            invariant
                n == self.other@.len(),
                0 <= i <= n,
                forall|j: int| 0 <= j < i ==> (#[trigger] self.other@[j]).0@ != key@,
            decreases n - i,
        {
            if crate::text::str_eq(self.other[i].0.as_str(), key) {
                return true;
            }
            i = i + 1;
        }
        false
    }

    /// The value of an attribute in the `other` list: the first pair of that
    /// name, if any.
    #[verifier::loop_isolation(false)]
    pub fn get_other(&self, key: &str) -> (r: Option<&String>)
        ensures
            match spec_get_other(self.other@, key@) {
                Some(v) => r matches Some(o) && *o == v,
                None => r is None,
            },
    {
        let n = self.other.len();
        let mut i: usize = 0;
        proof {
            assert(self.other@.skip(0) =~= self.other@);
        }
        while i < n
            invariant
                n == self.other@.len(),
                0 <= i <= n,
                spec_get_other(self.other@, key@) == spec_get_other(self.other@.skip(i as int), key@),
            decreases n - i,
        {
            let ghost i0 = i as int;
            if crate::text::str_eq(self.other[i].0.as_str(), key) {
                return Some(&self.other[i].1);
            }
            proof {
                assert(self.other@.skip(i0).skip(1) =~= self.other@.skip(i0 + 1));
            }
            i = i + 1;
        }
        None
    }

    /// Add the attributes of `other` that this URI does not set yet.
    ///
    /// A field already set keeps its value; an unset one takes `other`'s.
    /// Pairs of `other`'s list are appended, in order, whenever their name is
    /// not present yet; pairs already named keep the value they had.
    #[verifier::loop_isolation(false)]
    pub fn append_attributes(&mut self, other: Pkcs11Uri)
        ensures
            final(self).token == (if old(self).token is Some {
                old(self).token
            } else {
                other.token
            }),
            final(self).serial == (if old(self).serial is Some {
                old(self).serial
            } else {
                other.serial
            }),
            final(self).id == (if old(self).id is Some {
                old(self).id
            } else {
                other.id
            }),
            final(self).object == (if old(self).object is Some {
                old(self).object
            } else {
                other.object
            }),
            final(self).other@ == spec_append_others(old(self).other@, other.other@),
    {
        let Pkcs11Uri { token, serial, id, object, other: incoming } = other;
        if self.token.is_none() {
            self.token = token;
        }
        if self.serial.is_none() {
            self.serial = serial;
        }
        if self.id.is_none() {
            self.id = id;
        }
        if self.object.is_none() {
            self.object = object;
        }

        let ghost mine0 = self.other@;
        let ghost theirs0 = incoming@;
        let ghost fixed = (self.token, self.serial, self.id, self.object);
        let mut incoming = incoming;
        let total = incoming.len();
        let mut taken: usize = 0;
        proof {
            assert(theirs0.skip(0) =~= theirs0);
            assert(theirs0.take(0) =~= Seq::<(String, String)>::empty());
        }
        while incoming.len() > 0
            invariant
                theirs0.len() == total,
                taken + incoming@.len() == theirs0.len(),
                incoming@ == theirs0.skip(taken as int),
                self.other@ == spec_append_others(mine0, theirs0.take(taken as int)),
                self.token == fixed.0,
                self.serial == fixed.1,
                self.id == fixed.2,
                self.object == fixed.3,
            decreases incoming@.len(),
        {
            let ghost t0 = taken as int;
            let pair = incoming.remove(0);
            let ghost moved = pair;
            let present = self.has_other(pair.0.as_str());
            if !present {
                self.other.push(pair);
            }
            proof {
                assert(incoming@ =~= theirs0.skip(t0 + 1));
                assert(theirs0.take(t0 + 1).drop_last() =~= theirs0.take(t0));
                assert(theirs0.take(t0 + 1).last() == moved);
                if present {
                    assert(spec_has_attr(spec_append_others(mine0, theirs0.take(t0)), moved.0@));
                } else {
                    assert(!spec_has_attr(spec_append_others(mine0, theirs0.take(t0)), moved.0@));
                }
            }
            taken = taken + 1;
        }
        proof {
            assert(theirs0.take(theirs0.len() as int) =~= theirs0);
        }
    }
}

/// The value of the first pair of the given name, if any.
pub open spec fn spec_get_other(others: Seq<(String, String)>, key: Seq<char>) -> Option<String>
    decreases others.len(),
{
    if others.len() == 0 {
        None
    } else if others[0].0@ == key {
        Some(others[0].1)
    } else {
        spec_get_other(others.skip(1), key)
    }
}

/// Whether some pair carries this attribute name.
pub open spec fn spec_has_attr(others: Seq<(String, String)>, key: Seq<char>) -> bool {
    exists|i: int| 0 <= i < others.len() && (#[trigger] others[i]).0@ == key
}

/// The result of appending `theirs` to `mine`, keeping of each batch of
/// equal names only the first: a pair is appended exactly when its name is
/// not in the list built so far.
pub open spec fn spec_append_others(
    mine: Seq<(String, String)>,
    theirs: Seq<(String, String)>,
) -> Seq<(String, String)>
    decreases theirs.len(),
{
    if theirs.len() == 0 {
        mine
    } else {
        let prev = spec_append_others(mine, theirs.drop_last());
        if spec_has_attr(prev, theirs.last().0@) {
            prev
        } else {
            prev.push(theirs.last())
        }
    }
}

/// If every index before `k` misses `sep` and `k` hits it or is the end,
/// then `k` is where the first `sep` is.
pub(crate) proof fn lemma_split_at_position(b: Seq<u8>, sep: u8, k: int)
    requires
        0 <= k <= b.len(),
        forall|m: int| 0 <= m < k ==> b[m] != sep,
        k < b.len() ==> b[k] == sep,
    ensures
        split_at(b, sep) == k,
    decreases k,
{
    if k == 0 {
    } else {
        lemma_split_at_position(b.skip(1), sep, k - 1);
    }
}

/// A duplicate found in a prefix is the duplicate of the whole list.
proof fn lemma_first_dup_extends(pairs: Seq<(Seq<u8>, Seq<u8>)>, m: int, k: Seq<u8>)
    requires
        0 <= m <= pairs.len(),
        spec_first_dup(pairs.take(m)) == Some(k),
    ensures
        spec_first_dup(pairs) == Some(k),
    decreases pairs.len(),
{
    if m == pairs.len() {
        assert(pairs.take(m) =~= pairs);
    } else {
        assert(pairs.drop_last().take(m) =~= pairs.take(m));
        lemma_first_dup_extends(pairs.drop_last(), m, k);
    }
}

/// The literal bytes `pkcs11:`.
fn scheme_bytes() -> (r: Vec<u8>)
    ensures
        r@ == scheme_key(),
{
    let mut v: Vec<u8> = Vec::new();
    v.push(0x70);
    v.push(0x6b);
    v.push(0x63);
    v.push(0x73);
    v.push(0x31);
    v.push(0x31);
    v.push(0x3a);
    proof {
        assert(v@ =~= scheme_key());
    }
    v
}

/// The literal bytes `token`.
fn token_key_bytes() -> (r: Vec<u8>)
    ensures
        r@ == token_key(),
{
    let mut v: Vec<u8> = Vec::new();
    v.push(0x74);
    v.push(0x6f);
    v.push(0x6b);
    v.push(0x65);
    v.push(0x6e);
    proof {
        assert(v@ =~= token_key());
    }
    v
}

/// The literal bytes `serial`.
fn serial_key_bytes() -> (r: Vec<u8>)
    ensures
        r@ == serial_key(),
{
    let mut v: Vec<u8> = Vec::new();
    v.push(0x73);
    v.push(0x65);
    v.push(0x72);
    v.push(0x69);
    v.push(0x61);
    v.push(0x6c);
    proof {
        assert(v@ =~= serial_key());
    }
    v
}

/// The literal bytes `id`.
fn id_key_bytes() -> (r: Vec<u8>)
    ensures
        r@ == id_key(),
{
    let mut v: Vec<u8> = Vec::new();
    v.push(0x69);
    v.push(0x64);
    proof {
        assert(v@ =~= id_key());
    }
    v
}

/// The literal bytes `object`.
fn object_key_bytes() -> (r: Vec<u8>)
    ensures
        r@ == object_key(),
{
    let mut v: Vec<u8> = Vec::new();
    v.push(0x6f);
    v.push(0x62);
    v.push(0x6a);
    v.push(0x65);
    v.push(0x63);
    v.push(0x74);
    proof {
        assert(v@ =~= object_key());
    }
    v
}

/// Whether two byte vectors hold the same bytes.
#[verifier::loop_isolation(false)]
pub(crate) fn bytes_eq(a: &Vec<u8>, b: &Vec<u8>) -> (r: bool)
    ensures
        r == (a@ == b@),
{
    if a.len() != b.len() {
        return false;
    }
    let n = a.len();
    let mut i: usize = 0;
    while i < n
        invariant
            n == a@.len() == b@.len(),
            0 <= i <= n,
            forall|j: int| 0 <= j < i ==> a@[j] == b@[j],
        decreases n - i,
    {
        if a[i] != b[i] {
            return false;
        }
        i = i + 1;
    }
    proof {
        assert(a@ =~= b@);
    }
    true
}

/// A fresh vector holding `v[from..to]`.
#[verifier::loop_isolation(false)]
fn copy_range(v: &Vec<u8>, from: usize, to: usize) -> (r: Vec<u8>)
    requires
        from <= to <= v@.len(),
    ensures
        r@ == v@.subrange(from as int, to as int),
{
    let mut r: Vec<u8> = Vec::new();
    let mut i: usize = from;
    while i < to
        invariant
            from <= i <= to <= v@.len(),
            r@ == v@.subrange(from as int, i as int),
        decreases to - i,
    {
        let ghost i0 = i as int;
        r.push(v[i]);
        proof {
            assert(r@ =~= v@.subrange(from as int, i0 + 1));
        }
        i = i + 1;
    }
    r
}

/// The index of the first `sep` at or after `from`, or `v`'s length.
#[verifier::loop_isolation(false)]
pub(crate) fn find_byte(v: &Vec<u8>, from: usize, sep: u8) -> (r: usize)
    requires
        from <= v@.len(),
    ensures
        from <= r <= v@.len(),
        forall|m: int| from <= m < r ==> v@[m] != sep,
        r < v@.len() ==> v@[r as int] == sep,
{
    let n = v.len();
    let mut i: usize = from;
    while i < n
        invariant
            from <= i <= n,
            n == v@.len(),
            forall|m: int| from <= m < i ==> v@[m] != sep,
        decreases n - i,
    {
        if v[i] == sep {
            return i;
        }
        i = i + 1;
    }
    n
}

/// The attribute pairs of a URI body, each as raw bytes, in order.
#[verifier::rlimit(50)]
#[verifier::loop_isolation(false)]
fn collect_pairs(body: &Vec<u8>) -> (r: Vec<(Vec<u8>, Vec<u8>)>)
    ensures
        r@.map_values(|p: (Vec<u8>, Vec<u8>)| (p.0@, p.1@)) == spec_pairs(body@),
{
    let mut r: Vec<(Vec<u8>, Vec<u8>)> = Vec::new();
    let n = body.len();
    let mut p: usize = 0;
    let mut done = false;
    proof {
        assert(body@.skip(0) =~= body@);
        assert(r@.map_values(|q: (Vec<u8>, Vec<u8>)| (q.0@, q.1@)) =~= Seq::<
            (Seq<u8>, Seq<u8>),
        >::empty());
        assert(Seq::<(Seq<u8>, Seq<u8>)>::empty() + spec_pairs(body@) =~= spec_pairs(body@));
    }
    while !done
        invariant
            0 <= p <= n,
            n == body@.len(),
            !done ==> r@.map_values(|q: (Vec<u8>, Vec<u8>)| (q.0@, q.1@)) + spec_pairs(
                body@.skip(p as int),
            ) == spec_pairs(body@),
            !done ==> (p == 0 || (p >= 1 && body@[p - 1] == 0x3b)),
            done ==> r@.map_values(|q: (Vec<u8>, Vec<u8>)| (q.0@, q.1@)) == spec_pairs(body@),
        decreases n - p + (if done {
            0int
        } else {
            1int
        }),
    {
        let ghost rem = body@.skip(p as int);
        let e = find_byte(body, p, 0x3b);
        proof {
            lemma_split_at_position(rem, 0x3b, e - p);
        }
        let eq = {
            let first_eq = find_byte(body, p, 0x3d);
            if first_eq > e {
                e
            } else {
                first_eq
            }
        };
        proof {
            let segment = rem.take((e - p) as int);
            lemma_split_at_position(segment, 0x3d, (eq - p) as int);
        }
        if eq < e {
            let key = copy_range(body, p, eq);
            let value = copy_range(body, eq + 1, e);
            let ghost pre = r@;
            r.push((key, value));
            proof {
                let segment = rem.take((e - p) as int);
                assert(key@ =~= segment.take((eq - p) as int));
                assert(value@ =~= segment.skip((eq - p) + 1));
                assert(r@.map_values(|q: (Vec<u8>, Vec<u8>)| (q.0@, q.1@)) =~= pre.map_values(
                    |q: (Vec<u8>, Vec<u8>)| (q.0@, q.1@),
                ).push((key@, value@)));
            }
        } else {
            proof {
                let segment = rem.take((e - p) as int);
                assert(split_at(segment, 0x3d) == segment.len());
            }
        }
        if e < n {
            proof {
                assert(body@.skip(e + 1) =~= rem.skip((e - p) + 1));
            }
            p = e + 1;
        } else {
            done = true;
        }
    }
    r
}

/// The name of the first attribute repeating an earlier one, if any, as a
/// fresh byte vector.
#[verifier::loop_isolation(false)]
fn find_dup(pairs: &Vec<(Vec<u8>, Vec<u8>)>) -> (r: Option<Vec<u8>>)
    ensures
        ({
            let pview = pairs@.map_values(|p: (Vec<u8>, Vec<u8>)| (p.0@, p.1@));
            match spec_first_dup(pview) {
                Some(k) => r matches Some(v) && v@ == k,
                None => r is None,
            }
        }),
{
    let ghost pview = pairs@.map_values(|p: (Vec<u8>, Vec<u8>)| (p.0@, p.1@));
    let n = pairs.len();
    let mut i: usize = 0;
    while i < n
        invariant
            0 <= i <= n,
            n == pairs@.len(),
            pview == pairs@.map_values(|p: (Vec<u8>, Vec<u8>)| (p.0@, p.1@)),
            spec_first_dup(pview.take(i as int)) is None,
        decreases n - i,
    {
        let ghost i0 = i as int;
        let mut j: usize = 0;
        while j < i
            invariant
                0 <= j <= i < n,
                n == pairs@.len(),
                pview == pairs@.map_values(|p: (Vec<u8>, Vec<u8>)| (p.0@, p.1@)),
                forall|m: int| 0 <= m < j ==> pview[m].0 != pview[i0].0,
            decreases i - j,
        {
            if bytes_eq(&pairs[j].0, &pairs[i].0) {
                proof {
                    assert(pview.take(i0 + 1).drop_last() =~= pview.take(i0));
                    assert(pview.take(i0)[j as int].0 == pview[i0].0);
                    assert(spec_has_key(pview.take(i0), pview.take(i0 + 1).last().0));
                    lemma_first_dup_extends(pview, i0 + 1, pview[i0].0);
                }
                return Some(copy_range(&pairs[i].0, 0, pairs[i].0.len()));
            }
            j = j + 1;
        }
        proof {
            assert(pview.take(i0 + 1).drop_last() =~= pview.take(i0));
            assert(!spec_has_key(pview.take(i0), pview[i0].0));
        }
        i = i + 1;
    }
    proof {
        assert(pview.take(n as int) =~= pview);
    }
    None
}

/// Percent-decode a byte string.
#[verifier::loop_isolation(false)]
pub fn percent_decode(v: &Vec<u8>) -> (r: Vec<u8>)
    ensures
        r@ == spec_percent_decode(v@),
{
    let n = v.len();
    let mut r: Vec<u8> = Vec::new();
    let mut i: usize = 0;
    proof {
        assert(v@.skip(0) =~= v@);
        assert(r@ + spec_percent_decode(v@) =~= spec_percent_decode(v@));
    }
    while i < n
        invariant
            0 <= i <= n,
            n == v@.len(),
            r@ + spec_percent_decode(v@.skip(i as int)) == spec_percent_decode(v@),
        decreases n - i,
    {
        let ghost i0 = i as int;
        let ghost rem = v@.skip(i0);
        let b = v[i];
        if b == 0x25 && n - i > 2 && is_hex_digit(v[i + 1]) && is_hex_digit(v[i + 2]) {
            let decoded = hex_val(v[i + 1]) * 16 + hex_val(v[i + 2]);
            r.push(decoded);
            proof {
                assert(rem.skip(3) =~= v@.skip(i0 + 3));
                assert(r@ + spec_percent_decode(v@.skip(i0 + 3)) =~= spec_percent_decode(v@));
            }
            i = i + 3;
        } else {
            r.push(b);
            proof {
                assert(rem.skip(1) =~= v@.skip(i0 + 1));
                assert(r@ + spec_percent_decode(v@.skip(i0 + 1)) =~= spec_percent_decode(v@));
            }
            i = i + 1;
        }
    }
    proof {
        assert(r@ + spec_percent_decode(v@.skip(n as int)) =~= r@);
    }
    r
}

/// Whether a byte is an ASCII hexadecimal digit.
fn is_hex_digit(b: u8) -> (r: bool)
    ensures
        r == spec_is_hex_digit(b),
{
    (0x30 <= b && b <= 0x39) || (0x41 <= b && b <= 0x46) || (0x61 <= b && b <= 0x66)
}

/// The value of an ASCII hexadecimal digit.
fn hex_val(b: u8) -> (r: u8)
    ensures
        r == spec_hex_val(b),
{
    if 0x30 <= b && b <= 0x39 {
        b - 0x30
    } else if 0x41 <= b && b <= 0x46 {
        b - 0x41 + 10
    } else if 0x61 <= b && b <= 0x66 {
        b - 0x61 + 10
    } else {
        0
    }
}

/// The percent-decoded value of the first pair of the given name, if any.
#[verifier::loop_isolation(false)]
fn lookup_decoded(pairs: &Vec<(Vec<u8>, Vec<u8>)>, key: &Vec<u8>) -> (r: Option<Vec<u8>>)
    ensures
        ({
            let pview = pairs@.map_values(|p: (Vec<u8>, Vec<u8>)| (p.0@, p.1@));
            match spec_lookup(pview, key@) {
                Some(v) => r matches Some(d) && d@ == spec_percent_decode(v),
                None => r is None,
            }
        }),
{
    let ghost pview = pairs@.map_values(|p: (Vec<u8>, Vec<u8>)| (p.0@, p.1@));
    let n = pairs.len();
    let mut i: usize = 0;
    proof {
        assert(pview.skip(0) =~= pview);
    }
    while i < n
        invariant
            0 <= i <= n,
            n == pairs@.len(),
            pview == pairs@.map_values(|p: (Vec<u8>, Vec<u8>)| (p.0@, p.1@)),
            spec_lookup(pview, key@) == spec_lookup(pview.skip(i as int), key@),
        decreases n - i,
    {
        let ghost i0 = i as int;
        if bytes_eq(&pairs[i].0, key) {
            return Some(percent_decode(&pairs[i].1));
        }
        proof {
            assert(pview.skip(i0).skip(1) =~= pview.skip(i0 + 1));
        }
        i = i + 1;
    }
    None
}

/// The non-reserved pairs, decoded, in order.
#[verifier::loop_isolation(false)]
fn build_others(pairs: &Vec<(Vec<u8>, Vec<u8>)>) -> (r: Vec<(String, String)>)
    ensures
        ({
            let os = spec_others(pairs@.map_values(|p: (Vec<u8>, Vec<u8>)| (p.0@, p.1@)));
            &&& r@.len() == os.len()
            &&& forall|i: int|
                0 <= i < os.len() ==> (#[trigger] r@[i]).0@ == utf8_lossy_of(os[i].0) && r@[i].1@
                    == utf8_lossy_of(spec_percent_decode(os[i].1))
        }),
{
    let ghost pview = pairs@.map_values(|p: (Vec<u8>, Vec<u8>)| (p.0@, p.1@));
    let token_k = token_key_bytes();
    let serial_k = serial_key_bytes();
    let id_k = id_key_bytes();
    let object_k = object_key_bytes();
    let n = pairs.len();
    let mut r: Vec<(String, String)> = Vec::new();
    let mut i: usize = 0;
    while i < n
        invariant
            0 <= i <= n,
            n == pairs@.len(),
            pview == pairs@.map_values(|p: (Vec<u8>, Vec<u8>)| (p.0@, p.1@)),
            token_k@ == token_key(),
            serial_k@ == serial_key(),
            id_k@ == id_key(),
            object_k@ == object_key(),
            r@.len() == spec_others(pview.take(i as int)).len(),
            forall|m: int|
                0 <= m < r@.len() ==> (#[trigger] r@[m]).0@ == utf8_lossy_of(
                    spec_others(pview.take(i as int))[m].0,
                ) && r@[m].1@ == utf8_lossy_of(
                    spec_percent_decode(spec_others(pview.take(i as int))[m].1),
                ),
        decreases n - i,
    {
        let ghost i0 = i as int;
        let ghost before = spec_others(pview.take(i0));
        let reserved = bytes_eq(&pairs[i].0, &token_k) || bytes_eq(&pairs[i].0, &serial_k)
            || bytes_eq(&pairs[i].0, &id_k) || bytes_eq(&pairs[i].0, &object_k);
        proof {
            assert(pview.take(i0 + 1).drop_last() =~= pview.take(i0));
            assert(pview.take(i0 + 1).last() == pview[i0]);
        }
        if !reserved {
            let name = bytes_to_string_lossy(&pairs[i].0);
            let decoded = percent_decode(&pairs[i].1);
            let value = bytes_to_string_lossy(&decoded);
            r.push((name, value));
            proof {
                assert(spec_others(pview.take(i0 + 1)) =~= before.push(pview[i0]));
            }
        }
        i = i + 1;
    }
    proof {
        assert(pview.take(n as int) =~= pview);
    }
    r
}

} // verus!

//! The signing decisions behind a hardware security device: which signature
//! scheme a key supports, which digest to apply, and the DER encoding of an
//! ECDSA signature's two halves.
//!
//! Talking to the device is an unverified collaborator's job; every choice
//! and every byte of the encoding is decided here.

use vstd::prelude::*;

use crate::text::str_eq;

verus! {

/// The signature schemes supported for device-held keys.
#[derive(Debug, Clone, Copy, PartialEq, Eq, Structural)]
pub enum SigScheme {
    /// ECDSA over NIST P-256 with SHA-256.
    EcdsaNistp256Sha256,
    /// ECDSA over NIST P-384 with SHA-384.
    EcdsaNistp384Sha384,
    /// ECDSA over NIST P-521 with SHA-512.
    EcdsaNistp521Sha512,
    /// RSA-PSS with SHA-256.
    RsaPssSha256,
}

/// The family a signature scheme belongs to.
#[derive(Debug, Clone, Copy, PartialEq, Eq, Structural)]
pub enum SignatureKind {
    /// An ECDSA scheme.
    Ecdsa,
    /// An RSA scheme.
    Rsa,
}

/// The digests a message may be hashed with before signing.
#[derive(Debug, Clone, Copy, PartialEq, Eq, Structural)]
pub enum HashAlg {
    /// SHA-256.
    Sha256,
    /// SHA-384.
    Sha384,
    /// SHA-512.
    Sha512,
}

/// The kind of key found on the device.
#[derive(Debug, Clone, Copy, PartialEq, Eq, Structural)]
pub enum KeyKind {
    /// An elliptic-curve key.
    Ec,
    /// An RSA key.
    Rsa,
    /// Anything else; no scheme is supported for it.
    Other,
}

impl SigScheme {
    /// The family this scheme belongs to.
    pub fn algorithm(&self) -> (r: SignatureKind)
        ensures
            r == (match self {
                SigScheme::RsaPssSha256 => SignatureKind::Rsa,
                _ => SignatureKind::Ecdsa,
            }),
    {
        match self {
            SigScheme::RsaPssSha256 => SignatureKind::Rsa,
            _ => SignatureKind::Ecdsa,
        }
    }

    /// The digest to apply before handing the message to the device, or
    /// nothing when the device's mechanism hashes by itself.
    ///
    /// The ECDSA mechanisms sign a pre-computed digest; the RSA-PSS
    /// mechanism digests internally and takes the message directly.
    pub fn digest(&self) -> (r: Option<HashAlg>)
        ensures
            r == (match self {
                SigScheme::EcdsaNistp256Sha256 => Some(HashAlg::Sha256),
                SigScheme::EcdsaNistp384Sha384 => Some(HashAlg::Sha384),
                SigScheme::EcdsaNistp521Sha512 => Some(HashAlg::Sha512),
                SigScheme::RsaPssSha256 => None::<HashAlg>,
            }),
    {
        match self {
            SigScheme::EcdsaNistp256Sha256 => Some(HashAlg::Sha256),
            SigScheme::EcdsaNistp384Sha384 => Some(HashAlg::Sha384),
            SigScheme::EcdsaNistp521Sha512 => Some(HashAlg::Sha512),
            SigScheme::RsaPssSha256 => None,
        }
    }

    /// Whether the device must sign the raw message rather than a digest.
    pub fn signs_directly(&self) -> (r: bool)
        ensures
            r == (*self == SigScheme::RsaPssSha256),
    {
        match self {
            SigScheme::RsaPssSha256 => true,
            _ => false,
        }
    }
}

/// The scheme to use for a key of the given kind.
///
/// An elliptic-curve key uses the scheme its curve dictates, falling back to
/// P-256 with SHA-256 when the curve could not be determined; an RSA key
/// uses RSA-PSS with SHA-256; any other key kind is unsupported.
pub fn select_sigscheme(kind: KeyKind, ec_scheme: Option<SigScheme>) -> (r: Option<SigScheme>)
    ensures
        r == (match kind {
            KeyKind::Ec => Some(
                match ec_scheme {
                    Some(s) => s,
                    None => SigScheme::EcdsaNistp256Sha256,
                },
            ),
            KeyKind::Rsa => Some(SigScheme::RsaPssSha256),
            KeyKind::Other => None::<SigScheme>,
        }),
{
    match kind {
        KeyKind::Ec => match ec_scheme {
            Some(s) => Some(s),
            None => Some(SigScheme::EcdsaNistp256Sha256),
        },
        KeyKind::Rsa => Some(SigScheme::RsaPssSha256),
        KeyKind::Other => None,
    }
}

/// The scheme dictated by an elliptic curve, named by its object
/// identifier; `None` for a curve that is not supported.
pub fn sigscheme_for_oid(oid: &str) -> (r: Option<SigScheme>)
    ensures
        oid@ == "1.2.840.10045.3.1.7"@ ==> r == Some(SigScheme::EcdsaNistp256Sha256),
        oid@ == "1.3.132.0.34"@ ==> r == Some(SigScheme::EcdsaNistp384Sha384),
        oid@ == "1.3.132.0.35"@ ==> r == Some(SigScheme::EcdsaNistp521Sha512),
        (oid@ != "1.2.840.10045.3.1.7"@ && oid@ != "1.3.132.0.34"@ && oid@ != "1.3.132.0.35"@)
            ==> r is None,
{
    proof {
        reveal_strlit("1.2.840.10045.3.1.7");
        reveal_strlit("1.3.132.0.34");
        reveal_strlit("1.3.132.0.35");
        assert("1.2.840.10045.3.1.7"@.len() == 19);
        assert("1.3.132.0.34"@.len() == 12);
        assert("1.3.132.0.35"@.len() == 12);
        assert("1.3.132.0.34"@[11] == '4' && "1.3.132.0.35"@[11] == '5');
    }
    if str_eq(oid, "1.2.840.10045.3.1.7") {
        Some(SigScheme::EcdsaNistp256Sha256)
    } else if str_eq(oid, "1.3.132.0.34") {
        Some(SigScheme::EcdsaNistp384Sha384)
    } else if str_eq(oid, "1.3.132.0.35") {
        Some(SigScheme::EcdsaNistp521Sha512)
    } else {
        None
    }
}

/// Whether a token on the device answers a request for a label and a serial
/// number: an attribute that was not asked for matches anything.
pub fn token_matches(
    wanted_label: Option<&str>,
    wanted_serial: Option<&str>,
    label: &str,
    serial: &str,
) -> (r: bool)
    ensures
        r == ((match wanted_label {
            Some(l) => l@ == label@,
            None => true,
        }) && (match wanted_serial {
            Some(s) => s@ == serial@,
            None => true,
        })),
{
    let label_ok = match wanted_label {
        Some(l) => str_eq(l, label),
        None => true,
    };
    let serial_ok = match wanted_serial {
        Some(s) => str_eq(s, serial),
        None => true,
    };
    label_ok && serial_ok
}

/// The DER encoding of the object identifier naming the NIST P-256 curve.
pub open spec fn p256_params() -> Seq<u8> {
    seq![0x06u8, 0x08u8, 0x2au8, 0x86u8, 0x48u8, 0xceu8, 0x3du8, 0x03u8, 0x01u8, 0x07u8]
}

/// The DER encoding of the object identifier naming the NIST P-384 curve.
pub open spec fn p384_params() -> Seq<u8> {
    seq![0x06u8, 0x05u8, 0x2bu8, 0x81u8, 0x04u8, 0x00u8, 0x22u8]
}

/// The DER encoding of the object identifier naming the NIST P-521 curve.
pub open spec fn p521_params() -> Seq<u8> {
    seq![0x06u8, 0x05u8, 0x2bu8, 0x81u8, 0x04u8, 0x00u8, 0x23u8]
}

/// The scheme dictated by a key's curve parameters: the parameters must be
/// the DER-encoded object identifier of a supported curve; anything else —
/// another curve, or parameters in some other form — supports no scheme.
#[verifier::loop_isolation(false)]
pub fn sigscheme_for_ec_params(params: &Vec<u8>) -> (r: Option<SigScheme>)
    ensures
        params@ == p256_params() ==> r == Some(SigScheme::EcdsaNistp256Sha256),
        params@ == p384_params() ==> r == Some(SigScheme::EcdsaNistp384Sha384),
        params@ == p521_params() ==> r == Some(SigScheme::EcdsaNistp521Sha512),
        (params@ != p256_params() && params@ != p384_params() && params@ != p521_params()) ==> r
            is None,
{
    let mut p256: Vec<u8> = Vec::new();
    p256.push(0x06);
    p256.push(0x08);
    p256.push(0x2a);
    p256.push(0x86);
    p256.push(0x48);
    p256.push(0xce);
    p256.push(0x3d);
    p256.push(0x03);
    p256.push(0x01);
    p256.push(0x07);
    proof {
        assert(p256@ =~= p256_params());
    }
    let mut p384: Vec<u8> = Vec::new();
    p384.push(0x06);
    p384.push(0x05);
    p384.push(0x2b);
    p384.push(0x81);
    p384.push(0x04);
    p384.push(0x00);
    p384.push(0x22);
    proof {
        assert(p384@ =~= p384_params());
    }
    let mut p521: Vec<u8> = Vec::new();
    p521.push(0x06);
    p521.push(0x05);
    p521.push(0x2b);
    p521.push(0x81);
    p521.push(0x04);
    p521.push(0x00);
    p521.push(0x23);
    proof {
        assert(p521@ =~= p521_params());
    }
    if crate::pkcs11::bytes_eq(params, &p256) {
        Some(SigScheme::EcdsaNistp256Sha256)
    } else if crate::pkcs11::bytes_eq(params, &p384) {
        Some(SigScheme::EcdsaNistp384Sha384)
    } else if crate::pkcs11::bytes_eq(params, &p521) {
        Some(SigScheme::EcdsaNistp521Sha512)
    } else {
        None
    }
}

/// The big-endian base-256 digits of a number, most significant first;
/// nothing for zero.
pub open spec fn spec_be_bytes(n: nat) -> Seq<u8>
    decreases n,
{
    if n == 0 {
        Seq::empty()
    } else {
        spec_be_bytes(n / 256).push((n % 256) as u8)
    }
}

/// The DER encoding of a length: one byte below 128, otherwise a count byte
/// followed by the length's big-endian digits.
pub open spec fn spec_der_len(n: nat) -> Seq<u8> {
    if n < 0x80 {
        seq![n as u8]
    } else {
        seq![(0x80 + spec_be_bytes(n).len()) as u8] + spec_be_bytes(n)
    }
}

/// The content bytes of a DER INTEGER holding the unsigned big-endian value
/// of `b`: leading zero bytes dropped, a single zero byte for zero, and a
/// zero byte prepended where the top bit would otherwise read as a sign.
pub open spec fn spec_int_content(b: Seq<u8>) -> Seq<u8> {
    let m = b.skip(first_nonzero(b));
    if m.len() == 0 {
        seq![0u8]
    } else if m[0] >= 0x80 {
        seq![0u8] + m
    } else {
        m
    }
}

/// The index of the first nonzero byte, or the length if all are zero.
pub open spec fn first_nonzero(b: Seq<u8>) -> int
    decreases b.len(),
{
    if b.len() == 0 {
        0
    } else if b[0] != 0 {
        0
    } else {
        1 + first_nonzero(b.skip(1))
    }
}

/// A whole DER INTEGER: tag, length, content.
pub open spec fn spec_der_integer(b: Seq<u8>) -> Seq<u8> {
    seq![0x02u8] + spec_der_len(spec_int_content(b).len()) + spec_int_content(b)
}

/// A DER SEQUENCE of the two integers of an ECDSA signature.
pub open spec fn spec_ecdsa_signature(r: Seq<u8>, s: Seq<u8>) -> Seq<u8> {
    let body = spec_der_integer(r) + spec_der_integer(s);
    seq![0x30u8] + spec_der_len(body.len()) + body
}

/// Split a raw ECDSA signature into its two halves, `r` then `s`.
#[verifier::loop_isolation(false)]
pub fn split_raw_signature(raw: &Vec<u8>) -> (r: (Vec<u8>, Vec<u8>))
    ensures
        r.0@ == raw@.take((raw@.len() / 2) as int),
        r.1@ == raw@.skip((raw@.len() / 2) as int),
{
    let half = raw.len() / 2;
    let n = raw.len();
    let mut first: Vec<u8> = Vec::new();
    let mut second: Vec<u8> = Vec::new();
    let mut i: usize = 0;
    while i < half
        invariant
            0 <= i <= half,
            first@ == raw@.take(half as int).take(i as int),
        decreases half - i,
    {
        let ghost i0 = i as int;
        first.push(raw[i]);
        proof {
            assert(first@ =~= raw@.take(half as int).take(i0 + 1));
        }
        i = i + 1;
    }
    while i < n
        invariant
            half <= i <= n,
            second@ == raw@.skip(half as int).take((i - half) as int),
        decreases n - i,
    {
        let ghost i0 = i as int;
        second.push(raw[i]);
        proof {
            assert(second@ =~= raw@.skip(half as int).take(i0 + 1 - half));
        }
        i = i + 1;
    }
    proof {
        assert(first@ =~= raw@.take(half as int));
        assert(second@ =~= raw@.skip(half as int));
    }
    (first, second)
}

/// Powers of 256.
pub open spec fn pow256(k: nat) -> nat
    decreases k,
{
    if k == 0 {
        1
    } else {
        256 * pow256((k - 1) as nat)
    }
}

/// The big-endian base-256 digits of a number.
#[verifier::loop_isolation(false)]
fn be_bytes(n: usize) -> (r: Vec<u8>)
    ensures
        r@ == spec_be_bytes(n as nat),
        r@.len() <= 8,
{
    proof {
        reveal_with_fuel(pow256, 9);
        assert(pow256(8) == 0x10000000000000000);
        lemma_be_bytes_len(n as nat, 8);
    }
    let mut digits: Vec<u8> = Vec::new();
    let mut m = n;
    proof {
        assert(spec_be_bytes(n as nat) =~= spec_be_bytes(n as nat) + digits@);
    }
    while m > 0
        invariant
            spec_be_bytes(n as nat) == spec_be_bytes(m as nat) + digits@,
        decreases m,
    {
        let ghost pre = digits@;
        let digit = (m % 256) as u8;
        digits.insert(0, digit);
        proof {
            assert(digits@ =~= seq![digit] + pre);
            assert(spec_be_bytes(m as nat) =~= spec_be_bytes((m / 256) as nat) + seq![digit]);
            assert(spec_be_bytes((m / 256) as nat) + (seq![digit] + pre) =~= (spec_be_bytes(
                (m / 256) as nat,
            ) + seq![digit]) + pre);
        }
        m = m / 256;
    }
    proof {
        assert(spec_be_bytes(0) + digits@ =~= digits@);
    }
    digits
}

/// A number below 256 to the `k` has at most `k` digits.
proof fn lemma_be_bytes_len(n: nat, k: nat)
    requires
        n < pow256(k),
    ensures
        spec_be_bytes(n).len() <= k,
    decreases n,
{
    if n > 0 {
        assert(k > 0) by {
            if k == 0 {
                assert(pow256(0) == 1);
            }
        }
        assert(pow256(k) == 256 * pow256((k - 1) as nat));
        assert(n / 256 < pow256((k - 1) as nat)) by (nonlinear_arith)
            requires
                n < 256 * pow256((k - 1) as nat),
        ;
        lemma_be_bytes_len(n / 256, (k - 1) as nat);
    }
}

/// The DER encoding of a length.
#[verifier::loop_isolation(false)]
fn der_len(n: usize) -> (r: Vec<u8>)
    ensures
        r@ == spec_der_len(n as nat),
{
    if n < 0x80 {
        let mut r: Vec<u8> = Vec::new();
        r.push(n as u8);
        proof {
            assert(r@ =~= spec_der_len(n as nat));
        }
        r
    } else {
        let digits = be_bytes(n);
        let mut r: Vec<u8> = Vec::new();
        r.push(0x80 + (digits.len() as u8));
        let mut rest = digits;
        let ghost digits0 = rest@;
        proof {
            assert(r@ =~= seq![(0x80 + digits0.len()) as u8] + digits0.take(0));
            assert(rest@ =~= digits0.skip(0));
        }
        let mut taken: Ghost<int> = Ghost(0);
        while rest.len() > 0
            invariant
                0 <= taken@ <= digits0.len(),
                taken@ + rest@.len() == digits0.len(),
                r@ == seq![(0x80 + digits0.len()) as u8] + digits0.take(taken@),
                rest@ == digits0.skip(taken@),
            decreases rest@.len(),
        {
            let ghost k = taken@;
            let d = rest.remove(0);
            r.push(d);
            proof {
                assert(rest@ =~= digits0.skip(k + 1));
                assert(r@ =~= seq![(0x80 + digits0.len()) as u8] + digits0.take(k + 1));
            }
            taken = Ghost(k + 1);
        }
        proof {
            assert(digits0.take(digits0.len() as int) =~= digits0);
            assert(r@ =~= spec_der_len(n as nat));
        }
        r
    }
}

/// Append every byte of `tail` to `out`.
#[verifier::loop_isolation(false)]
fn append_bytes(out: &mut Vec<u8>, tail: &Vec<u8>)
    ensures
        final(out)@ == old(out)@ + tail@,
{
    let n = tail.len();
    let mut i: usize = 0;
    while i < n
        invariant
            0 <= i <= n,
            out@ == old(out)@ + tail@.take(i as int),
        decreases n - i,
    {
        let ghost i0 = i as int;
        out.push(tail[i]);
        proof {
            assert(out@ =~= old(out)@ + tail@.take(i0 + 1));
        }
        i = i + 1;
    }
    proof {
        assert(out@ =~= old(out)@ + tail@);
    }
}

/// The content bytes of a DER INTEGER holding the unsigned value of `b`.
#[verifier::loop_isolation(false)]
fn int_content(b: &Vec<u8>) -> (r: Vec<u8>)
    requires
        b@.len() < usize::MAX,
    ensures
        r@ == spec_int_content(b@),
{
    let n = b.len();
    let mut z: usize = 0;
    proof {
        assert(b@.skip(0) =~= b@);
    }
    while z < n && b[z] == 0
        invariant
            0 <= z <= n,
            first_nonzero(b@) == z + first_nonzero(b@.skip(z as int)),
        decreases n - z,
    {
        let ghost z0 = z as int;
        proof {
            assert(b@.skip(z0).skip(1) =~= b@.skip(z0 + 1));
        }
        z = z + 1;
    }
    proof {
        assert(first_nonzero(b@) == z);
    }
    let mut r: Vec<u8> = Vec::new();
    if z == n {
        r.push(0);
        proof {
            assert(b@.skip(z as int).len() == 0);
            assert(r@ =~= spec_int_content(b@));
        }
        return r;
    }
    if b[z] >= 0x80 {
        r.push(0);
    }
    let ghost lead = r@;
    let mut i: usize = z;
    while i < n
        invariant
            z <= i <= n,
            r@ == lead + b@.skip(z as int).take((i - z) as int),
        decreases n - i,
    {
        let ghost i0 = i as int;
        r.push(b[i]);
        proof {
            assert(r@ =~= lead + b@.skip(z as int).take(i0 + 1 - z));
        }
        i = i + 1;
    }
    proof {
        assert(b@.skip(z as int).take((n - z) as int) =~= b@.skip(z as int));
        assert(r@ =~= spec_int_content(b@));
    }
    r
}

/// One DER INTEGER holding the unsigned value of `b`: tag, length, content.
fn der_integer(b: &Vec<u8>) -> (r: Vec<u8>)
    requires
        b@.len() < usize::MAX - 16,
    ensures
        r@ == spec_der_integer(b@),
{
    let content = int_content(b);
    let length = der_len(content.len());
    let mut r: Vec<u8> = Vec::new();
    r.push(0x02);
    append_bytes(&mut r, &length);
    append_bytes(&mut r, &content);
    proof {
        assert(r@ =~= spec_der_integer(b@));
    }
    r
}

/// The DER encoding of an ECDSA signature: a SEQUENCE of the two integers
/// spelled by the signature's halves, each taken as an unsigned big-endian
/// number.
pub fn format_asn1_ecdsa_signature(r_bytes: &Vec<u8>, s_bytes: &Vec<u8>) -> (r: Vec<u8>)
    requires
        r_bytes@.len() < 0x1000000,
        s_bytes@.len() < 0x1000000,
    ensures
        r@ == spec_ecdsa_signature(r_bytes@, s_bytes@),
{
    let first = der_integer(r_bytes);
    let second = der_integer(s_bytes);
    let mut body = first;
    append_bytes(&mut body, &second);
    let length = der_len(body.len());
    let mut out: Vec<u8> = Vec::new();
    out.push(0x30);
    append_bytes(&mut out, &length);
    append_bytes(&mut out, &body);
    proof {
        assert(out@ =~= spec_ecdsa_signature(r_bytes@, s_bytes@));
    }
    out
}

} // verus!

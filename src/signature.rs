//! The canonical message of a signed invoice and its Ed25519 check.
use vstd::prelude::*;
use vstd::string::StringSliceAdditionalSpecFns;
use crate::types::{Address, AddressKind};

verus! {

/// The `n` low base-256 digits of `v`, most significant first.
pub open spec fn be_digits(v: nat, n: nat) -> Seq<u8>
    decreases n,
{
    if n == 0 {
        Seq::empty()
    } else {
        be_digits(v / 256, (n - 1) as nat).push((v % 256) as u8)
    }
}

/// The 16 bytes of `x` in big-endian two's complement.
pub open spec fn i128_be(x: i128) -> Seq<u8> {
    if x < 0 {
        be_digits((x + 0x1_0000_0000_0000_0000_0000_0000_0000_0000int) as nat, 16)
    } else {
        be_digits(x as nat, 16)
    }
}

/// XDR of an address as a ledger value: the value tag (18), the address
/// tag, for an account the key-type tag (0), then the 32 key bytes.
pub open spec fn xdr_address(a: Address) -> Seq<u8> {
    seq![0u8, 0u8, 0u8, 18u8] + match a.kind {
        AddressKind::Account => seq![0u8, 0u8, 0u8, 0u8, 0u8, 0u8, 0u8, 0u8],
        AddressKind::Contract => seq![0u8, 0u8, 0u8, 1u8],
    } + a.key@
}

/// Number of zero bytes that pad `n` bytes to a multiple of four.
pub open spec fn xdr_padding(n: nat) -> nat {
    ((4 - (n % 4) as int) % 4) as nat
}

/// XDR of a string as a ledger value: the value tag (14), the byte length as
/// a big-endian `u32`, the bytes, and zero padding to a multiple of four.
pub open spec fn xdr_string(b: Seq<u8>) -> Seq<u8> {
    seq![0u8, 0u8, 0u8, 14u8] + be_digits(b.len(), 4) + b + Seq::new(
        xdr_padding(b.len()),
        |i: int| 0u8,
    )
}

/// The message a merchant signs to authorise an invoice: contract address,
/// merchant address, nonce, amount, token address and description, each
/// encoded as above, concatenated in that order.
pub open spec fn invoice_message(
    contract: Address,
    merchant: Address,
    description: Seq<u8>,
    amount: i128,
    token: Address,
    nonce: Seq<u8>,
) -> Seq<u8> {
    xdr_address(contract) + xdr_address(merchant) + nonce + i128_be(amount) + xdr_address(token)
        + xdr_string(description)
}

/// Whether `signature` is a valid Ed25519 signature of `message` under the
/// public key `key`, by the strict verification rules.
pub uninterp spec fn ed25519_accepts(key: Seq<u8>, message: Seq<u8>, signature: Seq<u8>) -> bool;

/// Relies on ed25519_dalek's `VerifyingKey::from_bytes` and `verify_strict`
/// (with `Signature::from_bytes`), the check the ledger host makes: the
/// answer depends on the three byte strings alone.
#[verifier::external_body]
fn ed25519_verify(key: &[u8; 32], message: &[u8], signature: &[u8; 64]) -> (r: bool)
    ensures
        r == ed25519_accepts(key@, message@, signature@),
{
    match ed25519_dalek::VerifyingKey::from_bytes(key) {
        Ok(k) => k.verify_strict(message, &ed25519_dalek::Signature::from_bytes(signature)).is_ok(),
        Err(_) => false,
    }
}

/// The `n` low base-256 digits of `v`, most significant first.
fn digits(v: u128, n: usize) -> (r: Vec<u8>)
    ensures
        r@ == be_digits(v as nat, n as nat),
    decreases n,
{
    if n == 0 {
        Vec::new()
    } else {
        let mut r = digits(v / 256, n - 1);
        r.push((v % 256) as u8);
        r
    }
}

/// The 16 bytes of `x` in big-endian two's complement.
fn i128_to_be_bytes(x: i128) -> (r: Vec<u8>)
    ensures
        r@ == i128_be(x),
{
    let v: u128 = if x < 0 {
        (x + i128::MAX + 1) as u128 + 0x8000_0000_0000_0000_0000_0000_0000_0000u128
    } else {
        x as u128
    };
    digits(v, 16)
}

/// Appends `b` to `out`.
fn push_bytes(out: &mut Vec<u8>, b: &[u8])
    ensures
        final(out)@ == old(out)@ + b@,
{
    let mut i: usize = 0;
    while i < b.len()
        invariant
            0 <= i <= b@.len(),
            out@ == old(out)@ + b@.subrange(0, i as int),
        decreases b@.len() - i,
    {
        out.push(b[i]);
        i = i + 1;
        assert(b@.subrange(0, i as int) =~= b@.subrange(0, i - 1).push(b@[i - 1]));
    }
    assert(b@.subrange(0, b@.len() as int) =~= b@);
}

/// Appends the XDR of `a` to `out`.
fn push_address(out: &mut Vec<u8>, a: &Address)
    ensures
        final(out)@ == old(out)@ + xdr_address(*a),
{
    let tag: [u8; 4] = [0, 0, 0, 18];
    push_bytes(out, &tag);
    match a.kind {
        AddressKind::Account => {
            let t: [u8; 8] = [0, 0, 0, 0, 0, 0, 0, 0];
            push_bytes(out, &t);
            assert(t@ =~= seq![0u8, 0u8, 0u8, 0u8, 0u8, 0u8, 0u8, 0u8]);
        },
        AddressKind::Contract => {
            let t: [u8; 4] = [0, 0, 0, 1];
            push_bytes(out, &t);
            assert(t@ =~= seq![0u8, 0u8, 0u8, 1u8]);
        },
    }
    push_bytes(out, &a.key);
    assert(tag@ =~= seq![0u8, 0u8, 0u8, 18u8]);
    assert(final(out)@ =~= old(out)@ + xdr_address(*a));
}

/// Appends the XDR of the string with bytes `b` to `out`.
fn push_string(out: &mut Vec<u8>, b: &[u8])
    requires
        b@.len() <= u32::MAX,
    ensures
        final(out)@ == old(out)@ + xdr_string(b@),
{
    let tag: [u8; 4] = [0, 0, 0, 14];
    push_bytes(out, &tag);
    let len = digits(b.len() as u128, 4);
    push_bytes(out, len.as_slice());
    push_bytes(out, b);
    let pad: usize = (4 - b.len() % 4) % 4;
    let mut i: usize = 0;
    let ghost before = out@;
    while i < pad
        invariant
            0 <= i <= pad,
            pad == xdr_padding(b@.len() as nat),
            out@ == before + Seq::new(i as nat, |k: int| 0u8),
        decreases pad - i,
    {
        out.push(0u8);
        i = i + 1;
        assert(out@ =~= before + Seq::new(i as nat, |k: int| 0u8));
    }
    assert(tag@ =~= seq![0u8, 0u8, 0u8, 14u8]);
    assert(final(out)@ =~= old(out)@ + xdr_string(b@));
}

/// Builds the canonical message that a merchant signs for an invoice.
pub fn build_message(
    contract: &Address,
    merchant: &Address,
    description: &str,
    amount: i128,
    token: &Address,
    nonce: &[u8; 32],
) -> (r: Vec<u8>)
    requires
        description.spec_bytes().len() <= u32::MAX,
    ensures
        r@ == invoice_message(*contract, *merchant, description.spec_bytes(), amount, *token, nonce@),
{
    let mut msg: Vec<u8> = Vec::new();
    push_address(&mut msg, contract);
    push_address(&mut msg, merchant);
    push_bytes(&mut msg, nonce);
    let amount_bytes = i128_to_be_bytes(amount);
    push_bytes(&mut msg, amount_bytes.as_slice());
    push_address(&mut msg, token);
    push_string(&mut msg, description.as_bytes());
    assert(msg@ =~= invoice_message(
        *contract,
        *merchant,
        description.spec_bytes(),
        amount,
        *token,
        nonce@,
    ));
    msg
}

/// Whether `signature` is the merchant key's valid signature of the
/// invoice's canonical message.
pub fn verify_invoice_signature(
    key: &[u8; 32],
    contract: &Address,
    merchant: &Address,
    description: &str,
    amount: i128,
    token: &Address,
    nonce: &[u8; 32],
    signature: &[u8; 64],
) -> (r: bool)
    requires
        description.spec_bytes().len() <= u32::MAX,
    ensures
        r == ed25519_accepts(
            key@,
            invoice_message(*contract, *merchant, description.spec_bytes(), amount, *token, nonce@),
            signature@,
        ),
{
    let message = build_message(contract, merchant, description, amount, token, nonce);
    ed25519_verify(key, message.as_slice(), signature)
}

} // verus!

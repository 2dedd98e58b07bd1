//! Accounts that the machine stores encrypted under their owner's password.
//!
//! The account is serialized with `bincode`, the password is stretched with
//! scrypt (parameters 14, 8 and 1, from the `rust-crypto` crate) into a
//! 256-bit key, and the account's bytes are encrypted with AES-256 in CBC
//! mode with PKCS padding into a buffer of 256 bytes.
use vstd::prelude::*;
use vstd::string::StringSliceAdditionalSpecFns;
use crate::currency::{iso_currency_with_code, with_code, CurrencyView, Money};
use crate::error::{Error, ErrorView};
use crate::password::random_salt;
use crate::clock::now_micros;
use crate::ids::new_id;

verus! {

/// The bytes that the standard Base64 alphabet, with padding, decodes from
/// `input` (`base64::engine::general_purpose::STANDARD`), or `None` where
/// `input` is no such encoding.
pub uninterp spec fn base64_decode(input: Seq<u8>) -> Option<Seq<u8>>;

/// The text, as its bytes, that the standard Base64 alphabet with padding
/// encodes `bytes` into (`base64::engine::general_purpose::STANDARD.encode`).
pub uninterp spec fn base64_encode(bytes: Seq<u8>) -> Seq<u8>;

/// The key of `len` bytes that scrypt with parameters `log_n`, `r` and `p`
/// derives from a password, given as its characters, and a salt
/// (`crypto::scrypt::scrypt`).
pub uninterp spec fn scrypt_key(password: Seq<char>, salt: Seq<u8>, log_n: u8, r: u32, p: u32, len: nat) -> Seq<u8>;

/// What AES-256 in CBC mode with PKCS padding leaves in the buffer `out`
/// when it encrypts `data` with `key` and `iv` into it
/// (`crypto::aes::cbc_encryptor`).
pub uninterp spec fn aes_cbc_encrypt(key: Seq<u8>, iv: Seq<u8>, data: Seq<u8>, out: Seq<u8>) -> Seq<u8>;

/// What AES-256 in CBC mode leaves in the buffer `out` when it decrypts
/// every block of `data` with `key` and `iv` into it, without removing any
/// padding (`crypto::aes::cbc_decryptor` with `NoPadding`).
pub uninterp spec fn aes_cbc_decrypt(key: Seq<u8>, iv: Seq<u8>, data: Seq<u8>, out: Seq<u8>) -> Seq<u8>;

/// The bytes that `bincode::serialize` writes for the tuple of an account's
/// stored fields: its owner's id and name, its id, when it was created, its
/// currency's code and its amount in minor units.
pub uninterp spec fn bincode_account(
    owner_id: u128,
    owner_name: Seq<char>,
    id: u128,
    created: i64,
    code: Seq<char>,
    funds: i64,
) -> Seq<u8>;

/// The tuple of an account's stored fields that `bincode::deserialize` reads
/// from the start of `bytes`, or `None` where none can be read.
pub uninterp spec fn bincode_account_read(bytes: Seq<u8>) -> Option<
    (u128, Seq<char>, u128, i64, Seq<char>, i64),
>;

/// The stored fields of an account: its owner's id and name, its id, when it
/// was created, its currency's code and its amount in minor units.
pub type AccountFields = (u128, Seq<char>, u128, i64, Seq<char>, i64);

/// The bytes that an account with the stored fields `f` is serialized into.
pub open spec fn account_bytes(f: AccountFields) -> Seq<u8> {
    bincode_account(f.0, f.1, f.2, f.3, f.4, f.5)
}

/// How many bytes an account with the stored fields `f` is serialized into:
/// 16 for each id, 8 for the creation time and the amount, and each string's
/// UTF-8 bytes after 8 bytes of length.
pub open spec fn account_bytes_len(f: AccountFields) -> nat {
    64 + vstd::utf8::encode_utf8(f.1).len() + vstd::utf8::encode_utf8(f.4).len()
}

/// The scrypt cost parameter: the logarithm of the number of iterations.
pub const SCRYPT_LOG_N: u8 = 14;

/// The scrypt block size parameter.
pub const SCRYPT_R: u32 = 8;

/// The scrypt parallelization parameter.
pub const SCRYPT_P: u32 = 1;

/// The number of bytes in an AES-256 key.
pub const KEY_LEN: usize = 32;

/// The number of bytes in an AES initialization vector.
pub const IV_LEN: usize = 16;

/// The number of bytes of an encrypted account.
pub const STORED_LEN: usize = 256;

/// Whether scrypt parameters are among those that `rust-crypto` accepts
/// (`crypto::scrypt::ScryptParams::new` panics on others), with room to
/// spare.
pub open spec fn scrypt_params_ok(log_n: u8, r: u32, p: u32) -> bool {
    0 < log_n <= 16 && 0 < r <= 8 && 0 < p <= 8 && log_n < r * 16
}

/// The key that the account store derives from a password and a salt.
pub open spec fn account_key(password: Seq<char>, salt: Seq<u8>) -> Seq<u8> {
    scrypt_key(password, salt, SCRYPT_LOG_N, SCRYPT_R, SCRYPT_P, KEY_LEN as nat)
}

/// A buffer of `n` zero bytes.
pub open spec fn zeros(n: nat) -> Seq<u8> {
    Seq::new(n, |i: int| 0u8)
}

/// The fields of `s` between the separators `sep`, as `str::split` gives
/// them: there is always at least one, and two separators in a row give an
/// empty field.
pub open spec fn split_fields(s: Seq<u8>, sep: u8) -> Seq<Seq<u8>>
    decreases s.len(),
{
    if s.len() == 0 {
        seq![Seq::<u8>::empty()]
    } else {
        let f = split_fields(s.drop_last(), sep);
        if s.last() == sep {
            f.push(Seq::<u8>::empty())
        } else {
            f.update(f.len() - 1, f.last().push(s.last()))
        }
    }
}

/// `split_fields` always gives at least one field.
pub proof fn lemma_split_fields_nonempty(s: Seq<u8>, sep: u8)
    ensures
        split_fields(s, sep).len() >= 1,
    decreases s.len(),
{
    if s.len() > 0 {
        lemma_split_fields_nonempty(s.drop_last(), sep);
    }
}

/// The name that the Rust scrypt format gives itself: `rscrypt`.
pub open spec fn rscrypt_tag() -> Seq<u8> {
    seq![114u8, 115u8, 99u8, 114u8, 121u8, 112u8, 116u8]
}

/// Whether `source` starts as the Rust scrypt format does: an empty field,
/// then `rscrypt`.
pub open spec fn rscrypt_header(source: Seq<u8>) -> bool {
    let f = split_fields(source, 36u8);
    f[0].len() == 0 && f.len() >= 2 && f[1] == rscrypt_tag()
}

/// Whether the salt and hash fields of a string in the Rust scrypt format can
/// be read: the string has them, and they are Base64.
pub open spec fn rscrypt_fields_readable(source: Seq<u8>) -> bool {
    let f = split_fields(source, 36u8);
    f.len() >= 6 && base64_decode(f[4]) is Some && base64_decode(f[5]) is Some
}

/// Whether `s` holds no byte `sep`.
pub open spec fn no_sep(s: Seq<u8>, sep: u8) -> bool {
    forall|i: int| 0 <= i < s.len() ==> s[i] != sep
}

/// A string in the Rust scrypt format, as bytes:
/// `$rscrypt$<format>$<params>$<salt>$<hash>$`.
pub open spec fn rscrypt_text(format: Seq<u8>, params: Seq<u8>, salt: Seq<u8>, hash: Seq<u8>) -> Seq<u8> {
    seq![36u8] + rscrypt_tag() + seq![36u8] + format + seq![36u8] + params + seq![36u8] + salt
        + seq![36u8] + hash + seq![36u8]
}

/// Whether `format`, `params`, `salt` and `hash` can stand as the fields of
/// a string in the Rust scrypt format: none holds a `$`.
pub open spec fn rscrypt_parts(format: Seq<u8>, params: Seq<u8>, salt: Seq<u8>, hash: Seq<u8>) -> bool {
    no_sep(format, 36u8) && no_sep(params, 36u8) && no_sep(salt, 36u8) && no_sep(hash, 36u8)
}

/// A separator at the end of a string starts a new, empty field.
proof fn lemma_split_fields_sep(s: Seq<u8>, sep: u8)
    ensures
        split_fields(s + seq![sep], sep) == split_fields(s, sep).push(Seq::<u8>::empty()),
{
    assert((s + seq![sep]).drop_last() =~= s);
}

/// Bytes without a separator at the end of a string extend its last field.
proof fn lemma_split_fields_extend(s: Seq<u8>, t: Seq<u8>, sep: u8)
    requires
        no_sep(t, sep),
    ensures
        split_fields(s + t, sep) == split_fields(s, sep).update(
            split_fields(s, sep).len() - 1,
            split_fields(s, sep).last() + t,
        ),
    decreases t.len(),
{
    lemma_split_fields_nonempty(s, sep);
    let f = split_fields(s, sep);
    if t.len() == 0 {
        assert(s + t =~= s);
        assert(f.last() + t =~= f.last());
        assert(f.update(f.len() - 1, f.last() + t) =~= f);
    } else {
        let u = t.drop_last();
        assert(no_sep(u, sep));
        lemma_split_fields_extend(s, u, sep);
        assert((s + t).drop_last() =~= s + u);
        assert((s + t).last() == t.last());
        assert((f.last() + u).push(t.last()) =~= f.last() + t);
        assert(split_fields(s + t, sep) =~= f.update(f.len() - 1, f.last() + t));
    }
}

/// The fields of a string in the Rust scrypt format are the empty field,
/// `rscrypt`, its four parts and a last empty field.
pub proof fn lemma_rscrypt_text_fields(format: Seq<u8>, params: Seq<u8>, salt: Seq<u8>, hash: Seq<u8>)
    requires
        rscrypt_parts(format, params, salt, hash),
    ensures
        split_fields(rscrypt_text(format, params, salt, hash), 36u8) == seq![
            Seq::<u8>::empty(),
            rscrypt_tag(),
            format,
            params,
            salt,
            hash,
            Seq::<u8>::empty(),
        ],
{
    let e = Seq::<u8>::empty();
    let d = seq![36u8];
    assert(no_sep(rscrypt_tag(), 36u8));
    lemma_split_fields_sep(e, 36u8);
    assert(e + d =~= d);
    let s1 = d;
    assert(split_fields(s1, 36u8) =~= seq![e, e]);
    lemma_split_fields_extend(s1, rscrypt_tag(), 36u8);
    let s2 = s1 + rscrypt_tag();
    assert(e + rscrypt_tag() =~= rscrypt_tag());
    assert(split_fields(s2, 36u8) =~= seq![e, rscrypt_tag()]);
    lemma_split_fields_sep(s2, 36u8);
    let s3 = s2 + d;
    assert(split_fields(s3, 36u8) =~= seq![e, rscrypt_tag(), e]);
    lemma_split_fields_extend(s3, format, 36u8);
    let s4 = s3 + format;
    assert(e + format =~= format);
    assert(split_fields(s4, 36u8) =~= seq![e, rscrypt_tag(), format]);
    lemma_split_fields_sep(s4, 36u8);
    let s5 = s4 + d;
    assert(split_fields(s5, 36u8) =~= seq![e, rscrypt_tag(), format, e]);
    lemma_split_fields_extend(s5, params, 36u8);
    let s6 = s5 + params;
    assert(e + params =~= params);
    assert(split_fields(s6, 36u8) =~= seq![e, rscrypt_tag(), format, params]);
    lemma_split_fields_sep(s6, 36u8);
    let s7 = s6 + d;
    assert(split_fields(s7, 36u8) =~= seq![e, rscrypt_tag(), format, params, e]);
    lemma_split_fields_extend(s7, salt, 36u8);
    let s8 = s7 + salt;
    assert(e + salt =~= salt);
    assert(split_fields(s8, 36u8) =~= seq![e, rscrypt_tag(), format, params, salt]);
    lemma_split_fields_sep(s8, 36u8);
    let s9 = s8 + d;
    assert(split_fields(s9, 36u8) =~= seq![e, rscrypt_tag(), format, params, salt, e]);
    lemma_split_fields_extend(s9, hash, 36u8);
    let s10 = s9 + hash;
    assert(e + hash =~= hash);
    assert(split_fields(s10, 36u8) =~= seq![e, rscrypt_tag(), format, params, salt, hash]);
    lemma_split_fields_sep(s10, 36u8);
    let s11 = s10 + d;
    assert(split_fields(s11, 36u8) =~= seq![e, rscrypt_tag(), format, params, salt, hash, e]);
    assert(s11 == rscrypt_text(format, params, salt, hash));
}

/// The message given for a string that is not in the Rust scrypt format.
pub open spec fn not_rscrypt_message() -> Seq<char> {
    "Hash is not in Rust Scrypt format."@
}

/// Decodes standard Base64 with padding
/// (`base64::engine::general_purpose::STANDARD.decode`). Decoding what the
/// same engine encoded gives the encoded bytes back.
#[verifier::external_body]
fn decode_base64(input: &[u8]) -> (r: Option<Vec<u8>>)
    ensures
        r matches Some(v) ==> base64_decode(input@) == Some(v@),
        r is None ==> base64_decode(input@) is None,
        forall|b: Seq<u8>| #[trigger] base64_encode(b) == input@ ==> r is Some && r->Some_0@ == b,
{
    match base64::Engine::decode(&base64::engine::general_purpose::STANDARD, input) {
        Ok(v) => Some(v),
        Err(_) => None,
    }
}

/// Hashes a password with scrypt and a fresh random salt of 16 bytes into the
/// Rust scrypt format (`crypto::scrypt::scrypt_simple`), or `None` when no
/// random salt can be had. The crate writes `$rscrypt$`, a format digit and
/// `$`, the parameters, then the salt and the 32-byte scrypt key, each in
/// standard Base64 with padding and followed by `$`. The salt is random:
/// nothing more is stated of it.
#[verifier::external_body]
fn scrypt_simple(password: &str, log_n: u8, r: u32, p: u32) -> (h: Option<String>)
    requires
        scrypt_params_ok(log_n, r, p),
    ensures
        h matches Some(s) ==> exists|salt: Seq<u8>|
            #![trigger scrypt_key(password@, salt, log_n, r, p, KEY_LEN as nat)]
            salt.len() == 16 && rscrypt_header(vstd::utf8::encode_utf8(s@))
                && rscrypt_fields_readable(vstd::utf8::encode_utf8(s@)) && base64_decode(
                split_fields(vstd::utf8::encode_utf8(s@), 36u8)[4],
            ) == Some(salt) && base64_decode(split_fields(vstd::utf8::encode_utf8(s@), 36u8)[5])
                == Some(scrypt_key(password@, salt, log_n, r, p, KEY_LEN as nat)) && scrypt_key(
                password@,
                salt,
                log_n,
                r,
                p,
                KEY_LEN as nat,
            ).len() == KEY_LEN,
{
    match crypto::scrypt::scrypt_simple(password, &crypto::scrypt::ScryptParams::new(log_n, r, p)) {
        Ok(s) => Some(s),
        Err(_) => None,
    }
}

/// Derives a key, as long as `out`, from a password and a salt with scrypt
/// (`crypto::scrypt::scrypt`, which refuses an empty output).
#[verifier::external_body]
fn derive_key(password: &str, salt: &[u8], log_n: u8, r: u32, p: u32, out: &mut Vec<u8>)
    requires
        scrypt_params_ok(log_n, r, p),
        0 < old(out)@.len() <= 0xFFFF_FFFF,
    ensures
        final(out)@ == scrypt_key(password@, salt@, log_n, r, p, old(out)@.len()),
        final(out)@.len() == old(out)@.len(),
{
    let params = crypto::scrypt::ScryptParams::new(log_n, r, p);
    crypto::scrypt::scrypt(password.as_bytes(), salt, &params, out.as_mut_slice());
}

/// Encrypts `data` with AES-256 in CBC mode with PKCS padding into `out`
/// (`crypto::aes::cbc_encryptor`). What does not fit is left out; the
/// outcome of the encryption is not looked at. When `out` is a zeroed
/// buffer of whole blocks longer than `data`, the padded data fits in it,
/// and decrypting all of `out` with the same key and initialization vector
/// into a zeroed buffer as long, as `decrypt_into` does, gives `data` back
/// at its start: CBC decryption of a block needs only that block and the one
/// before, so the blocks of the padded data decrypt to it whatever follows
/// them.
#[verifier::external_body]
fn encrypt_into(key: &[u8], iv: &[u8], data: &[u8], out: &mut Vec<u8>)
    requires
        key@.len() == KEY_LEN,
        iv@.len() == IV_LEN,
    ensures
        final(out)@ == aes_cbc_encrypt(key@, iv@, data@, old(out)@),
        final(out)@.len() == old(out)@.len(),
        old(out)@ == zeros(old(out)@.len()) && old(out)@.len() % 16 == 0 && data@.len()
            < old(out)@.len() ==> aes_cbc_decrypt(key@, iv@, final(out)@, old(out)@).take(
            data@.len() as int,
        ) == data@,
{
    let mut enc = crypto::aes::cbc_encryptor(crypto::aes::KeySize::KeySize256, key, iv,
        crypto::blockmodes::PkcsPadding);
    let mut rd = crypto::buffer::RefReadBuffer::new(data);
    let mut wr = crypto::buffer::RefWriteBuffer::new(out.as_mut_slice());
    let _ = enc.encrypt(&mut rd, &mut wr, true);
}

/// Decrypts every block of `data` with AES-256 in CBC mode into `out`
/// (`crypto::aes::cbc_decryptor` with `NoPadding`): no padding is checked or
/// removed, so the decryption cannot fail on its content (the crate's PKCS
/// padding check can panic on a last block of sixteen equal bytes above
/// 16). The outcome of the decryption is not looked at.
#[verifier::external_body]
fn decrypt_into(key: &[u8], iv: &[u8], data: &[u8], out: &mut Vec<u8>)
    requires
        key@.len() == KEY_LEN,
        iv@.len() == IV_LEN,
    ensures
        final(out)@ == aes_cbc_decrypt(key@, iv@, data@, old(out)@),
        final(out)@.len() == old(out)@.len(),
{
    let mut dec = crypto::aes::cbc_decryptor(crypto::aes::KeySize::KeySize256, key, iv,
        crypto::blockmodes::NoPadding);
    let mut rd = crypto::buffer::RefReadBuffer::new(data);
    let mut wr = crypto::buffer::RefWriteBuffer::new(out.as_mut_slice());
    let _ = dec.decrypt(&mut rd, &mut wr, true);
}

/// A buffer of `n` zero bytes.
fn zero_buffer(n: usize) -> (r: Vec<u8>)
    ensures
        r@ == zeros(n as nat),
{
    let mut v: Vec<u8> = Vec::new();
    while v.len() < n
        invariant
            v@.len() <= n,
            forall|i: int| 0 <= i < v@.len() ==> v@[i] == 0u8,
        decreases n - v@.len(),
    {
        v.push(0u8);
    }
    assert(v@ =~= zeros(n as nat));
    v
}

/// Splits `s` into the fields between the separators `sep`.
fn split_bytes(s: &[u8], sep: u8) -> (r: Vec<Vec<u8>>)
    ensures
        r@.len() == split_fields(s@, sep).len(),
        forall|i: int| 0 <= i < r@.len() ==> #[trigger] r@[i]@ == split_fields(s@, sep)[i],
{
    let mut fields: Vec<Vec<u8>> = Vec::new();
    let mut cur: Vec<u8> = Vec::new();
    let mut i: usize = 0;
    assert(s@.take(0) =~= Seq::<u8>::empty());
    while i < s.len()
        invariant
            i <= s@.len(),
            fields@.len() + 1 == split_fields(s@.take(i as int), sep).len(),
            forall|k: int|
                0 <= k < fields@.len() ==> #[trigger] fields@[k]@ == split_fields(
                    s@.take(i as int),
                    sep,
                )[k],
            cur@ == split_fields(s@.take(i as int), sep).last(),
        decreases s@.len() - i,
    {
        assert(s@.take(i + 1).drop_last() =~= s@.take(i as int));
        proof {
            lemma_split_fields_nonempty(s@.take(i as int), sep);
        }
        if s[i] == sep {
            let done = cur;
            fields.push(done);
            cur = Vec::new();
        } else {
            cur.push(s[i]);
        }
        i = i + 1;
    }
    assert(s@.take(s@.len() as int) =~= s@);
    fields.push(cur);
    fields
}

/// Whether `field` holds `rscrypt`.
fn is_rscrypt_tag(field: &Vec<u8>) -> (r: bool)
    ensures
        r == (field@ == rscrypt_tag()),
{
    let tag: Vec<u8> = vec![114u8, 115u8, 99u8, 114u8, 121u8, 112u8, 116u8];
    assert(tag@ =~= rscrypt_tag());
    if field.len() != tag.len() {
        return false;
    }
    let mut i: usize = 0;
    while i < tag.len()
        invariant
            field@.len() == tag@.len(),
            tag@ == rscrypt_tag(),
            i <= tag@.len(),
            forall|k: int| 0 <= k < i ==> field@[k] == tag@[k],
        decreases tag@.len() - i,
    {
        if field[i] != tag[i] {
            return false;
        }
        i = i + 1;
    }
    assert(field@ =~= tag@);
    true
}

/// The salt and hash of a password hash in the Rust scrypt format.
#[derive(Debug)]
pub struct Scrypt {
    pub salt: Vec<u8>,
    pub hash: Vec<u8>,
}

impl Scrypt {
    /// Reads the salt and hash out of a password hash in the Rust scrypt
    /// format, `$rscrypt$<format>$<parameters>$<salt>$<hash>$`, with salt and
    /// hash in Base64. A string that does not start with `$rscrypt$` is
    /// refused. Where the salt and hash fields are the Base64 encodings of
    /// some bytes, those bytes are what is read.
    pub fn new(source: &str) -> (r: Result<Scrypt, &'static str>)
        requires
            rscrypt_header(source.spec_bytes()) ==> rscrypt_fields_readable(source.spec_bytes()),
        ensures
            !rscrypt_header(source.spec_bytes()) ==> (r matches Err(m) && m@ == not_rscrypt_message()),
            rscrypt_header(source.spec_bytes()) ==> (r matches Ok(s) && Some(s.salt@)
                == base64_decode(split_fields(source.spec_bytes(), 36u8)[4]) && Some(s.hash@)
                == base64_decode(split_fields(source.spec_bytes(), 36u8)[5])),
            forall|format: Seq<u8>, params: Seq<u8>, salt: Seq<u8>, hash: Seq<u8>|
                rscrypt_parts(format, params, base64_encode(salt), base64_encode(hash))
                    && source.spec_bytes() == #[trigger] rscrypt_text(
                    format,
                    params,
                    base64_encode(salt),
                    base64_encode(hash),
                ) ==> (r matches Ok(s) && s.salt@ == salt && s.hash@ == hash),
    {
        proof {
            assert forall|format: Seq<u8>, params: Seq<u8>, salt: Seq<u8>, hash: Seq<u8>|
                rscrypt_parts(format, params, base64_encode(salt), base64_encode(hash))
                    && source.spec_bytes() == #[trigger] rscrypt_text(
                    format,
                    params,
                    base64_encode(salt),
                    base64_encode(hash),
                ) implies rscrypt_header(source.spec_bytes()) by {
                lemma_rscrypt_text_fields(format, params, base64_encode(salt), base64_encode(hash));
            }
        }
        let err_str: &'static str = "Hash is not in Rust Scrypt format.";
        proof {
            reveal_strlit("Hash is not in Rust Scrypt format.");
            lemma_split_fields_nonempty(source.spec_bytes(), 36u8);
        }
        let fields = split_bytes(source.as_bytes(), 36u8);
        if fields[0].len() != 0 {
            return Err(err_str);
        }
        if fields.len() < 2 {
            return Err(err_str);
        }
        if !is_rscrypt_tag(&fields[1]) {
            return Err(err_str);
        }
        let salt = decode_base64(fields[4].as_slice()).unwrap();
        let hash = decode_base64(fields[5].as_slice()).unwrap();
        proof {
            assert forall|format: Seq<u8>, params: Seq<u8>, s: Seq<u8>, h: Seq<u8>|
                rscrypt_parts(format, params, base64_encode(s), base64_encode(h))
                    && source.spec_bytes() == #[trigger] rscrypt_text(
                    format,
                    params,
                    base64_encode(s),
                    base64_encode(h),
                ) implies salt@ == s && hash@ == h by {
                lemma_rscrypt_text_fields(format, params, base64_encode(s), base64_encode(h));
            }
        }
        Ok(Scrypt { salt, hash })
    }

    /// Reads a password hash in the Rust scrypt format as `new` does, or
    /// gives `None` where `new` cannot: where a string that starts as the
    /// format does lacks a salt or hash field, or one is not Base64.
    pub fn try_new(source: &str) -> (r: Option<Result<Scrypt, &'static str>>)
        ensures
            r is None <==> (rscrypt_header(source.spec_bytes()) && !rscrypt_fields_readable(
                source.spec_bytes(),
            )),
            r matches Some(Err(m)) ==> !rscrypt_header(source.spec_bytes()) && m@
                == not_rscrypt_message(),
            r matches Some(Ok(s)) ==> rscrypt_header(source.spec_bytes()) && Some(s.salt@)
                == base64_decode(split_fields(source.spec_bytes(), 36u8)[4]) && Some(s.hash@)
                == base64_decode(split_fields(source.spec_bytes(), 36u8)[5]),
            forall|format: Seq<u8>, params: Seq<u8>, salt: Seq<u8>, hash: Seq<u8>|
                rscrypt_parts(format, params, base64_encode(salt), base64_encode(hash))
                    && source.spec_bytes() == #[trigger] rscrypt_text(
                    format,
                    params,
                    base64_encode(salt),
                    base64_encode(hash),
                ) ==> (r matches Some(Ok(s)) && s.salt@ == salt && s.hash@ == hash),
    {
        proof {
            lemma_split_fields_nonempty(source.spec_bytes(), 36u8);
            assert forall|format: Seq<u8>, params: Seq<u8>, salt: Seq<u8>, hash: Seq<u8>|
                rscrypt_parts(format, params, base64_encode(salt), base64_encode(hash))
                    && source.spec_bytes() == #[trigger] rscrypt_text(
                    format,
                    params,
                    base64_encode(salt),
                    base64_encode(hash),
                ) implies split_fields(source.spec_bytes(), 36u8) == seq![
                    Seq::<u8>::empty(),
                    rscrypt_tag(),
                    format,
                    params,
                    base64_encode(salt),
                    base64_encode(hash),
                    Seq::<u8>::empty(),
                ] by {
                lemma_rscrypt_text_fields(format, params, base64_encode(salt), base64_encode(hash));
            }
        }
        let fields = split_bytes(source.as_bytes(), 36u8);
        let header = fields[0].len() == 0 && fields.len() >= 2 && is_rscrypt_tag(&fields[1]);
        if header {
            if fields.len() < 6 {
                return None;
            }
            let salt = decode_base64(fields[4].as_slice());
            let hash = decode_base64(fields[5].as_slice());
            if salt.is_none() || hash.is_none() {
                return None;
            }
        }
        Some(Scrypt::new(source))
    }
}

/// An end-user, as the machine knows them.
#[derive(Debug)]
pub struct Owner {
    pub id: u128,
    pub name: String,
}

impl Owner {
    /// A new owner called `name`, with a fresh id.
    pub fn new(name: &str) -> (r: Owner)
        ensures
            r.name@ == name@,
    {
        Owner { id: new_id(), name: name.to_owned() }
    }

    /// A copy of this owner.
    pub fn duplicate(&self) -> (r: Owner)
        ensures
            r.id == self.id,
            r.name@ == self.name@,
    {
        Owner { id: self.id, name: self.name.clone() }
    }
}

/// Everything one has to know about an account.
#[derive(Debug)]
pub struct Account {
    pub owner: Owner,
    pub id: u128,
    pub created: i64,
    pub funds: Money,
}

impl Account {
    /// A new account of `owner` holding `funds`, with a fresh id, created
    /// now.
    pub fn new(owner: Owner, funds: Money) -> (r: Account)
        ensures
            r.owner == owner,
            r.funds@ == funds@,
            r.created >= 0,
    {
        Account { owner, id: new_id(), created: now_micros(), funds }
    }
}

/// Serializes the stored fields of an account with `bincode::serialize`, as
/// the tuple `(owner_id, owner_name, id, created, code, funds)`. With
/// bincode's default options each integer is written little-endian over its
/// full width and each string as its length in 8 bytes followed by its UTF-8
/// bytes; with no size limit, serializing such a tuple into a vector cannot
/// fail.
#[verifier::external_body]
fn serialize_account(
    owner_id: u128,
    owner_name: &str,
    id: u128,
    created: i64,
    code: &str,
    funds: i64,
) -> (r: Vec<u8>)
    ensures
        r@ == bincode_account(owner_id, owner_name@, id, created, code@, funds),
        r@.len() == 64 + owner_name.spec_bytes().len() + code.spec_bytes().len(),
{
    match bincode::serialize(&(owner_id, owner_name, id, created, code, funds)) {
        Ok(v) => v,
        Err(_) => Vec::new(),
    }
}

/// Deserializes the stored fields of an account with `bincode::deserialize`,
/// as the tuple that `serialize_account` writes; bytes after it are left
/// unread. Bytes that start with what `serialize_account` writes for some
/// fields give those fields back.
#[verifier::external_body]
fn deserialize_account(bytes: &[u8]) -> (r: Option<(u128, String, u128, i64, String, i64)>)
    ensures
        r matches Some(f) ==> bincode_account_read(bytes@) == Some((f.0, f.1@, f.2, f.3, f.4@, f.5)),
        r is None ==> bincode_account_read(bytes@) is None,
        forall|oi: u128, on: Seq<char>, i: u128, c: i64, code: Seq<char>, fu: i64|
            #[trigger] bincode_account(oi, on, i, c, code, fu).len() <= bytes@.len() && bytes@.take(
                bincode_account(oi, on, i, c, code, fu).len() as int,
            ) == bincode_account(oi, on, i, c, code, fu) ==> r is Some && r->Some_0.0 == oi
                && r->Some_0.1@ == on && r->Some_0.2 == i && r->Some_0.3 == c && r->Some_0.4@
                == code && r->Some_0.5 == fu,
{
    match bincode::deserialize::<(u128, String, u128, i64, String, i64)>(bytes) {
        Ok(f) => Some(f),
        Err(_) => None,
    }
}

/// An account stored encrypted under its owner's password.
pub struct StoredAccount {
    pub account_u8: Vec<u8>,
    pub owner: Owner,
    pub salt: Vec<u8>,
    pub iv: Vec<u8>,
    pub id: u128,
    /// The stored fields of the account that was stored.
    pub fields: Ghost<AccountFields>,
}

impl Account {
    /// The fields of the account that are stored.
    pub open spec fn stored_fields(&self) -> AccountFields {
        (
            self.owner.id,
            self.owner.name@,
            self.id,
            self.created,
            self.funds.currency@.0,
            self.funds.amount_minor,
        )
    }
}

/// What decrypting an account stored with the salt `salt`, the
/// initialization vector `iv` and the encrypted bytes `stored` under
/// `password` gives: its fields and currency, or why they cannot be read.
pub open spec fn decrypted_account(
    password: Seq<char>,
    salt: Seq<u8>,
    iv: Seq<u8>,
    stored: Seq<u8>,
) -> Result<(AccountFields, CurrencyView), ErrorView> {
    let plain = aes_cbc_decrypt(account_key(password, salt), iv, stored, zeros(STORED_LEN as nat));
    match bincode_account_read(plain) {
        None => Err(ErrorView::UnreadableAccount),
        Some(f) => match iso_currency_with_code(f.4) {
            None => Err(ErrorView::InvalidCurrencyCode(f.4)),
            Some(c) => Ok((f, c)),
        },
    }
}

impl StoredAccount {
    /// Whether decrypting the stored bytes with the key derived from
    /// `password` gives the account's serialized bytes back at the start.
    pub open spec fn opens_with(&self, password: Seq<char>) -> bool {
        let content = account_bytes(self.fields@);
        &&& content.len() < STORED_LEN
        &&& aes_cbc_decrypt(
            account_key(password, self.salt@),
            self.iv@,
            self.account_u8@,
            zeros(STORED_LEN as nat),
        ).take(content.len() as int) == content
    }

    /// Whether the initialization vector has the 16 bytes that AES needs.
    pub open spec fn well_formed(&self) -> bool {
        self.iv@.len() == IV_LEN
    }

    /// Stores `account` encrypted under `password`: the account is
    /// serialized with `bincode`, the password is hashed with scrypt and a
    /// fresh salt, whose 32-byte hash is the key, and the bytes are encrypted
    /// with a fresh random initialization vector. `None` when no random bytes
    /// can be had. Decrypting with the same password gives the account back,
    /// when its serialized bytes fit.
    pub fn store_new(password: &str, account: Account) -> (r: Option<StoredAccount>)
        ensures
            r matches Some(s) ==> s.well_formed() && s.id == account.id && s.owner
                == account.owner && s.fields@ == account.stored_fields() && s.account_u8@.len()
                == STORED_LEN && s.salt@.len() == 16 && s.account_u8@ == aes_cbc_encrypt(
                account_key(password@, s.salt@),
                s.iv@,
                account_bytes(account.stored_fields()),
                zeros(STORED_LEN as nat),
            ),
            r matches Some(s) ==> (account_bytes_len(account.stored_fields()) < STORED_LEN
                ==> s.opens_with(password@)),
    {
        let iv = random_salt();
        let encoded = scrypt_simple(password, SCRYPT_LOG_N, SCRYPT_R, SCRYPT_P);
        StoredAccount::store_with(account, iv, encoded)
    }

    /// Stores `account` as `store_new` does, given the initialization vector
    /// `iv` and the password hash `hashed` in the Rust scrypt format (`None`:
    /// no random bytes could be had for them). The hash's salt is stored and
    /// its 32-byte hash is the key. `None` as well when the hash cannot be
    /// read, or its hash is not 32 bytes.
    pub fn store_with(account: Account, iv: Option<Vec<u8>>, hashed: Option<String>) -> (r:
        Option<StoredAccount>)
        requires
            iv matches Some(v) ==> v@.len() == IV_LEN,
        ensures
            iv is None ==> r is None,
            hashed is None ==> r is None,
            iv matches Some(v) ==> hashed matches Some(h) ==> ({
                let b = vstd::utf8::encode_utf8(h@);
                let f = split_fields(b, 36u8);
                let content = account_bytes(account.stored_fields());
                if rscrypt_header(b) && rscrypt_fields_readable(b) && base64_decode(f[5])->Some_0.len()
                    == KEY_LEN {
                    r matches Some(s) && s.id == account.id && s.owner == account.owner
                        && s.fields@ == account.stored_fields() && s.iv@ == v@ && Some(s.salt@)
                        == base64_decode(f[4]) && s.account_u8@ == aes_cbc_encrypt(
                        base64_decode(f[5])->Some_0,
                        v@,
                        content,
                        zeros(STORED_LEN as nat),
                    ) && s.account_u8@.len() == STORED_LEN && s.well_formed() && content.len()
                        == account_bytes_len(account.stored_fields()) && (content.len()
                        < STORED_LEN ==> aes_cbc_decrypt(
                        base64_decode(f[5])->Some_0,
                        v@,
                        s.account_u8@,
                        zeros(STORED_LEN as nat),
                    ).take(content.len() as int) == content)
                } else {
                    r is None
                }
            }),
    {
        let code = account.funds.currency.code();
        let serialized = serialize_account(
            account.owner.id,
            account.owner.name.as_str(),
            account.id,
            account.created,
            code.as_str(),
            account.funds.amount_minor,
        );
        let ghost fields = account.stored_fields();
        let id = account.id;
        let owner = account.owner;
        let iv = match iv {
            Some(v) => v,
            None => return None,
        };
        let encoded = match hashed {
            Some(e) => e,
            None => return None,
        };
        let scrypt = match Scrypt::try_new(encoded.as_str()) {
            Some(Ok(s)) => s,
            _ => return None,
        };
        let key = scrypt.hash;
        if key.len() != KEY_LEN {
            return None;
        }
        let mut account_u8 = zero_buffer(STORED_LEN);
        encrypt_into(key.as_slice(), iv.as_slice(), serialized.as_slice(), &mut account_u8);
        Some(
            StoredAccount {
                account_u8,
                owner,
                salt: scrypt.salt,
                iv,
                id,
                fields: Ghost(fields),
            },
        )
    }

    /// Decrypts the stored account with `password`: derives the key from the
    /// password and the stored salt, decrypts the 256 stored bytes and reads
    /// the account from them with `bincode`. Fails with `UnreadableAccount`
    /// where no account can be read from them, and with
    /// `InvalidCurrencyCode` where its currency code names no standard
    /// currency. With the password the account was stored under, it gives
    /// that account back.
    pub fn decrypt(&mut self, password: &str) -> (r: Result<Account, Error>)
        requires
            old(self).well_formed(),
        ensures
            *final(self) == *old(self),
            match decrypted_account(password@, old(self).salt@, old(self).iv@, old(self).account_u8@) {
                Ok((f, c)) => r matches Ok(a) && a.stored_fields() == f && a.funds.currency@ == c,
                Err(e) => r matches Err(x) && x@ == e,
            },
            old(self).opens_with(password@) && iso_currency_with_code(old(self).fields@.4) is Some
                ==> (r matches Ok(a) && a.stored_fields() == old(self).fields@ && Some(
                a.funds.currency@,
            ) == iso_currency_with_code(old(self).fields@.4)),
    {
        let mut key = zero_buffer(KEY_LEN);
        derive_key(password, self.salt.as_slice(), SCRYPT_LOG_N, SCRYPT_R, SCRYPT_P, &mut key);
        let mut buf = zero_buffer(STORED_LEN);
        decrypt_into(key.as_slice(), self.iv.as_slice(), self.account_u8.as_slice(), &mut buf);
        let read = deserialize_account(buf.as_slice());
        let (owner_id, owner_name, id, created, code, funds) = match read {
            Some(f) => f,
            None => return Err(Error::UnreadableAccount),
        };
        let currency = match with_code(code.as_str()) {
            Some(c) => c,
            None => return Err(Error::InvalidCurrencyCode(code)),
        };
        Ok(
            Account {
                owner: Owner { id: owner_id, name: owner_name },
                id,
                created,
                funds: Money::of_minor(currency, funds),
            },
        )
    }
}

} // verus!

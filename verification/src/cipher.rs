//! The streaming cipher of the frame pipeline: AES-128 in the CFB-8 mode
//! of operation, relied on from the aes and cfb8 crates. Both directions
//! share one 128-bit secret, which also serves as the initialisation
//! vector. Once enabled, the transform covers every byte of the stream,
//! independent of frame boundaries.

use cfb8::cipher::BlockDecryptMut;
use cfb8::cipher::BlockEncryptMut;
use cfb8::cipher::KeyIvInit;
use vstd::prelude::*;

verus! {

/// The plaintext that a CFB-8 decryptor keyed with `key` (the key also
/// serving as the initialisation vector) produces for the ciphertext
/// stream `cipher`, starting from its freshly keyed state. In CFB-8 the
/// cipher state after some bytes is a function of the key and the
/// ciphertext alone, which both directions of the pair below state their
/// behaviour through.
pub uninterp spec fn cfb8_plain_of(key: Seq<u8>, cipher: Seq<u8>) -> Seq<u8>;

/// The encrypting half of the stream cipher. Verus does not accept the
/// underlying cipher type's declaration, so the whole struct is opaque
/// and its state is reached through `enc_key` and `enc_emitted`.
#[verifier::external_body]
pub struct EncryptCipher {
    inner: cfb8::Encryptor<aes::Aes128>,
}

/// The 128-bit secret an encrypting cipher was keyed with.
pub uninterp spec fn enc_key(c: EncryptCipher) -> Seq<u8>;

/// Every ciphertext byte an encrypting cipher has emitted since keying,
/// in order.
pub uninterp spec fn enc_emitted(c: EncryptCipher) -> Seq<u8>;

/// The decrypting half of the stream cipher, opaque for the same reason,
/// reached through `dec_key` and `dec_consumed`.
#[verifier::external_body]
pub struct DecryptCipher {
    inner: cfb8::Decryptor<aes::Aes128>,
}

/// The 128-bit secret a decrypting cipher was keyed with.
pub uninterp spec fn dec_key(c: DecryptCipher) -> Seq<u8>;

/// Every ciphertext byte a decrypting cipher has consumed since keying,
/// in order.
pub uninterp spec fn dec_consumed(c: DecryptCipher) -> Seq<u8>;

impl EncryptCipher {
    /// Relies on cfb8::Encryptor::new_from_slices: a 16-byte key, with
    /// the key as initialisation vector, keys a fresh cipher, which has
    /// emitted nothing and so stands for no plaintext yet.
    #[verifier::external_body]
    pub fn new(key: &[u8; 16]) -> (c: Self)
        ensures
            enc_key(c) == key@,
            enc_emitted(c) == Seq::<u8>::empty(),
            cfb8_plain_of(enc_key(c), enc_emitted(c)) == enc_emitted(c),
    {
        EncryptCipher {
            inner: cfb8::Encryptor::new_from_slices(key, key).expect("a 16-byte key and IV fit"),
        }
    }

    /// Relies on cfb8::Encryptor::encrypt_block_mut, whose block is one
    /// byte: the emitted byte is exactly what a decryptor keyed alike,
    /// having consumed the ciphertext emitted so far, turns back into the
    /// plaintext byte.
    #[verifier::external_body]
    pub fn encrypt_byte(&mut self, b: u8) -> (c: u8)
        ensures
            enc_key(*final(self)) == enc_key(*old(self)),
            enc_emitted(*final(self)) == enc_emitted(*old(self)).push(c),
            cfb8_plain_of(enc_key(*old(self)), enc_emitted(*old(self)).push(c)) == cfb8_plain_of(
                enc_key(*old(self)),
                enc_emitted(*old(self)),
            ).push(b),
    {
        let mut block = [b];
        self.inner.encrypt_block_mut(
            cfb8::cipher::generic_array::GenericArray::from_mut_slice(&mut block[..]),
        );
        block[0]
    }
}

impl DecryptCipher {
    /// Relies on cfb8::Decryptor::new_from_slices: a 16-byte key, with
    /// the key as initialisation vector, keys a fresh cipher, which has
    /// consumed nothing and so stands for no plaintext yet.
    #[verifier::external_body]
    pub fn new(key: &[u8; 16]) -> (c: Self)
        ensures
            dec_key(c) == key@,
            dec_consumed(c) == Seq::<u8>::empty(),
            cfb8_plain_of(dec_key(c), dec_consumed(c)) == dec_consumed(c),
    {
        DecryptCipher {
            inner: cfb8::Decryptor::new_from_slices(key, key).expect("a 16-byte key and IV fit"),
        }
    }

    /// Relies on cfb8::Decryptor::decrypt_block_mut, whose block is one
    /// byte: consuming one more ciphertext byte extends the decrypted
    /// stream by exactly the returned plaintext byte.
    #[verifier::external_body]
    pub fn decrypt_byte(&mut self, c: u8) -> (p: u8)
        ensures
            dec_key(*final(self)) == dec_key(*old(self)),
            dec_consumed(*final(self)) == dec_consumed(*old(self)).push(c),
            cfb8_plain_of(dec_key(*old(self)), dec_consumed(*old(self)).push(c)) == cfb8_plain_of(
                dec_key(*old(self)),
                dec_consumed(*old(self)),
            ).push(p),
    {
        let mut block = [c];
        self.inner.decrypt_block_mut(
            cfb8::cipher::generic_array::GenericArray::from_mut_slice(&mut block[..]),
        );
        block[0]
    }
}

/// Encrypts all of `data` in order, continuing the cipher's stream.
#[verifier::loop_isolation(false)]
pub(crate) fn encrypt_slice(c: &mut EncryptCipher, data: &[u8]) -> (out: Vec<u8>)
    ensures
        out@.len() == data@.len(),
        enc_key(*final(c)) == enc_key(*old(c)),
        enc_emitted(*final(c)) == enc_emitted(*old(c)) + out@,
        cfb8_plain_of(enc_key(*old(c)), enc_emitted(*old(c)) + out@) == cfb8_plain_of(
            enc_key(*old(c)),
            enc_emitted(*old(c)),
        ) + data@,
{
    let mut out: Vec<u8> = Vec::new();
    let mut i: usize = 0;
    while i < data.len()
        invariant
            i <= data@.len(),
            out@.len() == i,
            enc_key(*c) == enc_key(*old(c)),
            enc_emitted(*c) == enc_emitted(*old(c)) + out@,
            cfb8_plain_of(enc_key(*c), enc_emitted(*c)) == cfb8_plain_of(
                enc_key(*old(c)),
                enc_emitted(*old(c)),
            ) + data@.take(i as int),
        decreases data@.len() - i,
    {
        let cb = c.encrypt_byte(data[i]);
        out.push(cb);
        proof {
            assert(enc_emitted(*old(c)) + out@ =~= (enc_emitted(*old(c)) + out@.drop_last()).push(
                cb,
            ));
            assert(data@.take(i as int + 1) =~= data@.take(i as int).push(data@[i as int]));
            assert((cfb8_plain_of(enc_key(*old(c)), enc_emitted(*old(c))) + data@.take(
                i as int,
            )).push(data@[i as int]) =~= cfb8_plain_of(enc_key(*old(c)), enc_emitted(*old(c)))
                + data@.take(i as int + 1));
        }
        i = i + 1;
    }
    proof {
        assert(data@.take(data@.len() as int) =~= data@);
    }
    out
}

/// Decrypts all of `data` in order, continuing the cipher's stream.
#[verifier::loop_isolation(false)]
pub(crate) fn decrypt_slice(c: &mut DecryptCipher, data: &[u8]) -> (out: Vec<u8>)
    ensures
        out@.len() == data@.len(),
        dec_key(*final(c)) == dec_key(*old(c)),
        dec_consumed(*final(c)) == dec_consumed(*old(c)) + data@,
        cfb8_plain_of(dec_key(*old(c)), dec_consumed(*old(c)) + data@) == cfb8_plain_of(
            dec_key(*old(c)),
            dec_consumed(*old(c)),
        ) + out@,
{
    let mut out: Vec<u8> = Vec::new();
    let mut i: usize = 0;
    while i < data.len()
        invariant
            i <= data@.len(),
            out@.len() == i,
            dec_key(*c) == dec_key(*old(c)),
            dec_consumed(*c) == dec_consumed(*old(c)) + data@.take(i as int),
            cfb8_plain_of(dec_key(*c), dec_consumed(*c)) == cfb8_plain_of(
                dec_key(*old(c)),
                dec_consumed(*old(c)),
            ) + out@,
        decreases data@.len() - i,
    {
        let p = c.decrypt_byte(data[i]);
        out.push(p);
        proof {
            assert(dec_consumed(*old(c)) + data@.take(i as int + 1) =~= (dec_consumed(*old(c))
                + data@.take(i as int)).push(data@[i as int]));
            assert((cfb8_plain_of(dec_key(*old(c)), dec_consumed(*old(c))) + out@.drop_last()).push(
                p,
            ) =~= cfb8_plain_of(dec_key(*old(c)), dec_consumed(*old(c))) + out@);
        }
        i = i + 1;
    }
    proof {
        assert(data@.take(data@.len() as int) =~= data@);
    }
    out
}

} // verus!

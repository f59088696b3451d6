//! Domain scalar types: unsigned 128-bit amounts and fixed 32-byte asset
//! identifiers, together with their canonical little-endian byte encodings.

use vstd::prelude::*;

verus! {

/// The value of a little-endian byte sequence: `s[0] + 256*s[1] + ...`.
pub open spec fn le_val(s: Seq<u8>) -> nat
    decreases s.len(),
{
    if s.len() == 0 {
        0
    } else {
        (s.first() + 256 * le_val(s.drop_first())) as nat
    }
}

/// `256^n`, the weight of the `n`-th little-endian byte.
pub open spec fn pow256(n: nat) -> nat
    decreases n,
{
    if n == 0 {
        1
    } else {
        256 * pow256((n - 1) as nat)
    }
}

/// Appending a byte adds it at the next power-of-256 weight.
pub proof fn lemma_le_val_push(s: Seq<u8>, b: u8)
    ensures
        le_val(s.push(b)) == le_val(s) + b * pow256(s.len()),
    decreases s.len(),
{
    if s.len() == 0 {
        assert(s.push(b).first() == b);
        assert(s.push(b).drop_first() =~= Seq::<u8>::empty());
        assert(le_val(Seq::<u8>::empty()) == 0);
        assert(pow256(0) == 1);
    } else {
        assert(s.push(b).first() == s.first());
        assert(s.push(b).drop_first() =~= s.drop_first().push(b));
        assert(pow256(s.len()) == 256 * pow256((s.len() - 1) as nat));
        lemma_le_val_push(s.drop_first(), b);
        assert(le_val(s.push(b)) == s.first() + 256 * (le_val(s.drop_first()) + b * pow256(
            (s.len() - 1) as nat,
        )));
        assert(256 * (le_val(s.drop_first()) + b * pow256((s.len() - 1) as nat)) == 256 * le_val(
            s.drop_first(),
        ) + b * (256 * pow256((s.len() - 1) as nat))) by (nonlinear_arith);
        assert(b * (256 * pow256((s.len() - 1) as nat)) == b * pow256(s.len()))
            by (nonlinear_arith)
            requires
                pow256(s.len()) == 256 * pow256((s.len() - 1) as nat),
        ;
        assert(le_val(s) == s.first() + 256 * le_val(s.drop_first()));
        assert(le_val(s.push(b)) == le_val(s) + b * pow256(s.len()));
    }
}

/// A byte sequence splits at any index `k` into its low `k` bytes plus the
/// rest weighted by `256^k`.
pub proof fn lemma_le_val_split(s: Seq<u8>, k: int)
    requires
        0 <= k <= s.len(),
    ensures
        le_val(s) == le_val(s.subrange(0, k)) + le_val(s.subrange(k, s.len() as int)) * pow256(
            k as nat,
        ),
    decreases k,
{
    if k == 0 {
        assert(s.subrange(0, 0) =~= Seq::<u8>::empty());
        assert(s.subrange(0, s.len() as int) =~= s);
        assert(le_val(Seq::<u8>::empty()) == 0);
        assert(pow256(0) == 1);
        assert(le_val(s.subrange(0, k)) == 0);
        assert(le_val(s.subrange(k, s.len() as int)) == le_val(s));
        assert(pow256(k as nat) == 1);
        assert(le_val(s) * 1 == le_val(s));
        assert(le_val(s) == le_val(s.subrange(0, k)) + le_val(s.subrange(k, s.len() as int))
            * pow256(k as nat));
    } else {
        lemma_le_val_split(s.drop_first(), k - 1);
        assert(s.subrange(0, k).first() == s.first());
        assert(s.subrange(0, k).drop_first() =~= s.drop_first().subrange(0, k - 1));
        assert(s.subrange(k, s.len() as int) =~= s.drop_first().subrange(
            k - 1,
            s.drop_first().len() as int,
        ));
        let rest = le_val(s.subrange(k, s.len() as int));
        assert(le_val(s) == s.first() + 256 * (le_val(s.drop_first().subrange(0, k - 1)) + rest
            * pow256((k - 1) as nat)));
        assert(256 * (le_val(s.drop_first().subrange(0, k - 1)) + rest * pow256((k - 1) as nat))
            == 256 * le_val(s.drop_first().subrange(0, k - 1)) + rest * (256 * pow256(
            (k - 1) as nat,
        ))) by (nonlinear_arith);
        assert(pow256(k as nat) == 256 * pow256((k - 1) as nat));
        assert(rest * (256 * pow256((k - 1) as nat)) == rest * pow256(k as nat))
            by (nonlinear_arith)
            requires
                pow256(k as nat) == 256 * pow256((k - 1) as nat),
        ;
        assert(le_val(s.subrange(0, k)) == s.first() + 256 * le_val(s.drop_first().subrange(
            0,
            k - 1,
        )));
        assert(le_val(s) == le_val(s.subrange(0, k)) + le_val(s.subrange(k, s.len() as int))
            * pow256(k as nat));
    }
}

/// An unsigned 128-bit amount. Its canonical relational encoding is a
/// 16-byte little-endian buffer.
#[derive(Clone, Copy, Debug, PartialEq, Eq, Structural)]
pub struct Amount {
    value: u128,
}

impl View for Amount {
    type V = nat;

    closed spec fn view(&self) -> nat {
        self.value as nat
    }
}

impl Amount {
    /// Construct an amount from its numeric value.
    pub fn from_u128(value: u128) -> (r: Amount)
        ensures
            r@ == value as nat,
    {
        Amount { value }
    }

    /// The numeric value of this amount.
    pub fn value(&self) -> (r: u128)
        ensures
            r as nat == self@,
    {
        self.value
    }

    /// Checked subtraction: `Some(self - other)` exactly when no underflow
    /// occurs.
    pub fn checked_sub(&self, other: &Amount) -> (r: Option<Amount>)
        ensures
            self@ >= other@ ==> (r matches Some(d) && d@ == self@ - other@),
            self@ < other@ ==> r is None,
    {
        if self.value >= other.value {
            Some(Amount { value: self.value - other.value })
        } else {
            None
        }
    }

    /// Every amount fits in exactly 16 little-endian bytes.
    pub fn to_le_bytes(&self) -> (r: Vec<u8>)
        ensures
            r@.len() == 16,
            le_val(r@) == self@,
    {
        let mut bytes: Vec<u8> = Vec::new();
        let mut v: u128 = self.value;
        let mut i: usize = 0;
        proof {
            reveal_with_fuel(pow256, 17);
            assert(pow256(16) == 0x100000000000000000000000000000000);
            assert(bytes@ =~= Seq::<u8>::empty());
            assert(pow256(0) == 1);
        }
        while i < 16
            invariant
                i <= 16,
                bytes@.len() == i,
                le_val(bytes@) + v * pow256(i as nat) == self@,
                v < pow256((16 - i) as nat),
                pow256(16) == 0x100000000000000000000000000000000,
            decreases 16 - i,
        {
            let b: u8 = (v % 256) as u8;
            proof {
                lemma_le_val_push(bytes@, b);
                assert(pow256((i + 1) as nat) == 256 * pow256(i as nat));
                assert(pow256((16 - i) as nat) == 256 * pow256((16 - i - 1) as nat));
                assert(v == 256 * (v / 256) + (v % 256)) by (nonlinear_arith);
                assert((v / 256) * pow256((i + 1) as nat) == (256 * (v / 256)) * pow256(i as nat))
                    by (nonlinear_arith)
                    requires
                        pow256((i + 1) as nat) == 256 * pow256(i as nat),
                ;
                assert((256 * (v / 256) + (v % 256)) * pow256(i as nat) == (256 * (v / 256))
                    * pow256(i as nat) + (v % 256) * pow256(i as nat)) by (nonlinear_arith);
                assert(v / 256 < pow256((16 - i - 1) as nat)) by (nonlinear_arith)
                    requires
                        v < pow256((16 - i) as nat),
                        pow256((16 - i) as nat) == 256 * pow256((16 - i - 1) as nat),
                ;
            }
            bytes.push(b);
            v = v / 256;
            i = i + 1;
        }
        bytes
    }

    /// Reads a little-endian buffer of any length; returns the amount it
    /// denotes exactly when that value fits in 128 bits.
    pub fn from_le_bytes_checked(bytes: &Vec<u8>) -> (r: Option<Amount>)
        ensures
            le_val(bytes@) < pow256(16) ==> (r matches Some(a) && a@ == le_val(bytes@)),
            le_val(bytes@) >= pow256(16) ==> r is None,
    {
        let n = bytes.len();
        let mut acc: u128 = 0;
        let mut j: usize = n;
        proof {
            reveal_with_fuel(pow256, 17);
            assert(pow256(16) == 0x100000000000000000000000000000000);
            assert(bytes@.subrange(n as int, n as int) =~= Seq::<u8>::empty());
        }
        while j > 0
            invariant
                j <= n,
                n == bytes@.len(),
                acc as nat == le_val(bytes@.subrange(j as int, n as int)),
                pow256(16) == 0x100000000000000000000000000000000,
            decreases j,
        {
            let b = bytes[j - 1];
            proof {
                assert(bytes@.subrange(j - 1, n as int).first() == bytes@[j - 1]);
                assert(bytes@.subrange(j - 1, n as int).drop_first() =~= bytes@.subrange(
                    j as int,
                    n as int,
                ));
            }
            if acc > (u128::MAX - b as u128) / 256 {
                proof {
                    let high = bytes@.subrange(j - 1, n as int);
                    assert(le_val(high) == b + 256 * (acc as nat));
                    assert(b + 256 * (acc as nat) >= pow256(16)) by (nonlinear_arith)
                        requires
                            acc as nat > ((u128::MAX - b as u128) / 256) as nat,
                            b < 256,
                            pow256(16) == 0x100000000000000000000000000000000,
                    ;
                    lemma_le_val_split(bytes@, j - 1);
                    lemma_pow256_positive((j - 1) as nat);
                    assert(le_val(high) * pow256((j - 1) as nat) >= le_val(high))
                        by (nonlinear_arith)
                        requires
                            pow256((j - 1) as nat) >= 1,
                    ;
                }
                return None;
            }
            proof {
                assert(acc as nat * 256 + b <= u128::MAX) by (nonlinear_arith)
                    requires
                        acc as nat <= ((u128::MAX - b as u128) / 256) as nat,
                        b < 256,
                ;
            }
            acc = acc * 256 + b as u128;
            j = j - 1;
        }
        proof {
            assert(bytes@.subrange(0, n as int) =~= bytes@);
        }
        Some(Amount { value: acc })
    }
}

/// Powers of 256 are positive.
pub proof fn lemma_pow256_positive(n: nat)
    ensures
        pow256(n) >= 1,
    decreases n,
{
    if n > 0 {
        lemma_pow256_positive((n - 1) as nat);
    }
}

/// An owned copy of a byte buffer.
pub fn copy_bytes(v: &Vec<u8>) -> (r: Vec<u8>)
    ensures
        r@ == v@,
{
    let n = v.len();
    let mut out: Vec<u8> = Vec::new();
    let mut i: usize = 0;
    proof {
        assert(out@ =~= v@.subrange(0, 0));
    }
    while i < n
        invariant
            i <= n,
            n == v@.len(),
            out@ == v@.subrange(0, i as int),
        decreases n - i,
    {
        let b = v[i];
        out.push(b);
        proof {
            assert(v@.subrange(0, i + 1) =~= v@.subrange(0, i as int).push(b));
        }
        i = i + 1;
    }
    proof {
        assert(v@.subrange(0, n as int) =~= v@);
    }
    out
}

/// An opaque fixed 32-byte asset identifier.
#[derive(Debug, PartialEq, Eq)]
pub struct AssetId {
    bytes: Vec<u8>,
}

impl Clone for AssetId {
    /// Cloning an identifier keeps its bytes.
    fn clone(&self) -> (r: Self)
        ensures
            r@ == self@,
    {
        AssetId { bytes: self.to_bytes_owned() }
    }
}

impl View for AssetId {
    type V = Seq<u8>;

    closed spec fn view(&self) -> Seq<u8> {
        self.bytes@
    }
}

impl AssetId {
    /// Every identifier is exactly 32 bytes long.
    #[verifier::type_invariant]
    spec fn wf(&self) -> bool {
        self.bytes@.len() == 32
    }

    /// Accepts exactly the byte strings of length 32.
    pub fn try_from_bytes(bytes: Vec<u8>) -> (r: Option<AssetId>)
        ensures
            bytes@.len() == 32 ==> (r matches Some(id) && id@ == bytes@),
            bytes@.len() != 32 ==> r is None,
    {
        if bytes.len() == 32 {
            Some(AssetId { bytes })
        } else {
            None
        }
    }

    /// The 32 raw bytes of the identifier. Constructed identifiers are
    /// always exactly 32 bytes, so the returned buffer is too.
    pub fn to_bytes(&self) -> (r: &Vec<u8>)
        ensures
            r@ == self@,
            r@.len() == 32,
    {
        proof {
            use_type_invariant(self);
        }
        &self.bytes
    }

    /// An owned copy of the identifier's 32 bytes.
    pub fn to_bytes_owned(&self) -> (r: Vec<u8>)
        ensures
            r@ == self@,
            r@.len() == 32,
    {
        proof {
            use_type_invariant(self);
        }
        let n = self.bytes.len();
        let mut out: Vec<u8> = Vec::new();
        let mut i: usize = 0;
        proof {
            assert(out@ =~= self.bytes@.subrange(0, 0));
        }
        while i < n
            invariant
                i <= n,
                n == self.bytes@.len(),
                out@ == self.bytes@.subrange(0, i as int),
            decreases n - i,
        {
            let b = self.bytes[i];
            out.push(b);
            proof {
                assert(self.bytes@.subrange(0, i + 1) =~= self.bytes@.subrange(0, i as int).push(
                    b,
                ));
            }
            i = i + 1;
        }
        proof {
            assert(self.bytes@.subrange(0, n as int) =~= self.bytes@);
        }
        out
    }
}

} // verus!

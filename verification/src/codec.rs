//! The on-wire encoding of the IVC proof: a fixed-order, canonical,
//! little-endian byte layout.  A header of nine counters (the step count
//! and the eight vector lengths) is followed by the field elements and
//! points as fixed 32-byte blocks.  The writer is proved to emit exactly
//! the canonical encoding of the proof's model; the reader is proved to
//! accept a byte string if and only if it is, in full, the canonical
//! encoding of some proof, and then to return that proof.

use vstd::prelude::*;

use crate::curve::{g1_block, g1_val, G1};
use crate::field::{fr_block, fr_from_le_bytes, fr_nat, fr_to_le_bytes, Fr};
use crate::ivc::IVCProof;
use crate::linalg::vals;
use crate::nova::{CommittedInstance, Witness};
use crate::Error;

verus! {

/// The little-endian encoding of a number into `k` bytes.
pub open spec fn le_bytes(n: nat, k: nat) -> Seq<u8>
    decreases k,
{
    if k == 0 {
        Seq::<u8>::empty()
    } else {
        seq![(n % 256) as u8] + le_bytes(n / 256, (k - 1) as nat)
    }
}

/// The 8-byte little-endian encoding of a length or counter.
pub open spec fn u64_bytes(n: nat) -> Seq<u8> {
    le_bytes(n, 8)
}

/// The number a little-endian byte string denotes.
pub open spec fn le_val(b: Seq<u8>) -> nat
    decreases b.len(),
{
    if b.len() == 0 {
        0
    } else {
        b[0] as nat + 256 * le_val(b.drop_first())
    }
}

/// 256^k.
pub open spec fn pow256(k: nat) -> nat
    decreases k,
{
    if k == 0 {
        1
    } else {
        256 * pow256((k - 1) as nat)
    }
}

/// The concatenated canonical encodings of a sequence of field
/// elements, 32 bytes each.
pub open spec fn frs_bytes(s: Seq<nat>) -> Seq<u8>
    decreases s.len(),
{
    if s.len() == 0 {
        Seq::<u8>::empty()
    } else {
        frs_bytes(s.drop_last()) + fr_block(s.last())
    }
}

/// The header: the step counter and the eight vector lengths.
pub open spec fn header_bytes(p: IVCProof) -> Seq<u8> {
    u64_bytes(p.i as nat) + u64_bytes(p.z_0@.len()) + u64_bytes(p.z_i@.len()) + u64_bytes(
        p.W_i.E@.len(),
    ) + u64_bytes(p.W_i.W@.len()) + u64_bytes(p.U_i.x@.len()) + u64_bytes(p.w_i.E@.len())
        + u64_bytes(p.w_i.W@.len()) + u64_bytes(p.u_i.x@.len())
}

/// The encoding of a witness: E, rE, W, rW.
pub open spec fn witness_bytes(w: Witness) -> Seq<u8> {
    frs_bytes(vals(w.E@)) + fr_block(fr_nat(w.rE)) + frs_bytes(vals(w.W@)) + fr_block(
        fr_nat(w.rW),
    )
}

/// The encoding of a committed instance: cmE, u, cmW, x.
pub open spec fn instance_bytes(ci: CommittedInstance) -> Seq<u8> {
    g1_block(g1_val(ci.cmE)) + fr_block(fr_nat(ci.u)) + g1_block(g1_val(ci.cmW)) + frs_bytes(
        vals(ci.x@),
    )
}

/// The canonical encoding of an IVC proof: the header, the two states,
/// the running pair, then the incoming pair.
pub open spec fn ivc_proof_bytes(p: IVCProof) -> Seq<u8> {
    header_bytes(p) + frs_bytes(vals(p.z_0@)) + frs_bytes(vals(p.z_i@)) + witness_bytes(p.W_i)
        + instance_bytes(p.U_i) + witness_bytes(p.w_i) + instance_bytes(p.u_i)
}

/// The little-endian encoding of k bytes has length k.
proof fn lemma_le_bytes_len(n: nat, k: nat)
    ensures
        le_bytes(n, k).len() == k,
    decreases k,
{
    if k > 0 {
        lemma_le_bytes_len(n / 256, (k - 1) as nat);
    }
}

/// A byte string denotes a number below 256 to its length.
proof fn lemma_le_val_bound(b: Seq<u8>)
    ensures
        le_val(b) < pow256(b.len()),
    decreases b.len(),
{
    if b.len() > 0 {
        lemma_le_val_bound(b.drop_first());
    }
}

/// Encoding the number a byte string denotes gives the string back.
proof fn lemma_le_bytes_of_val(b: Seq<u8>)
    ensures
        le_bytes(le_val(b), b.len()) == b,
    decreases b.len(),
{
    if b.len() > 0 {
        lemma_le_bytes_of_val(b.drop_first());
        let t = le_val(b.drop_first());
        let v = le_val(b);
        assert(v == b[0] + 256 * t);
        vstd::arithmetic::div_mod::lemma_mod_multiples_vanish(t as int, b[0] as int, 256);
        vstd::arithmetic::div_mod::lemma_small_mod(b[0] as nat, 256);
        vstd::arithmetic::div_mod::lemma_fundamental_div_mod_converse(
            v as int,
            256,
            t as int,
            b[0] as int,
        );
        assert(le_bytes(v, b.len()) =~= seq![(v % 256) as u8] + le_bytes(v / 256, (b.len()
            - 1) as nat));
        assert(le_bytes(v, b.len()) =~= b);
    } else {
        assert(le_bytes(0, 0) =~= b);
    }
}

/// The counter encoding is injective below 2^64.
proof fn lemma_u64_bytes_injective(a: nat, bn: nat)
    requires
        a < pow256(8),
        bn < pow256(8),
        u64_bytes(a) == u64_bytes(bn),
    ensures
        a == bn,
{
    lemma_le_val_le_bytes(a, 8);
    lemma_le_val_le_bytes(bn, 8);
}

/// Decoding the encoding of a number below 256^k gives the number back.
proof fn lemma_le_val_le_bytes(n: nat, k: nat)
    requires
        n < pow256(k),
    ensures
        le_val(le_bytes(n, k)) == n,
    decreases k,
{
    if k > 0 {
        assert(n / 256 < pow256((k - 1) as nat)) by (nonlinear_arith)
            requires
                n < pow256(k),
                pow256(k) == 256 * pow256((k - 1) as nat),
        ;
        lemma_le_val_le_bytes(n / 256, (k - 1) as nat);
        assert(le_bytes(n, k).drop_first() =~= le_bytes(n / 256, (k - 1) as nat));
        vstd::arithmetic::div_mod::lemma_fundamental_div_mod(n as int, 256);
    }
}

/// 256^a is at most 256^b for a at most b.
proof fn lemma_pow256_le(a: nat, b: nat)
    requires
        a <= b,
    ensures
        pow256(a) <= pow256(b),
    decreases b,
{
    if a < b {
        lemma_pow256_le(a, (b - 1) as nat);
    }
}

/// The element encoding of a sequence has 32 bytes per element.
proof fn lemma_frs_len(s: Seq<nat>)
    ensures
        frs_bytes(s).len() == 32 * s.len(),
    decreases s.len(),
{
    if s.len() > 0 {
        lemma_frs_len(s.drop_last());
    }
}

/// The k-th 32-byte window of an element encoding is the k-th element's
/// block.
proof fn lemma_frs_index(s: Seq<nat>, k: int)
    requires
        0 <= k < s.len(),
    ensures
        frs_bytes(s).subrange(32 * k, 32 * k + 32) == fr_block(s[k]),
    decreases s.len(),
{
    lemma_frs_len(s);
    lemma_frs_len(s.drop_last());
    if k == s.len() - 1 {
        assert(frs_bytes(s).subrange(32 * k, 32 * k + 32) =~= fr_block(s.last()));
    } else {
        lemma_frs_index(s.drop_last(), k);
        assert(frs_bytes(s).subrange(32 * k, 32 * k + 32) =~= frs_bytes(s.drop_last()).subrange(
            32 * k,
            32 * k + 32,
        ));
    }
}

/// Appends the entries of `src` to `dst`.
fn append_bytes(dst: &mut Vec<u8>, src: &Vec<u8>)
    ensures
        final(dst)@ == old(dst)@ + src@,
{
    for i in 0..src.len()
        invariant
            dst@ =~= old(dst)@ + src@.take(i as int),
    {
        dst.push(src[i]);
    }
    proof {
        assert(dst@ =~= old(dst)@ + src@);
    }
}

/// Writes a counter as 8 little-endian bytes.
pub(crate) fn write_u64(out: &mut Vec<u8>, n: u64)
    ensures
        final(out)@ == old(out)@ + u64_bytes(n as nat),
{
    let mut cur = n;
    let mut k: usize = 0;
    while k < 8
        invariant
            k <= 8,
            u64_bytes(n as nat) =~= out@.skip(old(out)@.len() as int) + le_bytes(
                cur as nat,
                (8 - k) as nat,
            ),
            out@.len() == old(out)@.len() + k,
            out@.take(old(out)@.len() as int) =~= old(out)@,
        decreases 8 - k,
    {
        out.push((cur % 256) as u8);
        cur = cur / 256;
        k += 1;
    }
    proof {
        assert(le_bytes(cur as nat, 0) =~= Seq::<u8>::empty());
        assert(out@ =~= old(out)@ + u64_bytes(n as nat));
    }
}

/// Writes the blocks of a vector of field elements, in order.
fn write_frs(out: &mut Vec<u8>, s: &Vec<Fr>)
    ensures
        final(out)@ == old(out)@ + frs_bytes(vals(s@)),
{
    for k in 0..s.len()
        invariant
            out@ =~= old(out)@ + frs_bytes(vals(s@).take(k as int)),
    {
        let b = fr_to_le_bytes(&s[k]);
        append_bytes(out, &b);
        proof {
            assert(vals(s@).take(k + 1).drop_last() =~= vals(s@).take(k as int));
            assert(vals(s@).take(k + 1).last() == fr_nat(s@[k as int]));
        }
    }
    proof {
        assert(vals(s@).take(s@.len() as int) =~= vals(s@));
        assert(out@ =~= old(out)@ + frs_bytes(vals(s@)));
    }
}

/// Writes a witness.
fn write_witness(out: &mut Vec<u8>, w: &Witness)
    ensures
        final(out)@ == old(out)@ + witness_bytes(*w),
{
    write_frs(out, &w.E);
    let re = fr_to_le_bytes(&w.rE);
    append_bytes(out, &re);
    write_frs(out, &w.W);
    let rw = fr_to_le_bytes(&w.rW);
    append_bytes(out, &rw);
    proof {
        assert(out@ =~= old(out)@ + witness_bytes(*w));
    }
}

/// Writes a committed instance.
fn write_instance(out: &mut Vec<u8>, ci: &CommittedInstance)
    ensures
        final(out)@ == old(out)@ + instance_bytes(*ci),
{
    let cme = ci.cmE.to_bytes();
    append_bytes(out, &cme);
    let u = fr_to_le_bytes(&ci.u);
    append_bytes(out, &u);
    let cmw = ci.cmW.to_bytes();
    append_bytes(out, &cmw);
    write_frs(out, &ci.x);
    proof {
        assert(out@ =~= old(out)@ + instance_bytes(*ci));
    }
}

/// Serializes an IVC proof into its canonical byte encoding.
pub fn serialize_ivc_proof(p: &IVCProof) -> (r: Vec<u8>)
    ensures
        r@ == ivc_proof_bytes(*p),
{
    let mut out: Vec<u8> = Vec::new();
    write_u64(&mut out, p.i);
    write_u64(&mut out, p.z_0.len() as u64);
    write_u64(&mut out, p.z_i.len() as u64);
    write_u64(&mut out, p.W_i.E.len() as u64);
    write_u64(&mut out, p.W_i.W.len() as u64);
    write_u64(&mut out, p.U_i.x.len() as u64);
    write_u64(&mut out, p.w_i.E.len() as u64);
    write_u64(&mut out, p.w_i.W.len() as u64);
    write_u64(&mut out, p.u_i.x.len() as u64);
    proof {
        assert(out@ =~= header_bytes(*p));
    }
    write_frs(&mut out, &p.z_0);
    write_frs(&mut out, &p.z_i);
    write_witness(&mut out, &p.W_i);
    write_instance(&mut out, &p.U_i);
    write_witness(&mut out, &p.w_i);
    write_instance(&mut out, &p.u_i);
    proof {
        assert(out@ =~= ivc_proof_bytes(*p));
    }
    out
}

/// The byte length of a proof's encoding.
pub open spec fn ipb_total(p: IVCProof) -> int {
    392 + 32 * (p.z_0@.len() + p.z_i@.len() + p.W_i.E@.len() + p.W_i.W@.len() + p.U_i.x@.len()
        + p.w_i.E@.len() + p.w_i.W@.len() + p.u_i.x@.len()) as int
}

/// The payload offsets of the components of a proof's encoding.
pub open spec fn off_z0(p: IVCProof) -> int {
    72
}

/// Offset of the current state.
pub open spec fn off_zi(p: IVCProof) -> int {
    off_z0(p) + 32 * p.z_0@.len() as int
}

/// Offset of the running witness's error vector.
pub open spec fn off_we(p: IVCProof) -> int {
    off_zi(p) + 32 * p.z_i@.len() as int
}

/// Offset of the running witness's rE.
pub open spec fn off_wre(p: IVCProof) -> int {
    off_we(p) + 32 * p.W_i.E@.len() as int
}

/// Offset of the running witness's W vector.
pub open spec fn off_ww(p: IVCProof) -> int {
    off_wre(p) + 32
}

/// Offset of the running witness's rW.
pub open spec fn off_wrw(p: IVCProof) -> int {
    off_ww(p) + 32 * p.W_i.W@.len() as int
}

/// Offset of the running instance's cmE.
pub open spec fn off_ucme(p: IVCProof) -> int {
    off_wrw(p) + 32
}

/// Offset of the running instance's u.
pub open spec fn off_uu(p: IVCProof) -> int {
    off_ucme(p) + 32
}

/// Offset of the running instance's cmW.
pub open spec fn off_ucmw(p: IVCProof) -> int {
    off_uu(p) + 32
}

/// Offset of the running instance's x vector.
pub open spec fn off_ux(p: IVCProof) -> int {
    off_ucmw(p) + 32
}

/// Offset of the incoming witness's error vector.
pub open spec fn off_we2(p: IVCProof) -> int {
    off_ux(p) + 32 * p.U_i.x@.len() as int
}

/// Offset of the incoming witness's rE.
pub open spec fn off_wre2(p: IVCProof) -> int {
    off_we2(p) + 32 * p.w_i.E@.len() as int
}

/// Offset of the incoming witness's W vector.
pub open spec fn off_ww2(p: IVCProof) -> int {
    off_wre2(p) + 32
}

/// Offset of the incoming witness's rW.
pub open spec fn off_wrw2(p: IVCProof) -> int {
    off_ww2(p) + 32 * p.w_i.W@.len() as int
}

/// Offset of the incoming instance's cmE.
pub open spec fn off_icme(p: IVCProof) -> int {
    off_wrw2(p) + 32
}

/// Offset of the incoming instance's u.
pub open spec fn off_iu(p: IVCProof) -> int {
    off_icme(p) + 32
}

/// Offset of the incoming instance's cmW.
pub open spec fn off_icmw(p: IVCProof) -> int {
    off_iu(p) + 32
}

/// Offset of the incoming instance's x vector.
pub open spec fn off_ix(p: IVCProof) -> int {
    off_icmw(p) + 32
}

/// How a proof's encoding decomposes: the header counters at their fixed
/// windows and each payload component at its offset.
#[verifier::rlimit(100)]
proof fn lemma_ipb_parts(p: IVCProof)
    ensures
        ivc_proof_bytes(p).len() == ipb_total(p),
        ivc_proof_bytes(p).subrange(0, 8) == u64_bytes(p.i as nat),
        ivc_proof_bytes(p).subrange(8, 16) == u64_bytes(p.z_0@.len()),
        ivc_proof_bytes(p).subrange(16, 24) == u64_bytes(p.z_i@.len()),
        ivc_proof_bytes(p).subrange(24, 32) == u64_bytes(p.W_i.E@.len()),
        ivc_proof_bytes(p).subrange(32, 40) == u64_bytes(p.W_i.W@.len()),
        ivc_proof_bytes(p).subrange(40, 48) == u64_bytes(p.U_i.x@.len()),
        ivc_proof_bytes(p).subrange(48, 56) == u64_bytes(p.w_i.E@.len()),
        ivc_proof_bytes(p).subrange(56, 64) == u64_bytes(p.w_i.W@.len()),
        ivc_proof_bytes(p).subrange(64, 72) == u64_bytes(p.u_i.x@.len()),
        ivc_proof_bytes(p).subrange(off_z0(p), off_zi(p)) == frs_bytes(vals(p.z_0@)),
        ivc_proof_bytes(p).subrange(off_zi(p), off_we(p)) == frs_bytes(vals(p.z_i@)),
        ivc_proof_bytes(p).subrange(off_we(p), off_wre(p)) == frs_bytes(vals(p.W_i.E@)),
        ivc_proof_bytes(p).subrange(off_wre(p), off_ww(p)) == fr_block(fr_nat(p.W_i.rE)),
        ivc_proof_bytes(p).subrange(off_ww(p), off_wrw(p)) == frs_bytes(vals(p.W_i.W@)),
        ivc_proof_bytes(p).subrange(off_wrw(p), off_ucme(p)) == fr_block(fr_nat(p.W_i.rW)),
        ivc_proof_bytes(p).subrange(off_ucme(p), off_uu(p)) == g1_block(g1_val(p.U_i.cmE)),
        ivc_proof_bytes(p).subrange(off_uu(p), off_ucmw(p)) == fr_block(fr_nat(p.U_i.u)),
        ivc_proof_bytes(p).subrange(off_ucmw(p), off_ux(p)) == g1_block(g1_val(p.U_i.cmW)),
        ivc_proof_bytes(p).subrange(off_ux(p), off_we2(p)) == frs_bytes(vals(p.U_i.x@)),
        ivc_proof_bytes(p).subrange(off_we2(p), off_wre2(p)) == frs_bytes(vals(p.w_i.E@)),
        ivc_proof_bytes(p).subrange(off_wre2(p), off_ww2(p)) == fr_block(fr_nat(p.w_i.rE)),
        ivc_proof_bytes(p).subrange(off_ww2(p), off_wrw2(p)) == frs_bytes(vals(p.w_i.W@)),
        ivc_proof_bytes(p).subrange(off_wrw2(p), off_icme(p)) == fr_block(fr_nat(p.w_i.rW)),
        ivc_proof_bytes(p).subrange(off_icme(p), off_iu(p)) == g1_block(g1_val(p.u_i.cmE)),
        ivc_proof_bytes(p).subrange(off_iu(p), off_icmw(p)) == fr_block(fr_nat(p.u_i.u)),
        ivc_proof_bytes(p).subrange(off_icmw(p), off_ix(p)) == g1_block(g1_val(p.u_i.cmW)),
        ivc_proof_bytes(p).subrange(off_ix(p), ipb_total(p)) == frs_bytes(vals(p.u_i.x@)),
        ivc_proof_bytes(p).subrange(off_we(p), off_ucme(p)) == witness_bytes(p.W_i),
        ivc_proof_bytes(p).subrange(off_ucme(p), off_we2(p)) == instance_bytes(p.U_i),
        ivc_proof_bytes(p).subrange(off_we2(p), off_icme(p)) == witness_bytes(p.w_i),
        ivc_proof_bytes(p).subrange(off_icme(p), ipb_total(p)) == instance_bytes(p.u_i),
{
    lemma_le_bytes_len(p.i as nat, 8);
    lemma_le_bytes_len(p.z_0@.len(), 8);
    lemma_le_bytes_len(p.z_i@.len(), 8);
    lemma_le_bytes_len(p.W_i.E@.len(), 8);
    lemma_le_bytes_len(p.W_i.W@.len(), 8);
    lemma_le_bytes_len(p.U_i.x@.len(), 8);
    lemma_le_bytes_len(p.w_i.E@.len(), 8);
    lemma_le_bytes_len(p.w_i.W@.len(), 8);
    lemma_le_bytes_len(p.u_i.x@.len(), 8);
    lemma_frs_len(vals(p.z_0@));
    lemma_frs_len(vals(p.z_i@));
    lemma_frs_len(vals(p.W_i.E@));
    lemma_frs_len(vals(p.W_i.W@));
    lemma_frs_len(vals(p.U_i.x@));
    lemma_frs_len(vals(p.w_i.E@));
    lemma_frs_len(vals(p.w_i.W@));
    lemma_frs_len(vals(p.u_i.x@));
    assert(vals(p.z_0@).len() == p.z_0@.len());
    assert(vals(p.z_i@).len() == p.z_i@.len());
    assert(vals(p.W_i.E@).len() == p.W_i.E@.len());
    assert(vals(p.W_i.W@).len() == p.W_i.W@.len());
    assert(vals(p.U_i.x@).len() == p.U_i.x@.len());
    assert(vals(p.w_i.E@).len() == p.w_i.E@.len());
    assert(vals(p.w_i.W@).len() == p.w_i.W@.len());
    assert(vals(p.u_i.x@).len() == p.u_i.x@.len());
    assert(ivc_proof_bytes(p).len() == ipb_total(p));
    assert(ivc_proof_bytes(p).subrange(0, 8) =~= u64_bytes(p.i as nat));
    assert(ivc_proof_bytes(p).subrange(8, 16) =~= u64_bytes(p.z_0@.len()));
    assert(ivc_proof_bytes(p).subrange(16, 24) =~= u64_bytes(p.z_i@.len()));
    assert(ivc_proof_bytes(p).subrange(24, 32) =~= u64_bytes(p.W_i.E@.len()));
    assert(ivc_proof_bytes(p).subrange(32, 40) =~= u64_bytes(p.W_i.W@.len()));
    assert(ivc_proof_bytes(p).subrange(40, 48) =~= u64_bytes(p.U_i.x@.len()));
    assert(ivc_proof_bytes(p).subrange(48, 56) =~= u64_bytes(p.w_i.E@.len()));
    assert(ivc_proof_bytes(p).subrange(56, 64) =~= u64_bytes(p.w_i.W@.len()));
    assert(ivc_proof_bytes(p).subrange(64, 72) =~= u64_bytes(p.u_i.x@.len()));
    assert(ivc_proof_bytes(p).subrange(off_z0(p), off_zi(p)) =~= frs_bytes(vals(p.z_0@)));
    assert(ivc_proof_bytes(p).subrange(off_zi(p), off_we(p)) =~= frs_bytes(vals(p.z_i@)));
    assert(ivc_proof_bytes(p).subrange(off_we(p), off_wre(p)) =~= frs_bytes(vals(p.W_i.E@)));
    assert(ivc_proof_bytes(p).subrange(off_wre(p), off_ww(p)) =~= fr_block(fr_nat(p.W_i.rE)));
    assert(ivc_proof_bytes(p).subrange(off_ww(p), off_wrw(p)) =~= frs_bytes(vals(p.W_i.W@)));
    assert(ivc_proof_bytes(p).subrange(off_wrw(p), off_ucme(p)) =~= fr_block(fr_nat(p.W_i.rW)));
    assert(ivc_proof_bytes(p).subrange(off_ucme(p), off_uu(p)) =~= g1_block(g1_val(p.U_i.cmE)));
    assert(ivc_proof_bytes(p).subrange(off_uu(p), off_ucmw(p)) =~= fr_block(fr_nat(p.U_i.u)));
    assert(ivc_proof_bytes(p).subrange(off_ucmw(p), off_ux(p)) =~= g1_block(g1_val(p.U_i.cmW)));
    assert(ivc_proof_bytes(p).subrange(off_ux(p), off_we2(p)) =~= frs_bytes(vals(p.U_i.x@)));
    assert(ivc_proof_bytes(p).subrange(off_we2(p), off_wre2(p)) =~= frs_bytes(vals(p.w_i.E@)));
    assert(ivc_proof_bytes(p).subrange(off_wre2(p), off_ww2(p)) =~= fr_block(fr_nat(p.w_i.rE)));
    assert(ivc_proof_bytes(p).subrange(off_ww2(p), off_wrw2(p)) =~= frs_bytes(vals(p.w_i.W@)));
    assert(ivc_proof_bytes(p).subrange(off_wrw2(p), off_icme(p)) =~= fr_block(fr_nat(p.w_i.rW)));
    assert(ivc_proof_bytes(p).subrange(off_icme(p), off_iu(p)) =~= g1_block(g1_val(p.u_i.cmE)));
    assert(ivc_proof_bytes(p).subrange(off_iu(p), off_icmw(p)) =~= fr_block(fr_nat(p.u_i.u)));
    assert(ivc_proof_bytes(p).subrange(off_icmw(p), off_ix(p)) =~= g1_block(g1_val(p.u_i.cmW)));
    assert(ivc_proof_bytes(p).subrange(off_ix(p), ipb_total(p)) =~= frs_bytes(vals(p.u_i.x@)));
    assert(ivc_proof_bytes(p).subrange(off_we(p), off_ucme(p)) =~= witness_bytes(p.W_i));
    assert(ivc_proof_bytes(p).subrange(off_ucme(p), off_we2(p)) =~= instance_bytes(p.U_i));
    assert(ivc_proof_bytes(p).subrange(off_we2(p), off_icme(p)) =~= witness_bytes(p.w_i));
    assert(ivc_proof_bytes(p).subrange(off_icme(p), ipb_total(p)) =~= instance_bytes(p.u_i));
}

/// Copies `n` bytes of `b` starting at `pos`.
fn take_window(b: &Vec<u8>, pos: usize, n: usize) -> (r: Vec<u8>)
    requires
        pos + n <= b@.len(),
    ensures
        r@ == b@.subrange(pos as int, pos + n),
{
    let blen = b.len();
    let mut out: Vec<u8> = Vec::new();
    for k in 0..n
        invariant
            blen == b@.len(),
            pos + n <= blen,
            out@ =~= b@.subrange(pos as int, pos + k),
    {
        out.push(b[pos + k]);
        proof {
            assert(out@ =~= b@.subrange(pos as int, pos + k + 1));
        }
    }
    out
}

/// Reads a counter: the 8 little-endian bytes at `pos` denote it, and
/// they are exactly its encoding.
fn read_u64(b: &Vec<u8>, pos: usize) -> (n: u64)
    requires
        pos + 8 <= b@.len(),
    ensures
        b@.subrange(pos as int, pos + 8) == u64_bytes(n as nat),
{
    let w = take_window(b, pos, 8);
    let ghost win = b@.subrange(pos as int, pos + 8);
    let mut n: u64 = 0;
    let mut t: usize = 8;
    proof {
        assert(w@.skip(8) =~= Seq::<u8>::empty());
    }
    while t > 0
        invariant
            t <= 8,
            w@.len() == 8,
            w@ == win,
            n as nat == le_val(w@.skip(t as int)),
        decreases t,
    {
        proof {
            lemma_le_val_bound(w@.skip(t as int));
            lemma_pow256_le(w@.skip(t as int).len(), 7);
            assert(w@.skip(t - 1).drop_first() =~= w@.skip(t as int));
            assert(le_val(w@.skip(t - 1)) == w@[t - 1] as nat + 256 * le_val(w@.skip(t as int)));
            assert(pow256(7) * 256 == pow256(8));
            assert(pow256(8) == 0x1_0000_0000_0000_0000) by {
                assert(pow256(0) == 1);
                assert(pow256(1) == 256);
                assert(pow256(2) == 0x1_0000);
                assert(pow256(3) == 0x100_0000);
                assert(pow256(4) == 0x1_0000_0000);
                assert(pow256(5) == 0x100_0000_0000);
                assert(pow256(6) == 0x1_0000_0000_0000);
                assert(pow256(7) == 0x100_0000_0000_0000);
            }
            assert(256 * (n as nat) + 255 < pow256(8)) by (nonlinear_arith)
                requires
                    (n as nat) < pow256(7),
                    pow256(7) * 256 == pow256(8),
            ;
        }
        t -= 1;
        n = n * 256 + (w[t] as u64);
    }
    proof {
        assert(w@.skip(0) =~= w@);
        lemma_le_bytes_of_val(w@);
        assert(win =~= u64_bytes(n as nat));
    }
    n
}

/// Reads one field element from the 32 bytes at `pos`: accepted exactly
/// when the window is the canonical encoding of some element, which is
/// then returned.
fn read_fr(b: &Vec<u8>, pos: usize) -> (r: Result<Fr, Error>)
    requires
        pos + 32 <= b@.len(),
    ensures
        r is Ok <==> (exists|y: Fr| b@.subrange(pos as int, pos + 32) == fr_block(fr_nat(y))),
        r matches Ok(x) ==> b@.subrange(pos as int, pos + 32) == fr_block(fr_nat(x)),
        r matches Err(e) ==> e is SerializationError,
{
    let w = take_window(b, pos, 32);
    match fr_from_le_bytes(&w) {
        Ok(x) => Ok(x),
        Err(_) => Err(Error::SerializationError),
    }
}

/// Reads one point from the 32 bytes at `pos`: decodes it, then
/// re-serializes and compares, so the window is accepted exactly when it
/// is the canonical encoding of some point, which is then returned.
fn read_g1(b: &Vec<u8>, pos: usize) -> (r: Result<G1, Error>)
    requires
        pos + 32 <= b@.len(),
    ensures
        r is Ok <==> (exists|q: G1| b@.subrange(pos as int, pos + 32) == #[trigger] g1_block(g1_val(q))),
        r matches Ok(p) ==> b@.subrange(pos as int, pos + 32) == g1_block(g1_val(p)),
        r matches Err(e) ==> e is SerializationError,
{
    let w = take_window(b, pos, 32);
    let ghost win = b@.subrange(pos as int, pos + 32);
    let p = match G1::from_bytes(&w) {
        Ok(p) => p,
        Err(_) => {
            return Err(Error::SerializationError);
        },
    };
    // the decoder also accepts some non-canonical strings; only the
    // canonical encoding of the decoded point passes this comparison
    let canon = p.to_bytes();
    for j in 0..32usize
        invariant
            pos + 32 <= b@.len(),
            win == b@.subrange(pos as int, pos + 32),
            w@ == win,
            w@.len() == 32,
            canon@ == g1_block(g1_val(p)),
            canon@.len() == 32,
            forall|q: G1| w@ == #[trigger] g1_block(g1_val(q)) ==> g1_val(q) == g1_val(p),
            forall|t: int| 0 <= t < j ==> w@[t] == canon@[t],
    {
        if w[j] != canon[j] {
            proof {
                assert(win[j as int] != g1_block(g1_val(p))[j as int]);
                assert forall|q: G1| win != #[trigger] g1_block(g1_val(q)) by {
                    if win == g1_block(g1_val(q)) {
                        assert(g1_val(q) == g1_val(p));
                        assert(g1_block(g1_val(q)) =~= g1_block(g1_val(p)));
                    }
                }
                assert(!(exists|q: G1|
                    b@.subrange(pos as int, pos + 32) == #[trigger] g1_block(g1_val(q))));
            }
            return Err(Error::SerializationError);
        }
    }
    proof {
        assert(win =~= g1_block(g1_val(p)));
    }
    Ok(p)
}

/// Whether the k-th 32-byte window at `pos` is the canonical encoding
/// of some field element.
spec fn fr_window_ok(b: Seq<u8>, pos: int, k: int) -> bool {
    exists|y: Fr| b.subrange(pos + 32 * k, pos + 32 * k + 32) == fr_block(fr_nat(y))
}

/// Reads `count` field elements from consecutive 32-byte windows at
/// `pos`: accepted exactly when every window is canonical.
fn read_frs(b: &Vec<u8>, pos: usize, count: usize) -> (r: Result<Vec<Fr>, Error>)
    requires
        pos + 32 * count <= b@.len(),
    ensures
        r is Ok <==> (forall|k: int| 0 <= k < count ==> #[trigger] fr_window_ok(b@, pos as int, k)),
        r matches Ok(v) ==> v@.len() == count && b@.subrange(pos as int, pos + 32 * count)
            == frs_bytes(vals(v@)),
        r matches Err(e) ==> e is SerializationError,
{
    let blen = b.len();
    let mut out: Vec<Fr> = Vec::new();
    for k in 0..count
        invariant
            blen == b@.len(),
            pos + 32 * count <= blen,
            out@.len() == k,
            b@.subrange(pos as int, pos + 32 * k) =~= frs_bytes(vals(out@)),
            forall|j: int|
                0 <= j < k ==> b@.subrange(pos + 32 * j, pos + 32 * j + 32) == fr_block(
                    fr_nat(#[trigger] out@[j]),
                ),
            forall|j: int| 0 <= j < k ==> #[trigger] fr_window_ok(b@, pos as int, j),
    {
        let x = match read_fr(b, pos + 32 * k) {
            Ok(x) => x,
            Err(e) => {
                proof {
                    assert(!fr_window_ok(b@, pos as int, k as int));
                }
                return Err(e);
            },
        };
        let ghost prev = out@;
        out.push(x);
        proof {
            assert(out@.drop_last() =~= prev);
            assert(vals(out@).drop_last() =~= vals(prev));
            assert(vals(out@).last() == fr_nat(x));
            lemma_frs_len(vals(prev));
            assert(frs_bytes(vals(out@)) == frs_bytes(vals(out@).drop_last()) + fr_block(
                vals(out@).last(),
            ));
            assert(b@.subrange(pos as int, pos + 32 * (k + 1)) =~= b@.subrange(
                pos as int,
                pos + 32 * k,
            ) + b@.subrange(pos + 32 * k, pos + 32 * k + 32));
            assert(b@.subrange(pos as int, pos + 32 * (k + 1)) =~= frs_bytes(vals(out@)));
        }
    }
    Ok(out)
}


/// 256^8 as a number.
proof fn lemma_pow256_8()
    ensures
        pow256(8) == 0x1_0000_0000_0000_0000,
{
    assert(pow256(0) == 1);
    assert(pow256(1) == 256);
    assert(pow256(2) == 0x1_0000);
    assert(pow256(3) == 0x100_0000);
    assert(pow256(4) == 0x1_0000_0000);
    assert(pow256(5) == 0x100_0000_0000);
    assert(pow256(6) == 0x1_0000_0000_0000);
    assert(pow256(7) == 0x100_0000_0000_0000);
}

/// If a byte string is the encoding of a proof, the counters its header
/// windows denote are the proof's own.
proof fn lemma_counters(
    b: Seq<u8>,
    p: IVCProof,
    n0: nat,
    n1: nat,
    n2: nat,
    n3: nat,
    n4: nat,
    n5: nat,
    n6: nat,
    n7: nat,
    n8: nat,
)
    requires
        b == ivc_proof_bytes(p),
        b.subrange(0, 8) == u64_bytes(n0),
        b.subrange(8, 16) == u64_bytes(n1),
        b.subrange(16, 24) == u64_bytes(n2),
        b.subrange(24, 32) == u64_bytes(n3),
        b.subrange(32, 40) == u64_bytes(n4),
        b.subrange(40, 48) == u64_bytes(n5),
        b.subrange(48, 56) == u64_bytes(n6),
        b.subrange(56, 64) == u64_bytes(n7),
        b.subrange(64, 72) == u64_bytes(n8),
        n0 < pow256(8),
        n1 < pow256(8),
        n2 < pow256(8),
        n3 < pow256(8),
        n4 < pow256(8),
        n5 < pow256(8),
        n6 < pow256(8),
        n7 < pow256(8),
        n8 < pow256(8),
    ensures
        n0 == p.i as nat,
        n1 == p.z_0@.len(),
        n2 == p.z_i@.len(),
        n3 == p.W_i.E@.len(),
        n4 == p.W_i.W@.len(),
        n5 == p.U_i.x@.len(),
        n6 == p.w_i.E@.len(),
        n7 == p.w_i.W@.len(),
        n8 == p.u_i.x@.len(),
{
    vstd::std_specs::vec::axiom_spec_len(&p.z_0);
    vstd::std_specs::vec::axiom_spec_len(&p.z_i);
    vstd::std_specs::vec::axiom_spec_len(&p.W_i.E);
    vstd::std_specs::vec::axiom_spec_len(&p.W_i.W);
    vstd::std_specs::vec::axiom_spec_len(&p.U_i.x);
    vstd::std_specs::vec::axiom_spec_len(&p.w_i.E);
    vstd::std_specs::vec::axiom_spec_len(&p.w_i.W);
    vstd::std_specs::vec::axiom_spec_len(&p.u_i.x);
    lemma_pow256_8();
    lemma_ipb_parts(p);
    assert((usize::MAX as nat) < pow256(8));
    lemma_u64_bytes_injective(n0, p.i as nat);
    lemma_u64_bytes_injective(n1, p.z_0@.len());
    lemma_u64_bytes_injective(n2, p.z_i@.len());
    lemma_u64_bytes_injective(n3, p.W_i.E@.len());
    lemma_u64_bytes_injective(n4, p.W_i.W@.len());
    lemma_u64_bytes_injective(n5, p.U_i.x@.len());
    lemma_u64_bytes_injective(n6, p.w_i.E@.len());
    lemma_u64_bytes_injective(n7, p.w_i.W@.len());
    lemma_u64_bytes_injective(n8, p.u_i.x@.len());
}



/// Whether one 32-byte window at `pos` is the canonical encoding of some
/// field element.
spec fn fr1_ok(b: Seq<u8>, pos: int) -> bool {
    exists|y: Fr| b.subrange(pos, pos + 32) == fr_block(fr_nat(y))
}

/// Whether one 32-byte window at `pos` is the canonical encoding of some
/// point.
spec fn g1_ok(b: Seq<u8>, pos: int) -> bool {
    exists|q: G1| b.subrange(pos, pos + 32) == #[trigger] g1_block(g1_val(q))
}

/// Whether all `c` windows at `pos` are canonical field elements.
spec fn frs_ok(b: Seq<u8>, pos: int, c: int) -> bool {
    forall|k: int| 0 <= k < c ==> #[trigger] fr_window_ok(b, pos, k)
}

/// Whether the four components of a witness encoding at `pos` are
/// canonical.
spec fn witness_ok(b: Seq<u8>, pos: int, ce: int, cw: int) -> bool {
    &&& frs_ok(b, pos, ce)
    &&& fr1_ok(b, pos + 32 * ce)
    &&& frs_ok(b, pos + 32 * ce + 32, cw)
    &&& fr1_ok(b, pos + 32 * ce + 32 + 32 * cw)
}

/// Whether the four components of an instance encoding at `pos` are
/// canonical.
spec fn instance_ok(b: Seq<u8>, pos: int, cx: int) -> bool {
    &&& g1_ok(b, pos)
    &&& fr1_ok(b, pos + 32)
    &&& g1_ok(b, pos + 64)
    &&& frs_ok(b, pos + 96, cx)
}

/// An element-encoding window decomposes into canonical blocks.
proof fn lemma_frs_site(b: Seq<u8>, off: int, s: Seq<Fr>)
    requires
        0 <= off,
        off + 32 * s.len() <= b.len(),
        b.subrange(off, off + 32 * s.len()) == frs_bytes(vals(s)),
    ensures
        frs_ok(b, off, s.len() as int),
{
    assert forall|k: int| 0 <= k < s.len() implies #[trigger] fr_window_ok(b, off, k) by {
        lemma_frs_len(vals(s));
        lemma_frs_index(vals(s), k);
        assert(b.subrange(off + 32 * k, off + 32 * k + 32) =~= b.subrange(
            off,
            off + 32 * s.len(),
        ).subrange(32 * k, 32 * k + 32));
        assert(b.subrange(off + 32 * k, off + 32 * k + 32) == fr_block(fr_nat(s[k])));
    }
}

/// A witness encoding at `pos` has all its windows canonical.
proof fn lemma_witness_site(b: Seq<u8>, pos: int, w: Witness)
    requires
        0 <= pos,
        pos + 32 * w.E@.len() + 32 + 32 * w.W@.len() + 32 <= b.len(),
        b.subrange(pos, pos + 32 * w.E@.len() + 32 + 32 * w.W@.len() + 32) == witness_bytes(w),
    ensures
        witness_ok(b, pos, w.E@.len() as int, w.W@.len() as int),
{
    let ce = w.E@.len() as int;
    let cw = w.W@.len() as int;
    lemma_frs_len(vals(w.E@));
    lemma_frs_len(vals(w.W@));
    assert(b.subrange(pos, pos + 32 * ce) =~= witness_bytes(w).subrange(0, 32 * ce));
    assert(witness_bytes(w).subrange(0, 32 * ce) =~= frs_bytes(vals(w.E@)));
    lemma_frs_site(b, pos, w.E@);
    assert(b.subrange(pos + 32 * ce, pos + 32 * ce + 32) =~= witness_bytes(w).subrange(
        32 * ce,
        32 * ce + 32,
    ));
    assert(witness_bytes(w).subrange(32 * ce, 32 * ce + 32) =~= fr_block(fr_nat(w.rE)));
    assert(b.subrange(pos + 32 * ce + 32, pos + 32 * ce + 32 + 32 * cw) =~= witness_bytes(
        w,
    ).subrange(32 * ce + 32, 32 * ce + 32 + 32 * cw));
    assert(witness_bytes(w).subrange(32 * ce + 32, 32 * ce + 32 + 32 * cw) =~= frs_bytes(
        vals(w.W@),
    ));
    lemma_frs_site(b, pos + 32 * ce + 32, w.W@);
    assert(b.subrange(pos + 32 * ce + 32 + 32 * cw, pos + 32 * ce + 32 + 32 * cw + 32)
        =~= witness_bytes(w).subrange(32 * ce + 32 + 32 * cw, 32 * ce + 32 + 32 * cw + 32));
    assert(witness_bytes(w).subrange(32 * ce + 32 + 32 * cw, 32 * ce + 32 + 32 * cw + 32)
        =~= fr_block(fr_nat(w.rW)));
}

/// An instance encoding at `pos` has all its windows canonical.
proof fn lemma_instance_site(b: Seq<u8>, pos: int, ci: CommittedInstance)
    requires
        0 <= pos,
        pos + 96 + 32 * ci.x@.len() <= b.len(),
        b.subrange(pos, pos + 96 + 32 * ci.x@.len()) == instance_bytes(ci),
    ensures
        instance_ok(b, pos, ci.x@.len() as int),
{
    let cx = ci.x@.len() as int;
    lemma_frs_len(vals(ci.x@));
    assert(b.subrange(pos, pos + 32) =~= instance_bytes(ci).subrange(0, 32));
    assert(instance_bytes(ci).subrange(0, 32) =~= g1_block(g1_val(ci.cmE)));
    assert(b.subrange(pos + 32, pos + 64) =~= instance_bytes(ci).subrange(32, 64));
    assert(instance_bytes(ci).subrange(32, 64) =~= fr_block(fr_nat(ci.u)));
    assert(b.subrange(pos + 64, pos + 96) =~= instance_bytes(ci).subrange(64, 96));
    assert(instance_bytes(ci).subrange(64, 96) =~= g1_block(g1_val(ci.cmW)));
    assert(b.subrange(pos + 96, pos + 96 + 32 * cx) =~= instance_bytes(ci).subrange(
        96,
        96 + 32 * cx,
    ));
    assert(instance_bytes(ci).subrange(96, 96 + 32 * cx) =~= frs_bytes(vals(ci.x@)));
    lemma_frs_site(b, pos + 96, ci.x@);
}

/// Reads a witness: its error vector, rE, W vector and rW, at `pos`.
fn read_witness_at(b: &Vec<u8>, pos: usize, ce: usize, cw: usize) -> (r: Result<
    (Witness, usize),
    Error,
>)
    requires
        pos + 32 * ce + 32 + 32 * cw + 32 <= b@.len(),
    ensures
        r matches Ok(o) ==> {
            &&& o.0.E@.len() == ce
            &&& o.0.W@.len() == cw
            &&& o.1 == pos + 32 * ce + 32 + 32 * cw + 32
            &&& b@.subrange(pos as int, o.1 as int) == witness_bytes(o.0)
        },
        r is Err ==> !witness_ok(b@, pos as int, ce as int, cw as int),
        r matches Err(e) ==> e is SerializationError,
{
    let blen = b.len();
    let e_vec = match read_frs(b, pos, ce) {
        Ok(v) => v,
        Err(e) => {
            return Err(e);
        },
    };
    let p1 = pos + 32 * ce;
    let re = match read_fr(b, p1) {
        Ok(x) => x,
        Err(e) => {
            return Err(e);
        },
    };
    let p2 = p1 + 32;
    let w_vec = match read_frs(b, p2, cw) {
        Ok(v) => v,
        Err(e) => {
            return Err(e);
        },
    };
    let p3 = p2 + 32 * cw;
    let rw = match read_fr(b, p3) {
        Ok(x) => x,
        Err(e) => {
            return Err(e);
        },
    };
    let p4 = p3 + 32;
    let w = Witness { E: e_vec, rE: re, W: w_vec, rW: rw };
    proof {
        assert(b@.subrange(pos as int, p4 as int) =~= b@.subrange(pos as int, p1 as int)
            + b@.subrange(p1 as int, p2 as int) + b@.subrange(p2 as int, p3 as int) + b@.subrange(
            p3 as int,
            p4 as int,
        ));
        assert(b@.subrange(pos as int, p4 as int) =~= witness_bytes(w));
    }
    Ok((w, p4))
}

/// Reads a committed instance: cmE, u, cmW and the x vector, at `pos`.
fn read_instance_at(b: &Vec<u8>, pos: usize, cx: usize) -> (r: Result<
    (CommittedInstance, usize),
    Error,
>)
    requires
        pos + 96 + 32 * cx <= b@.len(),
    ensures
        r matches Ok(o) ==> {
            &&& o.0.x@.len() == cx
            &&& o.1 == pos + 96 + 32 * cx
            &&& b@.subrange(pos as int, o.1 as int) == instance_bytes(o.0)
        },
        r is Err ==> !instance_ok(b@, pos as int, cx as int),
        r matches Err(e) ==> e is SerializationError,
{
    let blen = b.len();
    let cme = match read_g1(b, pos) {
        Ok(x) => x,
        Err(e) => {
            return Err(e);
        },
    };
    let u = match read_fr(b, pos + 32) {
        Ok(x) => x,
        Err(e) => {
            return Err(e);
        },
    };
    let cmw = match read_g1(b, pos + 64) {
        Ok(x) => x,
        Err(e) => {
            return Err(e);
        },
    };
    let x_vec = match read_frs(b, pos + 96, cx) {
        Ok(v) => v,
        Err(e) => {
            return Err(e);
        },
    };
    let p4 = pos + 96 + 32 * cx;
    let ci = CommittedInstance { cmE: cme, u, cmW: cmw, x: x_vec };
    proof {
        assert(b@.subrange(pos as int, p4 as int) =~= b@.subrange(pos as int, pos + 32)
            + b@.subrange(pos + 32, pos + 64) + b@.subrange(pos + 64, pos + 96) + b@.subrange(
            pos + 96,
            p4 as int,
        ));
        assert(b@.subrange(pos as int, p4 as int) =~= instance_bytes(ci));
    }
    Ok((ci, p4))
}



/// Reads and checks the header: the step counter and the eight vector
/// lengths, which must account for the input length exactly.
#[verifier::rlimit(100)]
fn read_header(b: &Vec<u8>) -> (r: Result<
    (u64, usize, usize, usize, usize, usize, usize, usize, usize),
    Error,
>)
    ensures
        r matches Ok(h) ==> {
            &&& b@.len() >= 72
            &&& b@.subrange(0, 8) == u64_bytes(h.0 as nat)
            &&& b@.subrange(8, 16) == u64_bytes(h.1 as nat)
            &&& b@.subrange(16, 24) == u64_bytes(h.2 as nat)
            &&& b@.subrange(24, 32) == u64_bytes(h.3 as nat)
            &&& b@.subrange(32, 40) == u64_bytes(h.4 as nat)
            &&& b@.subrange(40, 48) == u64_bytes(h.5 as nat)
            &&& b@.subrange(48, 56) == u64_bytes(h.6 as nat)
            &&& b@.subrange(56, 64) == u64_bytes(h.7 as nat)
            &&& b@.subrange(64, 72) == u64_bytes(h.8 as nat)
            &&& b@.len() as int == 392 + 32 * (h.1 as int + h.2 as int + h.3 as int + h.4 as int
                + h.5 as int + h.6 as int + h.7 as int + h.8 as int)
        },
        r is Err ==> (forall|p: IVCProof| b@ != ivc_proof_bytes(p)),
        r matches Err(e) ==> e is SerializationError,
{
    let blen = b.len();
    if blen < 72 {
        proof {
            assert forall|p: IVCProof| b@ != ivc_proof_bytes(p) by {
                lemma_ipb_parts(p);
            }
        }
        return Err(Error::SerializationError);
    }
    let i_v = read_u64(b, 0);
    let c1r = read_u64(b, 8);
    let c2r = read_u64(b, 16);
    let c3r = read_u64(b, 24);
    let c4r = read_u64(b, 32);
    let c5r = read_u64(b, 40);
    let c6r = read_u64(b, 48);
    let c7r = read_u64(b, 56);
    let c8r = read_u64(b, 64);
    proof {
        lemma_pow256_8();
    }
    // the counters must account for the length exactly
    let big: u64 = 0x07ff_ffff_ffff_ffff;
    if c1r > big || c2r > big || c3r > big || c4r > big || c5r > big || c6r > big || c7r > big
        || c8r > big {
        proof {
            assert forall|p: IVCProof| b@ != ivc_proof_bytes(p) by {
                if b@ == ivc_proof_bytes(p) {
                    lemma_counters(b@, p, i_v as nat, c1r as nat, c2r as nat, c3r as nat,
                        c4r as nat, c5r as nat, c6r as nat, c7r as nat, c8r as nat);
                    lemma_ipb_parts(p);
                }
            }
        }
        return Err(Error::SerializationError);
    }
    let sum: u64 = c1r + c2r + c3r + c4r + c5r + c6r + c7r + c8r;
    if sum > (u64::MAX - 392) / 32 {
        proof {
            assert forall|p: IVCProof| b@ != ivc_proof_bytes(p) by {
                if b@ == ivc_proof_bytes(p) {
                    lemma_counters(b@, p, i_v as nat, c1r as nat, c2r as nat, c3r as nat,
                        c4r as nat, c5r as nat, c6r as nat, c7r as nat, c8r as nat);
                    lemma_ipb_parts(p);
                }
            }
        }
        return Err(Error::SerializationError);
    }
    let needed: u64 = 392 + 32 * sum;
    if needed != blen as u64 {
        proof {
            assert forall|p: IVCProof| b@ != ivc_proof_bytes(p) by {
                if b@ == ivc_proof_bytes(p) {
                    lemma_counters(b@, p, i_v as nat, c1r as nat, c2r as nat, c3r as nat,
                        c4r as nat, c5r as nat, c6r as nat, c7r as nat, c8r as nat);
                    lemma_ipb_parts(p);
                }
            }
        }
        return Err(Error::SerializationError);
    }
    Ok(
        (
            i_v,
            c1r as usize,
            c2r as usize,
            c3r as usize,
            c4r as usize,
            c5r as usize,
            c6r as usize,
            c7r as usize,
            c8r as usize,
        ),
    )
}

/// Deserializes an IVC proof.  A byte string is accepted exactly when it
/// is, in full, the canonical encoding of some proof, and the proof
/// returned is the one encoded; so deserializing what
/// `serialize_ivc_proof` wrote succeeds, and nothing else is accepted.
#[verifier::rlimit(100)]
pub fn deserialize_ivc_proof(b: &Vec<u8>) -> (r: Result<IVCProof, Error>)
    ensures
        r matches Ok(p) ==> b@ == ivc_proof_bytes(p),
        r is Err ==> (forall|p: IVCProof| b@ != ivc_proof_bytes(p)),
        r matches Err(e) ==> e is SerializationError,
{
    let blen = b.len();
    let (i_v, c1, c2, c3, c4, c5, c6, c7, c8) = match read_header(b) {
        Ok(h) => h,
        Err(e) => {
            return Err(e);
        },
    };
    proof {
        lemma_pow256_8();
    }
    let mut cur: usize = 72;
    let z0_v = match read_frs(b, cur, c1) {
        Ok(v) => v,
        Err(e) => {
            proof {
                assert forall|p: IVCProof| b@ != ivc_proof_bytes(p) by {
                    if b@ == ivc_proof_bytes(p) {
                        lemma_counters(b@, p, i_v as nat, c1 as nat, c2 as nat, c3 as nat,
                            c4 as nat, c5 as nat, c6 as nat, c7 as nat, c8 as nat);
                        lemma_ipb_parts(p);
                        lemma_frs_site(b@, off_z0(p), p.z_0@);
                        assert(frs_ok(b@, cur as int, c1 as int));
                    }
                }
            }
            return Err(e);
        },
    };
    let ghost z0_end = cur + 32 * c1 as int;
    cur = cur + 32 * c1;
    let zi_v = match read_frs(b, cur, c2) {
        Ok(v) => v,
        Err(e) => {
            proof {
                assert forall|p: IVCProof| b@ != ivc_proof_bytes(p) by {
                    if b@ == ivc_proof_bytes(p) {
                        lemma_counters(b@, p, i_v as nat, c1 as nat, c2 as nat, c3 as nat,
                            c4 as nat, c5 as nat, c6 as nat, c7 as nat, c8 as nat);
                        lemma_ipb_parts(p);
                        lemma_frs_site(b@, off_zi(p), p.z_i@);
                        assert(frs_ok(b@, cur as int, c2 as int));
                    }
                }
            }
            return Err(e);
        },
    };
    cur = cur + 32 * c2;
    let ghost wi_start = cur as int;
    let (wi_v, cur2) = match read_witness_at(b, cur, c3, c4) {
        Ok(o) => o,
        Err(e) => {
            proof {
                assert forall|p: IVCProof| b@ != ivc_proof_bytes(p) by {
                    if b@ == ivc_proof_bytes(p) {
                        lemma_counters(b@, p, i_v as nat, c1 as nat, c2 as nat, c3 as nat,
                            c4 as nat, c5 as nat, c6 as nat, c7 as nat, c8 as nat);
                        lemma_ipb_parts(p);
                        lemma_witness_site(b@, off_we(p), p.W_i);
                    }
                }
            }
            return Err(e);
        },
    };
    cur = cur2;
    let ghost ui_start = cur as int;
    let (ui_v, cur3) = match read_instance_at(b, cur, c5) {
        Ok(o) => o,
        Err(e) => {
            proof {
                assert forall|p: IVCProof| b@ != ivc_proof_bytes(p) by {
                    if b@ == ivc_proof_bytes(p) {
                        lemma_counters(b@, p, i_v as nat, c1 as nat, c2 as nat, c3 as nat,
                            c4 as nat, c5 as nat, c6 as nat, c7 as nat, c8 as nat);
                        lemma_ipb_parts(p);
                        lemma_instance_site(b@, off_ucme(p), p.U_i);
                    }
                }
            }
            return Err(e);
        },
    };
    cur = cur3;
    let ghost wi2_start = cur as int;
    let (wi2_v, cur4) = match read_witness_at(b, cur, c6, c7) {
        Ok(o) => o,
        Err(e) => {
            proof {
                assert forall|p: IVCProof| b@ != ivc_proof_bytes(p) by {
                    if b@ == ivc_proof_bytes(p) {
                        lemma_counters(b@, p, i_v as nat, c1 as nat, c2 as nat, c3 as nat,
                            c4 as nat, c5 as nat, c6 as nat, c7 as nat, c8 as nat);
                        lemma_ipb_parts(p);
                        lemma_witness_site(b@, off_we2(p), p.w_i);
                    }
                }
            }
            return Err(e);
        },
    };
    cur = cur4;
    let ghost ui2_start = cur as int;
    let (ui2_v, cur5) = match read_instance_at(b, cur, c8) {
        Ok(o) => o,
        Err(e) => {
            proof {
                assert forall|p: IVCProof| b@ != ivc_proof_bytes(p) by {
                    if b@ == ivc_proof_bytes(p) {
                        lemma_counters(b@, p, i_v as nat, c1 as nat, c2 as nat, c3 as nat,
                            c4 as nat, c5 as nat, c6 as nat, c7 as nat, c8 as nat);
                        lemma_ipb_parts(p);
                        lemma_instance_site(b@, off_icme(p), p.u_i);
                    }
                }
            }
            return Err(e);
        },
    };
    cur = cur5;
    let out = IVCProof {
        i: i_v,
        z_0: z0_v,
        z_i: zi_v,
        W_i: wi_v,
        U_i: ui_v,
        w_i: wi2_v,
        u_i: ui2_v,
    };
    proof {
        assert(cur as int == blen as int);
        lemma_ipb_parts(out);
        assert(b@ =~= b@.subrange(0, 8) + b@.subrange(8, 16) + b@.subrange(16, 24) + b@.subrange(
            24,
            32,
        ) + b@.subrange(32, 40) + b@.subrange(40, 48) + b@.subrange(48, 56) + b@.subrange(56, 64)
            + b@.subrange(64, 72) + b@.subrange(72, z0_end) + b@.subrange(z0_end, wi_start)
            + b@.subrange(wi_start, ui_start) + b@.subrange(ui_start, wi2_start) + b@.subrange(
            wi2_start,
            ui2_start,
        ) + b@.subrange(ui2_start, blen as int));
        assert(ivc_proof_bytes(out) =~= u64_bytes(out.i as nat) + u64_bytes(out.z_0@.len())
            + u64_bytes(out.z_i@.len()) + u64_bytes(out.W_i.E@.len()) + u64_bytes(out.W_i.W@.len())
            + u64_bytes(out.U_i.x@.len()) + u64_bytes(out.w_i.E@.len()) + u64_bytes(
            out.w_i.W@.len(),
        ) + u64_bytes(out.u_i.x@.len()) + frs_bytes(vals(out.z_0@)) + frs_bytes(vals(out.z_i@))
            + witness_bytes(out.W_i) + instance_bytes(out.U_i) + witness_bytes(out.w_i)
            + instance_bytes(out.u_i));
        assert(b@ =~= ivc_proof_bytes(out));
    }
    Ok(out)
}

} // verus!




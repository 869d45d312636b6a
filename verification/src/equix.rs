//! Checking Equi-X proof-of-work solutions.
//!
//! A solution to a challenge is eight 16-bit indices in a canonical tree
//! order whose hash values — under a hash function generated from the
//! challenge by the `hashx` crate — sum to zero in stages: each adjacent
//! pair modulo 2^15, each adjacent pair of pair-sums modulo 2^30, and
//! the whole modulo 2^60, all sums taken in wrapping 64-bit arithmetic.
//! The ordering and the sum checks are verified code here; the hash
//! itself is the `hashx` crate's, behind a trusted boundary that names
//! its value.

use vstd::prelude::*;

verus! {

/// `hashx::HashX`, a pre-built hash program, declared so it can stand
/// in fields and signatures.
#[verifier::external_type_specification]
#[verifier::external_body]
pub struct ExHashX(hashx::HashX);

/// The seed bytes a hash program was generated from.
pub uninterp spec fn hashx_seed(h: hashx::HashX) -> Seq<u8>;

/// The 64-bit hash value that the program generated from `seed` assigns
/// to `input`.  The hash is a function of the seed and the input alone;
/// compiled and interpreted runtimes compute the same values.
pub uninterp spec fn hashx_value(seed: Seq<u8>, input: u64) -> u64;

/// Whether a hash program can be generated from `seed` at all.  Under
/// the default runtime the builder's random program generation is
/// seeded deterministically from the seed, so this too is a function of
/// the seed alone.
pub uninterp spec fn hashx_builds(seed: Seq<u8>) -> bool;

/// Relies on `hashx::HashX::new`: a successfully built program is the
/// one generated from exactly the given seed, and whether building
/// succeeds depends on the seed alone (the default runtime generates
/// the program from a seed-derived stream, and falls back to the
/// interpreter rather than fail when compilation is unavailable, so
/// the only failure is the generator's whole-program constraint).  A
/// small fraction of seeds fail that way; such challenges must be
/// skipped by solvers and rejected by verifiers.  The crate's error
/// variants map one for one onto [`HashProblem`].
#[verifier::external_body]
fn build_hashx(seed: &[u8]) -> (r: Result<hashx::HashX, HashProblem>)
    ensures
        r matches Ok(h) ==> hashx_seed(h) == seed@ && hashx_builds(seed@),
        r matches Err(p) ==> !hashx_builds(seed@) && p == HashProblem::ProgramConstraints,
{
    match hashx::HashX::new(seed) {
        Ok(h) => Ok(h),
        Err(hashx::Error::ProgramConstraints) => Err(HashProblem::ProgramConstraints),
        Err(hashx::Error::Compiler(_)) => Err(HashProblem::Compiler),
        Err(_) => Err(HashProblem::Other),
    }
}

/// Relies on `hashx::HashX::hash_to_u64`: the first 64-bit word of the
/// hash of `input`, a pure function of the program's seed and the input.
#[verifier::external_body]
fn hashx_u64(h: &hashx::HashX, input: u64) -> (r: u64)
    ensures
        r == hashx_value(hashx_seed(*h), input),
{
    h.hash_to_u64(input)
}

/// Why the hash function could not be constructed for a challenge,
/// mirroring the variants of the hash crate's own error.
#[derive(Debug, Clone, Copy, PartialEq, Eq, Structural)]
pub enum HashProblem {
    /// A whole-program constraint failed for this specific seed, which
    /// must simply be skipped.
    ProgramConstraints,
    /// A compile-only runtime was requested and the compiler failed.
    Compiler,
    /// A construction failure of a kind this library does not classify.
    Other,
}

/// An error from checking an Equi-X solution.
#[derive(Debug, Clone, Copy, PartialEq, Eq, Structural)]
pub enum EquixError {
    /// The hash function could not be constructed for this challenge.
    Hash(HashProblem),
    /// The solution items are not in the canonical tree order.
    Order,
    /// A stage of the hash tree sums is nonzero.
    HashSum,
}

/// 64-bit wrapping sum, the arithmetic the sum checks are done in.
pub open spec fn spec_wadd(a: u64, b: u64) -> u64 {
    vstd::wrapping::u64_specs::wrapping_add(a, b)
}

/// The canonical tree order of a solution's eight items: within each
/// pair the smaller index first, pairs ordered by their little-endian
/// 32-bit value, and the two halves ordered by their little-endian
/// 64-bit value.
pub open spec fn spec_tree_ordered(items: Seq<u16>) -> bool {
    &&& items.len() == 8
    &&& items[0] <= items[1]
    &&& items[2] <= items[3]
    &&& items[4] <= items[5]
    &&& items[6] <= items[7]
    &&& items[0] + items[1] * 0x10000 <= items[2] + items[3] * 0x10000
    &&& items[4] + items[5] * 0x10000 <= items[6] + items[7] * 0x10000
    &&& items[0] + items[1] * 0x10000 + items[2] * 0x100000000 + items[3] * 0x1000000000000
        <= items[4] + items[5] * 0x10000 + items[6] * 0x100000000 + items[7] * 0x1000000000000
}

/// The staged sum checks of Equi-X: pair sums vanish modulo 2^15,
/// half sums modulo 2^30, and the total modulo 2^60, in wrapping 64-bit
/// arithmetic over the hash values of the items.
pub open spec fn spec_tree_sums_ok(seed: Seq<u8>, items: Seq<u16>) -> bool {
    let p0 = spec_wadd(hashx_value(seed, items[0] as u64), hashx_value(seed, items[1] as u64));
    let p1 = spec_wadd(hashx_value(seed, items[2] as u64), hashx_value(seed, items[3] as u64));
    let p2 = spec_wadd(hashx_value(seed, items[4] as u64), hashx_value(seed, items[5] as u64));
    let p3 = spec_wadd(hashx_value(seed, items[6] as u64), hashx_value(seed, items[7] as u64));
    let s0 = spec_wadd(p0, p1);
    let s1 = spec_wadd(p2, p3);
    let t = spec_wadd(s0, s1);
    &&& p0 & 0x7fff == 0
    &&& p1 & 0x7fff == 0
    &&& p2 & 0x7fff == 0
    &&& p3 & 0x7fff == 0
    &&& s0 & 0x3fffffff == 0
    &&& s1 & 0x3fffffff == 0
    &&& t & 0xfffffffffffffff == 0
}

/// The eight items read from a solution's 16-byte form: each item two
/// little-endian bytes, in order.
pub open spec fn spec_items_from_bytes(b: Seq<u8>) -> Seq<u16> {
    Seq::new(8, |i: int| (b[2 * i] + b[2 * i + 1] * 256) as u16)
}

/// A potential solution, whose items have been checked to be in the
/// canonical tree order (the well-formedness the constructors enforce).
#[derive(Debug, Clone, Copy, PartialEq, Eq)]
pub struct Solution {
    /// The eight solution items.
    pub items: [u16; 8],
}

impl Solution {
    /// Well-formed: the items stand in canonical tree order.
    pub open spec fn wf(self) -> bool {
        spec_tree_ordered(self.items@)
    }

    /// Take an item array as a solution, exactly when its order is
    /// canonical.
    pub fn try_from_array(array: &[u16; 8]) -> (r: Result<Solution, EquixError>)
        ensures
            spec_tree_ordered(array@) ==> (r matches Ok(s) && s.items@ == array@ && s.wf()),
            !spec_tree_ordered(array@) ==> r == Err::<Solution, EquixError>(EquixError::Order),
    {
        if check_tree_order(array) {
            Ok(Solution { items: *array })
        } else {
            Err(EquixError::Order)
        }
    }

    /// Read a solution from its 16-byte wire form (items little-endian,
    /// in order), exactly when the order is canonical.
    pub fn try_from_bytes(bytes: &[u8; 16]) -> (r: Result<Solution, EquixError>)
        ensures
            spec_tree_ordered(spec_items_from_bytes(bytes@)) ==> (r matches Ok(s) && s.items@
                == spec_items_from_bytes(bytes@) && s.wf()),
            !spec_tree_ordered(spec_items_from_bytes(bytes@)) ==> r == Err::<
                Solution,
                EquixError,
            >(EquixError::Order),
    {
        let mut items: [u16; 8] = [0u16; 8];
        let mut i: usize = 0;
        while i < 8
            invariant
                i <= 8,
                forall|j: int| 0 <= j < i ==> items@[j] == spec_items_from_bytes(bytes@)[j],
            decreases 8 - i,
        {
            let lo = bytes[2 * i];
            let hi = bytes[2 * i + 1];
            items[i] = (lo as u16) + (hi as u16) * 256;
            i = i + 1;
        }
        assert(items@ =~= spec_items_from_bytes(bytes@));
        Self::try_from_array(&items)
    }
}

/// The 16-byte form of eight solution items: each item two little-endian
/// bytes, in order.
pub open spec fn spec_bytes_from_items(items: Seq<u16>) -> Seq<u8> {
    Seq::new(
        16,
        |i: int| if i % 2 == 0 {
            (items[i / 2] % 256) as u8
        } else {
            (items[i / 2] / 256) as u8
        },
    )
}

/// The byte round-trip law: reading the 16-byte form of eight items
/// gives the items back.
pub proof fn lemma_solution_bytes_roundtrip(items: Seq<u16>)
    requires
        items.len() == 8,
    ensures
        spec_items_from_bytes(spec_bytes_from_items(items)) == items,
{
    let b = spec_bytes_from_items(items);
    let parsed = spec_items_from_bytes(b);
    assert forall|i: int| 0 <= i < 8 implies parsed[i] == items[i] by {
        let x = items[i];
        assert(b[2 * i] == (x % 256) as u8);
        assert(b[2 * i + 1] == (x / 256) as u8);
        assert((((x % 256) as u8) + ((x / 256) as u8) * 256) as u16 == x) by (bit_vector);
    }
    assert(parsed =~= items);
}

impl Solution {
    /// The 16-byte wire form of this solution.
    pub fn to_bytes(&self) -> (r: [u8; 16])
        ensures
            r@ == spec_bytes_from_items(self.items@),
    {
        let mut bytes: [u8; 16] = [0u8; 16];
        let mut i: usize = 0;
        while i < 8
            invariant
                i <= 8,
                forall|j: int|
                    0 <= j < 2 * i ==> bytes@[j] == #[trigger] spec_bytes_from_items(
                        self.items@,
                    )[j],
            decreases 8 - i,
        {
            let x = self.items[i];
            bytes[2 * i] = (x % 256) as u8;
            bytes[2 * i + 1] = (x / 256) as u8;
            i = i + 1;
        }
        assert(bytes@ =~= spec_bytes_from_items(self.items@));
        bytes
    }
}

/// Executable check of the canonical tree order.
fn check_tree_order(items: &[u16; 8]) -> (r: bool)
    ensures
        r == spec_tree_ordered(items@),
{
    let i0 = items[0];
    let i1 = items[1];
    let i2 = items[2];
    let i3 = items[3];
    let i4 = items[4];
    let i5 = items[5];
    let i6 = items[6];
    let i7 = items[7];
    let lo32 = (i0 as u64) + (i1 as u64) * 0x10000;
    let hi32 = (i2 as u64) + (i3 as u64) * 0x10000;
    let lo32b = (i4 as u64) + (i5 as u64) * 0x10000;
    let hi32b = (i6 as u64) + (i7 as u64) * 0x10000;
    let lo64 = lo32 + hi32 * 0x100000000;
    let hi64 = lo32b + hi32b * 0x100000000;
    i0 <= i1 && i2 <= i3 && i4 <= i5 && i6 <= i7 && lo32 <= hi32 && lo32b <= hi32b && lo64
        <= hi64
}

/// One Equi-X instance: the hash program generated for one challenge.
#[derive(Debug)]
pub struct EquiX {
    /// The hash program built from the challenge.
    pub hash: hashx::HashX,
}

impl EquiX {
    /// The challenge this instance was built from.
    pub open spec fn spec_seed(self) -> Seq<u8> {
        hashx_seed(self.hash)
    }

    /// Build an instance for a challenge: it exists exactly when a hash
    /// program can be generated from the challenge.  It is normal for
    /// this to fail with [`EquixError::Hash`] for a small fraction of
    /// challenges; those must be skipped by solvers and rejected by
    /// verifiers.
    pub fn new(challenge: &[u8]) -> (r: Result<EquiX, EquixError>)
        ensures
            hashx_builds(challenge@) ==> (r matches Ok(e) && e.spec_seed() == challenge@),
            !hashx_builds(challenge@) ==> r == Err::<EquiX, EquixError>(
                EquixError::Hash(HashProblem::ProgramConstraints),
            ),
    {
        match build_hashx(challenge) {
            Ok(hash) => Ok(EquiX { hash }),
            Err(e) => Err(EquixError::Hash(e)),
        }
    }

    /// Check a solution against this instance's challenge.  A
    /// [`Solution`]'s order is already canonical, so only the hash tree
    /// sums are checked: the result is `Ok` exactly when they vanish.
    pub fn verify(&self, solution: &Solution) -> (r: Result<(), EquixError>)
        ensures
            spec_tree_sums_ok(self.spec_seed(), solution.items@) ==> r == Ok::<(), EquixError>(()),
            !spec_tree_sums_ok(self.spec_seed(), solution.items@) ==> r == Err::<
                (),
                EquixError,
            >(EquixError::HashSum),
    {
        let h0 = hashx_u64(&self.hash, solution.items[0] as u64);
        let h1 = hashx_u64(&self.hash, solution.items[1] as u64);
        let h2 = hashx_u64(&self.hash, solution.items[2] as u64);
        let h3 = hashx_u64(&self.hash, solution.items[3] as u64);
        let h4 = hashx_u64(&self.hash, solution.items[4] as u64);
        let h5 = hashx_u64(&self.hash, solution.items[5] as u64);
        let h6 = hashx_u64(&self.hash, solution.items[6] as u64);
        let h7 = hashx_u64(&self.hash, solution.items[7] as u64);
        let p0 = h0.wrapping_add(h1);
        let p1 = h2.wrapping_add(h3);
        let p2 = h4.wrapping_add(h5);
        let p3 = h6.wrapping_add(h7);
        let s0 = p0.wrapping_add(p1);
        let s1 = p2.wrapping_add(p3);
        let t = s0.wrapping_add(s1);
        if p0 & 0x7fff == 0 && p1 & 0x7fff == 0 && p2 & 0x7fff == 0 && p3 & 0x7fff == 0 && s0
            & 0x3fffffff == 0 && s1 & 0x3fffffff == 0 && t & 0xfffffffffffffff == 0 {
            Ok(())
        } else {
            Err(EquixError::HashSum)
        }
    }
}

/// Check a [`Solution`] against a challenge, with default hash options.
///
/// `Ok` exactly when an instance exists for the challenge and the hash
/// tree sums vanish; [`EquixError::Hash`] exactly when no instance
/// exists, and [`EquixError::HashSum`] exactly when one does but the
/// sums do not check out.
pub fn verify(challenge: &[u8], solution: &Solution) -> (r: Result<(), EquixError>)
    ensures
        hashx_builds(challenge@) && spec_tree_sums_ok(challenge@, solution.items@) ==> r
            == Ok::<(), EquixError>(()),
        hashx_builds(challenge@) && !spec_tree_sums_ok(challenge@, solution.items@) ==> r
            == Err::<(), EquixError>(EquixError::HashSum),
        !hashx_builds(challenge@) ==> r == Err::<(), EquixError>(
            EquixError::Hash(HashProblem::ProgramConstraints),
        ),
{
    match EquiX::new(challenge) {
        Ok(instance) => instance.verify(solution),
        Err(e) => Err(e),
    }
}

/// Check an item array against a challenge: first that it is a well
/// formed [`Solution`] (canonical order), then the hash tree sums.  An
/// order error comes exactly from an out-of-order array; the other
/// outcomes are those of [`verify`].
pub fn verify_array(challenge: &[u8], array: &[u16; 8]) -> (r: Result<(), EquixError>)
    ensures
        !spec_tree_ordered(array@) ==> r == Err::<(), EquixError>(EquixError::Order),
        spec_tree_ordered(array@) && !hashx_builds(challenge@) ==> r == Err::<(), EquixError>(
            EquixError::Hash(HashProblem::ProgramConstraints),
        ),
        spec_tree_ordered(array@) && hashx_builds(challenge@) && spec_tree_sums_ok(
            challenge@,
            array@,
        ) ==> r == Ok::<(), EquixError>(()),
        spec_tree_ordered(array@) && hashx_builds(challenge@) && !spec_tree_sums_ok(
            challenge@,
            array@,
        ) ==> r == Err::<(), EquixError>(EquixError::HashSum),
{
    // Check solution validity before even constructing the instance.
    match Solution::try_from_array(array) {
        Ok(solution) => verify(challenge, &solution),
        Err(e) => Err(e),
    }
}

/// Check a 16-byte solution against a challenge: first that it is a
/// well formed [`Solution`] (canonical order), then the hash tree sums.
/// An order error comes exactly from an out-of-order encoding; the
/// other outcomes are those of [`verify`].
pub fn verify_bytes(challenge: &[u8], bytes: &[u8; 16]) -> (r: Result<(), EquixError>)
    ensures
        !spec_tree_ordered(spec_items_from_bytes(bytes@)) ==> r == Err::<(), EquixError>(
            EquixError::Order,
        ),
        spec_tree_ordered(spec_items_from_bytes(bytes@)) && !hashx_builds(challenge@) ==> r
            == Err::<(), EquixError>(EquixError::Hash(HashProblem::ProgramConstraints)),
        spec_tree_ordered(spec_items_from_bytes(bytes@)) && hashx_builds(challenge@)
            && spec_tree_sums_ok(challenge@, spec_items_from_bytes(bytes@)) ==> r == Ok::<
            (),
            EquixError,
        >(()),
        spec_tree_ordered(spec_items_from_bytes(bytes@)) && hashx_builds(challenge@)
            && !spec_tree_sums_ok(challenge@, spec_items_from_bytes(bytes@)) ==> r == Err::<
            (),
            EquixError,
        >(EquixError::HashSum),
{
    // Check solution validity before even constructing the instance.
    match Solution::try_from_bytes(bytes) {
        Ok(solution) => verify(challenge, &solution),
        Err(e) => Err(e),
    }
}

} // verus!

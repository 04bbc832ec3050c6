use vstd::prelude::*;
use crate::comms::node_id::NodeIdError;

verus! {

/// The number of bytes a distance value occupies.
pub const NODE_XOR_DISTANCE_ARRAY_SIZE: usize = 16;

/// 256^n.
pub open spec fn pow256(n: nat) -> int
    decreases n,
{
    if n == 0 {
        1
    } else {
        256 * pow256((n - 1) as nat)
    }
}

proof fn lemma_pow256_pos(n: nat)
    ensures
        pow256(n) >= 1,
    decreases n,
{
    if n > 0 {
        lemma_pow256_pos((n - 1) as nat);
    }
}

proof fn lemma_pow256_mono(a: nat, b: nat)
    requires
        a <= b,
    ensures
        pow256(a) <= pow256(b),
        pow256(a) >= 1,
    decreases b,
{
    lemma_pow256_pos(a);
    if a < b {
        lemma_pow256_mono(a, (b - 1) as nat);
        lemma_pow256_pos((b - 1) as nat);
        assert(pow256(b) == 256 * pow256((b - 1) as nat));
        assert(pow256((b - 1) as nat) <= 256 * pow256((b - 1) as nat)) by (nonlinear_arith)
            requires
                pow256((b - 1) as nat) >= 1,
        ;
    }
}

/// The big-endian integer value of a byte string.
pub open spec fn spec_be_value(s: Seq<u8>) -> int
    decreases s.len(),
{
    if s.len() == 0 {
        0
    } else {
        spec_be_value(s.drop_last()) * 256 + s.last()
    }
}

proof fn lemma_be_value_bound(s: Seq<u8>)
    ensures
        0 <= spec_be_value(s) < pow256(s.len()),
    decreases s.len(),
{
    if s.len() > 0 {
        lemma_be_value_bound(s.drop_last());
        assert(spec_be_value(s.drop_last()) * 256 + s.last() < pow256(s.len())) by (
        nonlinear_arith)
            requires
                0 <= spec_be_value(s.drop_last()) < pow256((s.len() - 1) as nat),
                s.last() < 256,
                pow256(s.len()) == 256 * pow256((s.len() - 1) as nat),
        ;
    }
}

/// The bytewise XOR of two equal-length byte strings.
pub open spec fn spec_xor_bytes(a: Seq<u8>, b: Seq<u8>) -> Seq<u8> {
    Seq::new(a.len(), |i: int| a[i] ^ b[i])
}

/// The distance between two 13-byte node ids: the big-endian value of
/// their bytewise XOR.
pub open spec fn spec_xor_value(a: Seq<u8>, b: Seq<u8>) -> u128 {
    spec_be_value(spec_xor_bytes(a, b)) as u128
}

/// One bucketing step: starting from the range `[0, mx]` with index
/// `bucket_no`, repeatedly halve the range while the value falls below the
/// midpoint, stopping at bucket 0 at the latest.
pub open spec fn spec_bucket(val: u128, mx: u128, bucket_no: u32) -> (u128, u128, u32)
    decreases bucket_no,
{
    let mn = mx / 2;
    if bucket_no == 0 {
        (0, mx, 0)
    } else if mn > 0 && val < mn {
        spec_bucket(val, mn, (bucket_no - 1) as u32)
    } else {
        (mn, mx, bucket_no)
    }
}

/// The big-endian value of up to 16 bytes.
fn be_value_u128(s: &[u8]) -> (r: u128)
    requires
        s@.len() <= 16,
    ensures
        r == spec_be_value(s@),
{
    proof {
        lemma_pow256_mono(16, 16);
    }
    let mut v: u128 = 0;
    let mut i: usize = 0;
    while i < s.len()
        invariant
            i <= s@.len(),
            s@.len() <= 16,
            v == spec_be_value(s@.subrange(0, i as int)),
            v < pow256(i as nat),
        decreases s@.len() - i,
    {
        proof {
            let prefix = s@.subrange(0, i as int + 1);
            assert(prefix.drop_last() =~= s@.subrange(0, i as int));
            assert(prefix.last() == s@[i as int]);
            assert(v * 256 + s@[i as int] < pow256((i + 1) as nat)) by (nonlinear_arith)
                requires
                    0 <= v < pow256(i as nat),
                    s@[i as int] < 256,
                    pow256((i + 1) as nat) == 256 * pow256(i as nat),
            ;
            lemma_pow256_mono((i + 1) as nat, 16);
            assert(pow256(16) == 0x100000000000000000000000000000000) by {
                reveal_with_fuel(pow256, 17);
            }
        }
        v = v * 256 + (s[i] as u128);
        i = i + 1;
    }
    proof {
        assert(s@.subrange(0, s@.len() as int) =~= s@);
    }
    v
}

/// The XOR distance between two node ids, as a 128-bit value with room to
/// spare: 13-byte ids give 104-bit distances.
#[derive(Clone, Copy, Eq, PartialOrd, Ord, Default, Debug, Hash)]
pub struct XorDistance(pub u128);

impl PartialEq for XorDistance {
    fn eq(&self, nd: &XorDistance) -> (r: bool) {
        self.0 == nd.0
    }
}

impl vstd::std_specs::cmp::PartialEqSpecImpl for XorDistance {
    open spec fn obeys_eq_spec() -> bool {
        true
    }

    open spec fn eq_spec(&self, other: &Self) -> bool {
        self.0 == other.0
    }
}

impl XorDistance {
    /// A zero distance.
    pub fn new() -> (r: XorDistance)
        ensures
            r.0 == 0,
    {
        XorDistance(0)
    }

    /// The distance between two node ids.
    pub fn from_node_ids(
        x: &crate::comms::node_id::NodeId,
        y: &crate::comms::node_id::NodeId,
    ) -> (r: XorDistance)
        requires
            x.well_formed(),
            y.well_formed(),
        ensures
            r.0 == spec_xor_value(x@, y@),
    {
        let r = xor(x.as_bytes(), y.as_bytes());
        proof {
            assert(x@.subrange(0, 13) =~= x@);
            assert(y@.subrange(0, 13) =~= y@);
        }
        r
    }

    /// The largest representable distance: 104 set bits.
    pub fn max_distance() -> (r: XorDistance)
        ensures
            r.0 == 0xffffffffffffffffffffffffffu128,
    {
        proof {
            assert((u128::MAX >> 24) == 0xffffffffffffffffffffffffffu128) by (bit_vector);
        }
        XorDistance(u128::MAX >> ((NODE_XOR_DISTANCE_ARRAY_SIZE - 13) * 8) as u32)
    }

    /// A zero distance.
    pub fn zero() -> (r: XorDistance)
        ensures
            r.0 == 0,
    {
        XorDistance(0)
    }

    /// The number of bytes required to represent a distance.
    pub fn byte_length() -> (r: usize)
        ensures
            r == 16,
    {
        NODE_XOR_DISTANCE_ARRAY_SIZE
    }

    /// The bucket this distance falls in when the distance space is split
    /// into `num_buckets` nested half-open ranges: the bucket's bounds and
    /// its index.
    pub fn get_bucket(&self, num_buckets: u32) -> (r: (XorDistance, XorDistance, u32))
        requires
            num_buckets >= 1,
        ensures
            ({
                let s = spec_bucket(
                    self.0,
                    0xffffffffffffffffffffffffffu128,
                    (num_buckets - 1) as u32,
                );
                r.0.0 == s.0 && r.1.0 == s.1 && r.2 == s.2
            }),
    {
        let mut max: u128 = XorDistance::max_distance().0;
        let mut min: u128 = max / 2;
        let val: u128 = self.0;
        let mut bucket_no: u32 = num_buckets - 1;
        if bucket_no == 0 {
            return (XorDistance(0), XorDistance(max), 0);
        }
        while min > 0 && val < min
            invariant
                bucket_no >= 1,
                min == max / 2,
                val == self.0,
                num_buckets >= 1,
                spec_bucket(val, 0xffffffffffffffffffffffffffu128, (num_buckets - 1) as u32)
                    == spec_bucket(val, max, bucket_no),
            decreases bucket_no,
        {
            proof {
                assert(spec_bucket(val, max, bucket_no) == spec_bucket(
                    val,
                    max / 2,
                    (bucket_no - 1) as u32,
                ));
            }
            max = min;
            min = max / 2;
            bucket_no = bucket_no - 1;
            if bucket_no == 0 {
                proof {
                    assert(spec_bucket(val, max, 0u32) == (0u128, max, 0u32));
                }
                return (XorDistance(0), XorDistance(max), 0);
            }
        }
        (XorDistance(min), XorDistance(max), bucket_no)
    }

    /// Builds a distance from up to 16 big-endian bytes, left-padded with
    /// zeros.
    pub fn try_from(elements: &[u8]) -> (r: Result<XorDistance, NodeIdError>)
        ensures
            r is Ok <==> elements@.len() <= 16,
            r matches Ok(d) ==> d.0 == spec_be_value(elements@),
            r is Err ==> r == Result::<XorDistance, NodeIdError>::Err(
                NodeIdError::IncorrectByteCount,
            ),
    {
        if elements.len() > NODE_XOR_DISTANCE_ARRAY_SIZE {
            return Err(NodeIdError::IncorrectByteCount);
        }
        proof {
            lemma_be_value_bound(elements@);
            lemma_pow256_mono(elements@.len(), 16);
        }
        Ok(XorDistance(be_value_u128(elements)))
    }

    /// Every bucket of the distance space, smallest range first.
    pub fn get_buckets(num_buckets: u32) -> (r: Vec<(XorDistance, XorDistance, u32)>)
        ensures
            bucket_views(r@) == spec_buckets(0xffffffffffffffffffffffffffu128, num_buckets),
    {
        build_buckets(XorDistance::max_distance().0, num_buckets)
    }
}

/// The numeric values of a bucket list.
pub open spec fn bucket_views(s: Seq<(XorDistance, XorDistance, u32)>) -> Seq<(u128, u128, u32)> {
    s.map(|i: int, e: (XorDistance, XorDistance, u32)| (e.0.0, e.1.0, e.2))
}

/// The nested buckets under `[0, mx]` down from index `bucket_no`, smallest
/// range first: each step halves the range, stopping when the range or the
/// index reaches bottom.
pub open spec fn spec_buckets(mx: u128, bucket_no: u32) -> Seq<(u128, u128, u32)>
    decreases mx,
{
    let mn = mx / 2;
    if mn > 0 && bucket_no > 0 {
        spec_buckets(mn, (bucket_no - 1) as u32).push((mn, mx, bucket_no))
    } else {
        seq![(0u128, mx, bucket_no)]
    }
}

/// Builds the bucket list under `[0, mx]` down from index `bucket_no`.
fn build_buckets(mx: u128, bucket_no: u32) -> (r: Vec<(XorDistance, XorDistance, u32)>)
    ensures
        bucket_views(r@) == spec_buckets(mx, bucket_no),
    decreases mx,
{
    let mn = mx / 2;
    if mn > 0 && bucket_no > 0 {
        let mut r = build_buckets(mn, bucket_no - 1);
        let ghost pre = r@;
        r.push((XorDistance(mn), XorDistance(mx), bucket_no));
        proof {
            assert(bucket_views(r@) =~= bucket_views(pre).push((mn, mx, bucket_no)));
        }
        r
    } else {
        let mut r: Vec<(XorDistance, XorDistance, u32)> = Vec::new();
        r.push((XorDistance(0), XorDistance(mx), bucket_no));
        proof {
            assert(bucket_views(r@) =~= seq![(0u128, mx, bucket_no)]);
        }
        r
    }
}

/// The bytewise XOR of the first 13 bytes of two node ids, as a distance.
pub fn xor(x: &[u8], y: &[u8]) -> (r: XorDistance)
    requires
        x@.len() >= 13,
        y@.len() >= 13,
    ensures
        r.0 == spec_xor_value(x@.subrange(0, 13), y@.subrange(0, 13)),
{
    let mut nd: Vec<u8> = Vec::new();
    let mut i: usize = 0;
    while i < 13
        invariant
            i <= 13,
            x@.len() >= 13,
            y@.len() >= 13,
            nd@.len() == i,
            forall|j: int| 0 <= j < i ==> nd@[j] == (x@[j] ^ y@[j]),
        decreases 13 - i,
    {
        nd.push(x[i] ^ y[i]);
        i = i + 1;
    }
    proof {
        assert(nd@ =~= spec_xor_bytes(x@.subrange(0, 13), y@.subrange(0, 13)));
        lemma_be_value_bound(nd@);
        lemma_pow256_mono(13, 16);
    }
    let value = be_value_u128(nd.as_slice());
    XorDistance(value)
}

} // verus!

//! The saved state of a plugin: its parameter values one after another, each as the
//! four bytes of its bit pattern in the machine's byte order.
use vstd::prelude::*;

verus! {

/// The order in which the bytes of a value are written.
#[derive(Clone, Copy, Debug, PartialEq, Eq, Structural)]
pub enum ByteOrder {
    /// Least significant byte first.
    Little,
    /// Most significant byte first.
    Big,
}

/// The four bytes of `x`, in the given order.
pub open spec fn bytes_of(x: u32, order: ByteOrder) -> Seq<u8> {
    let b0 = (x & 0xff) as u8;
    let b1 = ((x >> 8u32) & 0xff) as u8;
    let b2 = ((x >> 16u32) & 0xff) as u8;
    let b3 = ((x >> 24u32) & 0xff) as u8;
    match order {
        ByteOrder::Little => seq![b0, b1, b2, b3],
        ByteOrder::Big => seq![b3, b2, b1, b0],
    }
}

/// The value whose bytes, in the given order, are the first four of `b`.
pub open spec fn value_of(b: Seq<u8>, order: ByteOrder) -> u32 {
    let (l0, l1, l2, l3) = match order {
        ByteOrder::Little => (b[0], b[1], b[2], b[3]),
        ByteOrder::Big => (b[3], b[2], b[1], b[0]),
    };
    (l0 as u32) | ((l1 as u32) << 8u32) | ((l2 as u32) << 16u32) | ((l3 as u32) << 24u32)
}

/// The bytes of a whole state: the values in order, four bytes each.
pub open spec fn state_bytes(values: Seq<u32>, order: ByteOrder) -> Seq<u8>
    decreases values.len(),
{
    if values.len() == 0 {
        Seq::empty()
    } else {
        state_bytes(values.drop_last(), order) + bytes_of(values.last(), order)
    }
}

proof fn lemma_bytes_round_trip(x: u32)
    ensures
        x == ((x & 0xff) as u8 as u32) | ((((x >> 8u32) & 0xff) as u8 as u32) << 8u32) | ((((x
            >> 16u32) & 0xff) as u8 as u32) << 16u32) | ((((x >> 24u32) & 0xff) as u8 as u32)
            << 24u32),
{
    assert(x == ((x & 0xff) as u8 as u32) | ((((x >> 8u32) & 0xff) as u8 as u32) << 8u32) | ((((x
        >> 16u32) & 0xff) as u8 as u32) << 16u32) | ((((x >> 24u32) & 0xff) as u8 as u32)
        << 24u32)) by (bit_vector);
}

/// A value read back from the bytes written for it is that value, in either order.
pub proof fn lemma_value_of_bytes(x: u32, order: ByteOrder)
    ensures
        bytes_of(x, order).len() == 4,
        value_of(bytes_of(x, order), order) == x,
{
    lemma_bytes_round_trip(x);
}

/// The bytes of `x` in the given order.
pub fn encode_value(x: u32, order: ByteOrder) -> (r: [u8; 4])
    ensures
        r@ == bytes_of(x, order),
{
    let b0 = (x & 0xff) as u8;
    let b1 = ((x >> 8u32) & 0xff) as u8;
    let b2 = ((x >> 16u32) & 0xff) as u8;
    let b3 = ((x >> 24u32) & 0xff) as u8;
    let r = match order {
        ByteOrder::Little => [b0, b1, b2, b3],
        ByteOrder::Big => [b3, b2, b1, b0],
    };
    proof {
        assert(r@ =~= bytes_of(x, order));
    }
    r
}

/// The value whose four bytes, in the given order, are `b`.
pub fn decode_value(b: [u8; 4], order: ByteOrder) -> (r: u32)
    ensures
        r == value_of(b@, order),
{
    let (l0, l1, l2, l3) = match order {
        ByteOrder::Little => (b[0], b[1], b[2], b[3]),
        ByteOrder::Big => (b[3], b[2], b[1], b[0]),
    };
    (l0 as u32) | ((l1 as u32) << 8u32) | ((l2 as u32) << 16u32) | ((l3 as u32) << 24u32)
}

proof fn lemma_state_bytes_len(values: Seq<u32>, order: ByteOrder)
    ensures
        state_bytes(values, order).len() == 4 * values.len(),
    decreases values.len(),
{
    if values.len() > 0 {
        lemma_state_bytes_len(values.drop_last(), order);
    }
}

/// The bytes of a state hold each value's four bytes at four times its position.
pub proof fn lemma_state_bytes_at(values: Seq<u32>, order: ByteOrder, i: int)
    requires
        0 <= i < values.len(),
    ensures
        state_bytes(values, order).len() == 4 * values.len(),
        state_bytes(values, order).subrange(4 * i, 4 * i + 4) == bytes_of(values[i], order),
    decreases values.len(),
{
    lemma_state_bytes_len(values, order);
    let init = values.drop_last();
    lemma_state_bytes_len(init, order);
    if i == values.len() - 1 {
        assert(state_bytes(values, order).subrange(4 * i, 4 * i + 4) =~= bytes_of(
            values[i],
            order,
        ));
    } else {
        lemma_state_bytes_at(init, order, i);
        assert(state_bytes(values, order).subrange(4 * i, 4 * i + 4) =~= state_bytes(
            init,
            order,
        ).subrange(4 * i, 4 * i + 4));
    }
}

/// The bytes of a state with the given values, in order.
pub fn encode_state(values: &Vec<u32>, order: ByteOrder) -> (r: Vec<u8>)
    requires
        values.len() * 4 <= usize::MAX,
    ensures
        r@ == state_bytes(values@, order),
{
    let mut r: Vec<u8> = Vec::new();
    let mut i: usize = 0;
    while i < values.len()
        invariant
            i <= values.len(),
            r@ == state_bytes(values@.subrange(0, i as int), order),
        decreases values.len() - i,
    {
        let b = encode_value(values[i], order);
        r.push(b[0]);
        r.push(b[1]);
        r.push(b[2]);
        r.push(b[3]);
        proof {
            let next = values@.subrange(0, i + 1);
            assert(next.drop_last() =~= values@.subrange(0, i as int));
            assert(r@ =~= state_bytes(next, order));
        }
        i = i + 1;
    }
    proof {
        assert(values@.subrange(0, values.len() as int) =~= values@);
    }
    r
}

/// What loading gets back of what saving wrote: the value read from the four bytes at
/// each position of a saved state is the value saved there.
pub proof fn lemma_state_round_trip(values: Seq<u32>, order: ByteOrder, i: int)
    requires
        0 <= i < values.len(),
    ensures
        value_of(state_bytes(values, order).subrange(4 * i, 4 * i + 4), order) == values[i],
{
    lemma_state_bytes_at(values, order, i);
    lemma_value_of_bytes(values[i], order);
}

} // verus!

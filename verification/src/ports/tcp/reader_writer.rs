use vstd::prelude::*;
use crate::plugins::{BytesOptions, OrderOptions};
use crate::ports::ReadStep;

verus! {

/// `256` to the power `n`.
pub open spec fn pow256(n: nat) -> nat
    decreases n,
{
    if n == 0 {
        1
    } else {
        256 * pow256((n - 1) as nat)
    }
}

/// The number that the bytes `s` spell, most significant byte first.
pub open spec fn be_value(s: Seq<u8>) -> nat
    decreases s.len(),
{
    if s.len() == 0 {
        0
    } else {
        be_value(s.drop_last()) * 256 + s.last() as nat
    }
}

/// The bytes of a size prefix, most significant first.
pub open spec fn most_significant_first(header: Seq<u8>, order: OrderOptions) -> Seq<u8> {
    match order {
        OrderOptions::BigEndian => header,
        OrderOptions::LittleEndian => header.reverse(),
    }
}

/// The number that a size prefix spells in the given byte order.
pub open spec fn prefix_value(header: Seq<u8>, order: OrderOptions) -> nat {
    be_value(most_significant_first(header, order))
}

/// The width in bytes of a size prefix of each integer type; the floating
/// types have no integer width.
pub open spec fn spec_size_width(bytes: BytesOptions) -> Option<nat> {
    match bytes {
        BytesOptions::U8 | BytesOptions::I8 => Some(1),
        BytesOptions::U16 | BytesOptions::I16 => Some(2),
        BytesOptions::U32 | BytesOptions::I32 => Some(4),
        BytesOptions::U64 | BytesOptions::I64 => Some(8),
        BytesOptions::U128 | BytesOptions::I128 => Some(16),
        BytesOptions::F32 | BytesOptions::F64 => None,
    }
}

/// Whether the prefix type is a signed integer.
pub open spec fn is_signed(bytes: BytesOptions) -> bool {
    match bytes {
        BytesOptions::I8
        | BytesOptions::I16
        | BytesOptions::I32
        | BytesOptions::I64
        | BytesOptions::I128 => true,
        _ => false,
    }
}

/// One more than the largest size that a prefix of an integer type can carry.
pub open spec fn size_bound(bytes: BytesOptions) -> nat {
    match spec_size_width(bytes) {
        Some(w) => if is_signed(bytes) {
            128 * pow256((w - 1) as nat)
        } else {
            pow256(w)
        },
        None => 0,
    }
}

/// Whether a message of `size` bytes can be announced by a prefix of this type.
pub open spec fn size_fits(size: nat, bytes: BytesOptions) -> bool {
    spec_size_width(bytes) is Some && size < size_bound(bytes)
}

/// The size that a prefix announces: none when the header has the wrong
/// width, spells a negative number, or does not fit a `usize`.
pub open spec fn spec_decode_size(header: Seq<u8>, bytes: BytesOptions, order: OrderOptions) -> Option<usize> {
    match spec_size_width(bytes) {
        None => None,
        Some(w) => if header.len() != w {
            None
        } else if is_signed(bytes) && most_significant_first(header, order)[0] >= 128 {
            None
        } else if prefix_value(header, order) > usize::MAX {
            None
        } else {
            Some(prefix_value(header, order) as usize)
        },
    }
}

/// A frame: the size prefix of the payload, then the payload.
pub open spec fn is_frame_of(frame: Seq<u8>, payload: Seq<u8>, bytes: BytesOptions, order: OrderOptions) -> bool {
    &&& spec_size_width(bytes) matches Some(w)
    &&& frame.len() == w + payload.len()
    &&& prefix_value(frame.subrange(0, w as int), order) == payload.len()
    &&& frame.subrange(w as int, frame.len() as int) == payload
}

/// The payload of the first frame at the start of `buffer` and the number of
/// bytes that frame takes; none while the buffer holds no complete frame or
/// its prefix is not a size.
pub open spec fn spec_read_frame(buffer: Seq<u8>, bytes: BytesOptions, order: OrderOptions) -> Option<(Seq<u8>, nat)> {
    match spec_size_width(bytes) {
        None => None,
        Some(w) => if buffer.len() < w {
            None
        } else {
            match spec_decode_size(buffer.subrange(0, w as int), bytes, order) {
                None => None,
                Some(size) => if buffer.len() < w + size {
                    None
                } else {
                    Some((buffer.subrange(w as int, w + size), (w + size) as nat))
                },
            }
        },
    }
}

proof fn lemma_pow256_positive(n: nat)
    ensures
        pow256(n) >= 1,
    decreases n,
{
    if n > 0 {
        lemma_pow256_positive((n - 1) as nat);
    }
}

proof fn lemma_pow256_16()
    ensures
        pow256(16) == 0x1_0000_0000_0000_0000_0000_0000_0000_0000,
        pow256(15) == 0x1_00_0000_0000_0000_0000_0000_0000_0000,
{
    reveal_with_fuel(pow256, 17);
}

proof fn lemma_pow256_monotone(a: nat, b: nat)
    requires
        a <= b,
    ensures
        pow256(a) <= pow256(b),
    decreases b,
{
    if a < b {
        lemma_pow256_monotone(a, (b - 1) as nat);
        lemma_pow256_positive((b - 1) as nat);
    }
}

proof fn lemma_be_value_bound(s: Seq<u8>)
    ensures
        be_value(s) < pow256(s.len()),
    decreases s.len(),
{
    if s.len() > 0 {
        let t = s.drop_last();
        lemma_be_value_bound(t);
        let v = be_value(t);
        let p = pow256(t.len());
        let b = s.last() as nat;
        assert(v * 256 + b < p * 256) by (nonlinear_arith)
            requires
                v < p,
                b < 256,
        ;
    }
}

proof fn lemma_be_value_prepend(b: u8, t: Seq<u8>)
    ensures
        be_value(seq![b] + t) == b * pow256(t.len()) + be_value(t),
    decreases t.len(),
{
    let s = seq![b] + t;
    if t.len() == 0 {
        assert(s.drop_last() =~= Seq::<u8>::empty());
        assert(be_value(s) == be_value(s.drop_last()) * 256 + s.last() as nat);
        assert(s.last() == b);
        assert(pow256(0) == 1);
        assert(b * pow256(t.len()) == b as nat);
        assert(be_value(t) == 0);
    } else {
        let u = t.drop_last();
        assert(s.drop_last() =~= seq![b] + u);
        assert(s.last() == t.last());
        assert(be_value(s) == be_value(s.drop_last()) * 256 + s.last() as nat);
        assert(be_value(t) == be_value(u) * 256 + t.last() as nat);
        assert(pow256(t.len()) == 256 * pow256(u.len()));
        lemma_be_value_prepend(b, u);
        let p = pow256(u.len());
        let bv = b as nat;
        let uv = be_value(u);
        assert((bv * p + uv) * 256 + t.last() == bv * (256 * p) + (uv * 256 + t.last())) by (nonlinear_arith);
        assert(be_value(s) == (bv * p + uv) * 256 + t.last());
    }
}

proof fn lemma_be_value_first(s: Seq<u8>)
    requires
        s.len() >= 1,
    ensures
        be_value(s) == s[0] * pow256((s.len() - 1) as nat) + be_value(s.drop_first()),
{
    assert(s =~= seq![s[0]] + s.drop_first());
    lemma_be_value_prepend(s[0], s.drop_first());
}

/// The width in bytes of a size prefix of the given type; none for the
/// floating types.
pub fn size_width(bytes: BytesOptions) -> (width: Option<usize>)
    ensures
        width matches Some(w) ==> spec_size_width(bytes) == Some(w as nat),
        width is None ==> spec_size_width(bytes) is None,
{
    match bytes {
        BytesOptions::U8 | BytesOptions::I8 => Some(1),
        BytesOptions::U16 | BytesOptions::I16 => Some(2),
        BytesOptions::U32 | BytesOptions::I32 => Some(4),
        BytesOptions::U64 | BytesOptions::I64 => Some(8),
        BytesOptions::U128 | BytesOptions::I128 => Some(16),
        BytesOptions::F32 | BytesOptions::F64 => None,
    }
}

fn signed(bytes: BytesOptions) -> (s: bool)
    ensures
        s == is_signed(bytes),
{
    match bytes {
        BytesOptions::I8
        | BytesOptions::I16
        | BytesOptions::I32
        | BytesOptions::I64
        | BytesOptions::I128 => true,
        _ => false,
    }
}

/// Encodes a message size as the prefix that announces it: none when the size
/// does not fit the prefix type or the type is a floating one.
pub fn encode_size(size: usize, bytes: BytesOptions, order: OrderOptions) -> (header: Option<Vec<u8>>)
    ensures
        header is Some <==> size_fits(size as nat, bytes),
        header matches Some(h) ==> {
            &&& spec_size_width(bytes) == Some(h@.len())
            &&& prefix_value(h@, order) == size
        },
{
    let width = match size_width(bytes) {
        Some(w) => w,
        None => {
            return None;
        },
    };
    let is_signed_type = signed(bytes);
    proof {
        lemma_pow256_16();
        lemma_pow256_monotone(width as nat, 16);
        lemma_pow256_monotone((width - 1) as nat, 15);
        assert(pow256(width as nat) == 256 * pow256((width - 1) as nat));
    }
    // The bound of the type, compared in 128 bits; a 128-bit type takes any
    // `usize`.
    let fits = if width >= 16 {
        assert(size < 128 * pow256(15));
        true
    } else {
        let bound: u128 = if is_signed_type {
            pow256_exec(width - 1) * 128
        } else {
            pow256_exec(width)
        };
        (size as u128) < bound
    };
    if !fits {
        return None;
    }
    assert(size < pow256(width as nat)) by {
        if is_signed_type {
            assert(128 * pow256((width - 1) as nat) <= pow256(width as nat));
        }
    }
    let mut little: Vec<u8> = Vec::new();
    let mut rest: u128 = size as u128;
    let mut i: usize = 0;
    while i < width
        invariant
            i <= width,
            width <= 16,
            little@.len() == i,
            size == be_value(little@.reverse()) + pow256(i as nat) * rest,
        decreases width - i,
    {
        let digit = (rest % 256) as u8;
        let q = rest / 256;
        proof {
            let old_little = little@;
            let new_little = old_little.push(digit);
            assert(new_little.reverse() =~= seq![digit] + old_little.reverse());
            lemma_be_value_prepend(digit, old_little.reverse());
            let p = pow256(i as nat);
            assert(pow256((i + 1) as nat) == 256 * p);
            assert(p * rest == digit * p + (256 * p) * q) by (nonlinear_arith)
                requires
                    rest == 256 * q + digit,
            ;
        }
        little.push(digit);
        rest = q;
        i = i + 1;
    }
    proof {
        lemma_be_value_bound(little@.reverse());
        let p = pow256(width as nat);
        if rest > 0 {
            assert(p * rest >= p) by (nonlinear_arith)
                requires
                    rest >= 1,
                    p >= 0,
            ;
        }
        assert(rest == 0);
    }
    match order {
        OrderOptions::LittleEndian => {
            Some(little)
        },
        OrderOptions::BigEndian => {
            let mut big: Vec<u8> = Vec::new();
            let mut k: usize = 0;
            while k < width
                invariant
                    k <= width,
                    little@.len() == width,
                    big@ =~= little@.reverse().subrange(0, k as int),
                decreases width - k,
            {
                big.push(little[width - 1 - k]);
                k = k + 1;
            }
            assert(big@ =~= little@.reverse());
            Some(big)
        },
    }
}

fn pow256_exec(n: usize) -> (p: u128)
    requires
        n <= 15,
    ensures
        p == pow256(n as nat),
{
    let mut p: u128 = 1;
    let mut i: usize = 0;
    while i < n
        invariant
            i <= n,
            n <= 15,
            p == pow256(i as nat),
        decreases n - i,
    {
        proof {
            lemma_pow256_16();
            lemma_pow256_monotone((i + 1) as nat, 15);
        }
        p = p * 256;
        i = i + 1;
    }
    p
}

/// Reads the size that a prefix announces; none when the header has the wrong
/// width for the type, spells a negative number, or does not fit a `usize`.
pub fn decode_size(header: &[u8], bytes: BytesOptions, order: OrderOptions) -> (size: Option<usize>)
    ensures
        size == spec_decode_size(header@, bytes, order),
{
    let width = match size_width(bytes) {
        Some(w) => w,
        None => {
            return None;
        },
    };
    if header.len() != width {
        return None;
    }
    let ghost ms = most_significant_first(header@, order);
    let big = match order {
        OrderOptions::BigEndian => true,
        OrderOptions::LittleEndian => false,
    };
    let first = if big { header[0] } else { header[width - 1] };
    assert(first == ms[0]);
    if signed(bytes) && first >= 128 {
        return None;
    }
    proof {
        lemma_pow256_16();
    }
    let mut acc: u128 = 0;
    let mut k: usize = 0;
    while k < width
        invariant
            k <= width,
            width <= 16,
            width == header@.len(),
            ms == most_significant_first(header@, order),
            big == (order == OrderOptions::BigEndian),
            acc == be_value(ms.subrange(0, k as int)),
            pow256(16) == 0x1_0000_0000_0000_0000_0000_0000_0000_0000,
        decreases width - k,
    {
        let byte = if big { header[k] } else { header[width - 1 - k] };
        proof {
            assert(byte == ms[k as int]);
            let pre = ms.subrange(0, k as int);
            let next = ms.subrange(0, k + 1);
            assert(next.drop_last() =~= pre);
            lemma_be_value_bound(next);
            lemma_pow256_monotone((k + 1) as nat, 16);
        }
        acc = acc * 256 + byte as u128;
        k = k + 1;
    }
    assert(ms.subrange(0, width as int) =~= ms);
    if acc > usize::MAX as u128 {
        None
    } else {
        Some(acc as usize)
    }
}

/// Frames a payload: its size prefix, then the payload itself. None when the
/// payload's size does not fit the prefix type.
pub fn frame_message(payload: &Vec<u8>, bytes: BytesOptions, order: OrderOptions) -> (frame: Option<Vec<u8>>)
    ensures
        frame is Some <==> size_fits(payload@.len(), bytes),
        frame matches Some(f) ==> is_frame_of(f@, payload@, bytes, order),
{
    match encode_size(payload.len(), bytes, order) {
        None => None,
        Some(header) => {
            let ghost h = header@;
            let mut frame = header;
            let mut body = payload.clone();
            assert(body@ == payload@);
            frame.append(&mut body);
            assert(frame@.subrange(0, h.len() as int) =~= h);
            assert(frame@.subrange(h.len() as int, frame@.len() as int) =~= payload@);
            Some(frame)
        },
    }
}

/// Splits the first complete frame off the start of `buffer`: its payload and
/// the number of bytes the frame takes.
pub fn read_frame(buffer: &[u8], bytes: BytesOptions, order: OrderOptions) -> (read: Option<(Vec<u8>, usize)>)
    ensures
        match read {
            Some((payload, consumed)) => spec_read_frame(buffer@, bytes, order) == Some(
                (payload@, consumed as nat),
            ),
            None => spec_read_frame(buffer@, bytes, order) is None,
        },
{
    let width = match size_width(bytes) {
        Some(w) => w,
        None => {
            return None;
        },
    };
    if buffer.len() < width {
        return None;
    }
    let mut header: Vec<u8> = Vec::new();
    let mut i: usize = 0;
    while i < width
        invariant
            i <= width,
            width <= buffer@.len(),
            header@ =~= buffer@.subrange(0, i as int),
        decreases width - i,
    {
        header.push(buffer[i]);
        i = i + 1;
    }
    let size = match decode_size(header.as_slice(), bytes, order) {
        Some(s) => s,
        None => {
            return None;
        },
    };
    if buffer.len() - width < size {
        return None;
    }
    let end = width + size;
    let mut payload: Vec<u8> = Vec::new();
    let mut j: usize = width;
    while j < end
        invariant
            width <= j <= end,
            end == width + size,
            end <= buffer@.len(),
            payload@ =~= buffer@.subrange(width as int, j as int),
        decreases end - j,
    {
        payload.push(buffer[j]);
        j = j + 1;
    }
    Some((payload, end))
}

/// What a task reading frames from a stream does after one frame: a size
/// prefix that was read and spells a size, followed by the whole payload,
/// passes the payload on; anything else reports the connection down and ends
/// the task.
pub fn frame_read_step(size: Option<usize>, payload_read: bool) -> (step: ReadStep)
    ensures
        step == (if size is Some && payload_read {
            ReadStep::Deliver
        } else {
            ReadStep::ReportDown { stop: true }
        }),
{
    if size.is_some() && payload_read {
        ReadStep::Deliver
    } else {
        ReadStep::ReportDown { stop: true }
    }
}

/// Decoding the prefix that encodes a size gives that size back.
pub proof fn lemma_size_roundtrip(size: usize, bytes: BytesOptions, order: OrderOptions, header: Seq<u8>)
    requires
        size_fits(size as nat, bytes),
        spec_size_width(bytes) == Some(header.len()),
        prefix_value(header, order) == size,
    ensures
        spec_decode_size(header, bytes, order) == Some(size),
{
    let ms = most_significant_first(header, order);
    let w = header.len();
    assert(ms.len() == w);
    if is_signed(bytes) {
        lemma_be_value_first(ms);
        lemma_be_value_bound(ms.drop_first());
        if ms[0] >= 128 {
            let p = pow256((w - 1) as nat);
            assert(ms[0] * p >= 128 * p) by (nonlinear_arith)
                requires
                    ms[0] >= 128,
            ;
        }
    }
}

/// Reading back a frame gives the framed payload and the whole frame's length.
pub proof fn lemma_frame_roundtrip(payload: Seq<u8>, bytes: BytesOptions, order: OrderOptions, frame: Seq<u8>, rest: Seq<u8>)
    requires
        is_frame_of(frame, payload, bytes, order),
        size_fits(payload.len(), bytes),
        payload.len() <= usize::MAX,
    ensures
        spec_read_frame(frame + rest, bytes, order) == Some((payload, frame.len())),
{
    let w = spec_size_width(bytes)->Some_0;
    let buffer = frame + rest;
    assert(buffer.subrange(0, w as int) =~= frame.subrange(0, w as int));
    lemma_size_roundtrip(payload.len() as usize, bytes, order, frame.subrange(0, w as int));
    assert(buffer.subrange(w as int, (w + payload.len()) as int) =~= frame.subrange(w as int, frame.len() as int));
}

/// A size prefix is as wide as the integer type it is named after, and it
/// carries exactly the sizes that type holds: every number from zero up to
/// the type's maximum. The floating types have no integer prefix.
pub proof fn lemma_prefix_is_its_integer_type(bytes: BytesOptions)
    ensures
        match bytes {
            BytesOptions::U8 => spec_size_width(bytes) == Some(vstd::layout::size_of::<u8>())
                && size_bound(bytes) == u8::MAX as nat + 1,
            BytesOptions::U16 => spec_size_width(bytes) == Some(vstd::layout::size_of::<u16>())
                && size_bound(bytes) == u16::MAX as nat + 1,
            BytesOptions::U32 => spec_size_width(bytes) == Some(vstd::layout::size_of::<u32>())
                && size_bound(bytes) == u32::MAX as nat + 1,
            BytesOptions::U64 => spec_size_width(bytes) == Some(vstd::layout::size_of::<u64>())
                && size_bound(bytes) == u64::MAX as nat + 1,
            BytesOptions::U128 => spec_size_width(bytes) == Some(vstd::layout::size_of::<u128>())
                && size_bound(bytes) == u128::MAX as nat + 1,
            BytesOptions::I8 => spec_size_width(bytes) == Some(vstd::layout::size_of::<i8>())
                && size_bound(bytes) == i8::MAX as nat + 1,
            BytesOptions::I16 => spec_size_width(bytes) == Some(vstd::layout::size_of::<i16>())
                && size_bound(bytes) == i16::MAX as nat + 1,
            BytesOptions::I32 => spec_size_width(bytes) == Some(vstd::layout::size_of::<i32>())
                && size_bound(bytes) == i32::MAX as nat + 1,
            BytesOptions::I64 => spec_size_width(bytes) == Some(vstd::layout::size_of::<i64>())
                && size_bound(bytes) == i64::MAX as nat + 1,
            BytesOptions::I128 => spec_size_width(bytes) == Some(vstd::layout::size_of::<i128>())
                && size_bound(bytes) == i128::MAX as nat + 1,
            BytesOptions::F32 | BytesOptions::F64 => spec_size_width(bytes) is None,
        },
{
    broadcast use vstd::layout::layout_of_primitives;
    reveal_with_fuel(pow256, 17);
}

/// A frame is as long as its integer prefix type plus the payload.
pub proof fn lemma_frame_length(frame: Seq<u8>, payload: Seq<u8>, bytes: BytesOptions, order: OrderOptions)
    requires
        is_frame_of(frame, payload, bytes, order),
    ensures
        match bytes {
            BytesOptions::U8 | BytesOptions::I8 => frame.len() == 1 + payload.len(),
            BytesOptions::U16 | BytesOptions::I16 => frame.len() == 2 + payload.len(),
            BytesOptions::U32 | BytesOptions::I32 => frame.len() == 4 + payload.len(),
            BytesOptions::U64 | BytesOptions::I64 => frame.len() == 8 + payload.len(),
            BytesOptions::U128 | BytesOptions::I128 => frame.len() == 16 + payload.len(),
            BytesOptions::F32 | BytesOptions::F64 => false,
        },
{
    lemma_prefix_is_its_integer_type(bytes);
    broadcast use vstd::layout::layout_of_primitives;
}

} // verus!

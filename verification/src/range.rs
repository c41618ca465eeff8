use vstd::prelude::*;
use crate::buffer::{buf_as_slice, buf_bytes, buf_extend, buf_len, buf_new, buf_put_u8};
use crate::codec::{FromSql, IsNull, SqlValue, ToSql};
use crate::fault::Fault;
use crate::num::{be_bytes_u32, be_u32, read_be_u32};
use crate::types::{range_element, Kind, Type};

verus! {

/// Wire flag marking an empty range.
pub const RANGE_EMPTY: u8 = 0x01;

/// Wire flag marking an inclusive lower bound.
pub const RANGE_LOWER_INCLUSIVE: u8 = 0x02;

/// Wire flag marking an inclusive upper bound.
pub const RANGE_UPPER_INCLUSIVE: u8 = 0x04;

/// Wire flag marking an unbounded lower side.
pub const RANGE_LOWER_UNBOUNDED: u8 = 0x08;

/// Wire flag marking an unbounded upper side.
pub const RANGE_UPPER_UNBOUNDED: u8 = 0x10;

/// Wire length marker standing for an explicitly null bound payload.
pub const NULL_PAYLOAD: u32 = 0xFFFF_FFFF;

/// Largest payload length the wire's signed length field can carry.
pub const MAX_PAYLOAD: u32 = 0x7FFF_FFFF;

/// Whether one side of an interval includes its bounding value.
#[derive(Clone, Copy, Debug, PartialEq, Eq, Structural)]
pub enum BoundType {
    /// The bounding value belongs to the interval.
    Inclusive,
    /// The bounding value lies outside the interval.
    Exclusive,
}

/// One side of an interval: a bounding value, inclusive or exclusive.
#[derive(Clone, Copy, Debug, PartialEq, Eq)]
pub struct RangeBound<T> {
    /// The bounding value.
    pub value: T,
    /// Whether the bounding value belongs to the interval.
    pub type_: BoundType,
}

impl<T> RangeBound<T> {
    /// Builds one side of an interval.
    pub fn new(value: T, type_: BoundType) -> (r: RangeBound<T>)
        ensures
            r.value == value,
            r.type_ == type_,
    {
        RangeBound { value, type_ }
    }
}

/// An interval over an ordered element type: empty, or a pair of optional
/// bounds where an absent bound leaves that side unbounded. Whether a bounded
/// pair is well ordered is left to the server; the codec does not check it.
#[derive(Clone, Copy, Debug, PartialEq, Eq)]
pub enum Range<T> {
    /// The empty interval.
    Empty,
    /// A non-empty interval with its two optional sides.
    Nonempty {
        /// The lower side, absent when unbounded below.
        lower: Option<RangeBound<T>>,
        /// The upper side, absent when unbounded above.
        upper: Option<RangeBound<T>>,
    },
}

impl<T> Range<T> {
    /// The empty interval.
    pub fn empty() -> (r: Range<T>)
        ensures
            r is Empty,
    {
        Range::Empty
    }

    /// A non-empty interval from its two optional sides.
    pub fn new(lower: Option<RangeBound<T>>, upper: Option<RangeBound<T>>) -> (r: Range<T>)
        ensures
            r == (Range::Nonempty { lower, upper }),
    {
        Range::Nonempty { lower, upper }
    }

    /// Whether the interval is empty.
    pub fn is_empty(&self) -> (r: bool)
        ensures
            r == (*self is Empty),
    {
        match self {
            Range::Empty => true,
            Range::Nonempty { .. } => false,
        }
    }

    /// The lower side; absent for the empty interval or an unbounded side.
    pub fn lower(&self) -> (r: Option<&RangeBound<T>>)
        ensures
            match *self {
                Range::Empty => r is None,
                Range::Nonempty { lower, .. } => match (r, lower) {
                    (Some(a), Some(b)) => *a == b,
                    (None, None) => true,
                    _ => false,
                },
            },
    {
        match self {
            Range::Empty => None,
            Range::Nonempty { lower, .. } => match lower {
                Some(b) => Some(b),
                None => None,
            },
        }
    }

    /// The upper side; absent for the empty interval or an unbounded side.
    pub fn upper(&self) -> (r: Option<&RangeBound<T>>)
        ensures
            match *self {
                Range::Empty => r is None,
                Range::Nonempty { upper, .. } => match (r, upper) {
                    (Some(a), Some(b)) => *a == b,
                    (None, None) => true,
                    _ => false,
                },
            },
    {
        match self {
            Range::Empty => None,
            Range::Nonempty { upper, .. } => match upper {
                Some(b) => Some(b),
                None => None,
            },
        }
    }
}

/// The model of one optional interval side.
pub open spec fn bound_model<T: SqlValue>(b: Option<RangeBound<T>>) -> Option<
    RangeBound<T::Model>,
> {
    match b {
        Some(rb) => Some(RangeBound { value: rb.value.model(), type_: rb.type_ }),
        None => None,
    }
}

impl<T: SqlValue> SqlValue for Range<T> {
    type Model = Range<T::Model>;

    open spec fn model(self) -> Range<T::Model> {
        match self {
            Range::Empty => Range::Empty,
            Range::Nonempty { lower, upper } => Range::Nonempty {
                lower: bound_model(lower),
                upper: bound_model(upper),
            },
        }
    }
}

// --- The wire frame of a range ---------------------------------------------

/// The flag contributed by one side of the interval.
pub open spec fn side_flag<M>(b: Option<RangeBound<M>>, unbounded: u8, inclusive: u8) -> u8 {
    match b {
        None => unbounded,
        Some(rb) => if rb.type_ is Inclusive {
            inclusive
        } else {
            0
        },
    }
}

/// The leading flag byte of a non-empty range frame.
pub open spec fn range_flags<M>(lower: Option<RangeBound<M>>, upper: Option<RangeBound<M>>) -> u8 {
    side_flag(lower, RANGE_LOWER_UNBOUNDED, RANGE_LOWER_INCLUSIVE) | side_flag(
        upper,
        RANGE_UPPER_UNBOUNDED,
        RANGE_UPPER_INCLUSIVE,
    )
}

/// The wire bytes of one bound frame: nothing for an unbounded side, the null
/// length marker for a null payload, else a length header and the payload.
pub open spec fn bound_frame_bytes<T: ToSql>(b: Option<RangeBound<T::Model>>, elem: Type) -> Result<
    Seq<u8>,
    (),
> {
    match b {
        None => Ok(Seq::<u8>::empty()),
        Some(rb) => match <T as ToSql>::encoded(rb.value, elem) {
            Ok(p) => if p.0 is Yes {
                Ok(be_bytes_u32(NULL_PAYLOAD))
            } else if p.1.len() <= MAX_PAYLOAD {
                Ok(be_bytes_u32(p.1.len() as u32) + p.1)
            } else {
                Err(())
            },
            Err(_) => Err(()),
        },
    }
}

/// Parses one bound frame of `raw` starting at `i`, returning the bound and
/// the position after it.
pub open spec fn parse_bound<T: FromSql>(
    elem: Type,
    raw: Seq<u8>,
    i: int,
    unbounded: bool,
    inclusive: bool,
) -> Result<(Option<RangeBound<T::Model>>, int), ()> {
    let bt = if inclusive {
        BoundType::Inclusive
    } else {
        BoundType::Exclusive
    };
    if unbounded {
        Ok((None, i))
    } else if i + 4 <= raw.len() {
        let len = be_u32(raw.subrange(i, i + 4));
        if len == NULL_PAYLOAD {
            match <T as FromSql>::decoded_null(elem) {
                Ok(m) => Ok((Some(RangeBound { value: m, type_: bt }), i + 4)),
                Err(_) => Err(()),
            }
        } else if i + 4 + len <= raw.len() {
            match <T as FromSql>::decoded(elem, raw.subrange(i + 4, i + 4 + len)) {
                Ok(m) => Ok((Some(RangeBound { value: m, type_: bt }), i + 4 + len)),
                Err(_) => Err(()),
            }
        } else {
            Err(())
        }
    } else {
        Err(())
    }
}

// --- Decoding --------------------------------------------------------------

/// Reads one bound frame of `raw` starting at `i`.
fn read_bound<T: FromSql>(
    elem: &Type,
    raw: &[u8],
    i: usize,
    unbounded: bool,
    inclusive: bool,
) -> (r: Result<(Option<RangeBound<T>>, usize), Fault>)
    requires
        <T as FromSql>::accepts_spec(*elem),
        i <= raw@.len(),
    ensures
        (r matches Ok(p) ==> parse_bound::<T>(*elem, raw@, i as int, unbounded, inclusive)
            matches Ok(q) && bound_model(p.0) == q.0 && p.1 == q.1 && i <= p.1 <= raw@.len()),
        (r is Err ==> parse_bound::<T>(*elem, raw@, i as int, unbounded, inclusive) is Err),
{
    let bt = if inclusive {
        BoundType::Inclusive
    } else {
        BoundType::Exclusive
    };
    if unbounded {
        Ok((None, i))
    } else if raw.len() - i < 4 {
        Err(Fault::new("invalid message length: range bound header truncated".to_owned()))
    } else {
        let len = read_be_u32(raw, i);
        if len == NULL_PAYLOAD {
            match <T as FromSql>::from_sql_null(elem) {
                Ok(v) => Ok((Some(RangeBound { value: v, type_: bt }), i + 4)),
                Err(f) => Err(f),
            }
        } else if (len as usize) <= raw.len() - (i + 4) {
            let payload = vstd::slice::slice_subrange(raw, i + 4, i + 4 + len as usize);
            match <T as FromSql>::from_sql(elem, payload) {
                Ok(v) => Ok((Some(RangeBound { value: v, type_: bt }), i + 4 + len as usize)),
                Err(f) => Err(f),
            }
        } else {
            Err(Fault::new("invalid message length: range bound payload truncated".to_owned()))
        }
    }
}

impl<T: FromSql> FromSql for Range<T> {
    open spec fn accepts_spec(ty: Type) -> bool {
        ty.spec_kind() matches Kind::Range(elem) && <T as FromSql>::accepts_spec(*elem)
    }

    open spec fn decoded(ty: Type, raw: Seq<u8>) -> Result<Range<T::Model>, ()> {
        let elem = range_element(ty);
        if raw.len() < 1 {
            Err(())
        } else {
            let flags = raw[0];
            if flags & RANGE_EMPTY != 0 {
                if raw.len() == 1 {
                    Ok(Range::Empty)
                } else {
                    Err(())
                }
            } else {
                match parse_bound::<T>(
                    elem,
                    raw,
                    1,
                    flags & RANGE_LOWER_UNBOUNDED != 0,
                    flags & RANGE_LOWER_INCLUSIVE != 0,
                ) {
                    Ok((lower, j)) => match parse_bound::<T>(
                        elem,
                        raw,
                        j,
                        flags & RANGE_UPPER_UNBOUNDED != 0,
                        flags & RANGE_UPPER_INCLUSIVE != 0,
                    ) {
                        Ok((upper, k)) => if k == raw.len() {
                            Ok(Range::Nonempty { lower, upper })
                        } else {
                            Err(())
                        },
                        Err(_) => Err(()),
                    },
                    Err(_) => Err(()),
                }
            }
        }
    }

    open spec fn decoded_null(ty: Type) -> Result<Range<T::Model>, ()> {
        Err(())
    }

    fn accepts(ty: &Type) -> (r: bool) {
        match ty.kind() {
            Kind::Range(elem) => <T as FromSql>::accepts(elem),
            _ => false,
        }
    }

    fn from_sql(ty: &Type, raw: &[u8]) -> (r: Result<Range<T>, Fault>) {
        let elem: &Type = match ty.kind() {
            Kind::Range(e) => e,
            _ => vstd::pervasive::unreached(),
        };
        if raw.len() < 1 {
            return Err(Fault::new("invalid message length: range flags missing".to_owned()));
        }
        let flags = raw[0];
        if flags & RANGE_EMPTY != 0 {
            if raw.len() == 1 {
                Ok(Range::empty())
            } else {
                Err(Fault::new("invalid message length: empty range with trailing bytes".to_owned()))
            }
        } else {
            match read_bound::<T>(
                elem,
                raw,
                1,
                flags & RANGE_LOWER_UNBOUNDED != 0,
                flags & RANGE_LOWER_INCLUSIVE != 0,
            ) {
                Err(f) => Err(f),
                Ok((lower, j)) => match read_bound::<T>(
                    elem,
                    raw,
                    j,
                    flags & RANGE_UPPER_UNBOUNDED != 0,
                    flags & RANGE_UPPER_INCLUSIVE != 0,
                ) {
                    Err(f) => Err(f),
                    Ok((upper, k)) => if k == raw.len() {
                        Ok(Range::Nonempty { lower, upper })
                    } else {
                        Err(Fault::new(
                            "invalid message length: range with trailing bytes".to_owned(),
                        ))
                    },
                },
            }
        }
    }

    fn from_sql_null(ty: &Type) -> (r: Result<Range<T>, Fault>) {
        Err(Fault::new("a Postgres value was `NULL`".to_owned()))
    }
}

// --- Encoding --------------------------------------------------------------

/// Appends the four big-endian bytes of `x` to `out`.
fn put_be_u32(out: &mut bytes::BytesMut, x: u32)
    ensures
        buf_bytes(*final(out)) == buf_bytes(*old(out)) + be_bytes_u32(x),
{
    buf_put_u8(out, (x >> 24) as u8);
    buf_put_u8(out, (x >> 16) as u8);
    buf_put_u8(out, (x >> 8) as u8);
    buf_put_u8(out, x as u8);
    proof {
        assert(buf_bytes(*final(out)) =~= buf_bytes(*old(out)) + be_bytes_u32(x));
    }
}

/// Writes one bound frame to `out`, encoding the bound's payload through the
/// element codec.
fn write_bound<T: ToSql>(b: &Option<RangeBound<T>>, elem: &Type, out: &mut bytes::BytesMut) -> (r:
    Result<(), Fault>)
    requires
        <T as ToSql>::accepts_spec(*elem),
    ensures
        (r is Ok ==> (bound_frame_bytes::<T>(bound_model(*b), *elem) matches Ok(bs) && buf_bytes(
            *final(out),
        ) == buf_bytes(*old(out)) + bs)),
        (r is Err ==> bound_frame_bytes::<T>(bound_model(*b), *elem) is Err),
        (r is Err ==> buf_bytes(*old(out)).is_prefix_of(buf_bytes(*final(out)))),
{
    match b {
        None => {
            proof {
                assert(buf_bytes(*out) =~= buf_bytes(*out) + Seq::<u8>::empty());
            }
            Ok(())
        },
        Some(rb) => {
            let mut tmp = buf_new();
            match rb.value.to_sql(elem, &mut tmp) {
                Err(f) => {
                    proof {
                        crate::num::lemma_prefix_refl(buf_bytes(*out));
                    }
                    Err(f)
                },
                Ok(IsNull::Yes) => {
                    put_be_u32(out, NULL_PAYLOAD);
                    Ok(())
                },
                Ok(IsNull::No) => {
                    let len = buf_len(&tmp);
                    if len > MAX_PAYLOAD as usize {
                        proof {
                            crate::num::lemma_prefix_refl(buf_bytes(*out));
                        }
                        Err(Fault::new("value too large to transmit".to_owned()))
                    } else {
                        put_be_u32(out, len as u32);
                        buf_extend(out, buf_as_slice(&tmp));
                        proof {
                            let p = <T as ToSql>::encoded(rb.value.model(), *elem)->Ok_0;
                            assert(buf_bytes(tmp) =~= p.1);
                            assert(buf_bytes(*final(out)) =~= buf_bytes(*old(out)) + (be_bytes_u32(
                                p.1.len() as u32,
                            ) + p.1));
                        }
                        Ok(())
                    }
                },
            }
        },
    }
}

impl<T: ToSql> ToSql for Range<T> {
    open spec fn accepts_spec(ty: Type) -> bool {
        ty.spec_kind() matches Kind::Range(elem) && <T as ToSql>::accepts_spec(*elem)
    }

    open spec fn encoded(m: Range<T::Model>, ty: Type) -> Result<(IsNull, Seq<u8>), ()> {
        match m {
            Range::Empty => Ok((IsNull::No, seq![RANGE_EMPTY])),
            Range::Nonempty { lower, upper } => {
                let elem = range_element(ty);
                match (bound_frame_bytes::<T>(lower, elem), bound_frame_bytes::<T>(upper, elem)) {
                    (Ok(lb), Ok(ub)) => Ok(
                        (IsNull::No, seq![range_flags(lower, upper)] + lb + ub),
                    ),
                    _ => Err(()),
                }
            },
        }
    }

    fn accepts(ty: &Type) -> (r: bool) {
        match ty.kind() {
            Kind::Range(elem) => <T as ToSql>::accepts(elem),
            _ => false,
        }
    }

    fn to_sql(&self, ty: &Type, out: &mut bytes::BytesMut) -> (r: Result<IsNull, Fault>) {
        let elem: &Type = match ty.kind() {
            Kind::Range(e) => e,
            _ => vstd::pervasive::unreached(),
        };
        match self {
            Range::Empty => {
                buf_put_u8(out, RANGE_EMPTY);
                proof {
                    assert(buf_bytes(*final(out)) =~= buf_bytes(*old(out)) + seq![RANGE_EMPTY]);
                }
                Ok(IsNull::No)
            },
            Range::Nonempty { lower, upper } => {
                let lf: u8 = match lower {
                    None => RANGE_LOWER_UNBOUNDED,
                    Some(rb) => match rb.type_ {
                        BoundType::Inclusive => RANGE_LOWER_INCLUSIVE,
                        BoundType::Exclusive => 0,
                    },
                };
                let uf: u8 = match upper {
                    None => RANGE_UPPER_UNBOUNDED,
                    Some(rb) => match rb.type_ {
                        BoundType::Inclusive => RANGE_UPPER_INCLUSIVE,
                        BoundType::Exclusive => 0,
                    },
                };
                buf_put_u8(out, lf | uf);
                let ghost b0 = buf_bytes(*old(out));
                proof {
                    assert(b0.push(lf | uf) =~= b0 + seq![lf | uf]);
                }
                match write_bound::<T>(lower, elem, out) {
                    Err(f) => {
                        proof {
                            crate::num::lemma_prefix_extend(b0, seq![lf | uf]);
                            crate::num::lemma_prefix_trans(
                                b0,
                                b0 + seq![lf | uf],
                                buf_bytes(*final(out)),
                            );
                        }
                        Err(f)
                    },
                    Ok(()) => match write_bound::<T>(upper, elem, out) {
                        Err(f) => {
                            proof {
                                let lb = bound_frame_bytes::<T>(bound_model(*lower), *elem)->Ok_0;
                                assert((b0 + seq![lf | uf]) + lb =~= b0 + (seq![lf | uf] + lb));
                                crate::num::lemma_prefix_extend(b0, seq![lf | uf] + lb);
                                crate::num::lemma_prefix_trans(
                                    b0,
                                    b0 + (seq![lf | uf] + lb),
                                    buf_bytes(*final(out)),
                                );
                            }
                            Err(f)
                        },
                        Ok(()) => {
                            proof {
                                let lm = bound_model(*lower);
                                let um = bound_model(*upper);
                                let lb = bound_frame_bytes::<T>(lm, *elem)->Ok_0;
                                let ub = bound_frame_bytes::<T>(um, *elem)->Ok_0;
                                assert(lf | uf == range_flags(lm, um));
                                assert(buf_bytes(*final(out)) =~= buf_bytes(*old(out)) + (seq![
                                    range_flags(lm, um),
                                ] + lb + ub));
                            }
                            Ok(IsNull::No)
                        },
                    },
                }
            },
        }
    }
}

// --- The round-trip law ----------------------------------------------------

/// Parsing one bound frame out of a larger buffer recovers the bound that was
/// framed and stops right after the frame.
proof fn lemma_parse_bound_frame<T: FromSql + ToSql>(
    b: Option<RangeBound<T::Model>>,
    elem: Type,
    raw: Seq<u8>,
    i: int,
)
    requires
        bound_frame_bytes::<T>(b, elem) is Ok,
        0 <= i,
        i + bound_frame_bytes::<T>(b, elem)->Ok_0.len() <= raw.len(),
        raw.subrange(i, i + bound_frame_bytes::<T>(b, elem)->Ok_0.len() as int)
            == bound_frame_bytes::<T>(b, elem)->Ok_0,
        forall|v: T::Model|
            #[trigger] <T as ToSql>::encoded(v, elem) matches Ok(p) ==> (p.0 is No
                ==> <T as FromSql>::decoded(elem, p.1) == Ok::<T::Model, ()>(v)),
        forall|v: T::Model|
            #[trigger] <T as ToSql>::encoded(v, elem) matches Ok(p) ==> (p.0 is Yes
                ==> <T as FromSql>::decoded_null(elem) == Ok::<T::Model, ()>(v)),
    ensures
        parse_bound::<T>(
            elem,
            raw,
            i,
            b is None,
            match b {
                Some(rb) => rb.type_ is Inclusive,
                None => false,
            },
        ) == Ok::<_, ()>((b, i + bound_frame_bytes::<T>(b, elem)->Ok_0.len())),
{
    let bs = bound_frame_bytes::<T>(b, elem)->Ok_0;
    match b {
        None => {
            assert(bs.len() == 0);
        },
        Some(rb) => {
            let p = <T as ToSql>::encoded(rb.value, elem)->Ok_0;
            let inc = rb.type_ is Inclusive;
            if p.0 is Yes {
                assert(bs == be_bytes_u32(NULL_PAYLOAD));
                assert(raw.subrange(i, i + 4) == bs);
                crate::num::lemma_be_u32_round_trip(NULL_PAYLOAD);
                assert(be_u32(raw.subrange(i, i + 4)) == NULL_PAYLOAD);
                assert(<T as FromSql>::decoded_null(elem) == Ok::<T::Model, ()>(rb.value));
                let bt = if inc {
                    BoundType::Inclusive
                } else {
                    BoundType::Exclusive
                };
                assert(bt == rb.type_);
            } else {
                let len = p.1.len() as u32;
                assert(bs == be_bytes_u32(len) + p.1);
                assert(raw.subrange(i, i + 4) =~= bs.subrange(0, 4));
                assert(bs.subrange(0, 4) =~= be_bytes_u32(len));
                crate::num::lemma_be_u32_round_trip(len);
                assert(be_u32(raw.subrange(i, i + 4)) == len);
                assert(len != NULL_PAYLOAD) by {
                    assert(p.1.len() <= MAX_PAYLOAD);
                }
                assert(raw.subrange(i + 4, i + 4 + len) =~= bs.subrange(4, 4 + len));
                assert(bs.subrange(4, 4 + len) =~= p.1);
                assert(<T as FromSql>::decoded(elem, p.1) == Ok::<T::Model, ()>(rb.value));
                let bt = if inc {
                    BoundType::Inclusive
                } else {
                    BoundType::Exclusive
                };
                assert(bt == rb.type_);
            }
        },
    }
}

/// Round trip: decoding the wire bytes of any representable range value
/// recovers that value, whenever the element codec itself round-trips over
/// the range's element type.
pub proof fn lemma_range_round_trip<T: FromSql + ToSql>(m: Range<T::Model>, ty: Type)
    requires
        ty.spec_kind() matches Kind::Range(_),
        forall|v: T::Model|
            #[trigger] <T as ToSql>::encoded(v, range_element(ty)) matches Ok(p) ==> (p.0 is No
                ==> <T as FromSql>::decoded(range_element(ty), p.1) == Ok::<T::Model, ()>(v)),
        forall|v: T::Model|
            #[trigger] <T as ToSql>::encoded(v, range_element(ty)) matches Ok(p) ==> (p.0 is Yes
                ==> <T as FromSql>::decoded_null(range_element(ty)) == Ok::<T::Model, ()>(v)),
    ensures
        <Range<T> as ToSql>::encoded(m, ty) matches Ok(p) ==> p.0 is No && <Range<
            T,
        > as FromSql>::decoded(ty, p.1) == Ok::<Range<T::Model>, ()>(m),
{
    let elem = range_element(ty);
    if <Range<T> as ToSql>::encoded(m, ty) is Ok {
        match m {
            Range::Empty => {
                let raw = seq![RANGE_EMPTY];
                assert(raw[0] == 1u8);
                assert(1u8 & 1u8 != 0u8) by (bit_vector);
                assert(<Range<T> as FromSql>::decoded(ty, raw) == Ok::<Range<T::Model>, ()>(m));
            },
            Range::Nonempty { lower, upper } => {
                let lb = bound_frame_bytes::<T>(lower, elem)->Ok_0;
                let ub = bound_frame_bytes::<T>(upper, elem)->Ok_0;
                let f = range_flags(lower, upper);
                let raw = seq![f] + lb + ub;
                let lf = side_flag(lower, RANGE_LOWER_UNBOUNDED, RANGE_LOWER_INCLUSIVE);
                let uf = side_flag(upper, RANGE_UPPER_UNBOUNDED, RANGE_UPPER_INCLUSIVE);
                assert(f == (lf | uf));
                assert((lf == 8 || lf == 2 || lf == 0) && (uf == 16 || uf == 4 || uf == 0));
                let f2 = lf | uf;
                assert((f2 & 1 == 0) && ((f2 & 8 != 0) <==> lf == 8) && ((f2 & 2 != 0) <==> lf
                    == 2) && ((f2 & 16 != 0) <==> uf == 16) && ((f2 & 4 != 0) <==> uf == 4))
                    by (bit_vector)
                    requires
                        (lf == 8 || lf == 2 || lf == 0) && (uf == 16 || uf == 4 || uf == 0) && f2
                            == (lf | uf),
                ;
                assert(raw[0] == f);
                assert(raw.subrange(1, 1 + lb.len() as int) =~= lb);
                lemma_parse_bound_frame::<T>(lower, elem, raw, 1);
                assert((f & 8 != 0) == (lower is None));
                assert((f & 2 != 0) == match lower {
                    Some(rb) => rb.type_ is Inclusive,
                    None => false,
                });
                let j = 1 + lb.len() as int;
                assert(raw.subrange(j, j + ub.len() as int) =~= ub);
                lemma_parse_bound_frame::<T>(upper, elem, raw, j);
                assert((f & 16 != 0) == (upper is None));
                assert((f & 4 != 0) == match upper {
                    Some(rb) => rb.type_ is Inclusive,
                    None => false,
                });
                assert(j + ub.len() == raw.len());
                assert(<Range<T> as FromSql>::decoded(ty, raw) == Ok::<Range<T::Model>, ()>(m));
            },
        }
    }
}

} // verus!

use vstd::prelude::*;
use vstd::utf8::{decode_utf8, encode_utf8, valid_utf8};
use crate::buffer::{buf_bytes, buf_extend, buf_put_u8};
use crate::fault::Fault;
use crate::num::{be_bytes_u32, be_u32, read_be_u32};
use crate::types::{Kind, Type};

verus! {

/// Object identifier of the four-byte integer type.
pub const OID_INT4: u32 = 23;

/// Object identifier of the unbounded text type.
pub const OID_TEXT: u32 = 25;

/// Object identifier of the bounded varying-character text type.
pub const OID_VARCHAR: u32 = 1043;

/// Whether an encoded value stands for SQL NULL.
#[derive(Clone, Copy, Debug, PartialEq, Eq, Structural)]
pub enum IsNull {
    /// The value is SQL NULL; no wire bytes represent it.
    Yes,
    /// The value is not SQL NULL.
    No,
}

/// A value type that takes part in the wire codec; its contracts speak of the
/// value's mathematical model.
pub trait SqlValue: Sized {
    /// The mathematical model of one value.
    type Model;

    /// The model of this value.
    spec fn model(self) -> Self::Model;
}

/// The decode half of a codec capability: per value type, a predicate for the
/// wire types it accepts and a decoding from wire bytes.
pub trait FromSql: SqlValue {
    /// Which wire types this value type decodes from.
    spec fn accepts_spec(ty: Type) -> bool;

    /// The model decoded from the given wire bytes, or a failure.
    spec fn decoded(ty: Type, raw: Seq<u8>) -> Result<Self::Model, ()>;

    /// The model produced for an absent (SQL NULL) wire value, or a failure.
    spec fn decoded_null(ty: Type) -> Result<Self::Model, ()>;

    /// Whether this value type accepts the given wire type; callers must
    /// check it (or bind types statically) before decoding.
    fn accepts(ty: &Type) -> (r: bool)
        ensures
            r == Self::accepts_spec(*ty),
    ;

    /// Decodes a non-null wire value.
    fn from_sql(ty: &Type, raw: &[u8]) -> (r: Result<Self, Fault>)
        requires
            Self::accepts_spec(*ty),
        ensures
            (r matches Ok(v) ==> Self::decoded(*ty, raw@) matches Ok(m) && v.model() == m),
            (r is Err ==> Self::decoded(*ty, raw@) is Err),
    ;

    /// Decodes an absent (SQL NULL) wire value.
    fn from_sql_null(ty: &Type) -> (r: Result<Self, Fault>)
        requires
            Self::accepts_spec(*ty),
        ensures
            (r matches Ok(v) ==> Self::decoded_null(*ty) matches Ok(m) && v.model() == m),
            (r is Err ==> Self::decoded_null(*ty) is Err),
    ;
}

/// The encode half of a codec capability: per value type, a predicate for the
/// wire types it accepts and an encoding into wire bytes.
pub trait ToSql: SqlValue {
    /// Which wire types this value type encodes to.
    spec fn accepts_spec(ty: Type) -> bool;

    /// The null flag and wire bytes a model encodes to, or a failure.
    spec fn encoded(m: Self::Model, ty: Type) -> Result<(IsNull, Seq<u8>), ()>;

    /// Whether this value type accepts the given wire type; callers must
    /// check it (or bind types statically) before encoding.
    fn accepts(ty: &Type) -> (r: bool)
        ensures
            r == Self::accepts_spec(*ty),
    ;

    /// Appends the value's wire bytes to `out` and reports whether the
    /// logical result is SQL NULL; even a failed encoding only ever appends
    /// to the buffer.
    fn to_sql(&self, ty: &Type, out: &mut bytes::BytesMut) -> (r: Result<IsNull, Fault>)
        requires
            Self::accepts_spec(*ty),
        ensures
            (r matches Ok(n) ==> Self::encoded((*self).model(), *ty) matches Ok(p) && p.0 == n
                && buf_bytes(*final(out)) == buf_bytes(*old(out)) + p.1),
            (r is Err ==> Self::encoded((*self).model(), *ty) is Err),
            (r is Err ==> buf_bytes(*old(out)).is_prefix_of(buf_bytes(*final(out)))),
    ;
}

// --- Four-byte integers ----------------------------------------------------

impl SqlValue for i32 {
    type Model = i32;

    open spec fn model(self) -> i32 {
        self
    }
}

impl FromSql for i32 {
    open spec fn accepts_spec(ty: Type) -> bool {
        ty.spec_kind() is Simple && ty.spec_oid() == OID_INT4
    }

    open spec fn decoded(ty: Type, raw: Seq<u8>) -> Result<i32, ()> {
        if raw.len() == 4 {
            Ok(be_u32(raw) as i32)
        } else {
            Err(())
        }
    }

    open spec fn decoded_null(ty: Type) -> Result<i32, ()> {
        Err(())
    }

    fn accepts(ty: &Type) -> (r: bool) {
        match ty.kind() {
            Kind::Simple => ty.oid() == OID_INT4,
            _ => false,
        }
    }

    fn from_sql(ty: &Type, raw: &[u8]) -> (r: Result<i32, Fault>) {
        if raw.len() == 4 {
            let v = read_be_u32(raw, 0);
            proof {
                assert(raw@.subrange(0, 4) =~= raw@);
            }
            Ok(v as i32)
        } else {
            Err(Fault::new("invalid message length: four bytes expected".to_owned()))
        }
    }

    fn from_sql_null(ty: &Type) -> (r: Result<i32, Fault>) {
        Err(Fault::new("a Postgres value was `NULL`".to_owned()))
    }
}

impl ToSql for i32 {
    open spec fn accepts_spec(ty: Type) -> bool {
        ty.spec_kind() is Simple && ty.spec_oid() == OID_INT4
    }

    open spec fn encoded(m: i32, ty: Type) -> Result<(IsNull, Seq<u8>), ()> {
        Ok((IsNull::No, be_bytes_u32(m as u32)))
    }

    fn accepts(ty: &Type) -> (r: bool) {
        match ty.kind() {
            Kind::Simple => ty.oid() == OID_INT4,
            _ => false,
        }
    }

    fn to_sql(&self, ty: &Type, out: &mut bytes::BytesMut) -> (r: Result<IsNull, Fault>) {
        let x = *self as u32;
        buf_put_u8(out, (x >> 24) as u8);
        buf_put_u8(out, (x >> 16) as u8);
        buf_put_u8(out, (x >> 8) as u8);
        buf_put_u8(out, x as u8);
        proof {
            assert(buf_bytes(*final(out)) =~= buf_bytes(*old(out)) + be_bytes_u32(*self as u32));
        }
        Ok(IsNull::No)
    }
}

// --- Text ------------------------------------------------------------------

/// Whether a wire type is one of the simple text types.
pub open spec fn is_text_type(ty: Type) -> bool {
    ty.spec_kind() is Simple && (ty.spec_oid() == OID_TEXT || ty.spec_oid() == OID_VARCHAR)
}

/// Relies on std's str::from_utf8: accepts exactly valid UTF-8 and yields the
/// characters it encodes.
#[verifier::external_body]
pub(crate) fn utf8_to_string(raw: &[u8]) -> (r: Option<String>)
    ensures
        match r {
            Some(s) => valid_utf8(raw@) && s@ == decode_utf8(raw@),
            None => !valid_utf8(raw@),
        },
{
    match std::str::from_utf8(raw) {
        Ok(s) => Some(s.to_string()),
        Err(_) => None,
    }
}

impl SqlValue for String {
    type Model = Seq<char>;

    open spec fn model(self) -> Seq<char> {
        self@
    }
}

impl FromSql for String {
    open spec fn accepts_spec(ty: Type) -> bool {
        is_text_type(ty)
    }

    open spec fn decoded(ty: Type, raw: Seq<u8>) -> Result<Seq<char>, ()> {
        if valid_utf8(raw) {
            Ok(decode_utf8(raw))
        } else {
            Err(())
        }
    }

    open spec fn decoded_null(ty: Type) -> Result<Seq<char>, ()> {
        Err(())
    }

    fn accepts(ty: &Type) -> (r: bool) {
        match ty.kind() {
            Kind::Simple => ty.oid() == OID_TEXT || ty.oid() == OID_VARCHAR,
            _ => false,
        }
    }

    fn from_sql(ty: &Type, raw: &[u8]) -> (r: Result<String, Fault>) {
        match utf8_to_string(raw) {
            Some(s) => Ok(s),
            None => Err(Fault::new("invalid UTF-8 in text value".to_owned())),
        }
    }

    fn from_sql_null(ty: &Type) -> (r: Result<String, Fault>) {
        Err(Fault::new("a Postgres value was `NULL`".to_owned()))
    }
}

impl ToSql for String {
    open spec fn accepts_spec(ty: Type) -> bool {
        is_text_type(ty)
    }

    open spec fn encoded(m: Seq<char>, ty: Type) -> Result<(IsNull, Seq<u8>), ()> {
        Ok((IsNull::No, encode_utf8(m)))
    }

    fn accepts(ty: &Type) -> (r: bool) {
        match ty.kind() {
            Kind::Simple => ty.oid() == OID_TEXT || ty.oid() == OID_VARCHAR,
            _ => false,
        }
    }

    fn to_sql(&self, ty: &Type, out: &mut bytes::BytesMut) -> (r: Result<IsNull, Fault>) {
        buf_extend(out, self.as_str().as_bytes());
        Ok(IsNull::No)
    }
}

// --- Optional values -------------------------------------------------------

impl<T: SqlValue> SqlValue for Option<T> {
    type Model = Option<T::Model>;

    open spec fn model(self) -> Option<T::Model> {
        match self {
            Some(v) => Some(v.model()),
            None => None,
        }
    }
}

impl<T: FromSql> FromSql for Option<T> {
    open spec fn accepts_spec(ty: Type) -> bool {
        <T as FromSql>::accepts_spec(ty)
    }

    open spec fn decoded(ty: Type, raw: Seq<u8>) -> Result<Option<T::Model>, ()> {
        match <T as FromSql>::decoded(ty, raw) {
            Ok(m) => Ok(Some(m)),
            Err(e) => Err(e),
        }
    }

    open spec fn decoded_null(ty: Type) -> Result<Option<T::Model>, ()> {
        Ok(None)
    }

    fn accepts(ty: &Type) -> (r: bool) {
        <T as FromSql>::accepts(ty)
    }

    fn from_sql(ty: &Type, raw: &[u8]) -> (r: Result<Option<T>, Fault>) {
        match <T as FromSql>::from_sql(ty, raw) {
            Ok(v) => Ok(Some(v)),
            Err(f) => Err(f),
        }
    }

    fn from_sql_null(ty: &Type) -> (r: Result<Option<T>, Fault>) {
        Ok(None)
    }
}

impl<T: ToSql> ToSql for Option<T> {
    open spec fn accepts_spec(ty: Type) -> bool {
        <T as ToSql>::accepts_spec(ty)
    }

    open spec fn encoded(m: Option<T::Model>, ty: Type) -> Result<(IsNull, Seq<u8>), ()> {
        match m {
            Some(v) => <T as ToSql>::encoded(v, ty),
            None => Ok((IsNull::Yes, Seq::<u8>::empty())),
        }
    }

    fn accepts(ty: &Type) -> (r: bool) {
        <T as ToSql>::accepts(ty)
    }

    fn to_sql(&self, ty: &Type, out: &mut bytes::BytesMut) -> (r: Result<IsNull, Fault>) {
        match self {
            Some(v) => v.to_sql(ty, out),
            None => {
                proof {
                    assert(buf_bytes(*out) =~= buf_bytes(*out) + Seq::<u8>::empty());
                }
                Ok(IsNull::Yes)
            },
        }
    }
}

// --- Round trips of the element codecs -------------------------------------

/// The integer codec round-trips: decoding what a value encodes to, over any
/// type it accepts, recovers the value.
pub proof fn lemma_i32_codec_round_trip(ty: Type)
    ensures
        forall|v: i32|
            #[trigger] <i32 as ToSql>::encoded(v, ty) matches Ok(p) ==> (p.0 is No ==> <i32 as FromSql>::decoded(
                ty,
                p.1,
            ) == Ok::<i32, ()>(v)),
        forall|v: i32|
            #[trigger] <i32 as ToSql>::encoded(v, ty) matches Ok(p) ==> (p.0 is Yes
                ==> <i32 as FromSql>::decoded_null(ty) == Ok::<i32, ()>(v)),
{
    assert forall|v: i32|
        (#[trigger] <i32 as ToSql>::encoded(v, ty) matches Ok(p) ==> (p.0 is No
            ==> <i32 as FromSql>::decoded(ty, p.1) == Ok::<i32, ()>(v))) by {
        crate::num::lemma_be_u32_round_trip(v as u32);
        assert(((v as u32) as i32) == v) by (bit_vector);
    }
}

/// The text codec round-trips: decoding the UTF-8 bytes a text encodes to,
/// over any type it accepts, recovers the text.
pub proof fn lemma_string_codec_round_trip(ty: Type)
    ensures
        forall|m: Seq<char>|
            #[trigger] <String as ToSql>::encoded(m, ty) matches Ok(p) ==> (p.0 is No
                ==> <String as FromSql>::decoded(ty, p.1) == Ok::<Seq<char>, ()>(m)),
        forall|m: Seq<char>|
            #[trigger] <String as ToSql>::encoded(m, ty) matches Ok(p) ==> (p.0 is Yes
                ==> <String as FromSql>::decoded_null(ty) == Ok::<Seq<char>, ()>(m)),
{
    assert forall|m: Seq<char>|
        (#[trigger] <String as ToSql>::encoded(m, ty) matches Ok(p) ==> (p.0 is No
            ==> <String as FromSql>::decoded(ty, p.1) == Ok::<Seq<char>, ()>(m))) by {
        vstd::utf8::encode_utf8_valid_utf8(m);
        vstd::utf8::encode_utf8_decode_utf8(m);
    }
}

/// The optional-value codec round-trips whenever its element codec does: an
/// absent value comes back from the null path and a present one from the
/// element's own decoding.
pub proof fn lemma_option_codec_round_trip<T: FromSql + ToSql>(ty: Type)
    requires
        forall|v: T::Model|
            #[trigger] <T as ToSql>::encoded(v, ty) matches Ok(p) ==> (p.0 is No
                ==> <T as FromSql>::decoded(ty, p.1) == Ok::<T::Model, ()>(v)),
        forall|v: T::Model|
            #[trigger] <T as ToSql>::encoded(v, ty) matches Ok(p) ==> (p.0 is Yes
                ==> <T as FromSql>::decoded_null(ty) == Ok::<T::Model, ()>(v)),
        <T as FromSql>::decoded_null(ty) is Err,
    ensures
        forall|m: Option<T::Model>|
            #[trigger] <Option<T> as ToSql>::encoded(m, ty) matches Ok(p) ==> (p.0 is No
                ==> <Option<T> as FromSql>::decoded(ty, p.1) == Ok::<Option<T::Model>, ()>(m)),
        forall|m: Option<T::Model>|
            #[trigger] <Option<T> as ToSql>::encoded(m, ty) matches Ok(p) ==> (p.0 is Yes
                ==> <Option<T> as FromSql>::decoded_null(ty) == Ok::<Option<T::Model>, ()>(m)),
{
    assert forall|m: Option<T::Model>|
        (#[trigger] <Option<T> as ToSql>::encoded(m, ty) matches Ok(p) ==> ((p.0 is No ==> <Option<
        T,
    > as FromSql>::decoded(ty, p.1) == Ok::<Option<T::Model>, ()>(m)) && (p.0 is Yes ==> <Option<
        T,
    > as FromSql>::decoded_null(ty) == Ok::<Option<T::Model>, ()>(m)))) by {
        if <Option<T> as ToSql>::encoded(m, ty) is Ok {
            match m {
                None => {},
                Some(v) => {
                    assert(<T as ToSql>::encoded(v, ty) == <Option<T> as ToSql>::encoded(m, ty));
                },
            }
        }
    }
}

} // verus!
